use vstd::prelude::*;
use crate::goals::{BufferKind, BufferSizeError};
use crate::state::{IkState, StateModel};

verus! {

impl<S: Copy> IkState<S> {
    /// Snapshot of the per-objective weight priors, index-aligned with the
    /// weight names.
    pub fn get_objective_weight_priors(&self) -> (r: Vec<S>)
        ensures
            r@ == self@.weight_priors,
    {
        let mut out: Vec<S> = Vec::new();
        let mut i: usize = 0;
        while i < self.weight_priors.len()
            invariant
                i <= self.weight_priors@.len(),
                out@.len() == i as int,
                forall|t: int| 0 <= t < i as int ==> out@[t] == self.weight_priors@[t],
            decreases self.weight_priors@.len() - i,
        {
            out.push(self.weight_priors[i]);
            i = i + 1;
        }
        proof {
            assert(out@ =~= self@.weight_priors);
        }
        out
    }

    /// Snapshot of the objective weight names, index-aligned with the
    /// priors.
    pub fn get_objective_weight_names(&self) -> (r: Vec<String>)
        ensures
            r.deep_view() == self@.weight_names,
            r@.len() == self@.weight_names.len(),
    {
        let mut out: Vec<String> = Vec::new();
        let mut i: usize = 0;
        while i < self.weight_names.len()
            invariant
                i <= self.weight_names@.len(),
                out@.len() == i as int,
                forall|t: int| 0 <= t < i as int ==> out@[t] == self.weight_names@[t],
            decreases self.weight_names@.len() - i,
        {
            let name = self.weight_names[i].clone();
            out.push(name);
            i = i + 1;
        }
        proof {
            assert(out.deep_view() =~= self@.weight_names);
        }
        out
    }

    /// Overwrite the weight priors in place, index by index.  The new
    /// vector must have exactly the current weight count, so the priors
    /// stay aligned with the weight names; on a mismatch nothing changes
    /// and the error carries the expected and actual lengths.
    pub fn set_objective_weight_priors(&mut self, weights: &Vec<S>) -> (r: Result<(), BufferSizeError>)
        requires
            old(self).wf(),
        ensures
            final(self).wf(),
            match r {
                Ok(()) => {
                    &&& weights@.len() == old(self)@.weight_priors.len()
                    &&& final(self)@ == (StateModel { weight_priors: weights@, ..old(self)@ })
                },
                Err(e) => {
                    &&& weights@.len() != old(self)@.weight_priors.len()
                    &&& final(self)@ == old(self)@
                    &&& e == (BufferSizeError {
                        kind: BufferKind::WeightPriors,
                        expected: old(self)@.weight_priors.len() as usize,
                        actual: weights@.len() as usize,
                    })
                },
            },
    {
        let ghost m0 = old(self)@;
        let n = self.weight_priors.len();
        if weights.len() != n {
            return Err(BufferSizeError {
                kind: BufferKind::WeightPriors,
                expected: n,
                actual: weights.len(),
            });
        }
        let mut i: usize = 0;
        while i < n
            invariant
                m0 == old(self)@,
                n == self.weight_priors@.len(),
                n == weights@.len(),
                i <= n,
                self.is_active == old(self).is_active,
                self.goal_positions == old(self).goal_positions,
                self.goal_quats == old(self).goal_quats,
                self.tolerances == old(self).tolerances,
                self.weight_names == old(self).weight_names,
                self.obstacles == old(self).obstacles,
                self.env_collision_tip_offset == old(self).env_collision_tip_offset,
                forall|t: int|
                    0 <= t < n as int ==> self.weight_priors@[t] == if t < i as int {
                        weights@[t]
                    } else {
                        m0.weight_priors[t]
                    },
            decreases n - i,
        {
            self.weight_priors[i] = weights[i];
            i = i + 1;
        }
        proof {
            assert(self.weight_priors@ =~= weights@);
            assert(self@ =~= (StateModel { weight_priors: weights@, ..m0 }));
        }
        Ok(())
    }

    /// Configure how many trailing links nearest the end-effector are
    /// excluded from environment-collision checks.
    pub fn set_env_collision_tip_offset(&mut self, offset: usize)
        requires
            old(self).wf(),
        ensures
            final(self).wf(),
            final(self)@ == (StateModel { env_collision_tip_offset: offset, ..old(self)@ }),
    {
        self.env_collision_tip_offset = offset;
        proof {
            assert(self@ =~= (StateModel { env_collision_tip_offset: offset, ..old(self)@ }));
        }
    }
}

/// Reading the weight priors and writing the very same sequence back is a
/// no-op on the whole state.
pub proof fn lemma_weight_priors_roundtrip<S>(m: StateModel<S>)
    ensures
        (StateModel { weight_priors: m.weight_priors, ..m }) == m,
{
    assert((StateModel { weight_priors: m.weight_priors, ..m }) =~= m);
}

/// In every well-formed state the weight names and the weight priors have
/// the same length; every mutating operation ensures well-formedness, so
/// the parity survives every call.
pub proof fn lemma_weight_parity<S>(s: &IkState<S>)
    requires
        s.wf(),
    ensures
        s@.weight_names.len() == s@.weight_priors.len(),
{
}

} // verus!
