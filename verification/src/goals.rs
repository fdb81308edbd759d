use vstd::prelude::*;
use crate::chains::{count_active, lemma_count_active_bounds, lemma_count_active_strict};
use crate::state::{IkState, Q4, StateModel, T6, V3};

verus! {

/// Which boundary buffer failed its exact-length validation.
#[derive(Clone, Copy, PartialEq, Eq, Structural, Debug)]
pub enum BufferKind {
    Positions,
    Orientations,
    Rotations,
    Tolerances,
    WeightPriors,
}

/// A buffer length did not match the exact expected length; carries the
/// numbers a caller needs for an actionable message.
#[derive(Clone, Copy, PartialEq, Eq, Structural, Debug)]
pub struct BufferSizeError {
    pub kind: BufferKind,
    pub expected: usize,
    pub actual: usize,
}

/// The final values to store for one active chain.
#[derive(Clone, Copy, PartialEq, Debug)]
pub struct ChainGoal<S> {
    /// Full chain index (not the active-slot number).
    pub chain: usize,
    pub position: V3<S>,
    pub orientation: Q4<S>,
    pub tolerance: T6<S>,
}

/// One active chain's incremental update, paired with the current goal it
/// is to be integrated against: the new position is the old position plus
/// the delta, and the new orientation composes the axis-angle delta on the
/// left of the old orientation.
#[derive(Clone, Copy, PartialEq, Debug)]
pub struct VelocityGoal<S> {
    /// Full chain index (not the active-slot number).
    pub chain: usize,
    /// The chain's current goal position, the base of the accumulation.
    pub position: V3<S>,
    /// Translation to add to `position`.
    pub position_delta: V3<S>,
    /// The chain's current goal orientation.
    pub orientation: Q4<S>,
    /// Scaled-axis rotation to compose on the left of `orientation`.
    pub rotation_delta: V3<S>,
    /// Replacement tolerance (not accumulated).
    pub tolerance: T6<S>,
}

/// The update's entries are exactly the active chains, in order of
/// increasing chain index: entry `k` names the chain whose active-slot
/// number is `k`.
pub open spec fn goal_targets<S>(update: Seq<ChainGoal<S>>, active: Seq<bool>) -> bool {
    &&& update.len() == count_active(active, active.len() as int)
    &&& forall|k: int|
        0 <= k < update.len() ==> {
            let c = (#[trigger] update[k]).chain as int;
            &&& 0 <= c < active.len()
            &&& active[c]
            &&& count_active(active, c) == k
        }
}

/// Same alignment condition for incremental updates.
pub open spec fn velocity_targets<S>(update: Seq<VelocityGoal<S>>, active: Seq<bool>) -> bool {
    &&& update.len() == count_active(active, active.len() as int)
    &&& forall|k: int|
        0 <= k < update.len() ==> {
            let c = (#[trigger] update[k]).chain as int;
            &&& 0 <= c < active.len()
            &&& active[c]
            &&& count_active(active, c) == k
        }
}

/// Entry `k` carries exactly the `k`-th slices of the flat absolute-goal
/// buffers: three position scalars, four quaternion components in
/// (x, y, z, w) order, six tolerance scalars.
pub open spec fn packed_position_goals<S>(
    update: Seq<ChainGoal<S>>,
    pos: Seq<S>,
    quat: Seq<S>,
    tol: Seq<S>,
) -> bool {
    forall|k: int|
        0 <= k < update.len() ==> {
            let g = #[trigger] update[k];
            &&& g.position == (V3 { x: pos[3 * k], y: pos[3 * k + 1], z: pos[3 * k + 2] })
            &&& g.orientation == (Q4 {
                x: quat[4 * k],
                y: quat[4 * k + 1],
                z: quat[4 * k + 2],
                w: quat[4 * k + 3],
            })
            &&& g.tolerance == (T6 {
                px: tol[6 * k],
                py: tol[6 * k + 1],
                pz: tol[6 * k + 2],
                rx: tol[6 * k + 3],
                ry: tol[6 * k + 4],
                rz: tol[6 * k + 5],
            })
        }
}

/// Entry `k` pairs the current goal of the `k`-th active chain with the
/// `k`-th slices of the flat delta buffers: three position-delta scalars,
/// three scaled-axis rotation scalars, six tolerance scalars.
pub open spec fn packed_velocity_goals<S>(
    update: Seq<VelocityGoal<S>>,
    m: StateModel<S>,
    pos: Seq<S>,
    rot: Seq<S>,
    tol: Seq<S>,
) -> bool {
    forall|k: int|
        0 <= k < update.len() ==> {
            let g = #[trigger] update[k];
            &&& g.position == m.goal_positions[g.chain as int]
            &&& g.orientation == m.goal_quats[g.chain as int]
            &&& g.position_delta == (V3 { x: pos[3 * k], y: pos[3 * k + 1], z: pos[3 * k + 2] })
            &&& g.rotation_delta == (V3 { x: rot[3 * k], y: rot[3 * k + 1], z: rot[3 * k + 2] })
            &&& g.tolerance == (T6 {
                px: tol[6 * k],
                py: tol[6 * k + 1],
                pz: tol[6 * k + 2],
                rx: tol[6 * k + 3],
                ry: tol[6 * k + 4],
                rz: tol[6 * k + 5],
            })
        }
}

/// Full contract of absolute goal planning: success exactly when the three
/// buffers have lengths `(3A, 4A, 6A)` for `A` active chains, and then the
/// plan is the per-slot packing of the buffers; otherwise the error names
/// the first buffer (position, then orientation, then tolerance) whose
/// length is wrong, with the expected and actual lengths.
pub open spec fn solve_position_post<S>(
    m: StateModel<S>,
    pos: Seq<S>,
    quat: Seq<S>,
    tol: Seq<S>,
    r: Result<Vec<ChainGoal<S>>, BufferSizeError>,
) -> bool {
    let a = count_active(m.active, m.active.len() as int);
    match r {
        Ok(update) => {
            &&& pos.len() == 3 * a
            &&& quat.len() == 4 * a
            &&& tol.len() == 6 * a
            &&& goal_targets(update@, m.active)
            &&& packed_position_goals(update@, pos, quat, tol)
        },
        Err(e) => {
            if pos.len() != 3 * a {
                e == (BufferSizeError {
                    kind: BufferKind::Positions,
                    expected: (3 * a) as usize,
                    actual: pos.len() as usize,
                })
            } else if quat.len() != 4 * a {
                e == (BufferSizeError {
                    kind: BufferKind::Orientations,
                    expected: (4 * a) as usize,
                    actual: quat.len() as usize,
                })
            } else {
                &&& tol.len() != 6 * a
                &&& e == (BufferSizeError {
                    kind: BufferKind::Tolerances,
                    expected: (6 * a) as usize,
                    actual: tol.len() as usize,
                })
            }
        },
    }
}

/// Full contract of incremental goal planning: success exactly when the
/// buffers have lengths `(3A, 3A, 6A)`; the plan pairs each active chain's
/// current goal with its delta slices.  Errors report the first mismatch,
/// in buffer order (position deltas, rotation deltas, tolerances).
pub open spec fn solve_velocity_post<S>(
    m: StateModel<S>,
    pos: Seq<S>,
    rot: Seq<S>,
    tol: Seq<S>,
    r: Result<Vec<VelocityGoal<S>>, BufferSizeError>,
) -> bool {
    let a = count_active(m.active, m.active.len() as int);
    match r {
        Ok(update) => {
            &&& pos.len() == 3 * a
            &&& rot.len() == 3 * a
            &&& tol.len() == 6 * a
            &&& velocity_targets(update@, m.active)
            &&& packed_velocity_goals(update@, m, pos, rot, tol)
        },
        Err(e) => {
            if pos.len() != 3 * a {
                e == (BufferSizeError {
                    kind: BufferKind::Positions,
                    expected: (3 * a) as usize,
                    actual: pos.len() as usize,
                })
            } else if rot.len() != 3 * a {
                e == (BufferSizeError {
                    kind: BufferKind::Rotations,
                    expected: (3 * a) as usize,
                    actual: rot.len() as usize,
                })
            } else {
                &&& tol.len() != 6 * a
                &&& e == (BufferSizeError {
                    kind: BufferKind::Tolerances,
                    expected: (6 * a) as usize,
                    actual: tol.len() as usize,
                })
            }
        },
    }
}

/// The state after storing a goal update: every active chain's goal pose
/// and tolerance is replaced by its entry, every inactive chain is
/// untouched, and nothing else changes.
pub open spec fn apply_goals<S>(m: StateModel<S>, update: Seq<ChainGoal<S>>) -> StateModel<S> {
    StateModel {
        goal_positions: Seq::new(
            m.goal_positions.len(),
            |i: int|
                if m.active[i] {
                    update[count_active(m.active, i)].position
                } else {
                    m.goal_positions[i]
                },
        ),
        goal_quats: Seq::new(
            m.goal_quats.len(),
            |i: int|
                if m.active[i] {
                    update[count_active(m.active, i)].orientation
                } else {
                    m.goal_quats[i]
                },
        ),
        tolerances: Seq::new(
            m.tolerances.len(),
            |i: int|
                if m.active[i] {
                    update[count_active(m.active, i)].tolerance
                } else {
                    m.tolerances[i]
                },
        ),
        ..m
    }
}

/// A later goal update fully overwrites an earlier one: storing `u1` and
/// then `u2` leaves exactly the state that storing `u2` alone leaves.
///
/// This is the state half of velocity integration agreeing with absolute
/// goal setting: each incremental plan pairs a chain's current goal with
/// its delta (see [`solve_velocity_post`]), so after two incremental
/// rounds the goals carry the second round's integrated values — the same
/// values an absolute round with the accumulated sum stores.
pub proof fn lemma_apply_goals_overwrite<S>(
    m: StateModel<S>,
    u1: Seq<ChainGoal<S>>,
    u2: Seq<ChainGoal<S>>,
)
    ensures
        apply_goals(apply_goals(m, u1), u2) == apply_goals(m, u2),
{
    let m1 = apply_goals(m, u1);
    assert(apply_goals(m1, u2).goal_positions =~= apply_goals(m, u2).goal_positions);
    assert(apply_goals(m1, u2).goal_quats =~= apply_goals(m, u2).goal_quats);
    assert(apply_goals(m1, u2).tolerances =~= apply_goals(m, u2).tolerances);
    assert(apply_goals(m1, u2) =~= apply_goals(m, u2));
}

impl<S: Copy> IkState<S> {
    /// Plan an absolute goal update from flat boundary buffers.
    ///
    /// Validates every buffer length against the active-chain count before
    /// reading anything, then distributes the slices over the active chains
    /// in order of increasing chain index.  Nothing is mutated here; the
    /// caller normalizes each entry's orientation and stores the plan with
    /// [`IkState::apply_goal_update`] before triggering a solve.
    pub fn solve_position(
        &self,
        pos_goals: &Vec<S>,
        quat_goals: &Vec<S>,
        tolerance: &Vec<S>,
    ) -> (r: Result<Vec<ChainGoal<S>>, BufferSizeError>)
        requires
            self.wf(),
        ensures
            solve_position_post(self@, pos_goals@, quat_goals@, tolerance@, r),
    {
        let nc = self.is_active.len();
        let a = self.active_count();
        proof {
            lemma_count_active_bounds(self@.active, nc as int);
        }
        let expected = 3 * a;
        if pos_goals.len() != expected {
            return Err(BufferSizeError {
                kind: BufferKind::Positions,
                expected,
                actual: pos_goals.len(),
            });
        }
        let expected = 4 * a;
        if quat_goals.len() != expected {
            return Err(BufferSizeError {
                kind: BufferKind::Orientations,
                expected,
                actual: quat_goals.len(),
            });
        }
        let expected = 6 * a;
        if tolerance.len() != expected {
            return Err(BufferSizeError {
                kind: BufferKind::Tolerances,
                expected,
                actual: tolerance.len(),
            });
        }
        let mut update: Vec<ChainGoal<S>> = Vec::new();
        let mut j: usize = 0;
        let mut i: usize = 0;
        while i < nc
            invariant
                self.wf(),
                nc == self@.active.len(),
                i <= nc,
                j as int == count_active(self@.active, i as int),
                j <= i,
                pos_goals@.len() == 3 * count_active(self@.active, nc as int),
                quat_goals@.len() == 4 * count_active(self@.active, nc as int),
                tolerance@.len() == 6 * count_active(self@.active, nc as int),
                update@.len() == j as int,
                forall|k: int|
                    0 <= k < j as int ==> {
                        let c = (#[trigger] update@[k]).chain as int;
                        &&& 0 <= c < nc as int
                        &&& self@.active[c]
                        &&& count_active(self@.active, c) == k
                    },
                packed_position_goals(update@, pos_goals@, quat_goals@, tolerance@),
            decreases nc - i,
        {
            if self.is_active[i] {
                proof {
                    lemma_count_active_strict(self@.active, i as int, nc as int);
                }
                let g = ChainGoal {
                    chain: i,
                    position: V3 {
                        x: pos_goals[3 * j],
                        y: pos_goals[3 * j + 1],
                        z: pos_goals[3 * j + 2],
                    },
                    orientation: Q4 {
                        x: quat_goals[4 * j],
                        y: quat_goals[4 * j + 1],
                        z: quat_goals[4 * j + 2],
                        w: quat_goals[4 * j + 3],
                    },
                    tolerance: T6 {
                        px: tolerance[6 * j],
                        py: tolerance[6 * j + 1],
                        pz: tolerance[6 * j + 2],
                        rx: tolerance[6 * j + 3],
                        ry: tolerance[6 * j + 4],
                        rz: tolerance[6 * j + 5],
                    },
                };
                update.push(g);
                j = j + 1;
            }
            i = i + 1;
        }
        Ok(update)
    }

    /// Compatibility alias for [`IkState::solve_position`], with the same
    /// contract.
    pub fn solve(
        &self,
        pos_goals: &Vec<S>,
        quat_goals: &Vec<S>,
        tolerance: &Vec<S>,
    ) -> (r: Result<Vec<ChainGoal<S>>, BufferSizeError>)
        requires
            self.wf(),
        ensures
            solve_position_post(self@, pos_goals@, quat_goals@, tolerance@, r),
    {
        self.solve_position(pos_goals, quat_goals, tolerance)
    }

    /// Plan an incremental goal update from flat delta buffers.
    ///
    /// Validates every buffer length first, then pairs each active chain's
    /// current goal with its delta slices, in order of increasing chain
    /// index.  The caller performs the scalar arithmetic — position plus
    /// delta, axis-angle rotation composed on the left of the old
    /// orientation, tolerance replaced outright — and stores the results
    /// with [`IkState::apply_goal_update`] before triggering a solve.
    pub fn solve_velocity(
        &self,
        pos_vels: &Vec<S>,
        rot_vels: &Vec<S>,
        tolerance: &Vec<S>,
    ) -> (r: Result<Vec<VelocityGoal<S>>, BufferSizeError>)
        requires
            self.wf(),
        ensures
            solve_velocity_post(self@, pos_vels@, rot_vels@, tolerance@, r),
    {
        let nc = self.is_active.len();
        let a = self.active_count();
        proof {
            lemma_count_active_bounds(self@.active, nc as int);
        }
        let expected = 3 * a;
        if pos_vels.len() != expected {
            return Err(BufferSizeError {
                kind: BufferKind::Positions,
                expected,
                actual: pos_vels.len(),
            });
        }
        if rot_vels.len() != expected {
            return Err(BufferSizeError {
                kind: BufferKind::Rotations,
                expected,
                actual: rot_vels.len(),
            });
        }
        let expected = 6 * a;
        if tolerance.len() != expected {
            return Err(BufferSizeError {
                kind: BufferKind::Tolerances,
                expected,
                actual: tolerance.len(),
            });
        }
        let mut update: Vec<VelocityGoal<S>> = Vec::new();
        let mut j: usize = 0;
        let mut i: usize = 0;
        while i < nc
            invariant
                self.wf(),
                nc == self@.active.len(),
                i <= nc,
                j as int == count_active(self@.active, i as int),
                j <= i,
                pos_vels@.len() == 3 * count_active(self@.active, nc as int),
                rot_vels@.len() == 3 * count_active(self@.active, nc as int),
                tolerance@.len() == 6 * count_active(self@.active, nc as int),
                update@.len() == j as int,
                forall|k: int|
                    0 <= k < j as int ==> {
                        let c = (#[trigger] update@[k]).chain as int;
                        &&& 0 <= c < nc as int
                        &&& self@.active[c]
                        &&& count_active(self@.active, c) == k
                    },
                packed_velocity_goals(update@, self@, pos_vels@, rot_vels@, tolerance@),
            decreases nc - i,
        {
            if self.is_active[i] {
                proof {
                    lemma_count_active_strict(self@.active, i as int, nc as int);
                }
                let g = VelocityGoal {
                    chain: i,
                    position: self.goal_positions[i],
                    position_delta: V3 {
                        x: pos_vels[3 * j],
                        y: pos_vels[3 * j + 1],
                        z: pos_vels[3 * j + 2],
                    },
                    orientation: self.goal_quats[i],
                    rotation_delta: V3 {
                        x: rot_vels[3 * j],
                        y: rot_vels[3 * j + 1],
                        z: rot_vels[3 * j + 2],
                    },
                    tolerance: T6 {
                        px: tolerance[6 * j],
                        py: tolerance[6 * j + 1],
                        pz: tolerance[6 * j + 2],
                        rx: tolerance[6 * j + 3],
                        ry: tolerance[6 * j + 4],
                        rz: tolerance[6 * j + 5],
                    },
                };
                update.push(g);
                j = j + 1;
            }
            i = i + 1;
        }
        Ok(update)
    }

    /// Decide at run time whether a goal update lines up with the active
    /// chains — exactly the condition under which
    /// [`IkState::apply_goal_update`] may store it.  A plan returned by
    /// [`IkState::solve_position`] or rebuilt from one of
    /// [`IkState::solve_velocity`] with the chain indices kept passes this
    /// check; an unverified caller can use it to fail fast instead of
    /// storing a misaligned update.
    pub fn goal_update_targets_active(&self, update: &Vec<ChainGoal<S>>) -> (r: bool)
        requires
            self.wf(),
        ensures
            r == goal_targets(update@, self@.active),
    {
        let nc = self.is_active.len();
        let mut j: usize = 0;
        let mut i: usize = 0;
        while i < nc
            invariant
                self.wf(),
                nc == self@.active.len(),
                i <= nc,
                j as int == count_active(self@.active, i as int),
                j <= i,
                j <= update@.len(),
                forall|k: int|
                    0 <= k < j as int ==> {
                        let c = (#[trigger] update@[k]).chain as int;
                        &&& 0 <= c < i as int
                        &&& self@.active[c]
                        &&& count_active(self@.active, c) == k
                    },
            decreases nc - i,
        {
            if self.is_active[i] {
                if j >= update.len() {
                    proof {
                        if goal_targets(update@, self@.active) {
                            lemma_count_active_strict(self@.active, i as int, nc as int);
                        }
                    }
                    return false;
                }
                if update[j].chain != i {
                    proof {
                        if goal_targets(update@, self@.active) {
                            let c = update@[j as int].chain as int;
                            if c < i as int {
                                lemma_count_active_strict(self@.active, c, i as int);
                            } else {
                                lemma_count_active_strict(self@.active, i as int, c);
                            }
                        }
                    }
                    return false;
                }
                j = j + 1;
            }
            i = i + 1;
        }
        j == update.len()
    }

    /// Store a planned goal update: write each entry's pose and tolerance
    /// into its chain's slot.  Inactive chains, the weights, the obstacle
    /// registry and the tip offset are untouched.
    pub fn apply_goal_update(&mut self, update: &Vec<ChainGoal<S>>)
        requires
            old(self).wf(),
            goal_targets(update@, old(self)@.active),
        ensures
            final(self).wf(),
            final(self)@ == apply_goals(old(self)@, update@),
    {
        let ghost m0 = old(self)@;
        let n = update.len();
        let mut k: usize = 0;
        while k < n
            invariant
                old(self).wf(),
                goal_targets(update@, m0.active),
                m0 == old(self)@,
                n == update@.len(),
                k <= n,
                self.is_active == old(self).is_active,
                self.weight_names == old(self).weight_names,
                self.weight_priors == old(self).weight_priors,
                self.obstacles == old(self).obstacles,
                self.env_collision_tip_offset == old(self).env_collision_tip_offset,
                self.goal_positions@.len() == m0.goal_positions.len(),
                self.goal_quats@.len() == m0.goal_quats.len(),
                self.tolerances@.len() == m0.tolerances.len(),
                forall|i: int|
                    0 <= i < m0.active.len() ==> {
                        let c = #[trigger] count_active(m0.active, i);
                        if m0.active[i] && 0 <= c < k as int {
                            &&& self.goal_positions@[i] == update@[c].position
                            &&& self.goal_quats@[i] == update@[c].orientation
                            &&& self.tolerances@[i] == update@[c].tolerance
                        } else {
                            &&& self.goal_positions@[i] == m0.goal_positions[i]
                            &&& self.goal_quats@[i] == m0.goal_quats[i]
                            &&& self.tolerances@[i] == m0.tolerances[i]
                        }
                    },
            decreases n - k,
        {
            let g = update[k];
            let c = g.chain;
            self.goal_positions[c] = g.position;
            self.goal_quats[c] = g.orientation;
            self.tolerances[c] = g.tolerance;
            proof {
                assert forall|i: int|
                    0 <= i < m0.active.len() && m0.active[i] && count_active(m0.active, i)
                        == k as int implies i == c as int by {
                    if i < c as int {
                        lemma_count_active_strict(m0.active, i, c as int);
                    } else if i > c as int {
                        lemma_count_active_strict(m0.active, c as int, i);
                    }
                }
            }
            k = k + 1;
        }
        proof {
            let mf = apply_goals(m0, update@);
            assert forall|i: int| 0 <= i < m0.active.len() implies {
                &&& self.goal_positions@[i] == mf.goal_positions[i]
                &&& self.goal_quats@[i] == mf.goal_quats[i]
                &&& self.tolerances@[i] == mf.tolerances[i]
            } by {
                lemma_count_active_bounds(m0.active, i);
                if m0.active[i] {
                    lemma_count_active_strict(m0.active, i, m0.active.len() as int);
                }
            }
            assert(self@.goal_positions =~= mf.goal_positions);
            assert(self@.goal_quats =~= mf.goal_quats);
            assert(self@.tolerances =~= mf.tolerances);
            assert(self@ =~= mf);
        }
    }
}

} // verus!
