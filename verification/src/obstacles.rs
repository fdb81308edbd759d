use vstd::prelude::*;
use crate::state::{DynamicObstacle, IkState, Pose, Q4, StateModel, V3};

verus! {

/// The registry contents as a map from obstacle name to its latest pose.
///
/// Later entries win, which matches an upsert discipline; under the
/// well-formedness invariant the names are pairwise distinct, so the order
/// in which the map is assembled does not matter.
pub open spec fn obstacle_map<S>(obs: Seq<DynamicObstacle<S>>) -> Map<Seq<char>, Pose<S>>
    decreases obs.len(),
{
    if obs.len() == 0 {
        Map::empty()
    } else {
        obstacle_map(obs.drop_last()).insert(obs.last().name@, obs.last().pose)
    }
}

/// No two registry entries carry the same name.
pub open spec fn obstacle_names_unique<S>(obs: Seq<DynamicObstacle<S>>) -> bool {
    forall|k1: int, k2: int|
        0 <= k1 < k2 < obs.len() ==> (#[trigger] obs[k1]).name@ != (#[trigger] obs[k2]).name@
}

/// A name is a key of the registry map exactly when some entry carries it.
pub proof fn lemma_obstacle_map_contains<S>(obs: Seq<DynamicObstacle<S>>, n: Seq<char>)
    ensures
        obstacle_map(obs).contains_key(n) <==> exists|k: int|
            0 <= k < obs.len() && (#[trigger] obs[k]).name@ == n,
    decreases obs.len(),
{
    if obs.len() > 0 {
        lemma_obstacle_map_contains(obs.drop_last(), n);
        if obs.last().name@ == n {
            assert(obs[obs.len() - 1].name@ == n);
        } else {
            if exists|k: int| 0 <= k < obs.len() && (#[trigger] obs[k]).name@ == n {
                let k = choose|k: int| 0 <= k < obs.len() && (#[trigger] obs[k]).name@ == n;
                assert(obs.drop_last()[k].name@ == n);
            }
        }
    }
}

/// Replacing the entry that carries a name by a new entry with the same
/// name only re-points that name in the registry map.
pub proof fn lemma_obstacle_map_update<S>(obs: Seq<DynamicObstacle<S>>, k: int, e: DynamicObstacle<S>)
    requires
        obstacle_names_unique(obs),
        0 <= k < obs.len(),
        obs[k].name@ == e.name@,
    ensures
        obstacle_map(obs.update(k, e)) == obstacle_map(obs).insert(e.name@, e.pose),
    decreases obs.len(),
{
    let s2 = obs.update(k, e);
    if k == obs.len() - 1 {
        assert(s2.drop_last() =~= obs.drop_last());
        assert(obstacle_map(s2) =~= obstacle_map(obs).insert(e.name@, e.pose));
    } else {
        assert(s2.drop_last() =~= obs.drop_last().update(k, e));
        assert(obstacle_names_unique(obs.drop_last())) by {
            assert forall|k1: int, k2: int|
                0 <= k1 < k2 < obs.drop_last().len() implies (#[trigger] obs.drop_last()[k1]).name@
                != (#[trigger] obs.drop_last()[k2]).name@ by {
                assert(obs[k1].name@ != obs[k2].name@);
            }
        }
        lemma_obstacle_map_update(obs.drop_last(), k, e);
        assert(obs[k].name@ != obs[obs.len() - 1].name@);
        assert(obstacle_map(s2) =~= obstacle_map(obs).insert(e.name@, e.pose));
    }
}

impl<S: Copy> IkState<S> {
    /// Upsert one named dynamic obstacle: if an entry with the name exists
    /// its pose is overwritten in place, otherwise a new entry is appended.
    /// Either way the registry afterwards maps the name to exactly this
    /// pose, built from the position and the (x, y, z, w)-ordered
    /// orientation the caller supplies, and every other name keeps its
    /// pose.  Repeating the call with the same name never grows the
    /// registry.
    pub fn dynamic_obstacle_cb(&mut self, name: String, position: V3<S>, orientation: Q4<S>)
        requires
            old(self).wf(),
        ensures
            final(self).wf(),
            final(self)@ == (StateModel {
                obstacles: old(self)@.obstacles.insert(name@, (Pose { position, orientation })),
                ..old(self)@
            }),
            final(self).obstacles@.len() == if old(self)@.obstacles.contains_key(name@) {
                old(self).obstacles@.len()
            } else {
                old(self).obstacles@.len() + 1
            },
    {
        let ghost m0 = old(self)@;
        let pose = Pose { position, orientation };
        let n = self.obstacles.len();
        let mut k: usize = 0;
        while k < n
            invariant
                old(self).wf(),
                m0 == old(self)@,
                self == old(self),
                pose == (Pose { position, orientation }),
                n == self.obstacles@.len(),
                k <= n,
                forall|t: int| 0 <= t < k as int ==> (#[trigger] self.obstacles@[t]).name@ != name@,
            decreases n - k,
        {
            if self.obstacles[k].name == name {
                let e = DynamicObstacle { name, pose };
                proof {
                    lemma_obstacle_map_contains(old(self).obstacles@, e.name@);
                }
                self.obstacles[k] = e;
                proof {
                    lemma_obstacle_map_update(old(self).obstacles@, k as int, e);
                    assert forall|k1: int, k2: int|
                        0 <= k1 < k2 < self.obstacles@.len() implies (
                    #[trigger] self.obstacles@[k1]).name@ != (#[trigger] self.obstacles@[k2]).name@ by {
                        assert(old(self).obstacles@[k1].name@ != old(self).obstacles@[k2].name@);
                    }
                    assert(self@ =~= (StateModel {
                        obstacles: m0.obstacles.insert(e.name@, e.pose),
                        ..m0
                    }));
                }
                return ;
            }
            k = k + 1;
        }
        proof {
            lemma_obstacle_map_contains(self.obstacles@, name@);
        }
        let e = DynamicObstacle { name, pose };
        self.obstacles.push(e);
        proof {
            assert(self.obstacles@.drop_last() =~= old(self).obstacles@);
            assert(self@ =~= (StateModel {
                obstacles: m0.obstacles.insert(e.name@, e.pose),
                ..m0
            }));
        }
    }
}

/// Upserting the same name twice keeps exactly one entry under that name,
/// holding the latest pose; the set of registered names grows by at most
/// that one name.
pub proof fn lemma_obstacle_upsert_latest<S>(
    obstacles: Map<Seq<char>, Pose<S>>,
    name: Seq<char>,
    first: Pose<S>,
    second: Pose<S>,
)
    ensures
        obstacles.insert(name, first).insert(name, second) == obstacles.insert(name, second),
        obstacles.insert(name, first).insert(name, second).dom() == obstacles.dom().insert(name),
        obstacles.insert(name, first).insert(name, second)[name] == second,
{
    assert(obstacles.insert(name, first).insert(name, second) =~= obstacles.insert(name, second));
    assert(obstacles.insert(name, first).insert(name, second).dom() =~= obstacles.dom().insert(
        name,
    ));
}

} // verus!
