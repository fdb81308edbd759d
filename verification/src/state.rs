use vstd::prelude::*;
use vstd::string::StringExecFns;
use crate::obstacles::{obstacle_map, obstacle_names_unique};

verus! {

/// Where construction looks for its settings file when the caller passes
/// no explicit configuration path: a fixed location relative to the
/// installation root.
pub fn default_settings_path(path_to_src: &str) -> (r: String)
    ensures
        r@ == path_to_src@ + "configs/settings.yaml"@,
{
    let root = String::from_str(path_to_src);
    root.concat("configs/settings.yaml")
}

/// A 3-vector of boundary scalars, in (x, y, z) order.
#[derive(Clone, Copy, PartialEq, Debug)]
pub struct V3<S> {
    pub x: S,
    pub y: S,
    pub z: S,
}

/// Quaternion components in boundary order (x, y, z, w).
///
/// The scalar type is opaque here; whoever produces a `Q4` destined for a
/// goal orientation is responsible for handing over unit-length components.
#[derive(Clone, Copy, PartialEq, Debug)]
pub struct Q4<S> {
    pub x: S,
    pub y: S,
    pub z: S,
    pub w: S,
}

/// Per-chain slack: three position components then three orientation
/// components.
#[derive(Clone, Copy, PartialEq, Debug)]
pub struct T6<S> {
    pub px: S,
    pub py: S,
    pub pz: S,
    pub rx: S,
    pub ry: S,
    pub rz: S,
}

/// A rigid pose: a position and an orientation quaternion.
#[derive(Clone, Copy, PartialEq, Debug)]
pub struct Pose<S> {
    pub position: V3<S>,
    pub orientation: Q4<S>,
}

/// One named dynamic obstacle and its latest pose.
#[derive(Clone, PartialEq, Debug)]
pub struct DynamicObstacle<S> {
    pub name: String,
    pub pose: Pose<S>,
}

/// Mathematical model of the boundary-facing solver state.
#[verifier::ext_equal]
pub ghost struct StateModel<S> {
    pub active: Seq<bool>,
    pub goal_positions: Seq<V3<S>>,
    pub goal_quats: Seq<Q4<S>>,
    pub tolerances: Seq<T6<S>>,
    pub weight_names: Seq<Seq<char>>,
    pub weight_priors: Seq<S>,
    pub obstacles: Map<Seq<char>, Pose<S>>,
    pub env_collision_tip_offset: usize,
}

/// The structured state that the boundary buffers are translated into:
/// per-chain goal poses and tolerances, the fixed active-chain mask, the
/// named objective weights, the dynamic-obstacle registry, and the
/// environment-collision tip offset.
///
/// The scalar type `S` is deliberately generic: the state only routes
/// scalars between buffers and slots, and all scalar arithmetic (quaternion
/// normalization, axis-angle composition, vector addition) is performed by
/// the caller between planning and applying a goal update.
pub struct IkState<S> {
    pub is_active: Vec<bool>,
    pub goal_positions: Vec<V3<S>>,
    pub goal_quats: Vec<Q4<S>>,
    pub tolerances: Vec<T6<S>>,
    pub weight_names: Vec<String>,
    pub weight_priors: Vec<S>,
    pub obstacles: Vec<DynamicObstacle<S>>,
    pub env_collision_tip_offset: usize,
}

impl<S> View for IkState<S> {
    type V = StateModel<S>;

    open spec fn view(&self) -> StateModel<S> {
        StateModel {
            active: self.is_active@,
            goal_positions: self.goal_positions@,
            goal_quats: self.goal_quats@,
            tolerances: self.tolerances@,
            weight_names: self.weight_names.deep_view(),
            weight_priors: self.weight_priors@,
            obstacles: obstacle_map(self.obstacles@),
            env_collision_tip_offset: self.env_collision_tip_offset,
        }
    }
}

/// A malformed configuration: the per-chain vectors do not agree with the
/// chain count, the weight vectors are not parallel, or the chain count is
/// too large for buffer sizes to be representable.
#[derive(Clone, Copy, PartialEq, Eq, Structural, Debug)]
pub enum ConfigError {
    TooManyChains { chains: usize },
    PositionCountMismatch { expected: usize, actual: usize },
    OrientationCountMismatch { expected: usize, actual: usize },
    ToleranceCountMismatch { expected: usize, actual: usize },
    WeightParityMismatch { names: usize, priors: usize },
}

impl<S> IkState<S> {
    /// Well-formedness: one goal pose and one tolerance per chain, weight
    /// names and priors parallel, obstacle names distinct, and small enough
    /// a chain count that every expected buffer length fits in `usize`.
    pub open spec fn wf(&self) -> bool {
        &&& self.goal_positions@.len() == self.is_active@.len()
        &&& self.goal_quats@.len() == self.is_active@.len()
        &&& self.tolerances@.len() == self.is_active@.len()
        &&& self.weight_names@.len() == self.weight_priors@.len()
        &&& 6 * (self.is_active@.len() as int) <= usize::MAX as int
        &&& obstacle_names_unique(self.obstacles@)
    }
}

impl<S: Copy> IkState<S> {
    /// Build the state from already-loaded configuration values, validating
    /// every cross-vector length before anything is stored.  The obstacle
    /// registry starts empty.
    pub fn new(
        is_active: Vec<bool>,
        goal_positions: Vec<V3<S>>,
        goal_quats: Vec<Q4<S>>,
        tolerances: Vec<T6<S>>,
        weight_names: Vec<String>,
        weight_priors: Vec<S>,
        env_collision_tip_offset: usize,
    ) -> (r: Result<IkState<S>, ConfigError>)
        ensures
            match r {
                Ok(s) => {
                    &&& s.wf()
                    &&& s@ == (StateModel {
                        active: is_active@,
                        goal_positions: goal_positions@,
                        goal_quats: goal_quats@,
                        tolerances: tolerances@,
                        weight_names: weight_names.deep_view(),
                        weight_priors: weight_priors@,
                        obstacles: Map::<Seq<char>, Pose<S>>::empty(),
                        env_collision_tip_offset: env_collision_tip_offset,
                    })
                },
                Err(e) => {
                    let nc = is_active@.len();
                    if 6 * (nc as int) > usize::MAX as int {
                        e == (ConfigError::TooManyChains { chains: nc as usize })
                    } else if goal_positions@.len() != nc {
                        e == (ConfigError::PositionCountMismatch {
                            expected: nc as usize,
                            actual: goal_positions@.len() as usize,
                        })
                    } else if goal_quats@.len() != nc {
                        e == (ConfigError::OrientationCountMismatch {
                            expected: nc as usize,
                            actual: goal_quats@.len() as usize,
                        })
                    } else if tolerances@.len() != nc {
                        e == (ConfigError::ToleranceCountMismatch {
                            expected: nc as usize,
                            actual: tolerances@.len() as usize,
                        })
                    } else {
                        &&& weight_names@.len() != weight_priors@.len()
                        &&& e == (ConfigError::WeightParityMismatch {
                            names: weight_names@.len() as usize,
                            priors: weight_priors@.len() as usize,
                        })
                    }
                },
            },
    {
        let nc = is_active.len();
        if nc.checked_mul(6).is_none() {
            return Err(ConfigError::TooManyChains { chains: nc });
        }
        if goal_positions.len() != nc {
            return Err(ConfigError::PositionCountMismatch {
                expected: nc,
                actual: goal_positions.len(),
            });
        }
        if goal_quats.len() != nc {
            return Err(ConfigError::OrientationCountMismatch {
                expected: nc,
                actual: goal_quats.len(),
            });
        }
        if tolerances.len() != nc {
            return Err(ConfigError::ToleranceCountMismatch {
                expected: nc,
                actual: tolerances.len(),
            });
        }
        if weight_names.len() != weight_priors.len() {
            return Err(ConfigError::WeightParityMismatch {
                names: weight_names.len(),
                priors: weight_priors.len(),
            });
        }
        let s = IkState {
            is_active,
            goal_positions,
            goal_quats,
            tolerances,
            weight_names,
            weight_priors,
            obstacles: Vec::new(),
            env_collision_tip_offset,
        };
        proof {
            assert(obstacle_map(s.obstacles@) =~= Map::<Seq<char>, Pose<S>>::empty());
        }
        Ok(s)
    }

    /// Number of active chains, the `A` against which every goal buffer
    /// length is validated.
    pub fn active_count(&self) -> (r: usize)
        ensures
            r as int == crate::chains::count_active(self@.active, self@.active.len() as int),
            r as int <= self.is_active@.len() as int,
    {
        let mut c: usize = 0;
        let mut i: usize = 0;
        while i < self.is_active.len()
            invariant
                i <= self.is_active@.len(),
                c <= i,
                c as int == crate::chains::count_active(self.is_active@, i as int),
            decreases self.is_active@.len() - i,
        {
            if self.is_active[i] {
                c = c + 1;
            }
            i = i + 1;
        }
        c
    }

    /// Flatten the per-chain goal positions, three scalars per chain, for
    /// every chain in index order.
    pub fn get_ee_positions(&self) -> (r: Vec<S>)
        requires
            self.wf(),
        ensures
            r@.len() == 3 * self@.goal_positions.len(),
            forall|i: int|
                0 <= i < self@.goal_positions.len() ==> {
                    &&& r@[3 * i] == (#[trigger] self@.goal_positions[i]).x
                    &&& r@[3 * i + 1] == self@.goal_positions[i].y
                    &&& r@[3 * i + 2] == self@.goal_positions[i].z
                },
    {
        let mut out: Vec<S> = Vec::new();
        let mut i: usize = 0;
        while i < self.goal_positions.len()
            invariant
                self.wf(),
                i <= self@.goal_positions.len(),
                out@.len() == 3 * i,
                forall|t: int|
                    0 <= t < i ==> {
                        &&& out@[3 * t] == (#[trigger] self@.goal_positions[t]).x
                        &&& out@[3 * t + 1] == self@.goal_positions[t].y
                        &&& out@[3 * t + 2] == self@.goal_positions[t].z
                    },
            decreases self@.goal_positions.len() - i,
        {
            let p = self.goal_positions[i];
            out.push(p.x);
            out.push(p.y);
            out.push(p.z);
            i = i + 1;
        }
        out
    }
}

} // verus!
