use relaxed_ik_boundary::goals::BufferKind;
use relaxed_ik_boundary::state::{IkState, Q4, T6, V3};

fn one_chain() -> IkState<f64> {
    match IkState::new(
        vec![true],
        vec![V3 { x: 0.0, y: 0.0, z: 0.0 }],
        vec![Q4 { x: 0.0, y: 0.0, z: 0.0, w: 1.0 }],
        vec![T6 { px: 0.0, py: 0.0, pz: 0.0, rx: 0.0, ry: 0.0, rz: 0.0 }],
        vec![
            String::from("eepos"),
            String::from("eequat"),
            String::from("minvel"),
        ],
        vec![50.0, 40.0, 0.1],
        0,
    ) {
        Ok(s) => s,
        Err(_) => panic!("valid configuration refused"),
    }
}

#[test]
fn weight_priors_roundtrip() {
    let mut s = one_chain();
    let before = s.get_objective_weight_priors();
    s.set_objective_weight_priors(&before)
        .expect("writing the snapshot back has the right length");
    let after = s.get_objective_weight_priors();
    assert_eq!(before, after);
    assert_eq!(after, vec![50.0, 40.0, 0.1]);
}

#[test]
fn set_weight_priors_overwrites_in_place() {
    let mut s = one_chain();
    s.set_objective_weight_priors(&vec![1.5, 2.5, 3.5])
        .expect("three weights for three objectives");
    assert_eq!(s.get_objective_weight_priors(), vec![1.5, 2.5, 3.5]);
    assert_eq!(
        s.get_objective_weight_names(),
        vec![
            String::from("eepos"),
            String::from("eequat"),
            String::from("minvel"),
        ]
    );
}

#[test]
fn set_weight_priors_rejects_length_mismatch() {
    let mut s = one_chain();
    let e = s
        .set_objective_weight_priors(&vec![1.0, 2.0])
        .expect_err("two weights for three objectives");
    assert_eq!(e.kind, BufferKind::WeightPriors);
    assert_eq!(e.expected, 3);
    assert_eq!(e.actual, 2);
    assert_eq!(s.get_objective_weight_priors(), vec![50.0, 40.0, 0.1]);
}

#[test]
fn weight_parity_survives_every_mutating_call() {
    let mut s = one_chain();
    assert_eq!(
        s.get_objective_weight_names().len(),
        s.get_objective_weight_priors().len()
    );

    s.set_objective_weight_priors(&vec![9.0, 8.0, 7.0]).expect("right length");
    assert_eq!(
        s.get_objective_weight_names().len(),
        s.get_objective_weight_priors().len()
    );

    s.dynamic_obstacle_cb(
        String::from("crate"),
        V3 { x: 1.0, y: 1.0, z: 1.0 },
        Q4 { x: 0.0, y: 0.0, z: 0.0, w: 1.0 },
    );
    assert_eq!(
        s.get_objective_weight_names().len(),
        s.get_objective_weight_priors().len()
    );

    s.set_env_collision_tip_offset(2);
    assert_eq!(
        s.get_objective_weight_names().len(),
        s.get_objective_weight_priors().len()
    );

    let plan = s
        .solve_position(&vec![1.0, 2.0, 3.0], &vec![0.0, 0.0, 0.0, 1.0], &vec![0.0; 6])
        .expect("exact lengths");
    s.apply_goal_update(&plan);
    assert_eq!(
        s.get_objective_weight_names().len(),
        s.get_objective_weight_priors().len()
    );
}

#[test]
fn set_env_collision_tip_offset_stores_the_offset() {
    let mut s = one_chain();
    s.set_env_collision_tip_offset(4);
    assert_eq!(s.env_collision_tip_offset, 4);
    s.set_env_collision_tip_offset(0);
    assert_eq!(s.env_collision_tip_offset, 0);
}
