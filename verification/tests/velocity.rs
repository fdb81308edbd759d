use relaxed_ik_boundary::goals::{BufferKind, ChainGoal};
use relaxed_ik_boundary::state::{IkState, Q4, T6, V3};

fn v3(x: f64, y: f64, z: f64) -> V3<f64> {
    V3 { x, y, z }
}

fn q4(x: f64, y: f64, z: f64, w: f64) -> Q4<f64> {
    Q4 { x, y, z, w }
}

fn t6(a: f64) -> T6<f64> {
    T6 { px: a, py: a, pz: a, rx: a, ry: a, rz: a }
}

/// Two chains, both active.
fn two_active(p0: V3<f64>, p1: V3<f64>) -> IkState<f64> {
    match IkState::new(
        vec![true, true],
        vec![p0, p1],
        vec![q4(0.0, 0.0, 0.0, 1.0), q4(1.0, 0.0, 0.0, 0.0)],
        vec![t6(0.0), t6(0.0)],
        vec![String::from("match")],
        vec![5.0],
        0,
    ) {
        Ok(s) => s,
        Err(_) => panic!("valid configuration refused"),
    }
}

/// Integrate one round of position deltas the way the boundary driver
/// does: add each delta to the chain's current goal position, keep the
/// orientation (the rotation deltas are zero here), replace the tolerance.
fn integrate(s: &mut IkState<f64>, deltas: &Vec<f64>) {
    let zeros = vec![0.0; deltas.len()];
    let tol = vec![0.0; deltas.len() * 2];
    let plan = s.solve_velocity(deltas, &zeros, &tol).expect("exact lengths");
    let mut update: Vec<ChainGoal<f64>> = Vec::new();
    for g in plan {
        update.push(ChainGoal {
            chain: g.chain,
            position: v3(
                g.position.x + g.position_delta.x,
                g.position.y + g.position_delta.y,
                g.position.z + g.position_delta.z,
            ),
            orientation: g.orientation,
            tolerance: g.tolerance,
        });
    }
    s.apply_goal_update(&update);
}

#[test]
fn solve_velocity_pairs_current_goals_with_deltas() {
    let s = two_active(v3(1.0, 2.0, 3.0), v3(-1.0, -2.0, -3.0));
    let pos_vels = vec![0.1, 0.2, 0.3, 0.4, 0.5, 0.6];
    let rot_vels = vec![0.01, 0.02, 0.03, 0.04, 0.05, 0.06];
    let tol = vec![
        1.0, 2.0, 3.0, 4.0, 5.0, 6.0, 7.0, 8.0, 9.0, 10.0, 11.0, 12.0,
    ];
    let plan = s.solve_velocity(&pos_vels, &rot_vels, &tol).expect("exact lengths");
    assert_eq!(plan.len(), 2);
    assert_eq!(plan[0].chain, 0);
    assert_eq!(plan[1].chain, 1);
    assert_eq!(plan[0].position, v3(1.0, 2.0, 3.0));
    assert_eq!(plan[1].position, v3(-1.0, -2.0, -3.0));
    assert_eq!(plan[0].position_delta, v3(0.1, 0.2, 0.3));
    assert_eq!(plan[1].position_delta, v3(0.4, 0.5, 0.6));
    assert_eq!(plan[0].orientation, q4(0.0, 0.0, 0.0, 1.0));
    assert_eq!(plan[1].orientation, q4(1.0, 0.0, 0.0, 0.0));
    assert_eq!(plan[0].rotation_delta, v3(0.01, 0.02, 0.03));
    assert_eq!(plan[1].rotation_delta, v3(0.04, 0.05, 0.06));
    assert_eq!(plan[0].tolerance.px, 1.0);
    assert_eq!(plan[1].tolerance.rz, 12.0);
}

#[test]
fn solve_velocity_rejects_wrong_rotation_length() {
    let s = two_active(v3(0.0, 0.0, 0.0), v3(0.0, 0.0, 0.0));
    let e = s
        .solve_velocity(&vec![0.0; 6], &vec![0.0; 8], &vec![0.0; 12])
        .expect_err("rotation deltas are three per active chain");
    assert_eq!(e.kind, BufferKind::Rotations);
    assert_eq!(e.expected, 6);
    assert_eq!(e.actual, 8);
}

#[test]
fn solve_velocity_rejects_wrong_position_length() {
    let s = two_active(v3(0.0, 0.0, 0.0), v3(0.0, 0.0, 0.0));
    let e = s
        .solve_velocity(&vec![0.0; 7], &vec![0.0; 6], &vec![0.0; 12])
        .expect_err("position deltas are three per active chain");
    assert_eq!(e.kind, BufferKind::Positions);
    assert_eq!(e.expected, 6);
    assert_eq!(e.actual, 7);
}

#[test]
fn velocity_accumulation_matches_absolute_goal() {
    let p0 = v3(1.0, -2.0, 0.25);
    let p1 = v3(10.0, 20.0, 30.0);
    let d1 = vec![0.1, 0.2, 0.3, -0.1, -0.2, -0.3];
    let d2 = vec![0.01, 0.02, 0.03, -0.01, -0.02, -0.03];

    let mut incremental = two_active(p0, p1);
    integrate(&mut incremental, &d1);
    integrate(&mut incremental, &d2);

    let mut absolute = two_active(p0, p1);
    let goals = vec![
        ((p0.x + d1[0]) + d2[0]),
        ((p0.y + d1[1]) + d2[1]),
        ((p0.z + d1[2]) + d2[2]),
        ((p1.x + d1[3]) + d2[3]),
        ((p1.y + d1[4]) + d2[4]),
        ((p1.z + d1[5]) + d2[5]),
    ];
    let quat = vec![0.0, 0.0, 0.0, 1.0, 1.0, 0.0, 0.0, 0.0];
    let tol = vec![0.0; 12];
    let plan = absolute.solve_position(&goals, &quat, &tol).expect("exact lengths");
    absolute.apply_goal_update(&plan);

    assert_eq!(incremental.goal_positions[0], absolute.goal_positions[0]);
    assert_eq!(incremental.goal_positions[1], absolute.goal_positions[1]);
}
