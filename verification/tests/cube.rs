use rubiks_cube::color::{render_rgb, Color, Direction};
use rubiks_cube::cube::RubiksCube;
use rubiks_cube::cubie::Cubie;
use rubiks_cube::engine::RotationState;
use rubiks_cube::grid::{select_layer, CubeGrid};
use rubiks_cube::{Axis, CubeError, Spin};

const ALL_DIRECTIONS: [Direction; 6] = [
    Direction::PosX,
    Direction::NegX,
    Direction::PosY,
    Direction::NegY,
    Direction::PosZ,
    Direction::NegZ,
];

fn color_index(c: Color) -> usize {
    match c {
        Color::White => 0,
        Color::Yellow => 1,
        Color::Red => 2,
        Color::Orange => 3,
        Color::Blue => 4,
        Color::Green => 5,
    }
}

fn is_exposed(x: usize, y: usize, z: usize, d: Direction) -> bool {
    match d {
        Direction::PosX => x == 2,
        Direction::NegX => x == 0,
        Direction::PosY => y == 2,
        Direction::NegY => y == 0,
        Direction::PosZ => z == 2,
        Direction::NegZ => z == 0,
    }
}

fn exposed_color_counts(g: &CubeGrid) -> [usize; 6] {
    let mut counts: [usize; 6] = [0; 6];
    for x in 0..3 {
        for y in 0..3 {
            for z in 0..3 {
                let c = g.cubie(x, y, z);
                for d in ALL_DIRECTIONS {
                    if is_exposed(x, y, z, d) {
                        counts[color_index(c.color(d))] += 1;
                    }
                }
            }
        }
    }
    counts
}

fn assert_cubie_colors(
    c: Cubie,
    px: Color,
    nx: Color,
    py: Color,
    ny: Color,
    pz: Color,
    nz: Color,
) {
    assert_eq!(c.pos_x, px);
    assert_eq!(c.neg_x, nx);
    assert_eq!(c.pos_y, py);
    assert_eq!(c.neg_y, ny);
    assert_eq!(c.pos_z, pz);
    assert_eq!(c.neg_z, nz);
}

#[test]
fn solved_state_after_new() {
    let cube = RubiksCube::new();
    assert!(matches!(cube.rotation_state(), RotationState::Idle));
    for x in 0..3 {
        for y in 0..3 {
            for z in 0..3 {
                let c = cube.cubie(x, y, z);
                assert_cubie_colors(
                    c,
                    Color::Red,
                    Color::Orange,
                    Color::White,
                    Color::Yellow,
                    Color::Green,
                    Color::Blue,
                );
            }
        }
    }
}

#[test]
fn four_equal_turns_restore_grid() {
    let mut g = CubeGrid::solved();
    let mut reference = CubeGrid::solved();
    for grid in [&mut g, &mut reference] {
        grid.commit_rotation(Axis::X, 0, Spin::Pos).unwrap();
        grid.commit_rotation(Axis::Y, 1, Spin::Neg).unwrap();
    }
    for _ in 0..4 {
        g.commit_rotation(Axis::Z, 2, Spin::Pos).unwrap();
    }
    assert!(g.same_as(&reference));
}

#[test]
fn turn_then_inverse_restores_grid() {
    let mut g = CubeGrid::solved();
    let mut reference = CubeGrid::solved();
    for grid in [&mut g, &mut reference] {
        grid.commit_rotation(Axis::Z, 0, Spin::Neg).unwrap();
        grid.commit_rotation(Axis::X, 2, Spin::Pos).unwrap();
    }
    g.commit_rotation(Axis::X, 1, Spin::Pos).unwrap();
    g.commit_rotation(Axis::X, 1, Spin::Neg).unwrap();
    assert!(g.same_as(&reference));
}

#[test]
fn turns_conserve_exposed_color_counts() {
    let mut g = CubeGrid::solved();
    assert_eq!(exposed_color_counts(&g), [9; 6]);
    let turns = [
        (Axis::X, 0, Spin::Pos),
        (Axis::Y, 2, Spin::Neg),
        (Axis::Z, 1, Spin::Pos),
        (Axis::Y, 0, Spin::Pos),
        (Axis::X, 2, Spin::Neg),
    ];
    for (axis, slice, spin) in turns {
        g.commit_rotation(axis, slice, spin).unwrap();
        assert_eq!(exposed_color_counts(&g), [9; 6]);
    }
}

#[test]
fn busy_gate_rejects_second_turn() {
    let mut cube = RubiksCube::new();
    let solved = CubeGrid::solved();
    assert_eq!(cube.begin_rotate(Axis::Y, 0, Spin::Pos), Ok(()));
    assert_eq!(cube.begin_rotate(Axis::X, 2, Spin::Neg), Err(CubeError::RotationBusy));
    match cube.rotation_state() {
        RotationState::InProgress { axis, slice, spin, elapsed_centidegrees } => {
            assert_eq!(axis, Axis::Y);
            assert_eq!(slice, 0);
            assert_eq!(spin, Spin::Pos);
            assert_eq!(elapsed_centidegrees, 0);
        }
        RotationState::Idle => panic!("turn should be in flight"),
    }
    assert_eq!(cube.tick(100), Ok(()));
    assert_eq!(cube.begin_rotate(Axis::Y, 0, Spin::Pos), Err(CubeError::RotationBusy));
    assert!(cube.grid.same_as(&solved));
}

#[test]
fn invalid_layer_rejected() {
    let mut cube = RubiksCube::new();
    assert_eq!(cube.begin_rotate(Axis::X, 3, Spin::Pos), Err(CubeError::InvalidLayer));
    assert!(matches!(cube.rotation_state(), RotationState::Idle));
    let mut g = CubeGrid::solved();
    assert_eq!(g.commit_rotation(Axis::X, 7, Spin::Pos), Err(CubeError::InvalidLayer));
    assert!(g.same_as(&CubeGrid::solved()));
}

#[test]
fn negative_time_delta_rejected() {
    let mut cube = RubiksCube::new();
    assert_eq!(cube.tick(-100), Err(CubeError::InvalidTimeDelta));
    assert!(matches!(cube.rotation_state(), RotationState::Idle));
    assert_eq!(cube.begin_rotate(Axis::Z, 1, Spin::Neg), Ok(()));
    assert_eq!(cube.tick(-1), Err(CubeError::InvalidTimeDelta));
    match cube.rotation_state() {
        RotationState::InProgress { elapsed_centidegrees, .. } => {
            assert_eq!(elapsed_centidegrees, 0);
        }
        RotationState::Idle => panic!("turn should still be in flight"),
    }
    assert!(cube.grid.same_as(&CubeGrid::solved()));
}

#[test]
fn zero_time_delta_is_idempotent() {
    let mut cube = RubiksCube::new();
    assert_eq!(cube.tick(0), Ok(()));
    assert!(matches!(cube.rotation_state(), RotationState::Idle));
    assert_eq!(cube.begin_rotate(Axis::X, 1, Spin::Pos), Ok(()));
    assert_eq!(cube.tick(0), Ok(()));
    match cube.rotation_state() {
        RotationState::InProgress { elapsed_centidegrees, .. } => {
            assert_eq!(elapsed_centidegrees, 0);
        }
        RotationState::Idle => panic!("turn should still be in flight"),
    }
    assert!(cube.grid.same_as(&CubeGrid::solved()));
}

#[test]
fn elapsed_angle_monotone_and_exact() {
    let mut cube = RubiksCube::new();
    assert_eq!(cube.begin_rotate(Axis::Z, 1, Spin::Neg), Ok(()));
    let frames: [(i64, u32); 5] = [(50, 900), (120, 3060), (0, 3060), (200, 6660), (80, 8100)];
    let mut last: u32 = 0;
    for (dt, expected) in frames {
        assert_eq!(cube.tick(dt), Ok(()));
        match cube.rotation_state() {
            RotationState::InProgress { elapsed_centidegrees, .. } => {
                assert_eq!(elapsed_centidegrees, expected);
                assert!(elapsed_centidegrees >= last);
                assert!(elapsed_centidegrees < 9000);
                last = elapsed_centidegrees;
            }
            RotationState::Idle => panic!("turn completed too early"),
        }
    }
    assert_eq!(cube.tick(100), Ok(()));
    assert!(matches!(cube.rotation_state(), RotationState::Idle));
}

#[test]
fn oversized_frame_completes_in_one_tick() {
    let mut cube = RubiksCube::new();
    assert_eq!(cube.begin_rotate(Axis::Y, 0, Spin::Pos), Ok(()));
    assert_eq!(cube.tick(10_000), Ok(()));
    assert!(matches!(cube.rotation_state(), RotationState::Idle));
    assert_eq!(cube.cubie(0, 0, 0).color(Direction::PosX), Color::Blue);
}

#[test]
fn turning_layer_membership_tracks_state() {
    let mut cube = RubiksCube::new();
    assert!(!cube.in_turning_layer(0, 0, 0));
    assert_eq!(cube.begin_rotate(Axis::Y, 0, Spin::Pos), Ok(()));
    for x in 0..3 {
        for z in 0..3 {
            assert!(cube.in_turning_layer(x, 0, z));
            assert!(!cube.in_turning_layer(x, 1, z));
            assert!(!cube.in_turning_layer(x, 2, z));
        }
    }
    assert_eq!(cube.tick(500), Ok(()));
    assert!(!cube.in_turning_layer(1, 0, 1));
}

#[test]
fn end_to_end_bottom_layer_four_times() {
    let mut cube = RubiksCube::new();
    for rep in 0..4 {
        assert_eq!(cube.begin_rotate(Axis::Y, 0, Spin::Pos), Ok(()));
        for _ in 0..4 {
            assert_eq!(cube.tick(125), Ok(()));
        }
        assert!(matches!(cube.rotation_state(), RotationState::Idle));
        if rep == 0 {
            for x in 0..3 {
                for z in 0..3 {
                    assert_cubie_colors(
                        cube.cubie(x, 0, z),
                        Color::Blue,
                        Color::Green,
                        Color::White,
                        Color::Yellow,
                        Color::Red,
                        Color::Orange,
                    );
                    for y in 1..3 {
                        assert_cubie_colors(
                            cube.cubie(x, y, z),
                            Color::Red,
                            Color::Orange,
                            Color::White,
                            Color::Yellow,
                            Color::Green,
                            Color::Blue,
                        );
                    }
                }
            }
        }
    }
    assert!(cube.grid.same_as(&CubeGrid::solved()));
}

#[test]
fn two_turns_compound_state() {
    let mut g = CubeGrid::solved();
    g.commit_rotation(Axis::Y, 0, Spin::Pos).unwrap();
    g.commit_rotation(Axis::X, 0, Spin::Pos).unwrap();
    assert_cubie_colors(
        g.cubie(0, 0, 0),
        Color::Red,
        Color::Orange,
        Color::Green,
        Color::Blue,
        Color::Yellow,
        Color::White,
    );
    assert_cubie_colors(
        g.cubie(0, 0, 2),
        Color::Blue,
        Color::Green,
        Color::Red,
        Color::Orange,
        Color::Yellow,
        Color::White,
    );
    assert_cubie_colors(
        g.cubie(2, 2, 2),
        Color::Red,
        Color::Orange,
        Color::White,
        Color::Yellow,
        Color::Green,
        Color::Blue,
    );
}

#[test]
fn cubie_snapshot_walks_all_slots() {
    let mut cube = RubiksCube::new();
    cube.begin_rotate(Axis::X, 1, Spin::Neg).unwrap();
    cube.tick(500).unwrap();
    let v = cube.cubies();
    assert_eq!(v.len(), 27);
    for x in 0..3 {
        for y in 0..3 {
            for z in 0..3 {
                assert_eq!(v[x + 3 * y + 9 * z], cube.cubie(x, y, z));
            }
        }
    }
    let again = cube.cubies();
    assert_eq!(v, again);
}

#[test]
fn select_layer_lists_the_nine_coordinates() {
    let v = select_layer(Axis::Y, 0).unwrap();
    assert_eq!(
        v,
        vec![
            (0, 0, 0),
            (0, 0, 1),
            (0, 0, 2),
            (1, 0, 0),
            (1, 0, 1),
            (1, 0, 2),
            (2, 0, 0),
            (2, 0, 1),
            (2, 0, 2),
        ]
    );
    let w = select_layer(Axis::Z, 2).unwrap();
    assert_eq!(w.len(), 9);
    for (x, y, z) in &w {
        assert!(*x < 3 && *y < 3);
        assert_eq!(*z, 2);
    }
    assert_eq!(select_layer(Axis::X, 3), Err(CubeError::InvalidLayer));
}

#[test]
fn render_color_mapping_total() {
    assert_eq!(render_rgb(Color::White), (255, 255, 255));
    assert_eq!(render_rgb(Color::Yellow), (255, 255, 0));
    assert_eq!(render_rgb(Color::Red), (255, 0, 0));
    assert_eq!(render_rgb(Color::Orange), (255, 140, 0));
    assert_eq!(render_rgb(Color::Blue), (0, 0, 255));
    assert_eq!(render_rgb(Color::Green), (0, 200, 0));
}
