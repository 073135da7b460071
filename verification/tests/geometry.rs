use shape_game::{
    clamp, halfway, BoardGeometry, PieceWidth, Placement, Rotation, Translation,
};

fn board() -> BoardGeometry {
    BoardGeometry { width: 494, height: 800, bottom_y: -450 }
}

#[test]
fn halfway_between_coordinates() {
    assert_eq!(halfway(100, 120), 110);
    assert_eq!(halfway(120, 100), 110);
    assert_eq!(halfway(0, 0), 0);
    assert_eq!(halfway(-8, 8), 0);
    assert_eq!(halfway(-10, -20), -15);
}

#[test]
fn halfway_rounds_down() {
    assert_eq!(halfway(1, 2), 1);
    assert_eq!(halfway(0, 1), 0);
    assert_eq!(halfway(-1, 0), -1);
    assert_eq!(halfway(-2, -1), -2);
    assert_eq!(halfway(-3, 0), -2);
    assert_eq!(halfway(-4, 1), -2);
}

#[test]
fn halfway_at_the_limits() {
    assert_eq!(halfway(i64::MAX, i64::MAX), i64::MAX);
    assert_eq!(halfway(i64::MIN, i64::MIN), i64::MIN);
    assert_eq!(halfway(i64::MIN, i64::MAX), -1);
    assert_eq!(halfway(i64::MAX, i64::MAX - 1), i64::MAX - 1);
    assert_eq!(halfway(i64::MIN, i64::MIN + 1), i64::MIN);
}

#[test]
fn clamp_moves_into_the_range() {
    assert_eq!(clamp(5, -10, 10), 5);
    assert_eq!(clamp(-11, -10, 10), -10);
    assert_eq!(clamp(11, -10, 10), 10);
    assert_eq!(clamp(-10, -10, 10), -10);
    assert_eq!(clamp(10, -10, 10), 10);
    assert_eq!(clamp(i64::MIN, 3, 3), 3);
    assert_eq!(clamp(i64::MAX, 3, 3), 3);
}

#[test]
fn placement_between_two() {
    let a = Placement {
        translation: Translation { x: 100, y: 40, z: 0 },
        rotation: Rotation { x: 0, y: 0, z: 0, w: 1_000_000 },
    };
    let b = Placement {
        translation: Translation { x: 120, y: 61, z: 2 },
        rotation: Rotation { x: 0, y: 0, z: 1_000_000, w: 0 },
    };
    let m = a.halfway_to(&b);
    assert_eq!(m.translation, Translation { x: 110, y: 50, z: 1 });
    // the plain average of the components, not a unit rotation halfway
    assert_eq!(m.rotation, Rotation { x: 0, y: 0, z: 500_000, w: 500_000 });
    assert_eq!(b.halfway_to(&a), m);
}

#[test]
fn board_measures() {
    let b = board();
    assert_eq!(b.half(), 247);
    assert_eq!(b.drop_height(), 350);
    let odd = BoardGeometry { width: 495, height: 0, bottom_y: i32::MIN };
    assert_eq!(odd.half(), 247);
    assert_eq!(odd.drop_height(), i32::MIN as i64);
    let wide = BoardGeometry { width: u32::MAX, height: u32::MAX, bottom_y: i32::MAX };
    assert_eq!(wide.half(), 2_147_483_647);
    assert_eq!(wide.drop_height(), i32::MAX as i64 + u32::MAX as i64);
}

#[test]
fn pointer_outside_the_walls_is_held_at_the_wall() {
    let b = board();
    assert_eq!(b.clamp_to_walls(-248), -247);
    assert_eq!(b.clamp_to_walls(-100_000), -247);
    assert_eq!(b.clamp_to_walls(i64::MIN), -247);
    assert_eq!(b.clamp_to_walls(248), 247);
    assert_eq!(b.clamp_to_walls(i64::MAX), 247);
    assert_eq!(b.clamp_to_walls(-247), -247);
    assert_eq!(b.clamp_to_walls(247), 247);
    assert_eq!(b.clamp_to_walls(0), 0);
    assert_eq!(b.clamp_to_walls(-13), -13);
}

#[test]
fn piece_width_narrows_the_range() {
    let b = board();
    let width = PieceWidth { left: 200, right: -200 };
    assert!(width.fits_board(&b));
    let at = |x: i64| width.clamp(&b, Translation { x, y: 350, z: 15 });
    assert_eq!(at(0), Translation { x: 0, y: 350, z: 15 });
    assert_eq!(at(-47), Translation { x: -47, y: 350, z: 15 });
    assert_eq!(at(-48), Translation { x: -47, y: 350, z: 15 });
    assert_eq!(at(-247), Translation { x: -47, y: 350, z: 15 });
    assert_eq!(at(47), Translation { x: 47, y: 350, z: 15 });
    assert_eq!(at(48), Translation { x: 47, y: 350, z: 15 });
    assert_eq!(at(247), Translation { x: 47, y: 350, z: 15 });
}

#[test]
fn piece_width_keeps_height_and_depth() {
    let b = board();
    let width = PieceWidth { left: 20, right: -20 };
    let t = width.clamp(&b, Translation { x: 9_999, y: -3, z: 77 });
    assert_eq!(t, Translation { x: 227, y: -3, z: 77 });
}

#[test]
fn silhouette_never_crosses_a_wall() {
    let b = board();
    let widths = [
        PieceWidth { left: 174, right: -174 },
        PieceWidth { left: 20, right: -19 },
        PieceWidth { left: 1, right: 0 },
        PieceWidth { left: 247, right: -247 },
    ];
    for width in widths {
        assert!(width.fits_board(&b));
        for x in [-1_000_000i64, -248, -247, -100, -1, 0, 1, 100, 247, 248, 1_000_000] {
            let held = b.clamp_to_walls(x);
            let t = width.clamp(&b, Translation { x: held, y: 350, z: 15 });
            assert!(-247 <= t.x - width.left as i64);
            assert!(t.x - width.right as i64 <= 247);
        }
    }
}

#[test]
fn shape_wider_than_the_board_does_not_fit() {
    let b = board();
    assert!(PieceWidth { left: 247, right: -247 }.fits_board(&b));
    assert!(!PieceWidth { left: 248, right: -247 }.fits_board(&b));
    assert!(!PieceWidth { left: 247, right: -248 }.fits_board(&b));
    assert!(!PieceWidth { left: i32::MAX, right: i32::MIN }.fits_board(&b));
    assert!(PieceWidth { left: 0, right: 0 }.fits_board(&BoardGeometry {
        width: 0,
        height: 1,
        bottom_y: 0
    }));
}
