use shape_game::{
    CollisionEvent, Fusion, MAX_RANK, Piece, PieceEntry, PieceMerged, PieceRegistry, Placement, Rotation,
    Successor, Translation,
};

fn at(x: i64, y: i64) -> Placement {
    Placement {
        translation: Translation { x, y, z: 0 },
        rotation: Rotation { x: 0, y: 0, z: 0, w: 1_000_000 },
    }
}

fn started(first: u64, second: u64) -> CollisionEvent {
    CollisionEvent { first, second, started: true }
}

fn stopped(first: u64, second: u64) -> CollisionEvent {
    CollisionEvent { first, second, started: false }
}

#[test]
fn registry_insert_get_remove() {
    let mut registry = PieceRegistry::new(7);
    assert_eq!(registry.rank_limit(), 7);
    assert_eq!(registry.len(), 0);
    assert_eq!(registry.get(1), None);
    assert!(registry.insert(1, 2, at(5, 6)));
    assert_eq!(registry.len(), 1);
    assert_eq!(
        registry.get(1),
        Some(PieceEntry { piece: Piece { rank: 2 }, merged: PieceMerged(false), placement: at(5, 6) })
    );
    assert_eq!(
        registry.remove(1),
        Some(PieceEntry { piece: Piece { rank: 2 }, merged: PieceMerged(false), placement: at(5, 6) })
    );
    assert_eq!(registry.get(1), None);
    assert_eq!(registry.remove(1), None);
    assert_eq!(registry.len(), 0);
}

#[test]
fn registry_refuses_a_taken_identifier() {
    let mut registry = PieceRegistry::new(7);
    assert!(registry.insert(9, 1, at(0, 0)));
    assert!(!registry.insert(9, 3, at(8, 8)));
    assert_eq!(registry.len(), 1);
    assert_eq!(registry.get(9).unwrap().piece.rank, 1);
    assert_eq!(registry.get(9).unwrap().placement, at(0, 0));
}

#[test]
fn registry_refuses_a_rank_at_or_above_the_limit() {
    let mut registry = PieceRegistry::new(6);
    assert!(registry.insert(1, 5, at(0, 0)));
    assert!(!registry.insert(2, 6, at(0, 0)));
    assert!(!registry.insert(3, usize::MAX, at(0, 0)));
    assert_eq!(registry.len(), 1);
    assert_eq!(registry.get(2), None);
    let mut none = PieceRegistry::new(0);
    assert!(!none.insert(1, 0, at(0, 0)));
}

#[test]
fn placement_follows_the_physics() {
    let mut registry = PieceRegistry::new(7);
    assert!(registry.insert(4, 3, at(1, 1)));
    assert!(registry.set_placement(4, at(10, -20)));
    assert_eq!(
        registry.get(4),
        Some(PieceEntry {
            piece: Piece { rank: 3 },
            merged: PieceMerged(false),
            placement: at(10, -20)
        })
    );
    assert!(!registry.set_placement(5, at(0, 0)));
    assert_eq!(registry.len(), 1);
}

#[test]
fn two_pieces_of_rank_two_fuse_into_rank_three() {
    let mut registry = PieceRegistry::new(7);
    assert!(registry.insert(10, 2, at(100, 40)));
    assert!(registry.insert(11, 2, at(120, 60)));
    let fusion = registry.on_collision_start(10, 11);
    assert_eq!(
        fusion,
        Some(Fusion {
            first: 10,
            second: 11,
            successor: Some(Successor { rank: 3, placement: at(110, 50) }),
        })
    );
    assert_eq!(registry.get(10).unwrap().merged, PieceMerged(true));
    assert_eq!(registry.get(11).unwrap().merged, PieceMerged(true));
    assert_eq!(registry.get(10).unwrap().piece.rank, 2);
    assert_eq!(registry.get(11).unwrap().placement, at(120, 60));
}

#[test]
fn successor_orientation_is_the_plain_average() {
    let mut registry = PieceRegistry::new(7);
    let a = Placement {
        translation: Translation { x: -3, y: 0, z: 0 },
        rotation: Rotation { x: 0, y: 0, z: 707_107, w: 707_107 },
    };
    let b = Placement {
        translation: Translation { x: 0, y: 7, z: 4 },
        rotation: Rotation { x: 0, y: 0, z: -707_107, w: 707_107 },
    };
    assert!(registry.insert(1, 0, a));
    assert!(registry.insert(2, 0, b));
    let fusion = registry.on_collision_start(1, 2).unwrap();
    let successor = fusion.successor.unwrap();
    assert_eq!(successor.rank, 1);
    assert_eq!(successor.placement.translation, Translation { x: -2, y: 3, z: 2 });
    assert_eq!(successor.placement.rotation, Rotation { x: 0, y: 0, z: 0, w: 707_107 });
}

#[test]
fn two_pieces_of_the_last_rank_vanish() {
    let mut registry = PieceRegistry::new(7);
    assert!(registry.insert(1, 6, at(0, 0)));
    assert!(registry.insert(2, 6, at(10, 0)));
    let fusions = registry.collision_events(&vec![started(1, 2)]);
    assert_eq!(fusions, vec![Fusion { first: 1, second: 2, successor: None }]);
    assert_eq!(registry.len(), 0);
}

#[test]
fn last_rank_below_the_catalog_size_vanishes_too() {
    // with the bound at 6, rank 5 is the last rank that pieces have
    let mut registry = PieceRegistry::new(6);
    assert!(registry.insert(1, 5, at(0, 0)));
    assert!(registry.insert(2, 5, at(10, 0)));
    assert!(registry.insert(3, 4, at(0, 0)));
    assert!(registry.insert(4, 4, at(10, 0)));
    assert_eq!(
        registry.on_collision_start(1, 2),
        Some(Fusion { first: 1, second: 2, successor: None })
    );
    assert_eq!(
        registry.on_collision_start(3, 4),
        Some(Fusion {
            first: 3,
            second: 4,
            successor: Some(Successor { rank: 5, placement: at(5, 0) })
        })
    );
}

#[test]
fn every_rank_below_the_last_has_a_successor() {
    for rank in 0..6usize {
        let mut registry = PieceRegistry::new(7);
        assert!(registry.insert(1, rank, at(0, 0)));
        assert!(registry.insert(2, rank, at(2, 2)));
        let fusion = registry.on_collision_start(1, 2).unwrap();
        assert_eq!(fusion.first, 1);
        assert_eq!(fusion.second, 2);
        assert_eq!(fusion.successor, Some(Successor { rank: rank + 1, placement: at(1, 1) }));
    }
}

#[test]
fn different_ranks_do_nothing() {
    let mut registry = PieceRegistry::new(7);
    assert!(registry.insert(1, 2, at(0, 0)));
    assert!(registry.insert(2, 3, at(10, 0)));
    assert_eq!(registry.on_collision_start(1, 2), None);
    assert_eq!(registry.on_collision_start(2, 1), None);
    assert_eq!(registry.collision_events(&vec![started(1, 2), started(2, 1)]), vec![]);
    assert_eq!(registry.len(), 2);
    assert_eq!(registry.get(1).unwrap().merged, PieceMerged(false));
    assert_eq!(registry.get(2).unwrap().merged, PieceMerged(false));
}

#[test]
fn unknown_bodies_are_passed_over() {
    let mut registry = PieceRegistry::new(7);
    assert!(registry.insert(1, 2, at(0, 0)));
    assert_eq!(registry.on_collision_start(1, 99), None);
    assert_eq!(registry.on_collision_start(99, 1), None);
    assert_eq!(registry.on_collision_start(98, 99), None);
    assert_eq!(registry.len(), 1);
    assert_eq!(registry.get(1).unwrap().merged, PieceMerged(false));
}

#[test]
fn same_event_twice_fuses_once() {
    let mut registry = PieceRegistry::new(7);
    assert!(registry.insert(1, 2, at(0, 0)));
    assert!(registry.insert(2, 2, at(10, 0)));
    let fusions = registry.collision_events(&vec![started(1, 2), started(1, 2), started(2, 1)]);
    assert_eq!(
        fusions,
        vec![Fusion {
            first: 1,
            second: 2,
            successor: Some(Successor { rank: 3, placement: at(5, 0) })
        }]
    );
    assert_eq!(registry.len(), 0);
}

#[test]
fn second_call_for_the_same_pair_does_nothing() {
    let mut registry = PieceRegistry::new(7);
    assert!(registry.insert(1, 2, at(0, 0)));
    assert!(registry.insert(2, 2, at(10, 0)));
    assert!(registry.on_collision_start(1, 2).is_some());
    assert_eq!(registry.on_collision_start(1, 2), None);
    assert_eq!(registry.on_collision_start(2, 1), None);
    assert_eq!(registry.len(), 2);
}

#[test]
fn claimed_piece_does_not_fuse_with_a_third() {
    let mut registry = PieceRegistry::new(7);
    assert!(registry.insert(1, 2, at(0, 0)));
    assert!(registry.insert(2, 2, at(10, 0)));
    assert!(registry.insert(3, 2, at(20, 0)));
    let fusions = registry.collision_events(&vec![started(1, 2), started(2, 3), started(3, 1)]);
    assert_eq!(
        fusions,
        vec![Fusion {
            first: 1,
            second: 2,
            successor: Some(Successor { rank: 3, placement: at(5, 0) })
        }]
    );
    assert_eq!(registry.len(), 1);
    assert_eq!(
        registry.get(3),
        Some(PieceEntry { piece: Piece { rank: 2 }, merged: PieceMerged(false), placement: at(20, 0) })
    );
}

#[test]
fn fused_pieces_are_gone_in_the_next_batch() {
    let mut registry = PieceRegistry::new(7);
    assert!(registry.insert(1, 0, at(0, 0)));
    assert!(registry.insert(2, 0, at(10, 0)));
    assert_eq!(registry.collision_events(&vec![started(1, 2)]).len(), 1);
    assert_eq!(registry.get(1), None);
    assert_eq!(registry.get(2), None);
    assert_eq!(registry.collision_events(&vec![started(1, 2)]), vec![]);
    assert_eq!(registry.len(), 0);
}

#[test]
fn separations_are_ignored() {
    let mut registry = PieceRegistry::new(7);
    assert!(registry.insert(1, 2, at(0, 0)));
    assert!(registry.insert(2, 2, at(10, 0)));
    assert_eq!(registry.collision_events(&vec![stopped(1, 2), stopped(2, 1)]), vec![]);
    assert_eq!(registry.len(), 2);
    assert_eq!(registry.get(1).unwrap().merged, PieceMerged(false));
    let fusions = registry.collision_events(&vec![stopped(1, 2), started(1, 2), stopped(1, 2)]);
    assert_eq!(fusions.len(), 1);
}

#[test]
fn every_event_of_a_batch_is_handled_in_order() {
    let mut registry = PieceRegistry::new(7);
    assert!(registry.insert(1, 0, at(0, 0)));
    assert!(registry.insert(2, 0, at(10, 0)));
    assert!(registry.insert(3, 4, at(0, 100)));
    assert!(registry.insert(4, 4, at(0, 120)));
    assert!(registry.insert(5, 1, at(50, 50)));
    let fusions = registry.collision_events(&vec![
        started(5, 1),
        started(3, 4),
        stopped(1, 2),
        started(2, 1),
        started(4, 3),
    ]);
    assert_eq!(
        fusions,
        vec![
            Fusion {
                first: 3,
                second: 4,
                successor: Some(Successor { rank: 5, placement: at(0, 110) })
            },
            Fusion {
                first: 2,
                second: 1,
                successor: Some(Successor { rank: 1, placement: at(5, 0) })
            },
        ]
    );
    assert_eq!(registry.len(), 1);
    assert!(registry.get(5).is_some());
}

#[test]
fn empty_batch_changes_nothing() {
    let mut registry = PieceRegistry::new(7);
    assert!(registry.insert(1, 0, at(0, 0)));
    assert_eq!(registry.collision_events(&vec![]), vec![]);
    assert_eq!(registry.len(), 1);
}

#[test]
fn successor_can_fuse_in_a_later_batch() {
    let mut registry = PieceRegistry::new(7);
    assert!(registry.insert(1, 0, at(0, 0)));
    assert!(registry.insert(2, 0, at(10, 0)));
    assert!(registry.insert(3, 1, at(20, 0)));
    let fusions = registry.collision_events(&vec![started(1, 2)]);
    let successor = fusions[0].successor.unwrap();
    assert!(registry.insert(4, successor.rank, successor.placement));
    let fusions = registry.collision_events(&vec![started(4, 3)]);
    assert_eq!(
        fusions,
        vec![Fusion {
            first: 4,
            second: 3,
            successor: Some(Successor { rank: 2, placement: at(12, 0) })
        }]
    );
    assert_eq!(registry.len(), 0);
}

#[test]
fn midpoint_rounds_down_below_zero() {
    let mut registry = PieceRegistry::new(7);
    assert!(registry.insert(1, 0, at(-3, -1)));
    assert!(registry.insert(2, 0, at(0, 0)));
    let fusion = registry.on_collision_start(1, 2).unwrap();
    assert_eq!(fusion.successor.unwrap().placement, at(-2, -1));
}

#[test]
fn game_bound_on_ranks() {
    assert_eq!(MAX_RANK, 6);
    let mut registry = PieceRegistry::new(MAX_RANK);
    assert!(registry.insert(1, 5, at(0, 0)));
    assert!(registry.insert(2, 5, at(4, 0)));
    assert!(!registry.insert(3, 6, at(0, 0)));
    assert_eq!(
        registry.collision_events(&vec![started(1, 2)]),
        vec![Fusion { first: 1, second: 2, successor: None }]
    );
}
