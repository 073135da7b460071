//! The registry of live pieces and the rule by which two colliding pieces of
//! equal rank fuse into one of the next rank, once and only once.

use crate::geometry::Placement;
use crate::pieces::{Piece, PieceMerged, UPGRADE_NUM};
use std::collections::HashMap;
use vstd::prelude::*;

verus! {

/// The rank that no piece of the game reaches: two pieces of rank
/// `MAX_RANK - 1` that fuse leave nothing behind.
pub const MAX_RANK: usize = UPGRADE_NUM;

/// What the registry keeps for one live piece.
#[derive(Clone, Copy, Debug, PartialEq, Eq, Structural)]
pub struct PieceEntry {
    pub piece: Piece,
    pub merged: PieceMerged,
    pub placement: Placement,
}

/// A notification from the physics world: two bodies started touching
/// (`started`) or stopped.
#[derive(Clone, Copy, Debug, PartialEq, Eq, Structural)]
pub struct CollisionEvent {
    pub first: u64,
    pub second: u64,
    pub started: bool,
}

/// The piece that takes the place of two fused ones.
#[derive(Clone, Copy, Debug, PartialEq, Eq, Structural)]
pub struct Successor {
    pub rank: usize,
    pub placement: Placement,
}

/// The effects of one fusion: `first` and `second` are to be despawned, and
/// `successor`, if there is one, spawned.
#[derive(Clone, Copy, Debug, PartialEq, Eq)]
pub struct Fusion {
    pub first: u64,
    pub second: u64,
    pub successor: Option<Successor>,
}

/// The entry of a piece once a fusion has claimed it. Rank and placement stay.
pub open spec fn claimed(entry: PieceEntry) -> PieceEntry {
    PieceEntry { piece: entry.piece, merged: PieceMerged(true), placement: entry.placement }
}

/// The entry of a piece that has just been registered.
pub open spec fn fresh_entry(rank: usize, placement: Placement) -> PieceEntry {
    PieceEntry { piece: Piece { rank }, merged: PieceMerged(false), placement }
}

/// Two touching pieces fuse exactly when both are registered, have the same
/// rank, and neither has been claimed by a fusion before.
pub open spec fn fuses(pieces: Map<u64, PieceEntry>, first: u64, second: u64) -> bool {
    &&& pieces.contains_key(first)
    &&& pieces.contains_key(second)
    &&& pieces[first].piece.rank == pieces[second].piece.rank
    &&& !pieces[first].merged.0
    &&& !pieces[second].merged.0
}

/// The registry after a collision start: both pieces claimed if they fuse,
/// nothing changed if they do not.
pub open spec fn after_collision(pieces: Map<u64, PieceEntry>, first: u64, second: u64) -> Map<
    u64,
    PieceEntry,
> {
    if fuses(pieces, first, second) {
        pieces.insert(first, claimed(pieces[first])).insert(second, claimed(pieces[second]))
    } else {
        pieces
    }
}

/// What follows two fused pieces of `rank`: a piece of the next rank halfway
/// between them, unless the next rank would reach `max_rank`.
pub open spec fn successor_of(rank: usize, max_rank: usize, first: Placement, second: Placement) -> Option<
    Successor,
> {
    if rank + 1 < max_rank {
        Some(Successor { rank: (rank + 1) as usize, placement: first.between(second) })
    } else {
        None
    }
}

/// The effects of a collision start: a fusion if the two pieces fuse, none
/// otherwise.
pub open spec fn fusion_of(
    pieces: Map<u64, PieceEntry>,
    max_rank: usize,
    first: u64,
    second: u64,
) -> Option<Fusion> {
    if fuses(pieces, first, second) {
        Some(
            Fusion {
                first,
                second,
                successor: successor_of(
                    pieces[first].piece.rank,
                    max_rank,
                    pieces[first].placement,
                    pieces[second].placement,
                ),
            },
        )
    } else {
        None
    }
}

/// The registry after the first `n` events of a batch, taken in order.
/// Events that report the end of a contact change nothing.
pub open spec fn after_events(pieces: Map<u64, PieceEntry>, events: Seq<CollisionEvent>, n: int) -> Map<
    u64,
    PieceEntry,
>
    decreases n,
{
    if n <= 0 {
        pieces
    } else {
        let before = after_events(pieces, events, n - 1);
        let event = events[n - 1];
        if event.started {
            after_collision(before, event.first, event.second)
        } else {
            before
        }
    }
}

/// The fusions that the first `n` events of a batch bring about, in order.
pub open spec fn fusions_of(
    pieces: Map<u64, PieceEntry>,
    max_rank: usize,
    events: Seq<CollisionEvent>,
    n: int,
) -> Seq<Fusion>
    decreases n,
{
    if n <= 0 {
        Seq::empty()
    } else {
        let earlier = fusions_of(pieces, max_rank, events, n - 1);
        let before = after_events(pieces, events, n - 1);
        let event = events[n - 1];
        if event.started && fuses(before, event.first, event.second) {
            earlier.push(fusion_of(before, max_rank, event.first, event.second).unwrap())
        } else {
            earlier
        }
    }
}

/// The pieces that a list of fusions sends away.
pub open spec fn fused_ids(fusions: Seq<Fusion>) -> Set<u64> {
    Set::new(
        |id: u64|
            exists|i: int|
                0 <= i < fusions.len() && (#[trigger] fusions[i].first == id || fusions[i].second
                    == id),
    )
}

/// The live pieces, each under the identifier that the physics world knows
/// it by.
pub struct PieceRegistry {
    max_rank: usize,
    pieces: HashMap<u64, PieceEntry>,
}

impl PieceRegistry {
    /// The entries by identifier.
    pub closed spec fn view(&self) -> Map<u64, PieceEntry> {
        self.pieces@
    }

    /// The rank that no piece reaches: a fusion whose successor would have
    /// it leaves nothing behind.
    pub closed spec fn max_rank(&self) -> usize {
        self.max_rank
    }

    /// Every registered piece has a rank below `max_rank`.
    pub open spec fn wf(&self) -> bool {
        forall|id: u64| #[trigger] self@.contains_key(id) ==> self@[id].piece.rank < self.max_rank()
    }

    /// An empty registry for ranks below `max_rank`.
    pub fn new(max_rank: usize) -> (registry: PieceRegistry)
        ensures
            registry.wf(),
            registry.max_rank() == max_rank,
            registry@ == Map::<u64, PieceEntry>::empty(),
    {
        PieceRegistry { max_rank, pieces: HashMap::new() }
    }

    /// The bound on ranks that the registry was made with.
    pub fn rank_limit(&self) -> (limit: usize)
        ensures
            limit == self.max_rank(),
    {
        self.max_rank
    }

    /// Number of registered pieces.
    pub fn len(&self) -> (n: usize)
        ensures
            n == self@.len(),
    {
        self.pieces.len()
    }

    /// The entry of `id`, if it is registered.
    pub fn get(&self, id: u64) -> (entry: Option<PieceEntry>)
        ensures
            entry == if self@.contains_key(id) {
                Some(self@[id])
            } else {
                None
            },
    {
        match self.pieces.get(&id) {
            Some(entry) => Some(*entry),
            None => None,
        }
    }

    /// Registers a new, unfused piece. Refused, with nothing changed, if
    /// `id` is taken or `rank` is not below the registry's bound.
    pub fn insert(&mut self, id: u64, rank: usize, placement: Placement) -> (inserted: bool)
        requires
            old(self).wf(),
        ensures
            final(self).wf(),
            final(self).max_rank() == old(self).max_rank(),
            inserted == (!old(self)@.contains_key(id) && rank < old(self).max_rank()),
            inserted ==> final(self)@ == old(self)@.insert(id, fresh_entry(rank, placement)),
            !inserted ==> final(self)@ == old(self)@,
    {
        if rank >= self.max_rank || self.pieces.get(&id).is_some() {
            return false;
        }
        self.pieces.insert(
            id,
            PieceEntry { piece: Piece { rank }, merged: PieceMerged(false), placement },
        );
        assert forall|k: u64| #[trigger] self@.contains_key(k) implies self@[k].piece.rank
            < self.max_rank() by {
            if k != id {
                assert(old(self)@.contains_key(k));
            }
        }
        true
    }

    /// Takes `id` out of the registry and hands back what was kept for it.
    pub fn remove(&mut self, id: u64) -> (removed: Option<PieceEntry>)
        requires
            old(self).wf(),
        ensures
            final(self).wf(),
            final(self).max_rank() == old(self).max_rank(),
            final(self)@ == old(self)@.remove(id),
            removed == if old(self)@.contains_key(id) {
                Some(old(self)@[id])
            } else {
                None
            },
    {
        let removed = self.pieces.remove(&id);
        assert forall|k: u64| #[trigger] self@.contains_key(k) implies self@[k].piece.rank
            < self.max_rank() by {
            assert(old(self)@.contains_key(k));
        }
        removed
    }

    /// Records where the physics world has moved `id` to. Rank and fusion
    /// flag stay. Returns whether `id` is registered.
    pub fn set_placement(&mut self, id: u64, placement: Placement) -> (known: bool)
        requires
            old(self).wf(),
        ensures
            final(self).wf(),
            final(self).max_rank() == old(self).max_rank(),
            known == old(self)@.contains_key(id),
            known ==> final(self)@ == old(self)@.insert(
                id,
                PieceEntry {
                    piece: old(self)@[id].piece,
                    merged: old(self)@[id].merged,
                    placement,
                },
            ),
            !known ==> final(self)@ == old(self)@,
    {
        match self.get(id) {
            Some(entry) => {
                self.pieces.insert(
                    id,
                    PieceEntry { piece: entry.piece, merged: entry.merged, placement },
                );
                true
            },
            None => false,
        }
    }

    /// Two bodies started touching. If both are registered pieces of one
    /// rank and neither is claimed yet, both are claimed and the fusion is
    /// returned: the two to despawn and, below the last rank, the successor
    /// to spawn halfway between them. In every other case nothing changes
    /// and nothing is returned.
    pub fn on_collision_start(&mut self, first: u64, second: u64) -> (fusion: Option<Fusion>)
        requires
            old(self).wf(),
        ensures
            final(self).wf(),
            final(self).max_rank() == old(self).max_rank(),
            final(self)@ == after_collision(old(self)@, first, second),
            fusion == fusion_of(old(self)@, old(self).max_rank(), first, second),
    {
        let a = match self.get(first) {
            Some(entry) => entry,
            None => {
                return None;
            },
        };
        let b = match self.get(second) {
            Some(entry) => entry,
            None => {
                return None;
            },
        };
        if a.piece.rank != b.piece.rank || a.merged.0 || b.merged.0 {
            return None;
        }
        self.pieces.insert(
            first,
            PieceEntry { piece: a.piece, merged: PieceMerged(true), placement: a.placement },
        );
        self.pieces.insert(
            second,
            PieceEntry { piece: b.piece, merged: PieceMerged(true), placement: b.placement },
        );
        let successor = if a.piece.rank + 1 < self.max_rank {
            Some(
                Successor {
                    rank: a.piece.rank + 1,
                    placement: a.placement.halfway_to(&b.placement),
                },
            )
        } else {
            None
        };
        Some(Fusion { first, second, successor })
    }

    /// Goes through one tick's batch of collision events in order, every
    /// event of it, and returns the fusions they bring about. Each fused
    /// piece stays registered, claimed, until the batch is through, so that
    /// a later event of the batch cannot fuse it again; then it leaves the
    /// registry. Every other piece is left as it was.
    pub fn collision_events(&mut self, events: &Vec<CollisionEvent>) -> (fusions: Vec<Fusion>)
        requires
            old(self).wf(),
        ensures
            final(self).wf(),
            final(self).max_rank() == old(self).max_rank(),
            fusions@ == fusions_of(
                old(self)@,
                old(self).max_rank(),
                events@,
                events@.len() as int,
            ),
            final(self)@ == old(self)@.remove_keys(fused_ids(fusions@)),
    {
        let mut fusions: Vec<Fusion> = Vec::new();
        let mut i: usize = 0;
        while i < events.len()
            invariant
                i <= events.len(),
                self.wf(),
                self.max_rank() == old(self).max_rank(),
                self@ == after_events(old(self)@, events@, i as int),
                fusions@ == fusions_of(old(self)@, old(self).max_rank(), events@, i as int),
            decreases events.len() - i,
        {
            let event = events[i];
            if event.started {
                match self.on_collision_start(event.first, event.second) {
                    Some(fusion) => {
                        fusions.push(fusion);
                    },
                    None => {},
                }
            }
            i = i + 1;
        }
        let ghost batch = self@;
        let mut j: usize = 0;
        while j < fusions.len()
            invariant
                j <= fusions.len(),
                self.wf(),
                self.max_rank() == old(self).max_rank(),
                self@ == batch.remove_keys(fused_ids(fusions@.take(j as int))),
            decreases fusions.len() - j,
        {
            let fusion = fusions[j];
            self.pieces.remove(&fusion.first);
            self.pieces.remove(&fusion.second);
            proof {
                let done = fusions@.take(j as int);
                let next = fusions@.take(j + 1);
                assert(next[j as int] == fusion);
                assert forall|id: u64| #[trigger]
                    fused_ids(next).contains(id) == (fused_ids(done).contains(id) || id
                        == fusion.first || id == fusion.second) by {
                    if fused_ids(done).contains(id) {
                        let k = choose|k: int|
                            0 <= k < done.len() && (#[trigger] done[k].first == id
                                || done[k].second == id);
                        assert(next[k] == done[k]);
                    }
                    if fused_ids(next).contains(id) {
                        let k = choose|k: int|
                            0 <= k < next.len() && (#[trigger] next[k].first == id
                                || next[k].second == id);
                        assert(k < j ==> done[k] == next[k]);
                    }
                }
            }
            j = j + 1;
        }
        assert(fusions@.take(fusions@.len() as int) =~= fusions@);
        proof {
            let gone = fused_ids(fusions@);
            assert forall|id: u64| #[trigger] batch.contains_key(id) == old(self)@.contains_key(id)
                && (old(self)@.contains_key(id) && !gone.contains(id) ==> batch[id] == old(
                self,
            )@[id]) by {
                lemma_batch_keeps_pieces(old(self)@, events@, events@.len() as int, id);
                if old(self)@.contains_key(id) && !gone.contains(id) {
                    lemma_batch_touches_fused_pieces_only(
                        old(self)@,
                        old(self).max_rank(),
                        events@,
                        events@.len() as int,
                        id,
                    );
                }
            }
            assert(batch.remove_keys(gone) =~= old(self)@.remove_keys(gone));
        }
        fusions
    }
}

/// Two unfused pieces of one rank that start touching fuse: each of the two
/// is named once for despawning and claimed in the registry, and the fusion
/// has exactly one successor, of the next rank and halfway between the two,
/// if that rank is below `max_rank`, and none if it is not.
pub proof fn lemma_equal_ranks_fuse(
    pieces: Map<u64, PieceEntry>,
    max_rank: usize,
    first: u64,
    second: u64,
)
    requires
        pieces.contains_key(first),
        pieces.contains_key(second),
        pieces[first].piece.rank == pieces[second].piece.rank,
        !pieces[first].merged.0,
        !pieces[second].merged.0,
    ensures
        fusion_of(pieces, max_rank, first, second) matches Some(fusion) && {
            &&& fusion.first == first
            &&& fusion.second == second
            &&& pieces[first].piece.rank + 1 < max_rank ==> fusion.successor == Some(
                Successor {
                    rank: (pieces[first].piece.rank + 1) as usize,
                    placement: pieces[first].placement.between(pieces[second].placement),
                },
            )
            &&& pieces[first].piece.rank + 1 >= max_rank ==> fusion.successor.is_none()
        },
        after_collision(pieces, first, second).dom() == pieces.dom(),
        after_collision(pieces, first, second)[first].merged.0,
        after_collision(pieces, first, second)[second].merged.0,
        forall|id: u64|
            id != first && id != second && pieces.contains_key(id) ==> #[trigger] after_collision(
                pieces,
                first,
                second,
            )[id] == pieces[id],
{
}

/// Pieces of different ranks never fuse: nothing is despawned, nothing is
/// spawned, and the registry stays as it is.
pub proof fn lemma_different_ranks_never_fuse(
    pieces: Map<u64, PieceEntry>,
    max_rank: usize,
    first: u64,
    second: u64,
)
    requires
        pieces.contains_key(first),
        pieces.contains_key(second),
        pieces[first].piece.rank != pieces[second].piece.rank,
    ensures
        fusion_of(pieces, max_rank, first, second).is_none(),
        after_collision(pieces, first, second) == pieces,
{
}

/// An event that names a body that is not registered, because it has been
/// despawned or never was a piece, is passed over.
pub proof fn lemma_unknown_piece_is_ignored(
    pieces: Map<u64, PieceEntry>,
    max_rank: usize,
    first: u64,
    second: u64,
)
    requires
        !pieces.contains_key(first) || !pieces.contains_key(second),
    ensures
        fusion_of(pieces, max_rank, first, second).is_none(),
        after_collision(pieces, first, second) == pieces,
{
}

/// A piece that a fusion has claimed takes part in no other: an event that
/// names it, on either side, has no effect.
pub proof fn lemma_claimed_piece_never_fuses(
    pieces: Map<u64, PieceEntry>,
    max_rank: usize,
    claimed_id: u64,
    other: u64,
)
    requires
        pieces.contains_key(claimed_id),
        pieces[claimed_id].merged.0,
    ensures
        fusion_of(pieces, max_rank, claimed_id, other).is_none(),
        fusion_of(pieces, max_rank, other, claimed_id).is_none(),
        after_collision(pieces, claimed_id, other) == pieces,
        after_collision(pieces, other, claimed_id) == pieces,
{
}

/// A collision start never takes a piece out of the registry, changes a rank
/// or a placement, or clears a fusion flag that is set.
pub proof fn lemma_collision_keeps_pieces(
    pieces: Map<u64, PieceEntry>,
    first: u64,
    second: u64,
    id: u64,
)
    requires
        pieces.contains_key(id),
    ensures
        after_collision(pieces, first, second).contains_key(id),
        after_collision(pieces, first, second)[id].piece == pieces[id].piece,
        after_collision(pieces, first, second)[id].placement == pieces[id].placement,
        pieces[id].merged.0 ==> after_collision(pieces, first, second)[id].merged.0,
{
}

/// Once two pieces have fused, delivering the same event again, or any event
/// that names one of the two, brings about no second fusion and changes
/// nothing.
pub proof fn lemma_fusion_happens_once(
    pieces: Map<u64, PieceEntry>,
    max_rank: usize,
    first: u64,
    second: u64,
    other: u64,
)
    requires
        fuses(pieces, first, second),
    ensures
        ({
            let after = after_collision(pieces, first, second);
            &&& fusion_of(after, max_rank, first, second).is_none()
            &&& fusion_of(after, max_rank, second, first).is_none()
            &&& fusion_of(after, max_rank, first, other).is_none()
            &&& fusion_of(after, max_rank, other, first).is_none()
            &&& fusion_of(after, max_rank, second, other).is_none()
            &&& fusion_of(after, max_rank, other, second).is_none()
            &&& after_collision(after, first, second) == after
            &&& after_collision(after, second, first) == after
            &&& after_collision(after, first, other) == after
            &&& after_collision(after, other, first) == after
            &&& after_collision(after, second, other) == after
            &&& after_collision(after, other, second) == after
        }),
{
}

/// Through a batch no piece leaves the registry or changes its rank or
/// placement, and a fusion flag that is set stays set.
pub proof fn lemma_batch_keeps_pieces(
    pieces: Map<u64, PieceEntry>,
    events: Seq<CollisionEvent>,
    n: int,
    id: u64,
)
    ensures
        after_events(pieces, events, n).contains_key(id) == pieces.contains_key(id),
        pieces.contains_key(id) ==> {
            &&& after_events(pieces, events, n)[id].piece == pieces[id].piece
            &&& after_events(pieces, events, n)[id].placement == pieces[id].placement
            &&& pieces[id].merged.0 ==> after_events(pieces, events, n)[id].merged.0
        },
    decreases n,
{
    if n > 0 {
        lemma_batch_keeps_pieces(pieces, events, n - 1, id);
    }
}

/// Every piece that a fusion of a batch names is claimed from that fusion
/// on, to the end of the batch.
proof fn lemma_fused_pieces_are_claimed(
    pieces: Map<u64, PieceEntry>,
    max_rank: usize,
    events: Seq<CollisionEvent>,
    n: int,
    k: int,
)
    requires
        0 <= k < fusions_of(pieces, max_rank, events, n).len(),
    ensures
        ({
            let fusion = fusions_of(pieces, max_rank, events, n)[k];
            let after = after_events(pieces, events, n);
            &&& after.contains_key(fusion.first)
            &&& after.contains_key(fusion.second)
            &&& after[fusion.first].merged.0
            &&& after[fusion.second].merged.0
        }),
    decreases n,
{
    if n > 0 {
        let earlier = fusions_of(pieces, max_rank, events, n - 1);
        let before = after_events(pieces, events, n - 1);
        let event = events[n - 1];
        let fused_now = event.started && fuses(before, event.first, event.second);
        if !fused_now || k < earlier.len() {
            lemma_fused_pieces_are_claimed(pieces, max_rank, events, n - 1, k);
        }
    }
}

/// Exactly once: whatever a batch holds, no piece is named by two of its
/// fusions.
pub proof fn lemma_no_piece_fuses_twice(
    pieces: Map<u64, PieceEntry>,
    max_rank: usize,
    events: Seq<CollisionEvent>,
    n: int,
    i: int,
    j: int,
)
    requires
        0 <= i < j < fusions_of(pieces, max_rank, events, n).len(),
    ensures
        ({
            let fusions = fusions_of(pieces, max_rank, events, n);
            &&& fusions[i].first != fusions[j].first
            &&& fusions[i].first != fusions[j].second
            &&& fusions[i].second != fusions[j].first
            &&& fusions[i].second != fusions[j].second
        }),
    decreases n,
{
    if n > 0 {
        let earlier = fusions_of(pieces, max_rank, events, n - 1);
        let before = after_events(pieces, events, n - 1);
        let event = events[n - 1];
        if event.started && fuses(before, event.first, event.second) && j == earlier.len() {
            lemma_fused_pieces_are_claimed(pieces, max_rank, events, n - 1, i);
        } else {
            lemma_no_piece_fuses_twice(pieces, max_rank, events, n - 1, i, j);
        }
    }
}

/// Every fusion of a batch is between two pieces that were registered with
/// one rank and unclaimed when the batch began, and its successor is the one
/// that those two pieces have.
pub proof fn lemma_batch_fuses_equal_unclaimed_pieces(
    pieces: Map<u64, PieceEntry>,
    max_rank: usize,
    events: Seq<CollisionEvent>,
    n: int,
    k: int,
)
    requires
        0 <= k < fusions_of(pieces, max_rank, events, n).len(),
    ensures
        ({
            let fusion = fusions_of(pieces, max_rank, events, n)[k];
            &&& fuses(pieces, fusion.first, fusion.second)
            &&& fusion_of(pieces, max_rank, fusion.first, fusion.second) == Some(fusion)
        }),
    decreases n,
{
    if n > 0 {
        let earlier = fusions_of(pieces, max_rank, events, n - 1);
        let before = after_events(pieces, events, n - 1);
        let event = events[n - 1];
        if event.started && fuses(before, event.first, event.second) && k == earlier.len() {
            lemma_batch_keeps_pieces(pieces, events, n - 1, event.first);
            lemma_batch_keeps_pieces(pieces, events, n - 1, event.second);
        } else {
            lemma_batch_fuses_equal_unclaimed_pieces(pieces, max_rank, events, n - 1, k);
        }
    }
}

/// A batch changes nothing but what it fuses: a piece that none of its
/// fusions names has, at the end, the entry that it had at the start.
pub proof fn lemma_batch_touches_fused_pieces_only(
    pieces: Map<u64, PieceEntry>,
    max_rank: usize,
    events: Seq<CollisionEvent>,
    n: int,
    id: u64,
)
    requires
        pieces.contains_key(id),
        !fused_ids(fusions_of(pieces, max_rank, events, n)).contains(id),
    ensures
        after_events(pieces, events, n).contains_key(id),
        after_events(pieces, events, n)[id] == pieces[id],
    decreases n,
{
    if n > 0 {
        let fusions = fusions_of(pieces, max_rank, events, n);
        let earlier = fusions_of(pieces, max_rank, events, n - 1);
        let before = after_events(pieces, events, n - 1);
        let event = events[n - 1];
        if fused_ids(earlier).contains(id) {
            let k = choose|k: int|
                0 <= k < earlier.len() && (#[trigger] earlier[k].first == id || earlier[k].second
                    == id);
            assert(fusions[k].first == id || fusions[k].second == id);
        }
        lemma_batch_touches_fused_pieces_only(pieces, max_rank, events, n - 1, id);
        if event.started && fuses(before, event.first, event.second) {
            let last = fusions[earlier.len() as int];
            assert(last.first == event.first && last.second == event.second);
        }
    }
}

/// A batch that delivers one collision start twice has the same effects as
/// a batch that delivers it once.
pub proof fn lemma_repeated_event_fuses_once(
    pieces: Map<u64, PieceEntry>,
    max_rank: usize,
    event: CollisionEvent,
)
    ensures
        fusions_of(pieces, max_rank, seq![event, event], 2) == fusions_of(
            pieces,
            max_rank,
            seq![event],
            1,
        ),
        after_events(pieces, seq![event, event], 2) == after_events(pieces, seq![event], 1),
{
    reveal_with_fuel(after_events, 3);
    reveal_with_fuel(fusions_of, 3);
}

} // verus!
