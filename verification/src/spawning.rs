//! The drop queue: a cursor that follows the pointer between the walls, a
//! ready piece that rides it, a preview of the piece after that, and the
//! cooldown that refills the cursor some time after each drop.

use crate::geometry::{
    clamped, BoardGeometry, PieceWidth, Placement, PointerPosition, Rotation, Translation,
};
use crate::pieces::{
    nth_piece, nth_piece_display, nth_piece_display_of, nth_piece_physics_of, BodyMode,
    PieceAssets, PieceBundle, PieceDisplay, ShapeEntry,
};
use crate::random::{
    rank_drawn, ranks_drawn, seeded_words, words_after_draw, words_after_draws, GameRand,
};
use vstd::prelude::*;

verus! {

/// Time between a drop and the next piece on the cursor, in nanoseconds.
pub const COOLDOWN_NANOS: u64 = 500_000_000;

/// Depth at which the cursor and the piece riding it are drawn.
pub const CURSOR_Z: i64 = 15;

/// Highest rank that the queue draws for a next piece.
pub const HIGHEST_NEXT_RANK: usize = 4;

/// How far right of the right wall the preview sits.
pub const PREVIEW_OFFSET_X: i64 = 80;

/// Height at which the preview sits.
pub const PREVIEW_Y: i64 = 300;

/// Depth at which the preview is drawn.
pub const PREVIEW_Z: i64 = 1;

/// A countdown that fires once, on the tick in which it runs out, and then
/// stays silent until it is restarted.
#[derive(Clone, Copy, Debug, PartialEq, Eq, Structural)]
pub struct PieceAvailableTimer {
    pub duration: u64,
    pub remaining: u64,
    pub finished: bool,
}

impl PieceAvailableTimer {
    /// A timer with all of `duration` still to run.
    pub open spec fn fresh(duration: u64) -> PieceAvailableTimer {
        PieceAvailableTimer { duration, remaining: duration, finished: false }
    }

    /// The timer fires on a tick of `delta`: it has not fired since its last
    /// restart, and `delta` uses up what remains.
    pub open spec fn fires(self, delta: u64) -> bool {
        !self.finished && delta >= self.remaining
    }

    /// The timer after a tick of `delta`.
    pub open spec fn ticked(self, delta: u64) -> PieceAvailableTimer {
        if self.finished {
            self
        } else if delta >= self.remaining {
            PieceAvailableTimer { duration: self.duration, remaining: 0, finished: true }
        } else {
            PieceAvailableTimer {
                duration: self.duration,
                remaining: (self.remaining - delta) as u64,
                finished: false,
            }
        }
    }

    /// The timer set back to its full duration.
    pub open spec fn restarted(self) -> PieceAvailableTimer {
        PieceAvailableTimer::fresh(self.duration)
    }

    /// Makes a timer with all of `duration` still to run.
    pub fn new(duration: u64) -> (timer: PieceAvailableTimer)
        ensures
            timer == PieceAvailableTimer::fresh(duration),
    {
        PieceAvailableTimer { duration, remaining: duration, finished: false }
    }

    /// Tells whether a tick of `delta` would make the timer fire.
    pub fn will_fire(&self, delta: u64) -> (fires: bool)
        ensures
            fires == self.fires(delta),
    {
        !self.finished && delta >= self.remaining
    }

    /// Takes `delta` off what remains and tells whether the timer fired.
    pub fn tick(&mut self, delta: u64) -> (fired: bool)
        ensures
            fired == old(self).fires(delta),
            *final(self) == old(self).ticked(delta),
    {
        if self.finished {
            false
        } else if delta >= self.remaining {
            self.remaining = 0;
            self.finished = true;
            true
        } else {
            self.remaining = self.remaining - delta;
            false
        }
    }

    /// Starts the countdown again from the full duration.
    pub fn restart(&mut self)
        ensures
            *final(self) == old(self).restarted(),
    {
        self.remaining = self.duration;
        self.finished = false;
    }
}

impl Default for PieceAvailableTimer {
    /// The timer of the game: half a second, not yet started on.
    fn default() -> (timer: PieceAvailableTimer)
        ensures
            timer == PieceAvailableTimer::fresh(COOLDOWN_NANOS),
    {
        PieceAvailableTimer::new(COOLDOWN_NANOS)
    }
}

/// What a replenishment asks of the outside: draw `ready` on the cursor,
/// attached to it in the way of `body`, remove the old preview if there was
/// one, and draw the new `preview`.
#[derive(Clone, Copy, Debug, PartialEq, Eq)]
pub struct Replenished {
    pub ready: PieceDisplay,
    pub body: BodyMode,
    pub width: PieceWidth,
    pub stale_preview: Option<usize>,
    pub preview: PieceDisplay,
}

/// What one tick of the queue asks of the outside.
#[derive(Clone, Copy, Debug, PartialEq, Eq)]
pub struct SpawnUpdate {
    pub replenished: Option<Replenished>,
    pub dropped: Option<PieceBundle>,
}

/// The queue as the contracts see it.
pub struct SpawnModel {
    pub board: BoardGeometry,
    pub shapes: Seq<ShapeEntry>,
    pub widths: Seq<PieceWidth>,
    pub highest_next_rank: usize,
    pub cursor: Translation,
    pub ready: Option<usize>,
    pub next: Option<usize>,
    pub timer: PieceAvailableTimer,
    pub generator: (u128, u128),
}

/// What one tick brings in: the pointer moves in order, the time since the
/// tick before, and whether the primary button was pressed.
pub struct TickInput {
    pub moves: Seq<PointerPosition>,
    pub delta: u64,
    pub clicked: bool,
}

/// The time that the first `n` ticks of a run take.
pub open spec fn elapsed(inputs: Seq<TickInput>, n: int) -> int
    decreases n,
{
    if n <= 0 {
        0
    } else {
        elapsed(inputs, n - 1) + inputs[n - 1].delta
    }
}

/// A queue can be set up: every rank has a width, every width fits the
/// board, and every rank that can be drawn has a shape.
pub open spec fn config_ok(
    board: BoardGeometry,
    shapes: Seq<ShapeEntry>,
    widths: Seq<PieceWidth>,
    highest_next_rank: usize,
) -> bool {
    &&& widths.len() == shapes.len()
    &&& highest_next_rank < shapes.len()
    &&& forall|rank: int| 0 <= rank < widths.len() ==> (#[trigger] widths[rank]).fits(board)
}

/// Where the preview of the next piece is shown: off to the right of the
/// board.
pub open spec fn preview_spot(board: BoardGeometry) -> Translation {
    Translation {
        x: (board.half_width() + PREVIEW_OFFSET_X) as i64,
        y: PREVIEW_Y,
        z: PREVIEW_Z,
    }
}

/// A piece that has not been turned, at `translation`.
pub open spec fn upright_at(translation: Translation) -> Placement {
    Placement { translation, rotation: Rotation::upright() }
}

impl SpawnModel {
    /// The queue before its first tick: cursor in the middle, nothing ready,
    /// nothing previewed, the cooldown running.
    pub open spec fn initial(
        board: BoardGeometry,
        shapes: Seq<ShapeEntry>,
        widths: Seq<PieceWidth>,
        highest_next_rank: usize,
        seed: u64,
    ) -> SpawnModel {
        SpawnModel {
            board,
            shapes,
            widths,
            highest_next_rank,
            cursor: Translation { x: 0, y: board.spawn_y() as i64, z: CURSOR_Z },
            ready: None,
            next: None,
            timer: PieceAvailableTimer::fresh(COOLDOWN_NANOS),
            generator: seeded_words(seed),
        }
    }

    /// The cursor is between the walls at the drop height, the ready piece
    /// has a shape, the previewed rank is one that can be drawn, and while
    /// the cursor is empty the cooldown is running.
    pub open spec fn wf(self) -> bool {
        &&& config_ok(self.board, self.shapes, self.widths, self.highest_next_rank)
        &&& -self.board.half_width() <= self.cursor.x <= self.board.half_width()
        &&& self.cursor.y == self.board.spawn_y()
        &&& self.cursor.z == CURSOR_Z
        &&& self.ready matches Some(rank) ==> rank < self.shapes.len()
        &&& self.next matches Some(rank) ==> rank <= self.highest_next_rank
        &&& self.timer.remaining <= self.timer.duration
        &&& self.ready.is_none() ==> !self.timer.finished
    }

    /// Where the cursor goes for a pointer at `pointer_x`: to the pointer,
    /// or to the wall that the pointer is beyond.
    pub open spec fn cursor_at(self, pointer_x: i64) -> Translation {
        Translation {
            x: clamped(pointer_x as int, -self.board.half_width(), self.board.half_width()) as i64,
            y: self.board.spawn_y() as i64,
            z: CURSOR_Z,
        }
    }

    /// Where the ready piece is: at the cursor, but no nearer to a wall than
    /// its own width allows.
    pub open spec fn ready_translation(self) -> Option<Translation> {
        match self.ready {
            Some(rank) => Some(self.widths[rank as int].clamped(self.board, self.cursor)),
            None => None,
        }
    }

    /// The queue after one pointer move.
    pub open spec fn followed(self, pointer: PointerPosition) -> SpawnModel {
        SpawnModel { cursor: self.cursor_at(pointer.x), ..self }
    }

    /// The queue after the first `n` pointer moves of a batch, in order.
    pub open spec fn after_moves(self, moves: Seq<PointerPosition>, n: int) -> SpawnModel
        decreases n,
    {
        if n <= 0 {
            self
        } else {
            self.after_moves(moves, n - 1).followed(moves[n - 1])
        }
    }

    /// The rank that moves onto the cursor at the next replenishment: the
    /// previewed one, or rank 0 when nothing has been previewed yet.
    pub open spec fn promoted_rank(self) -> usize {
        match self.next {
            Some(rank) => rank,
            None => 0,
        }
    }

    /// A replenishment with `drawn` as the new preview can take place: the
    /// cursor is empty and `drawn` is a rank that the queue may draw.
    pub open spec fn can_replenish(self, drawn: usize) -> bool {
        self.ready.is_none() && drawn <= self.highest_next_rank
    }

    /// The queue after a replenishment that drew `drawn`: the previewed rank
    /// is ready, `drawn` is previewed. Unchanged if none can take place.
    pub open spec fn replenished_with(self, drawn: usize) -> SpawnModel {
        if self.can_replenish(drawn) {
            SpawnModel { ready: Some(self.promoted_rank()), next: Some(drawn), ..self }
        } else {
            self
        }
    }

    /// What a replenishment that drew `drawn` asks of the outside.
    pub open spec fn replenishment(self, drawn: usize) -> Option<Replenished> {
        if self.can_replenish(drawn) {
            let rank = self.promoted_rank();
            Some(
                Replenished {
                    ready: nth_piece_display_of(
                        self.shapes,
                        rank,
                        upright_at(self.widths[rank as int].clamped(self.board, self.cursor)),
                    ),
                    body: BodyMode::CursorAttached,
                    width: self.widths[rank as int],
                    stale_preview: self.next,
                    preview: nth_piece_display_of(
                        self.shapes,
                        drawn,
                        upright_at(preview_spot(self.board)),
                    ),
                },
            )
        } else {
            None
        }
    }

    /// A tick of `delta` replenishes the cursor: the cooldown runs out in it
    /// and the cursor is empty.
    pub open spec fn replenishes(self, delta: u64) -> bool {
        self.timer.fires(delta) && self.ready.is_none()
    }

    /// The queue after the cooldown has been ticked by `delta`. Only a tick
    /// that replenishes draws from the generator.
    pub open spec fn ticked(self, delta: u64) -> SpawnModel {
        if self.replenishes(delta) {
            SpawnModel {
                timer: self.timer.ticked(delta),
                generator: words_after_draw(self.generator, self.highest_next_rank),
                ..self.replenished_with(rank_drawn(self.generator, self.highest_next_rank))
            }
        } else {
            SpawnModel { timer: self.timer.ticked(delta), ..self }
        }
    }

    /// What a tick of `delta` asks of the outside.
    pub open spec fn tick_outcome(self, delta: u64) -> Option<Replenished> {
        if self.replenishes(delta) {
            self.replenishment(rank_drawn(self.generator, self.highest_next_rank))
        } else {
            None
        }
    }

    /// A click drops a piece: there is a click and a piece is ready.
    pub open spec fn drops(self, clicked: bool) -> bool {
        clicked && self.ready.is_some()
    }

    /// The queue after the click of a tick, if any, has been handled: a
    /// drop empties the cursor and restarts the cooldown.
    pub open spec fn dropped(self, clicked: bool) -> SpawnModel {
        if self.drops(clicked) {
            SpawnModel { ready: None, timer: self.timer.restarted(), ..self }
        } else {
            self
        }
    }

    /// The piece that a click sets free, with the rank and at the place of
    /// the ready piece.
    pub open spec fn drop_of(self, clicked: bool) -> Option<PieceBundle> {
        if self.drops(clicked) {
            let rank = self.ready.unwrap();
            let placement = upright_at(self.ready_translation().unwrap());
            Some(
                PieceBundle {
                    display: nth_piece_display_of(self.shapes, rank, placement),
                    physics: nth_piece_physics_of(self.shapes, rank),
                },
            )
        } else {
            None
        }
    }

    /// The queue after a whole tick: first every pointer move, then the
    /// cooldown, then the click.
    pub open spec fn updated(
        self,
        moves: Seq<PointerPosition>,
        delta: u64,
        clicked: bool,
    ) -> SpawnModel {
        self.after_moves(moves, moves.len() as int).ticked(delta).dropped(clicked)
    }

    /// The queue after the first `n` ticks of a run.
    pub open spec fn after_ticks(self, inputs: Seq<TickInput>, n: int) -> SpawnModel
        decreases n,
    {
        if n <= 0 {
            self
        } else {
            let input = inputs[n - 1];
            self.after_ticks(inputs, n - 1).updated(input.moves, input.delta, input.clicked)
        }
    }

    /// How many of the first `n` ticks of a run replenish the cursor, and so
    /// draw a rank.
    pub open spec fn draws_in(self, inputs: Seq<TickInput>, n: int) -> nat
        decreases n,
    {
        if n <= 0 {
            0
        } else {
            let input = inputs[n - 1];
            let before = self.after_ticks(inputs, n - 1).after_moves(
                input.moves,
                input.moves.len() as int,
            );
            if before.replenishes(input.delta) {
                self.draws_in(inputs, n - 1) + 1
            } else {
                self.draws_in(inputs, n - 1)
            }
        }
    }
}

/// The drop queue.
pub struct SpawnController {
    board: BoardGeometry,
    assets: PieceAssets,
    widths: Vec<PieceWidth>,
    highest_next_rank: usize,
    cursor: Translation,
    ready: Option<usize>,
    next: Option<usize>,
    timer: PieceAvailableTimer,
    rand: GameRand,
}

impl SpawnController {
    /// The queue as the contracts see it.
    pub closed spec fn view(&self) -> SpawnModel {
        SpawnModel {
            board: self.board,
            shapes: self.assets@,
            widths: self.widths@,
            highest_next_rank: self.highest_next_rank,
            cursor: self.cursor,
            ready: self.ready,
            next: self.next,
            timer: self.timer,
            generator: self.rand@,
        }
    }

    /// Sets up the queue for a board, a catalog, the width of each rank's
    /// shape and the highest rank to draw, with a generator made from
    /// `seed`. `None` if a rank lacks a width, a width does not fit the
    /// board, or a rank that could be drawn has no shape.
    pub fn new(
        board: BoardGeometry,
        assets: PieceAssets,
        widths: Vec<PieceWidth>,
        highest_next_rank: usize,
        seed: u64,
    ) -> (made: Option<SpawnController>)
        ensures
            made.is_some() == config_ok(board, assets@, widths@, highest_next_rank),
            made matches Some(controller) ==> controller@ == SpawnModel::initial(
                board,
                assets@,
                widths@,
                highest_next_rank,
                seed,
            ) && controller@.wf(),
    {
        if widths.len() != assets.len() || highest_next_rank >= assets.len() {
            return None;
        }
        let mut rank: usize = 0;
        while rank < widths.len()
            invariant
                rank <= widths.len(),
                forall|k: int| 0 <= k < rank ==> (#[trigger] widths@[k]).fits(board),
            decreases widths.len() - rank,
        {
            if !widths[rank].fits_board(&board) {
                return None;
            }
            rank = rank + 1;
        }
        Some(
            SpawnController {
                board,
                assets,
                widths,
                highest_next_rank,
                cursor: Translation { x: 0, y: board.drop_height(), z: CURSOR_Z },
                ready: None,
                next: None,
                timer: PieceAvailableTimer::default(),
                rand: GameRand::new(seed),
            },
        )
    }

    /// The catalog that the queue takes its shapes from.
    pub fn assets(&self) -> (assets: &PieceAssets)
        ensures
            assets@ == self@.shapes,
    {
        &self.assets
    }

    /// Where the cursor is.
    pub fn cursor(&self) -> (cursor: Translation)
        ensures
            cursor == self@.cursor,
    {
        self.cursor
    }

    /// The rank of the piece on the cursor, if there is one.
    pub fn ready(&self) -> (ready: Option<usize>)
        ensures
            ready == self@.ready,
    {
        self.ready
    }

    /// The rank of the previewed piece, if there is one.
    pub fn next(&self) -> (next: Option<usize>)
        ensures
            next == self@.next,
    {
        self.next
    }

    /// The state of the cooldown.
    pub fn timer(&self) -> (timer: PieceAvailableTimer)
        ensures
            timer == self@.timer,
    {
        self.timer
    }

    /// Where the piece on the cursor is, if there is one.
    pub fn ready_translation(&self) -> (translation: Option<Translation>)
        requires
            self@.wf(),
        ensures
            translation == self@.ready_translation(),
    {
        match self.ready {
            Some(rank) => Some(self.widths[rank].clamp(&self.board, self.cursor)),
            None => None,
        }
    }

    /// Moves the cursor, and with it the ready piece, after every pointer
    /// move of the batch in turn.
    pub fn cursor_follows_cursor(&mut self, moves: &Vec<PointerPosition>)
        requires
            old(self)@.wf(),
        ensures
            final(self)@ == old(self)@.after_moves(moves@, moves@.len() as int),
            final(self)@.wf(),
    {
        let mut i: usize = 0;
        while i < moves.len()
            invariant
                i <= moves.len(),
                self@ == old(self)@.after_moves(moves@, i as int),
                self@.wf(),
            decreases moves.len() - i,
        {
            let pointer = moves[i];
            self.cursor = Translation {
                x: self.board.clamp_to_walls(pointer.x),
                y: self.board.drop_height(),
                z: CURSOR_Z,
            };
            i = i + 1;
        }
    }

    /// Promotes the previewed rank onto the empty cursor and previews
    /// `drawn`. Nothing happens, and `None` is returned, if a piece is
    /// already on the cursor or `drawn` is above the highest rank to draw.
    pub fn replenish_with(&mut self, drawn: usize) -> (outcome: Option<Replenished>)
        requires
            old(self)@.wf(),
        ensures
            final(self)@ == old(self)@.replenished_with(drawn),
            outcome == old(self)@.replenishment(drawn),
            final(self)@.wf(),
    {
        if self.ready.is_some() || drawn > self.highest_next_rank {
            return None;
        }
        let rank: usize = match self.next {
            Some(rank) => rank,
            None => 0,
        };
        let width = self.widths[rank];
        let outcome = Replenished {
            ready: nth_piece_display(
                &self.assets,
                rank,
                Placement {
                    translation: width.clamp(&self.board, self.cursor),
                    rotation: Rotation::identity(),
                },
            ),
            body: BodyMode::CursorAttached,
            width,
            stale_preview: self.next,
            preview: nth_piece_display(
                &self.assets,
                drawn,
                Placement {
                    translation: Translation {
                        x: self.board.half() + PREVIEW_OFFSET_X,
                        y: PREVIEW_Y,
                        z: PREVIEW_Z,
                    },
                    rotation: Rotation::identity(),
                },
            ),
        };
        self.ready = Some(rank);
        self.next = Some(drawn);
        Some(outcome)
    }

    /// Ticks the cooldown by `delta`. On the tick in which it runs out
    /// while the cursor is empty, draws the rank of a new preview and
    /// replenishes the cursor.
    pub fn replenish_cursor(&mut self, delta: u64) -> (outcome: Option<Replenished>)
        requires
            old(self)@.wf(),
        ensures
            final(self)@ == old(self)@.ticked(delta),
            outcome == old(self)@.tick_outcome(delta),
            final(self)@.wf(),
    {
        if self.timer.will_fire(delta) && self.ready.is_none() {
            let drawn = self.rand.next_rank(self.highest_next_rank);
            let outcome = self.replenish_with(drawn);
            self.timer.tick(delta);
            outcome
        } else {
            self.timer.tick(delta);
            None
        }
    }

    /// Handles the click of a tick. A click while a piece is ready takes it
    /// off the cursor, restarts the cooldown and returns the piece to set
    /// free; any other call changes nothing and returns `None`.
    pub fn spawn_items(&mut self, clicked: bool) -> (dropped: Option<PieceBundle>)
        requires
            old(self)@.wf(),
        ensures
            final(self)@ == old(self)@.dropped(clicked),
            dropped == old(self)@.drop_of(clicked),
            final(self)@.wf(),
    {
        if !clicked {
            return None;
        }
        match self.ready {
            Some(rank) => {
                let placement = Placement {
                    translation: self.widths[rank].clamp(&self.board, self.cursor),
                    rotation: Rotation::identity(),
                };
                let bundle = nth_piece(&self.assets, rank, placement);
                self.ready = None;
                self.timer.restart();
                Some(bundle)
            },
            None => None,
        }
    }

    /// One tick of the queue, in the order that the steps depend on: the
    /// cursor follows the pointer, then the cooldown may replenish the
    /// cursor, then the click may drop what is on it.
    pub fn update(&mut self, moves: &Vec<PointerPosition>, delta: u64, clicked: bool) -> (outcome:
        SpawnUpdate)
        requires
            old(self)@.wf(),
        ensures
            final(self)@ == old(self)@.updated(moves@, delta, clicked),
            outcome.replenished == old(self)@.after_moves(
                moves@,
                moves@.len() as int,
            ).tick_outcome(delta),
            outcome.dropped == old(self)@.after_moves(moves@, moves@.len() as int).ticked(
                delta,
            ).drop_of(clicked),
            final(self)@.wf(),
    {
        self.cursor_follows_cursor(moves);
        let replenished = self.replenish_cursor(delta);
        let dropped = self.spawn_items(clicked);
        SpawnUpdate { replenished, dropped }
    }
}

/// A pointer beyond a wall leaves the cursor on that wall, a pointer between
/// the walls leaves it at the pointer, and wherever the pointer is, neither
/// edge of the ready piece is beyond a wall.
pub proof fn lemma_follow_stays_between_walls(queue: SpawnModel, pointer: PointerPosition)
    requires
        queue.wf(),
    ensures
        queue.followed(pointer).wf(),
        pointer.x < -queue.board.half_width() ==> queue.followed(pointer).cursor.x
            == -queue.board.half_width(),
        pointer.x > queue.board.half_width() ==> queue.followed(pointer).cursor.x
            == queue.board.half_width(),
        -queue.board.half_width() <= pointer.x <= queue.board.half_width() ==> queue.followed(
            pointer,
        ).cursor.x == pointer.x,
        queue.ready matches Some(rank) ==> queue.widths[rank as int].within_walls(
            queue.board,
            queue.followed(pointer).ready_translation().unwrap().x as int,
        ),
{
}

/// A batch of pointer moves leaves the queue where its last move alone
/// would leave it; an empty batch leaves it as it is.
pub proof fn lemma_last_move_decides(queue: SpawnModel, moves: Seq<PointerPosition>)
    ensures
        moves.len() == 0 ==> queue.after_moves(moves, moves.len() as int) == queue,
        moves.len() > 0 ==> queue.after_moves(moves, moves.len() as int) == queue.followed(
            moves.last(),
        ),
{
    lemma_latest_move_decides(queue, moves, moves.len() as int);
}

/// After the first `n` moves of a batch the queue is where the `n`-th move
/// alone would leave it.
proof fn lemma_latest_move_decides(queue: SpawnModel, moves: Seq<PointerPosition>, n: int)
    ensures
        n <= 0 ==> queue.after_moves(moves, n) == queue,
        n > 0 ==> queue.after_moves(moves, n) == queue.followed(moves[n - 1]),
    decreases n,
{
    if n > 0 {
        lemma_latest_move_decides(queue, moves, n - 1);
    }
}

/// A piece that is promoted onto the cursor is within the walls from the
/// start, whatever its width and wherever the cursor is.
pub proof fn lemma_replenished_piece_between_walls(queue: SpawnModel, drawn: usize)
    requires
        queue.wf(),
        queue.can_replenish(drawn),
    ensures
        queue.replenished_with(drawn).wf(),
        queue.replenished_with(drawn).ready == Some(queue.promoted_rank()),
        queue.replenished_with(drawn).next == Some(drawn),
        queue.widths[queue.promoted_rank() as int].within_walls(
            queue.board,
            queue.replenished_with(drawn).ready_translation().unwrap().x as int,
        ),
{
}

/// A click while nothing is ready changes nothing and sets nothing free.
pub proof fn lemma_click_without_ready_piece(queue: SpawnModel, clicked: bool)
    requires
        queue.ready.is_none(),
    ensures
        queue.dropped(clicked) == queue,
        queue.drop_of(clicked).is_none(),
{
}

/// A drop empties the cursor and starts the whole cooldown again.
pub proof fn lemma_drop_starts_cooldown(queue: SpawnModel)
    requires
        queue.wf(),
        queue.ready.is_some(),
    ensures
        queue.dropped(true).wf(),
        queue.dropped(true).ready.is_none(),
        queue.dropped(true).timer == PieceAvailableTimer::fresh(queue.timer.duration),
        queue.dropped(true).next == queue.next,
        queue.dropped(true).generator == queue.generator,
{
}

/// While a cooldown runs, nothing can be dropped: as long as the ticks of a
/// run add up to less than what remains of the cooldown, the cursor stays
/// empty, nothing is drawn, and clicks set nothing free. So two drops are
/// never less than a cooldown apart.
pub proof fn lemma_cursor_stays_empty_during_cooldown(
    queue: SpawnModel,
    inputs: Seq<TickInput>,
    n: int,
)
    requires
        queue.wf(),
        queue.ready.is_none(),
        elapsed(inputs, n) < queue.timer.remaining,
    ensures
        queue.after_ticks(inputs, n).wf(),
        queue.after_ticks(inputs, n).ready.is_none(),
        queue.after_ticks(inputs, n).next == queue.next,
        queue.after_ticks(inputs, n).generator == queue.generator,
        queue.after_ticks(inputs, n).timer.remaining == queue.timer.remaining - elapsed(inputs, n),
        queue.draws_in(inputs, n) == 0,
        n > 0 ==> queue.after_ticks(inputs, n - 1).after_moves(
            inputs[n - 1].moves,
            inputs[n - 1].moves.len() as int,
        ).ticked(inputs[n - 1].delta).drop_of(inputs[n - 1].clicked).is_none(),
    decreases n,
{
    if n > 0 {
        lemma_cursor_stays_empty_during_cooldown(queue, inputs, n - 1);
        let input = inputs[n - 1];
        let before = queue.after_ticks(inputs, n - 1);
        lemma_latest_move_decides(before, input.moves, input.moves.len() as int);
    }
}

/// The ranks that a queue previews are those that its generator draws, in
/// their order, whatever the pointer does and whenever the ticks and clicks
/// come: after a run with `k` replenishments the generator has made `k`
/// draws, and the rank on preview is the `k`-th of them. Two queues with
/// generators from one seed therefore preview the same ranks, one after
/// another.
pub proof fn lemma_previews_follow_the_generator(queue: SpawnModel, inputs: Seq<TickInput>, n: int)
    requires
        queue.wf(),
    ensures
        queue.after_ticks(inputs, n).wf(),
        queue.after_ticks(inputs, n).highest_next_rank == queue.highest_next_rank,
        queue.after_ticks(inputs, n).generator == words_after_draws(
            queue.generator,
            queue.highest_next_rank,
            queue.draws_in(inputs, n),
        ),
        queue.draws_in(inputs, n) == 0 ==> queue.after_ticks(inputs, n).next == queue.next,
        queue.draws_in(inputs, n) > 0 ==> queue.after_ticks(inputs, n).next == Some(
            ranks_drawn(queue.generator, queue.highest_next_rank, queue.draws_in(inputs, n))[queue.draws_in(
                inputs,
                n,
            ) - 1],
        ),
    decreases n,
{
    if n > 0 {
        lemma_previews_follow_the_generator(queue, inputs, n - 1);
        let input = inputs[n - 1];
        let before = queue.after_ticks(inputs, n - 1);
        lemma_latest_move_decides(before, input.moves, input.moves.len() as int);
    }
}

/// The queue never stalls: an empty cursor is refilled by the first tick
/// that uses up what remains of the cooldown, which is never more than the
/// whole cooldown.
pub proof fn lemma_empty_cursor_is_refilled(queue: SpawnModel, delta: u64)
    requires
        queue.wf(),
        queue.ready.is_none(),
        delta >= queue.timer.remaining,
    ensures
        queue.timer.remaining <= queue.timer.duration,
        queue.replenishes(delta),
        queue.ticked(delta).ready == Some(queue.promoted_rank()),
        queue.ticked(delta).next == Some(rank_drawn(queue.generator, queue.highest_next_rank)),
        queue.tick_outcome(delta).is_some(),
{
}

/// At every step the queue has at most one piece on the cursor and at most
/// one preview, and each step keeps the queue well formed.
pub proof fn lemma_steps_keep_queue_well_formed(
    queue: SpawnModel,
    pointer: PointerPosition,
    delta: u64,
    clicked: bool,
)
    requires
        queue.wf(),
    ensures
        queue.followed(pointer).wf(),
        queue.ticked(delta).wf(),
        queue.dropped(clicked).wf(),
{
}

} // verus!
