//! The game state machine: one ball, one paddle, a field of destructible
//! blocks. Each call to `update` consumes at most one input command and
//! advances the simulation by one tick: move the paddle, move the ball,
//! bounce off walls, bounce off the paddle, then resolve block collisions.

use vstd::prelude::*;

use crate::phys::{
    spec_collision_direction, spec_moved, spec_overlaps,
    Color, Direction, PhysicsEntity, PlayerEntity, Size, Square, StaticEntity, Vec2d,
};

verus! {

/// A logical input command, decoded from the raw key event by the host.
/// Any other or absent input is represented by `None` and stops the paddle.
#[derive(Clone, Copy, Debug, PartialEq, Eq, Structural)]
pub enum Command {
    MoveLeft,
    MoveRight,
    Quit,
}

/// Stores the current state of the block-breaker game.
pub struct Game {
    pub ball: PhysicsEntity,
    pub paddle: PlayerEntity,
    pub blocks: Vec<StaticEntity>,
    /// Playfield size in 0,0 based coordinates.
    pub screen_size: Size,
}

pub const BLOCK_HEIGHT: u16 = 2;

pub const BLOCK_WIDTH: u16 = 4;

/// The distance still to cover from `lo` up to `hi`, floored at zero; used
/// as a termination measure for loops that step by more than one.
pub open spec fn spec_remaining(hi: int, lo: int) -> int {
    if hi - lo < 0 {
        0
    } else {
        hi - lo
    }
}

/// A velocity component negated (the values in play are always -1, 0 or 1,
/// so this never leaves the 16-bit range).
pub open spec fn spec_flip(v: i16) -> i16 {
    (-(v as int)) as i16
}

/// The 4-color palette entry at a given running color index.
pub open spec fn spec_palette(ci: int) -> Color {
    if ci == 0 {
        Color::Magenta
    } else if ci == 1 {
        Color::Grey
    } else if ci == 2 {
        Color::Yellow
    } else {
        Color::Green
    }
}

/// After a block is placed, the color index toggles within its pair:
/// an even index steps up, an odd index steps back down.
pub open spec fn spec_toggle_color(ci: int) -> int {
    if ci % 2 == 0 {
        ci + 1
    } else {
        ci - 1
    }
}

/// At the end of a row the color index switches pairs: below 2 it resets
/// to 2, otherwise to 0.
pub open spec fn spec_reset_color(ci: int) -> int {
    if ci < 2 {
        2
    } else {
        0
    }
}

/// The block placed at a column/row with the palette entry of the running
/// color index; all generated blocks start alive.
pub open spec fn spec_block_at(col: int, row: int, ci: int) -> StaticEntity {
    StaticEntity {
        collider: Square { x: col as u16, y: row as u16, w: BLOCK_WIDTH, h: BLOCK_HEIGHT },
        alive: true,
        color: spec_palette(ci),
    }
}

/// One row of blocks, left to right from `col` while the next block stays
/// under `wlim`, with a 1-cell gap between blocks; also yields the color
/// index left over for the next row.
pub open spec fn spec_row_blocks(col: int, row: int, wlim: int, ci: int) -> (Seq<StaticEntity>, int)
    decreases spec_remaining(wlim, col),
{
    if col >= wlim {
        (Seq::empty(), ci)
    } else {
        let rest = spec_row_blocks(col + 5, row, wlim, spec_toggle_color(ci));
        (seq![spec_block_at(col, row, ci)] + rest.0, rest.1)
    }
}

/// The rows of blocks from `row` up to (but not including) `hlim`, stepping
/// a block height plus one gap each time; odd rows are offset by half a block
/// width to stagger the columns.
pub open spec fn spec_rows_blocks(row: int, hlim: int, wlim: int, ci: int) -> Seq<StaticEntity>
    decreases spec_remaining(hlim, row),
{
    if row >= hlim {
        Seq::empty()
    } else {
        let off: int = if row % 2 == 0 { 0 } else { 2 };
        let r = spec_row_blocks(off, row, wlim, ci);
        r.0 + spec_rows_blocks(row + 3, hlim, wlim, spec_reset_color(r.1))
    }
}

/// The deterministic block layout for a playfield: rows of 4x2 blocks from
/// row 2 up to half the screen height.
pub open spec fn spec_initial_blocks(s: Size) -> Seq<StaticEntity> {
    spec_rows_blocks(2, s.h as int / 2, s.w as int - 4, 0)
}

/// The ball starts near the center, one cell large, moving down-right.
pub open spec fn spec_initial_ball(s: Size) -> PhysicsEntity {
    PhysicsEntity {
        collider: Square { x: (s.w as int / 2) as u16, y: (s.h as int / 2 + 2) as u16, w: 1, h: 1 },
        speed: Vec2d { x: 1, y: 1 },
        alive: true,
    }
}

/// The paddle starts centered horizontally, 6 cells wide, 3 rows above the
/// bottom edge, not moving.
pub open spec fn spec_initial_paddle(s: Size) -> PlayerEntity {
    PlayerEntity {
        collider: Square {
            x: (s.w as int / 2 - 3) as u16,
            y: (s.h as int - 3) as u16,
            w: 6,
            h: 1,
        },
        speed: Vec2d { x: 0, y: 0 },
        alive: true,
    }
}

/// The paddle velocity a command sets: move-left is -1, move-right is 1,
/// anything else (including no input) stops the paddle. The velocity is
/// recomputed from scratch every tick; it never persists.
pub open spec fn spec_paddle_vx(pressed_key: Option<Command>) -> int {
    match pressed_key {
        Some(Command::MoveLeft) => -1,
        Some(Command::MoveRight) => 1,
        _ => 0,
    }
}

/// The paddle after a tick: its velocity is set from the input, then it
/// moves by that velocity and is clamped into the playfield.
pub open spec fn spec_paddle_step(g: Game, pressed_key: Option<Command>) -> PlayerEntity {
    let sp = Vec2d { x: spec_paddle_vx(pressed_key) as i16, y: g.paddle.speed.y };
    PlayerEntity {
        collider: spec_moved(g.paddle.collider, sp, g.screen_size),
        speed: sp,
        alive: g.paddle.alive,
    }
}

/// The ball after its movement phase: translated by its velocity and clamped
/// into the playfield.
pub open spec fn spec_ball_moved(g: Game) -> PhysicsEntity {
    PhysicsEntity {
        collider: spec_moved(g.ball.collider, g.ball.speed, g.screen_size),
        speed: g.ball.speed,
        alive: g.ball.alive,
    }
}

/// The wall bounce: a ball sitting exactly on the left or right edge has its
/// horizontal velocity inverted; on the top or bottom edge, its vertical
/// velocity. Both axes are checked independently and unconditionally.
pub open spec fn spec_wall_bounce(b: PhysicsEntity, s: Size) -> PhysicsEntity {
    let vx = if b.collider.x + b.collider.w == s.w || b.collider.x == 0 {
        spec_flip(b.speed.x)
    } else {
        b.speed.x
    };
    let vy = if b.collider.y + b.collider.h == s.h || b.collider.y == 0 {
        spec_flip(b.speed.y)
    } else {
        b.speed.y
    };
    PhysicsEntity { collider: b.collider, speed: Vec2d { x: vx, y: vy }, alive: b.alive }
}

/// The paddle bounce: on contact the vertical velocity inverts, and the
/// horizontal velocity is steered by which half of the paddle was hit:
/// -1 when the ball's left edge is right of the paddle's midpoint, else 1.
pub open spec fn spec_paddle_bounce(b: PhysicsEntity, paddle: Square) -> PhysicsEntity {
    if spec_overlaps(b.collider, paddle) {
        PhysicsEntity {
            collider: b.collider,
            speed: Vec2d {
                x: (if b.collider.x > paddle.x + paddle.w / 2 { -1 } else { 1 }) as i16,
                y: spec_flip(b.speed.y),
            },
            alive: b.alive,
        }
    } else {
        b
    }
}

/// One block tested against the ball: an alive, overlapping block becomes a
/// tombstone, and the ball's velocity inverts on the axis given by the side
/// of the block that the ball struck (the classifier takes the ball as
/// `self` and the block as `other`). A dead or non-overlapping block changes
/// nothing.
pub open spec fn spec_step_block(blk: StaticEntity, ball: PhysicsEntity) -> (StaticEntity, PhysicsEntity) {
    if blk.alive && spec_overlaps(blk.collider, ball.collider) {
        let dir = spec_collision_direction(ball.collider, blk.collider);
        let sp = if dir == Direction::UP || dir == Direction::DOWN {
            Vec2d { x: ball.speed.x, y: spec_flip(ball.speed.y) }
        } else {
            Vec2d { x: spec_flip(ball.speed.x), y: ball.speed.y }
        };
        (
            StaticEntity { collider: blk.collider, alive: false, color: blk.color },
            PhysicsEntity { collider: ball.collider, speed: sp, alive: ball.alive },
        )
    } else {
        (blk, ball)
    }
}

/// All blocks tested against the ball, independently and in collection
/// order; yields the blocks and the ball after the tick.
pub open spec fn spec_resolve_blocks(blocks: Seq<StaticEntity>, ball: PhysicsEntity) -> (
    Seq<StaticEntity>,
    PhysicsEntity,
)
    decreases blocks.len(),
{
    if blocks.len() == 0 {
        (blocks, ball)
    } else {
        let prev = spec_resolve_blocks(blocks.drop_last(), ball);
        let hit = spec_step_block(blocks.last(), prev.1);
        (prev.0.push(hit.0), hit.1)
    }
}

/// The ball after movement, wall bounce and paddle bounce, in that order.
pub open spec fn spec_ball_after_paddle(g: Game, pressed_key: Option<Command>) -> PhysicsEntity {
    spec_paddle_bounce(
        spec_wall_bounce(spec_ball_moved(g), g.screen_size),
        spec_paddle_step(g, pressed_key).collider,
    )
}

/// The blocks and the ball at the end of a full (non-quit) tick.
pub open spec fn spec_tick(g: Game, pressed_key: Option<Command>) -> (Seq<StaticEntity>, PhysicsEntity) {
    spec_resolve_blocks(g.blocks@, spec_ball_after_paddle(g, pressed_key))
}

/// The paint requests for a sequence of blocks, in order: one per alive
/// block, with its rectangle and stored color; dead blocks contribute
/// nothing.
pub open spec fn spec_draw_blocks(blocks: Seq<StaticEntity>) -> Seq<(Square, Color)>
    decreases blocks.len(),
{
    if blocks.len() == 0 {
        Seq::empty()
    } else {
        let init = spec_draw_blocks(blocks.drop_last());
        if blocks.last().alive {
            init + seq![(blocks.last().collider, blocks.last().color)]
        } else {
            init
        }
    }
}

/// The paint requests for a whole game state: alive blocks first, then the
/// paddle in cyan, then the ball in red.
pub open spec fn spec_draw_ops(g: Game) -> Seq<(Square, Color)> {
    spec_draw_blocks(g.blocks@) + seq![
        (g.paddle.collider, Color::Cyan),
        (g.ball.collider, Color::Red),
    ]
}

/// A block interaction that would change the ball's horizontal velocity:
/// the block is alive, overlaps the ball, and the impact side (ball against
/// block) classifies as LEFT or RIGHT.
pub open spec fn spec_block_steers_x(blk: StaticEntity, ball: PhysicsEntity) -> bool {
    &&& blk.alive
    &&& spec_overlaps(blk.collider, ball.collider)
    &&& (spec_collision_direction(ball.collider, blk.collider) == Direction::LEFT
        || spec_collision_direction(ball.collider, blk.collider) == Direction::RIGHT)
}

/// A block that fits inside the playfield (and is at least one cell tall,
/// which keeps its center arithmetic in range).
pub open spec fn spec_block_wf(b: StaticEntity, s: Size) -> bool {
    &&& b.collider.x + b.collider.w <= s.w
    &&& b.collider.y + b.collider.h <= s.h
    &&& 1 <= b.collider.h
}

impl Game {
    /// Well-formedness of a game state: the playfield is large enough for the
    /// paddle and small enough that all center arithmetic stays in 16 bits,
    /// the entities fit in the playfield, the ball moves diagonally one cell
    /// per tick, and the paddle moves only horizontally by at most one cell.
    pub open spec fn wf(self) -> bool {
        &&& 6 <= self.screen_size.w <= 0x7fff
        &&& 5 <= self.screen_size.h <= 21846
        &&& 1 <= self.ball.collider.w <= self.screen_size.w
        &&& 1 <= self.ball.collider.h <= self.screen_size.h
        &&& 1 <= self.paddle.collider.w <= self.screen_size.w
        &&& 1 <= self.paddle.collider.h <= self.screen_size.h
        &&& (self.ball.speed.x == 1 || self.ball.speed.x == -1)
        &&& (self.ball.speed.y == 1 || self.ball.speed.y == -1)
        &&& -1 <= self.paddle.speed.x <= 1
        &&& self.paddle.speed.y == 0
        &&& forall|i: int|
            0 <= i < self.blocks@.len() ==> spec_block_wf(#[trigger] self.blocks@[i], self.screen_size)
    }
}

/// The palette entry for a color index; see `spec_palette`.
fn palette(ci: u16) -> (c: Color)
    requires
        ci < 4,
    ensures
        c == spec_palette(ci as int),
{
    if ci == 0 {
        Color::Magenta
    } else if ci == 1 {
        Color::Grey
    } else if ci == 2 {
        Color::Yellow
    } else {
        Color::Green
    }
}

/// Generates the alternating series of equal-sized blocks, up to half the
/// screen height:
/// ```text
/// ---- ---- ---- ----
///   ---- ---- ----
/// ---- ---- ---- ----
/// ```
#[verifier::loop_isolation(false)]
fn generate_blocks(screen_size: Size) -> (blocks: Vec<StaticEntity>)
    requires
        6 <= screen_size.w <= 0x7fff,
        5 <= screen_size.h <= 21846,
    ensures
        blocks@ == spec_initial_blocks(screen_size),
        forall|i: int|
            0 <= i < blocks@.len() ==> spec_block_wf(#[trigger] blocks@[i], screen_size),
{
    let mut blocks: Vec<StaticEntity> = Vec::new();
    let block_row_end: u16 = screen_size.h / 2;
    let wlim: u16 = screen_size.w - BLOCK_WIDTH;
    let mut row: u16 = 2;
    let mut color_index: u16 = 0;
    while row < block_row_end
        invariant
            2 <= row,
            color_index < 4,
            spec_rows_blocks(2, block_row_end as int, wlim as int, 0) == blocks@
                + spec_rows_blocks(row as int, block_row_end as int, wlim as int, color_index as int),
            forall|i: int|
                0 <= i < blocks@.len() ==> spec_block_wf(#[trigger] blocks@[i], screen_size),
        decreases spec_remaining(block_row_end as int, row as int),
    {
        let col_offset: u16 = if row % BLOCK_HEIGHT == 0 {
            0
        } else {
            BLOCK_WIDTH / 2
        };
        let mut col: u16 = col_offset;
        let ghost blocks_before = blocks@;
        let ghost row_ci = color_index as int;
        while col < wlim
            invariant
                color_index < 4,
                blocks_before + spec_row_blocks(col_offset as int, row as int, wlim as int, row_ci).0
                    == blocks@ + spec_row_blocks(col as int, row as int, wlim as int, color_index as int).0,
                spec_row_blocks(col_offset as int, row as int, wlim as int, row_ci).1
                    == spec_row_blocks(col as int, row as int, wlim as int, color_index as int).1,
                forall|i: int|
                    0 <= i < blocks@.len() ==> spec_block_wf(#[trigger] blocks@[i], screen_size),
            decreases spec_remaining(wlim as int, col as int),
        {
            let new_block = StaticEntity {
                collider: Square { x: col, y: row, w: BLOCK_WIDTH, h: BLOCK_HEIGHT },
                alive: true,
                color: palette(color_index),
            };
            blocks.push(new_block);
            proof {
                assert(blocks_before + spec_row_blocks(col_offset as int, row as int, wlim as int, row_ci).0
                    =~= blocks@ + spec_row_blocks(col as int + 5, row as int, wlim as int,
                        spec_toggle_color(color_index as int)).0);
            }
            col = col + BLOCK_WIDTH + 1;
            color_index = if color_index % 2 == 0 {
                color_index + 1
            } else {
                color_index - 1
            };
        }
        proof {
            assert(blocks_before + spec_row_blocks(col_offset as int, row as int, wlim as int, row_ci).0
                =~= blocks@);
            assert(spec_rows_blocks(2, block_row_end as int, wlim as int, 0) =~= blocks@
                + spec_rows_blocks(row as int + 3, block_row_end as int, wlim as int,
                    spec_reset_color(color_index as int)));
        }
        color_index = if color_index < 2 {
            2
        } else {
            0
        };
        row = row + BLOCK_HEIGHT + 1;
    }
    blocks
}

impl Game {
    /// Builds a game from a raw terminal size: the playfield is the raw size
    /// minus one cell on each axis, the ball and the paddle take their fixed
    /// starting places, and the block field is generated deterministically.
    /// The size bounds keep every coordinate computation inside 16 bits.
    pub fn new(screen_size: (u16, u16)) -> (g: Game)
        requires
            7 <= screen_size.0 <= 0x8000,
            6 <= screen_size.1 <= 21847,
        ensures
            g.wf(),
            g.screen_size.w == screen_size.0 - 1,
            g.screen_size.h == screen_size.1 - 1,
            g.ball == spec_initial_ball(g.screen_size),
            g.paddle == spec_initial_paddle(g.screen_size),
            g.blocks@ == spec_initial_blocks(g.screen_size),
    {
        let screen_size = Size { w: screen_size.0 - 1, h: screen_size.1 - 1 };
        Game {
            ball: PhysicsEntity {
                collider: Square {
                    x: screen_size.w / 2,
                    y: screen_size.h / 2 + 2,
                    w: 1,
                    h: 1,
                },
                speed: Vec2d { x: 1, y: 1 },
                alive: true,
            },
            paddle: PlayerEntity {
                collider: Square {
                    x: screen_size.w / 2 - 3,
                    y: screen_size.h - 3,
                    w: 6,
                    h: 1,
                },
                speed: Vec2d { x: 0, y: 0 },
                alive: true,
            },
            blocks: generate_blocks(screen_size),
            screen_size,
        }
    }

    /// Updates the current game state by one tick.
    /// Returns true if the game should continue, false if not: a quit command
    /// returns false immediately and mutates nothing. Otherwise the paddle
    /// moves by the velocity the input sets, the ball moves, bounces off
    /// walls and paddle, and every alive block it overlaps is destroyed
    /// while steering it.
    #[verifier::loop_isolation(false)]
    #[verifier::rlimit(50)]
    pub fn update(&mut self, pressed_key: Option<Command>) -> (r: bool)
        requires
            old(self).wf(),
        ensures
            final(self).wf(),
            pressed_key == Some(Command::Quit) ==> r == false,
            pressed_key == Some(Command::Quit) ==> *final(self) == *old(self),
            pressed_key != Some(Command::Quit) ==> r == true,
            pressed_key != Some(Command::Quit) ==> final(self).screen_size == old(self).screen_size,
            pressed_key != Some(Command::Quit) ==> final(self).paddle == spec_paddle_step(
                *old(self),
                pressed_key,
            ),
            pressed_key != Some(Command::Quit) ==> final(self).blocks@ == spec_tick(
                *old(self),
                pressed_key,
            ).0,
            pressed_key != Some(Command::Quit) ==> final(self).ball == spec_tick(
                *old(self),
                pressed_key,
            ).1,
    {
        // Set the paddle's velocity from the input
        match pressed_key {
            Some(key) => match key {
                Command::Quit => {
                    // Just bail out immediately if we're quitting
                    return false;
                },
                Command::MoveLeft => {
                    self.paddle.speed.x = -1;
                },
                Command::MoveRight => {
                    self.paddle.speed.x = 1;
                },
            },
            None => {
                self.paddle.speed.x = 0;
            },
        }
        // Move our paddle
        self.paddle.apply_speed(self.screen_size);
        assert(self.paddle == spec_paddle_step(*old(self), pressed_key));
        // Move our ball
        self.ball.apply_speed(self.screen_size);
        assert(self.ball == spec_ball_moved(*old(self)));
        assert(self.ball.collider.x + self.ball.collider.w <= self.screen_size.w);
        assert(self.ball.collider.y + self.ball.collider.h <= self.screen_size.h);
        // Bounce our ball off the outer walls
        if self.ball.collider.x + self.ball.collider.w == self.screen_size.w
            || self.ball.collider.x == 0 {
            self.ball.speed.x = -self.ball.speed.x;
        }
        if self.ball.collider.y + self.ball.collider.h == self.screen_size.h
            || self.ball.collider.y == 0 {
            self.ball.speed.y = -self.ball.speed.y;
        }
        assert(self.ball == spec_wall_bounce(spec_ball_moved(*old(self)), old(self).screen_size));
        // Check for collisions against our paddle
        assert(self.paddle.collider.x + self.paddle.collider.w <= self.screen_size.w);
        if self.ball.collider.collides_with(&self.paddle.collider) {
            self.ball.speed.y = -self.ball.speed.y;
            // horizontal velocity is set by which half of the paddle was hit
            if self.ball.collider.x > self.paddle.collider.x + self.paddle.collider.w / 2 {
                self.ball.speed.x = -1;
            } else {
                self.ball.speed.x = 1;
            }
        }
        assert(self.ball == spec_ball_after_paddle(*old(self), pressed_key));
        // Check for collisions against our blocks, and then destroy them
        let ghost ball0 = self.ball;
        let ghost blocks0 = self.blocks@;
        let n: usize = self.blocks.len();
        let mut i: usize = 0;
        while i < n
            invariant
                i <= n,
                self.screen_size == old(self).screen_size,
                self.paddle == spec_paddle_step(*old(self), pressed_key),
                self.blocks@.len() == n,
                forall|j: int| i <= j < n ==> self.blocks@[j] == blocks0[j],
                spec_resolve_blocks(blocks0.take(i as int), ball0).0 == self.blocks@.take(i as int),
                spec_resolve_blocks(blocks0.take(i as int), ball0).1 == self.ball,
                self.ball.collider == ball0.collider,
                self.ball.alive == ball0.alive,
                self.ball.speed.x == 1 || self.ball.speed.x == -1,
                self.ball.speed.y == 1 || self.ball.speed.y == -1,
                forall|j: int|
                    0 <= j < n ==> spec_block_wf(#[trigger] self.blocks@[j], self.screen_size),
            decreases n - i,
        {
            proof {
                assert(blocks0.take(i + 1 as int).drop_last() =~= blocks0.take(i as int));
            }
            let ghost ball_at_i = self.ball;
            if self.blocks[i].alive {
                let block_collider = self.blocks[i].collider;
                if block_collider.collides_with(&self.ball.collider) {
                    let mut blk = self.blocks[i];
                    blk.alive = false;
                    self.blocks.set(i, blk);
                    // Then bounce the ball, by the side of the block it struck
                    match self.ball.collider.get_collision_direction(&block_collider) {
                        Direction::UP => {
                            self.ball.speed.y = -self.ball.speed.y;
                        },
                        Direction::RIGHT => {
                            self.ball.speed.x = -self.ball.speed.x;
                        },
                        Direction::DOWN => {
                            self.ball.speed.y = -self.ball.speed.y;
                        },
                        Direction::LEFT => {
                            self.ball.speed.x = -self.ball.speed.x;
                        },
                    }
                }
            }
            proof {
                assert(spec_step_block(blocks0[i as int], ball_at_i)
                    == (self.blocks@[i as int], self.ball));
                assert(self.blocks@.take(i + 1 as int)
                    =~= self.blocks@.take(i as int).push(self.blocks@[i as int]));
            }
            i = i + 1;
        }
        proof {
            assert(blocks0.take(n as int) =~= blocks0);
            assert(self.blocks@.take(n as int) =~= self.blocks@);
        }
        true
    }

    /// Emits the list of paint requests for the current state, in drawing
    /// order: every alive block in its stored color, then the paddle in cyan,
    /// then the ball in red. Dead blocks are skipped. The host hands each
    /// request to the rendering surface.
    #[verifier::loop_isolation(false)]
    pub fn draw(&self) -> (ops: Vec<(Square, Color)>)
        ensures
            ops@ == spec_draw_ops(*self),
    {
        let mut ops: Vec<(Square, Color)> = Vec::new();
        let n: usize = self.blocks.len();
        let mut i: usize = 0;
        while i < n
            invariant
                i <= n,
                ops@ == spec_draw_blocks(self.blocks@.take(i as int)),
            decreases n - i,
        {
            proof {
                assert(self.blocks@.take(i + 1 as int).drop_last() =~= self.blocks@.take(i as int));
            }
            if self.blocks[i].alive {
                ops.push((self.blocks[i].collider, self.blocks[i].color));
            }
            i = i + 1;
        }
        proof {
            assert(self.blocks@.take(n as int) =~= self.blocks@);
        }
        ops.push((self.paddle.collider, Color::Cyan));
        ops.push((self.ball.collider, Color::Red));
        proof {
            assert(ops@ =~= spec_draw_ops(*self));
        }
        ops
    }
}

/// Resolving block collisions never moves the ball or the blocks: it only
/// flips velocity components and clears `alive` flags. In particular the
/// result has exactly one block per input block.
pub proof fn lemma_resolve_blocks_frame(blocks: Seq<StaticEntity>, ball: PhysicsEntity)
    ensures
        spec_resolve_blocks(blocks, ball).0.len() == blocks.len(),
        spec_resolve_blocks(blocks, ball).1.collider == ball.collider,
        spec_resolve_blocks(blocks, ball).1.alive == ball.alive,
    decreases blocks.len(),
{
    if blocks.len() > 0 {
        lemma_resolve_blocks_frame(blocks.drop_last(), ball);
    }
}

/// If no alive block overlapping the ball classifies as a LEFT or RIGHT
/// impact, resolving the blocks leaves the ball's horizontal velocity alone.
pub proof fn lemma_resolve_keeps_vx(blocks: Seq<StaticEntity>, ball: PhysicsEntity)
    requires
        forall|i: int| 0 <= i < blocks.len() ==> !spec_block_steers_x(#[trigger] blocks[i], ball),
    ensures
        spec_resolve_blocks(blocks, ball).1.speed.x == ball.speed.x,
    decreases blocks.len(),
{
    if blocks.len() > 0 {
        assert forall|i: int| 0 <= i < blocks.drop_last().len() implies !spec_block_steers_x(
            #[trigger] blocks.drop_last()[i],
            ball,
        ) by {
            assert(blocks.drop_last()[i] == blocks[i]);
        }
        lemma_resolve_keeps_vx(blocks.drop_last(), ball);
        lemma_resolve_blocks_frame(blocks.drop_last(), ball);
        assert(!spec_block_steers_x(blocks.last(), ball));
    }
}

/// Wall-bounce inversion: a ball on the left edge moving left still sits on
/// the edge after its movement phase (the coordinate saturates at 0), so the
/// tick inverts its horizontal velocity to +1. A paddle hit at that position
/// also sets +1, so the only interaction that could change it back is a
/// block impact on a LEFT or RIGHT side; the premise rules that out.
pub proof fn lemma_wall_bounce_inverts(g: Game)
    requires
        g.wf(),
        g.ball.collider.x == 0,
        g.ball.speed.x == -1,
        forall|i: int| 0 <= i < g.blocks@.len() ==> !spec_block_steers_x(
            #[trigger] g.blocks@[i],
            spec_ball_after_paddle(g, None),
        ),
    ensures
        spec_ball_after_paddle(g, None).speed.x == 1,
        spec_tick(g, None).1.speed.x == 1,
{
    assert(spec_ball_moved(g).collider.x == 0);
    assert(spec_wall_bounce(spec_ball_moved(g), g.screen_size).speed.x == 1);
    assert(spec_ball_after_paddle(g, None).speed.x == 1);
    lemma_resolve_keeps_vx(g.blocks@, spec_ball_after_paddle(g, None));
}

/// Paddle-hit steering: on any paddle contact the vertical velocity inverts,
/// and the horizontal velocity is set by which half of the paddle was hit:
/// -1 when the ball's left edge is strictly right of the paddle's horizontal
/// midpoint, +1 otherwise. The ball's position is untouched.
pub proof fn lemma_paddle_steering(ball: PhysicsEntity, paddle: Square)
    requires
        spec_overlaps(ball.collider, paddle),
        ball.speed.y == 1 || ball.speed.y == -1,
    ensures
        spec_paddle_bounce(ball, paddle).speed.y == -ball.speed.y,
        ball.collider.x > paddle.x + paddle.w / 2 ==> spec_paddle_bounce(ball, paddle).speed.x
            == -1,
        ball.collider.x <= paddle.x + paddle.w / 2 ==> spec_paddle_bounce(ball, paddle).speed.x
            == 1,
        spec_paddle_bounce(ball, paddle).collider == ball.collider,
{
}

/// Without input the paddle stays put: an absent command sets its velocity
/// to zero, and a paddle already inside the playfield is not displaced by
/// the containment clamp.
pub proof fn lemma_no_input_paddle_rest(g: Game)
    requires
        g.wf(),
        g.paddle.collider.x + g.paddle.collider.w <= g.screen_size.w,
        g.paddle.collider.y + g.paddle.collider.h <= g.screen_size.h,
    ensures
        spec_paddle_step(g, None).collider == g.paddle.collider,
        spec_paddle_step(g, None).speed.x == 0,
{
}

/// Block destruction is one-shot: a block hit this tick becomes non-alive,
/// a block that was already dead is left exactly as it is (and, by
/// `spec_step_block`, has no effect on the ball), and no block ever moves or
/// changes color.
pub proof fn lemma_block_destruction(blocks: Seq<StaticEntity>, ball: PhysicsEntity, i: int)
    requires
        0 <= i < blocks.len(),
    ensures
        spec_resolve_blocks(blocks, ball).0.len() == blocks.len(),
        spec_resolve_blocks(blocks, ball).0[i].collider == blocks[i].collider,
        spec_resolve_blocks(blocks, ball).0[i].color == blocks[i].color,
        blocks[i].alive && spec_overlaps(blocks[i].collider, ball.collider)
            ==> !spec_resolve_blocks(blocks, ball).0[i].alive,
        !blocks[i].alive ==> spec_resolve_blocks(blocks, ball).0[i] == blocks[i],
    decreases blocks.len(),
{
    lemma_resolve_blocks_frame(blocks, ball);
    let prev = spec_resolve_blocks(blocks.drop_last(), ball);
    lemma_resolve_blocks_frame(blocks.drop_last(), ball);
    if i < blocks.len() - 1 {
        lemma_block_destruction(blocks.drop_last(), ball, i);
        assert(blocks.drop_last()[i] == blocks[i]);
        assert(spec_resolve_blocks(blocks, ball).0[i] == prev.0[i]);
    } else {
        assert(prev.1.collider == ball.collider);
    }
}

/// Dead blocks are excluded from drawing: every block paint request comes
/// from a block that is alive, at its rectangle and in its color.
pub proof fn lemma_draw_only_alive(blocks: Seq<StaticEntity>, op: (Square, Color))
    requires
        spec_draw_blocks(blocks).contains(op),
    ensures
        exists|j: int|
            0 <= j < blocks.len() && #[trigger] blocks[j].alive && blocks[j].collider == op.0
                && blocks[j].color == op.1,
    decreases blocks.len(),
{
    let drawn = spec_draw_blocks(blocks);
    let init = spec_draw_blocks(blocks.drop_last());
    let k = choose|k: int| 0 <= k < drawn.len() && drawn[k] == op;
    if blocks.last().alive && k == drawn.len() - 1 {
        let j = blocks.len() - 1;
        assert(blocks[j].alive && blocks[j].collider == op.0 && blocks[j].color == op.1);
    } else {
        assert(init[k] == op);
        assert(init.contains(op));
        lemma_draw_only_alive(blocks.drop_last(), op);
        let j = choose|j: int|
            0 <= j < blocks.drop_last().len() && #[trigger] blocks.drop_last()[j].alive
                && blocks.drop_last()[j].collider == op.0 && blocks.drop_last()[j].color == op.1;
        assert(blocks[j].alive && blocks[j].collider == op.0 && blocks[j].color == op.1);
    }
}

} // verus!
