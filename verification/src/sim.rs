//! The per-frame simulation core: gravity integration, obstacle spawning,
//! culling and scrolling, and the collision/loss evaluator.
//!
//! Per tick the loop applies, in this order: gravity, spawn (on cadence),
//! cull (at most one, from the front), scroll (every obstacle, uniformly).
//! The evaluator then examines only the front obstacle of the stream.

use vstd::prelude::*;
use rand::Rng;
use std::collections::VecDeque;
use crate::entities::{Pipe, Player};
use crate::geometry::Rect;
use crate::{GAP_MIN, GRAVITY, PIPE_GAP, PIPE_SPEED, PIPE_WIDTH, PIPE_X_POS, SPAWN_INTERVAL,
    WINDOW_HEIGHT};

verus! {

/// Horizontal position of the second pair of a spawn: twice the spawn offset,
/// so the stream always holds one pair queued far ahead.
pub const PIPE_X_POS_FAR: i32 = PIPE_X_POS * 2;

/// Height of every bottom rectangle: from just under the gap down past the
/// floor line.
pub const BOT_PIPE_HEIGHT: i32 = WINDOW_HEIGHT - PIPE_GAP;

/// A gap-top height the spawner may draw: uniformly from
/// `[GAP_MIN, WINDOW_HEIGHT - GAP_MIN)`.
pub open spec fn valid_gap_height(n: i32) -> bool {
    GAP_MIN <= n < WINDOW_HEIGHT - GAP_MIN
}

/// Spawning fires exactly on the ticks whose frame count is a multiple of the
/// spawn cadence (so in particular on frame 0).
pub open spec fn is_spawn_tick(frame_count: i32) -> bool {
    frame_count % SPAWN_INTERVAL == 0
}

/// The obstacle pair a spawn at horizontal position `x` with gap-top height
/// `n` produces: the top rectangle spans from the screen's top edge down to
/// `n`, the bottom starts at `n + PIPE_GAP` and extends past the floor.
pub open spec fn spawned_pipe(x: i32, n: i32) -> Pipe {
    Pipe {
        top_pos: Rect { x, y: 0, w: PIPE_WIDTH, h: n },
        bot_pos: Rect { x, y: (n + PIPE_GAP) as i32, w: PIPE_WIDTH, h: BOT_PIPE_HEIGHT },
    }
}

/// One obstacle after one scroll step: moved left by the pipe speed, top and
/// bottom alike, sizes and vertical positions untouched.
pub open spec fn scrolled_pipe(p: Pipe) -> Pipe {
    Pipe {
        top_pos: Rect { x: (p.top_pos.x - PIPE_SPEED) as i32, ..p.top_pos },
        bot_pos: Rect { x: (p.bot_pos.x - PIPE_SPEED) as i32, ..p.bot_pos },
    }
}

/// The whole stream after one scroll step.
pub open spec fn scrolled_seq(s: Seq<Pipe>) -> Seq<Pipe> {
    s.map_values(|p: Pipe| scrolled_pipe(p))
}

/// The stream after the spawn step of a tick with frame count `f`, where
/// `n1` and `n2` are the gap-top heights drawn for the two new pairs.
pub open spec fn spawn_step(s: Seq<Pipe>, f: i32, n1: i32, n2: i32) -> Seq<Pipe> {
    if is_spawn_tick(f) {
        s.push(spawned_pipe(PIPE_X_POS, n1)).push(spawned_pipe(PIPE_X_POS_FAR, n2))
    } else {
        s
    }
}

/// The stream after the cull step: the front obstacle is removed exactly when
/// it has scrolled fully past the left edge, and never more than one.
pub open spec fn cull_step(s: Seq<Pipe>) -> Seq<Pipe> {
    if s.len() > 0 && s[0].top_pos.x <= -PIPE_WIDTH {
        s.drop_first()
    } else {
        s
    }
}

/// The obstacle stream after one full tick: spawn, then cull, then scroll.
pub open spec fn step_pipes(s: Seq<Pipe>, f: i32, n1: i32, n2: i32) -> Seq<Pipe> {
    scrolled_seq(cull_step(spawn_step(s, f, n1, n2)))
}

/// The player after the gravity step: while its bottom edge is strictly above
/// the floor it falls by the gravity constant; at or past the floor it rests.
pub open spec fn fallen_player(p: Player) -> Player {
    if p.pos.y + p.pos.h < WINDOW_HEIGHT {
        Player { pos: Rect { y: (p.pos.y + GRAVITY) as i32, ..p.pos }, ..p }
    } else {
        p
    }
}

/// The player's horizontal position lies within the obstacle's column.
pub open spec fn in_column(p: Player, o: Pipe) -> bool {
    o.top_pos.x <= p.pos.x <= o.top_pos.x + PIPE_WIDTH
}

/// The player's vertical position lies strictly within the obstacle's open
/// gap.
pub open spec fn in_gap(p: Player, o: Pipe) -> bool {
    o.top_pos.h < p.pos.y < o.top_pos.h + PIPE_GAP
}

/// The loss rule: while horizontally inside the obstacle's column the player
/// survives only strictly within the gap; outside the column it always
/// survives.
pub open spec fn survives(p: Player, o: Pipe) -> bool {
    in_column(p, o) ==> in_gap(p, o)
}

/// Gravity integration for one tick.
pub fn apply_gravity(player: &mut Player)
    requires
        old(player).pos.wf(),
        old(player).pos.y + old(player).pos.h <= i32::MAX,
    ensures
        *final(player) == fallen_player(*old(player)),
{
    if player.pos.y + player.pos.h < WINDOW_HEIGHT {
        player.pos.y = player.pos.y + GRAVITY;
    }
}

/// The collision/loss evaluator: examines only the obstacle at the front of
/// the stream, which must exist, and reports whether the player survives
/// this frame.
pub fn check_loss(player: &Player, pipes: &VecDeque<Pipe>) -> (alive: bool)
    requires
        pipes@.len() > 0,
        pipes@[0].top_pos.x + PIPE_WIDTH <= i32::MAX,
        pipes@[0].top_pos.h + PIPE_GAP <= i32::MAX,
    ensures
        alive == survives(*player, pipes@[0]),
{
    let pipe = &pipes[0];

    if player.pos.x >= pipe.top_pos.x && player.pos.x <= pipe.top_pos.x + PIPE_WIDTH {
        if !(player.pos.y > pipe.top_pos.h && player.pos.y < pipe.top_pos.h + PIPE_GAP) {
            return false;
        }
    }

    true
}

/// The obstacle can scroll one step left without leaving the machine
/// integers.
pub open spec fn pipe_scrollable(p: Pipe) -> bool {
    p.top_pos.x >= i32::MIN + PIPE_SPEED && p.bot_pos.x >= i32::MIN + PIPE_SPEED
}

/// Relies on `rand::Rng::gen_range` on the thread-local generator: it samples
/// uniformly from the half-open range, which must be non-empty, and the value
/// returned always lies within it.
#[verifier::external_body]
fn random_in_range(lo: i32, hi: i32) -> (n: i32)
    requires
        lo < hi,
    ensures
        lo <= n < hi,
{
    rand::thread_rng().gen_range(lo..hi)
}

/// The spawn step's effect for given draws: appends the two new pairs to the
/// back of the stream, in order — one at the spawn offset, one at twice the
/// spawn offset.
pub fn spawn_obstacles(pipes: &mut VecDeque<Pipe>, n1: i32, n2: i32)
    requires
        valid_gap_height(n1),
        valid_gap_height(n2),
    ensures
        final(pipes)@ == old(pipes)@.push(spawned_pipe(PIPE_X_POS, n1)).push(
            spawned_pipe(PIPE_X_POS_FAR, n2),
        ),
{
    let near = Pipe {
        top_pos: Rect { x: PIPE_X_POS, y: 0, w: PIPE_WIDTH, h: n1 },
        bot_pos: Rect { x: PIPE_X_POS, y: n1 + PIPE_GAP, w: PIPE_WIDTH, h: BOT_PIPE_HEIGHT },
    };
    pipes.push_back(near);

    let far = Pipe {
        top_pos: Rect { x: PIPE_X_POS_FAR, y: 0, w: PIPE_WIDTH, h: n2 },
        bot_pos: Rect { x: PIPE_X_POS_FAR, y: n2 + PIPE_GAP, w: PIPE_WIDTH, h: BOT_PIPE_HEIGHT },
    };
    pipes.push_back(far);
}

/// The cull step: removes the front obstacle exactly when it has scrolled
/// fully past the left edge, and never more than one per tick.
pub fn cull_front(pipes: &mut VecDeque<Pipe>)
    requires
        old(pipes)@.len() > 0,
    ensures
        final(pipes)@ == cull_step(old(pipes)@),
{
    if pipes[0].top_pos.x <= -PIPE_WIDTH {
        pipes.pop_front();
    }
}

/// The scroll step: every obstacle moves left by the pipe speed, top and
/// bottom rectangles alike, order preserved.
pub fn scroll_all(pipes: &mut VecDeque<Pipe>)
    requires
        forall|i: int| 0 <= i < old(pipes)@.len() ==> pipe_scrollable(#[trigger] old(pipes)@[i]),
    ensures
        final(pipes)@ == scrolled_seq(old(pipes)@),
{
    let ghost s = pipes@;
    let mut scrolled: VecDeque<Pipe> = VecDeque::new();
    let n: usize = pipes.len();
    let mut i: usize = 0;
    while i < n
        invariant
            i <= n,
            n == s.len(),
            pipes@ == s.subrange(i as int, n as int),
            scrolled@ == scrolled_seq(s.subrange(0, i as int)),
            forall|j: int| 0 <= j < s.len() ==> pipe_scrollable(#[trigger] s[j]),
        decreases n - i,
    {
        let p = pipes.pop_front().unwrap();
        assert(p == s[i as int]);
        let moved = Pipe {
            top_pos: Rect { x: p.top_pos.x - PIPE_SPEED, ..p.top_pos },
            bot_pos: Rect { x: p.bot_pos.x - PIPE_SPEED, ..p.bot_pos },
        };
        scrolled.push_back(moved);
        i = i + 1;
        proof {
            assert(pipes@ =~= s.subrange(i as int, n as int));
            assert(s.subrange(0, i as int).drop_last() =~= s.subrange(0, i as int - 1));
            assert(scrolled@ =~= scrolled_seq(s.subrange(0, i as int)));
        }
    }
    proof {
        assert(s.subrange(0, n as int) =~= s);
    }
    *pipes = scrolled;
}

/// One full simulation step, in order: gravity integration, spawn on cadence
/// (two pairs, each with an independently drawn gap-top height), cull of the
/// front obstacle once off-screen, and a uniform scroll of the whole stream.
///
/// The stream must be non-empty unless this tick spawns, so that the cull
/// step's front access cannot fail; the spawn cadence fires on frame 0, so a
/// run that starts with an empty stream is safe.
pub fn update(player: &mut Player, pipes: &mut VecDeque<Pipe>, frame_count: i32)
    requires
        old(player).pos.wf(),
        old(player).pos.y + old(player).pos.h <= i32::MAX,
        frame_count >= 0,
        is_spawn_tick(frame_count) || old(pipes)@.len() > 0,
        forall|i: int| 0 <= i < old(pipes)@.len() ==> pipe_scrollable(#[trigger] old(pipes)@[i]),
    ensures
        *final(player) == fallen_player(*old(player)),
        exists|n1: i32, n2: i32|
            valid_gap_height(n1) && valid_gap_height(n2) && final(pipes)@ == step_pipes(
                old(pipes)@,
                frame_count,
                n1,
                n2,
            ),
{
    apply_gravity(player);

    let ghost s0 = pipes@;
    let mut gn1: i32 = GAP_MIN;
    let mut gn2: i32 = GAP_MIN;
    if frame_count % SPAWN_INTERVAL == 0 {
        gn1 = random_in_range(GAP_MIN, WINDOW_HEIGHT - GAP_MIN);
        gn2 = random_in_range(GAP_MIN, WINDOW_HEIGHT - GAP_MIN);
        spawn_obstacles(pipes, gn1, gn2);
    }
    assert(pipes@ == spawn_step(s0, frame_count, gn1, gn2));

    cull_front(pipes);
    scroll_all(pipes);

    assert(pipes@ == step_pipes(s0, frame_count, gn1, gn2));
}

/// Spawning occurs exactly on cadence ticks: such a tick appends the two new
/// pairs, in order, to the back of the stream; any other tick appends
/// nothing.
pub proof fn lemma_spawn_cadence(s: Seq<Pipe>, f: i32, n1: i32, n2: i32)
    ensures
        is_spawn_tick(f) ==> spawn_step(s, f, n1, n2) == s.push(spawned_pipe(PIPE_X_POS, n1)).push(
            spawned_pipe(PIPE_X_POS_FAR, n2),
        ),
        is_spawn_tick(f) ==> spawn_step(s, f, n1, n2).len() == s.len() + 2,
        !is_spawn_tick(f) ==> spawn_step(s, f, n1, n2) == s,
{
}

/// Gravity moves the player down by exactly the gravity constant while its
/// bottom edge is strictly above the floor, and not at all otherwise;
/// nothing else about the player changes.
pub proof fn lemma_gravity_step(p: Player)
    requires
        p.pos.wf(),
    ensures
        p.pos.y + p.pos.h < WINDOW_HEIGHT ==> fallen_player(p).pos.y == p.pos.y + GRAVITY,
        p.pos.y + p.pos.h >= WINDOW_HEIGHT ==> fallen_player(p) == p,
        fallen_player(p).pos.x == p.pos.x,
        fallen_player(p).pos.w == p.pos.w,
        fallen_player(p).pos.h == p.pos.h,
        fallen_player(p).color == p.color,
{
}

/// One scroll step moves every obstacle left by exactly the pipe speed,
/// applied identically to the top and bottom rectangles, and changes nothing
/// else — neither the order nor the number of obstacles.
pub proof fn lemma_scroll_uniform(s: Seq<Pipe>)
    requires
        forall|i: int| 0 <= i < s.len() ==> pipe_scrollable(#[trigger] s[i]),
    ensures
        scrolled_seq(s).len() == s.len(),
        forall|i: int| 0 <= i < s.len() ==> #[trigger] scrolled_seq(s)[i].top_pos.x == s[i].top_pos.x
            - PIPE_SPEED,
        forall|i: int| 0 <= i < s.len() ==> #[trigger] scrolled_seq(s)[i].bot_pos.x == s[i].bot_pos.x
            - PIPE_SPEED,
        forall|i: int| 0 <= i < s.len() ==> {
            let moved = #[trigger] scrolled_seq(s)[i];
            moved.top_pos.y == s[i].top_pos.y && moved.top_pos.w == s[i].top_pos.w
                && moved.top_pos.h == s[i].top_pos.h && moved.bot_pos.y == s[i].bot_pos.y
                && moved.bot_pos.w == s[i].bot_pos.w && moved.bot_pos.h == s[i].bot_pos.h
        },
{
}

/// The cull step removes an obstacle from the front exactly when its
/// horizontal position has reached the off-screen threshold, and never
/// removes more than one.
pub proof fn lemma_cull_at_most_one(s: Seq<Pipe>)
    requires
        s.len() > 0,
    ensures
        s[0].top_pos.x <= -PIPE_WIDTH ==> cull_step(s) == s.drop_first(),
        s[0].top_pos.x > -PIPE_WIDTH ==> cull_step(s) == s,
        cull_step(s).len() >= s.len() - 1,
{
}

/// Outside the obstacle's column the evaluator reports survival, whatever the
/// player's vertical position.
pub proof fn lemma_outside_column_survives(p: Player, o: Pipe)
    requires
        !in_column(p, o),
    ensures
        survives(p, o),
{
}

/// Inside the obstacle's column, survival holds exactly when the player's
/// vertical position lies strictly within the open gap.
pub proof fn lemma_inside_column_survival(p: Player, o: Pipe)
    requires
        in_column(p, o),
    ensures
        survives(p, o) <==> (o.top_pos.h < p.pos.y < o.top_pos.h + PIPE_GAP),
{
}

/// Evaluating one unmodified state twice yields one answer: any two results
/// that meet the evaluator's contract on the same state are equal.
pub proof fn lemma_evaluator_deterministic(p: Player, o: Pipe, r1: bool, r2: bool)
    requires
        r1 == survives(p, o),
        r2 == survives(p, o),
    ensures
        r1 == r2,
{
}

} // verus!
