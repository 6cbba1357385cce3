//! Per-frame uniform and interaction state: the frame clock that derives
//! the time uniforms from a monotonic clock, and the two-state mouse state
//! machine. Coordinates and times are plain integers (pixels and
//! milliseconds); the host converts them to the GPU's floating-point
//! uniforms at the boundary.

use vstd::prelude::*;

verus! {

/// One corner of the static full-screen quad: a position in the clip-space
/// square and its texture coordinate, as small integers the host widens to
/// the GPU's vertex format.
#[derive(Clone, Copy, PartialEq, Eq, Structural, Debug)]
pub struct QuadVertex {
    pub pos_x: i8,
    pub pos_y: i8,
    pub u: u8,
    pub v: u8,
}

/// The four corners of the static full-screen quad, in declaration order:
/// bottom-left, bottom-right, top-right, top-left, with matching texture
/// coordinates.
pub fn quad_vertices() -> (r: Vec<QuadVertex>)
    ensures
        r@.len() == 4,
        r@[0] == (QuadVertex { pos_x: -1i8, pos_y: -1i8, u: 0, v: 0 }),
        r@[1] == (QuadVertex { pos_x: 1, pos_y: -1i8, u: 1, v: 0 }),
        r@[2] == (QuadVertex { pos_x: 1, pos_y: 1, u: 1, v: 1 }),
        r@[3] == (QuadVertex { pos_x: -1i8, pos_y: 1, u: 0, v: 1 }),
{
    let mut v: Vec<QuadVertex> = Vec::new();
    v.push(QuadVertex { pos_x: -1, pos_y: -1, u: 0, v: 0 });
    v.push(QuadVertex { pos_x: 1, pos_y: -1, u: 1, v: 0 });
    v.push(QuadVertex { pos_x: 1, pos_y: 1, u: 1, v: 1 });
    v.push(QuadVertex { pos_x: -1, pos_y: 1, u: 0, v: 1 });
    v
}

/// The index list of the full-screen quad: two triangles over the four
/// corners.
pub fn quad_indices() -> (r: Vec<u16>)
    ensures
        r@ =~= seq![0u16, 1u16, 2u16, 0u16, 2u16, 3u16],
{
    let mut v: Vec<u16> = Vec::new();
    v.push(0);
    v.push(1);
    v.push(2);
    v.push(0);
    v.push(2);
    v.push(3);
    v
}

/// The time-derived uniforms of one frame. The frame rate is the exact
/// rational `rate_num / rate_den` in frames per second.
pub struct FrameTiming {
    /// Milliseconds since process start.
    pub time_ms: u64,
    /// Milliseconds since the previous frame.
    pub delta_ms: u64,
    /// Frame counter, starting at 1 for the first frame.
    pub frame: u64,
    /// Frame rate numerator.
    pub rate_num: u64,
    /// Frame rate denominator; never zero.
    pub rate_den: u64,
}

/// The frame rate of a timing is exactly the reciprocal of its frame
/// delta: `rate_num / rate_den == 1000 ms / delta_ms` frames per second.
pub open spec fn spec_rate_is_reciprocal(t: FrameTiming) -> bool {
    t.rate_den != 0 && t.rate_num * t.delta_ms == 1000 * t.rate_den
}

/// The clock the frame scheduler ticks once per frame.
pub struct FrameClock {
    /// Reading of the monotonic clock at the previous tick, in
    /// milliseconds since process start.
    pub last_ms: u64,
    /// Frames ticked so far.
    pub frame: u64,
}

impl FrameClock {
    /// A clock that has seen no frame yet.
    pub fn new() -> (c: FrameClock)
        ensures
            c.last_ms == 0,
            c.frame == 0,
    {
        FrameClock { last_ms: 0, frame: 0 }
    }

    /// Advance by one frame at the given monotonic reading and compute the
    /// frame's time uniforms. A frame delta of zero milliseconds gets the
    /// sentinel rate 0/1 instead of a division by zero.
    pub fn tick(&mut self, now_ms: u64) -> (t: FrameTiming)
        requires
            old(self).last_ms <= now_ms,
            old(self).frame < u64::MAX,
        ensures
            t.time_ms == now_ms,
            t.delta_ms == now_ms - old(self).last_ms,
            t.frame == old(self).frame + 1,
            t.delta_ms > 0 ==> t.rate_num == 1000 && t.rate_den == t.delta_ms,
            t.delta_ms > 0 ==> spec_rate_is_reciprocal(t),
            t.delta_ms == 0 ==> t.rate_num == 0 && t.rate_den == 1,
            final(self).last_ms == now_ms,
            final(self).frame == t.frame,
    {
        let delta_ms = now_ms - self.last_ms;
        self.last_ms = now_ms;
        self.frame = self.frame + 1;
        let (rate_num, rate_den) = if delta_ms > 0 {
            (1000u64, delta_ms)
        } else {
            (0u64, 1u64)
        };
        FrameTiming { time_ms: now_ms, delta_ms, frame: self.frame, rate_num, rate_den }
    }
}

/// The mouse uniform: current position and the drag origin, both in the
/// bottom-left-origin space the shader convention asks for.
#[derive(Clone, Copy, PartialEq, Eq, Structural, Debug)]
pub struct MouseUniform {
    pub x: i64,
    pub y: i64,
    pub origin_x: i64,
    pub origin_y: i64,
}

/// The two states of the mouse machine. A drag stores its origin already
/// converted to the bottom-left-origin space.
#[derive(Clone, Copy, PartialEq, Eq, Structural, Debug)]
pub enum MouseState {
    Up,
    Down { origin_x: i64, origin_y: i64 },
}

/// Mouse state machine and the uniform it maintains. Window coordinates
/// arrive top-left-origin; the y axis is flipped against the current
/// resolution height.
#[derive(Clone, Copy, PartialEq, Eq, Structural, Debug)]
pub struct Interaction {
    pub state: MouseState,
    pub mouse: MouseUniform,
}

/// Effect of a press: start a drag at the flipped position; the uniform
/// changes only on motion.
pub open spec fn spec_button_down(i: Interaction, x: i32, y: i32, height: i32) -> Interaction {
    Interaction {
        state: MouseState::Down { origin_x: x as i64, origin_y: (height - y) as i64 },
        mouse: i.mouse,
    }
}

/// Effect of a release: end the drag; the last uniform value persists.
pub open spec fn spec_button_up(i: Interaction) -> Interaction {
    Interaction { state: MouseState::Up, mouse: i.mouse }
}

/// Effect of a motion: during a drag, the uniform tracks the flipped
/// position and keeps the drag origin; outside a drag, nothing.
pub open spec fn spec_motion(i: Interaction, x: i32, y: i32, height: i32) -> Interaction {
    match i.state {
        MouseState::Up => i,
        MouseState::Down { origin_x, origin_y } => Interaction {
            state: i.state,
            mouse: MouseUniform {
                x: x as i64,
                y: (height - y) as i64,
                origin_x,
                origin_y,
            },
        },
    }
}

/// All motions of a drag applied in order; each entry is (x, y, height).
pub open spec fn spec_apply_motions(i: Interaction, moves: Seq<(i32, i32, i32)>) -> Interaction
    decreases moves.len(),
{
    if moves.len() == 0 {
        i
    } else {
        spec_apply_motions(
            spec_motion(i, moves[0].0, moves[0].1, moves[0].2),
            moves.drop_first(),
        )
    }
}

impl Interaction {
    /// Before any event: no drag, zero uniform.
    pub fn new() -> (i: Interaction)
        ensures
            i.state == MouseState::Up,
            i.mouse == (MouseUniform { x: 0, y: 0, origin_x: 0, origin_y: 0 }),
    {
        Interaction {
            state: MouseState::Up,
            mouse: MouseUniform { x: 0, y: 0, origin_x: 0, origin_y: 0 },
        }
    }

    /// The left button went down at a window position.
    pub fn button_down(&mut self, x: i32, y: i32, height: i32)
        ensures
            *final(self) == spec_button_down(*old(self), x, y, height),
    {
        self.state = MouseState::Down { origin_x: x as i64, origin_y: height as i64 - y as i64 };
    }

    /// The left button went up.
    pub fn button_up(&mut self)
        ensures
            *final(self) == spec_button_up(*old(self)),
    {
        self.state = MouseState::Up;
    }

    /// The mouse moved to a window position.
    pub fn motion(&mut self, x: i32, y: i32, height: i32)
        ensures
            *final(self) == spec_motion(*old(self), x, y, height),
    {
        match self.state {
            MouseState::Up => {},
            MouseState::Down { origin_x, origin_y } => {
                self.mouse = MouseUniform {
                    x: x as i64,
                    y: height as i64 - y as i64,
                    origin_x,
                    origin_y,
                };
            },
        }
    }
}

/// During a drag, motions keep the drag state and never move the origin.
pub proof fn lemma_motions_keep_origin(i: Interaction, moves: Seq<(i32, i32, i32)>)
    requires
        i.state is Down,
    ensures
        spec_apply_motions(i, moves).state == i.state,
        moves.len() == 0 ==> spec_apply_motions(i, moves) == i,
        moves.len() > 0 ==> spec_apply_motions(i, moves).mouse.origin_x == i.state->Down_origin_x
            && spec_apply_motions(i, moves).mouse.origin_y == i.state->Down_origin_y,
    decreases moves.len(),
{
    if moves.len() > 0 {
        let next = spec_motion(i, moves[0].0, moves[0].1, moves[0].2);
        lemma_motions_keep_origin(next, moves.drop_first());
    }
}

/// Law: a drag started at a window position keeps its flipped origin in
/// the mouse uniform through every intermediate motion, until release.
pub proof fn lemma_drag_origin_stable(
    start: Interaction,
    x: i32,
    y: i32,
    height: i32,
    moves: Seq<(i32, i32, i32)>,
)
    ensures
        ({
            let dragged = spec_apply_motions(spec_button_down(start, x, y, height), moves);
            dragged.state == (MouseState::Down {
                origin_x: x as i64,
                origin_y: (height - y) as i64,
            }) && (moves.len() > 0 ==> dragged.mouse.origin_x == x as i64
                && dragged.mouse.origin_y == (height - y) as i64)
        }),
{
    lemma_motions_keep_origin(spec_button_down(start, x, y, height), moves);
}

} // verus!
