//! Movement and navigation state machine for a player token travelling
//! between a small fixed set of waypoints ("markers") on an overworld map.
//!
//! The library owns the marker registry ([`Overworld`]) and the player's
//! navigation state ([`Player`]): which game marker is active, how far the
//! current move has progressed, and which two positions the host must
//! interpolate between for the frame being rendered. Positions themselves are
//! opaque to the library: a [`Vec2`] carries two 32-bit component encodings
//! chosen by the host (the shipped host layer uses IEEE-754 single-precision
//! bit patterns), and the library only stores, copies and hands them back,
//! never doing arithmetic on them. The host performs the actual interpolation
//! that [`AnimStep::Lerp`] asks for and reports the result through
//! [`Player::set_current`].

use vstd::prelude::*;

verus! {

/// Half-duration of one move, in frames: each of the two animation phases
/// lasts `SPEED` ticks, so a full move takes `2 * SPEED` ticks.
pub const SPEED: i32 = 20;

/// Smallest valid game-marker index.
pub const GAME_MARKER_FIRST: i32 = 0;

/// Largest valid game-marker index.
pub const GAME_MARKER_LAST: i32 = 2;

/// Index of the midpoint marker, the mandatory waypoint of every move.
/// It is a slot of the registry but never a navigation target.
pub const MIDPOINT_MARKER: i32 = 3;

/// A two-dimensional position. The components are opaque 32-bit encodings
/// supplied by the host; the library never interprets them.
#[derive(Clone, Copy, PartialEq, Eq, Structural, Debug)]
pub struct Vec2 {
    pub x: u32,
    pub y: u32,
}

impl Vec2 {
    /// The zero position, the initial value of every marker slot.
    pub fn new() -> (v: Vec2)
        ensures
            v == (Vec2 { x: 0, y: 0 }),
    {
        Vec2 { x: 0, y: 0 }
    }

    /// A position with the given component encodings.
    pub fn with(x: u32, y: u32) -> (v: Vec2)
        ensures
            v == (Vec2 { x, y }),
    {
        Vec2 { x, y }
    }
}

/// The four marker slots, indexed `0..=3`: the three game markers followed by
/// the midpoint.
pub type Markers = [Vec2; 4];

/// The marker registry: a fixed-size store of the four waypoint positions,
/// written by the host (for example on map load) and read by every player
/// operation.
pub struct Overworld {
    pub markers: Markers,
}

impl Overworld {
    /// A registry with every slot at the zero position.
    pub fn new() -> (w: Overworld)
        ensures
            forall|i: int| 0 <= i < 4 ==> w.markers[i] == (Vec2 { x: 0, y: 0 }),
    {
        Overworld {
            markers: [
                Vec2 { x: 0, y: 0 },
                Vec2 { x: 0, y: 0 },
                Vec2 { x: 0, y: 0 },
                Vec2 { x: 0, y: 0 },
            ],
        }
    }

    /// Stores `location` at slot `index`, leaving the other slots unchanged.
    pub fn set_marker(&mut self, index: usize, location: Vec2)
        requires
            index < 4,
        ensures
            final(self).markers@ == old(self).markers@.update(index as int, location),
    {
        self.markers[index] = location;
    }
}

/// The game marker reached by one directional step from `mark`: one slot to
/// the left or to the right, wrapping circularly within the game-marker range.
pub open spec fn next_marker(mark: int, is_left: bool) -> int {
    if is_left {
        if mark - 1 < GAME_MARKER_FIRST {
            GAME_MARKER_LAST as int
        } else {
            mark - 1
        }
    } else {
        if mark + 1 > GAME_MARKER_LAST {
            GAME_MARKER_FIRST as int
        } else {
            mark + 1
        }
    }
}

/// What the host must render for the current frame: either the interpolation
/// `from + (to - from) * (tick / SPEED)` of two positions, with
/// `0 <= tick <= SPEED`, or a fixed position to hold.
#[derive(Clone, Copy, PartialEq, Eq, Structural, Debug)]
pub enum AnimStep {
    Lerp { from: Vec2, to: Vec2, tick: i32 },
    Hold { at: Vec2 },
}

/// The navigating token: the position to render this frame (`curr`), the
/// position captured when the current animation segment began (`prev`), the
/// final target of the move (`dest`), the active game marker, and the frame
/// counter that drives the two interpolation phases.
#[derive(Clone, Copy, PartialEq, Eq, Structural, Debug)]
pub struct Player {
    pub curr: Vec2,
    pub prev: Vec2,
    pub dest: Vec2,
    pub curr_mark: i32,
    pub anim_count: i32,
}

impl Player {
    /// Well-formedness: the active marker is a game marker (never the
    /// midpoint), and the frame counter sits between a fresh move (0) and one
    /// past a finished move (`2 * SPEED + 1`), where it saturates.
    pub open spec fn wf(self) -> bool {
        &&& GAME_MARKER_FIRST <= self.curr_mark <= GAME_MARKER_LAST
        &&& 0 <= self.anim_count <= 2 * SPEED + 1
    }

    /// The move is still approaching the midpoint.
    pub open spec fn in_phase_a(self) -> bool {
        self.anim_count <= SPEED
    }

    /// The move has passed the midpoint and is approaching the destination.
    pub open spec fn in_phase_b(self) -> bool {
        SPEED < self.anim_count <= 2 * SPEED
    }

    /// The move has finished: the token sits on the active marker.
    pub open spec fn arrived(self) -> bool {
        self.anim_count > 2 * SPEED
    }

    /// A token at the zero position on the first game marker, with the frame
    /// counter at a move's full duration, so that one animation frame later it
    /// is arrived.
    pub fn new() -> (p: Player)
        ensures
            p.wf(),
            p.curr == (Vec2 { x: 0, y: 0 }),
            p.prev == (Vec2 { x: 0, y: 0 }),
            p.dest == (Vec2 { x: 0, y: 0 }),
            p.curr_mark == GAME_MARKER_FIRST,
            p.anim_count == 2 * SPEED,
    {
        Player {
            curr: Vec2 { x: 0, y: 0 },
            prev: Vec2 { x: 0, y: 0 },
            dest: Vec2 { x: 0, y: 0 },
            curr_mark: GAME_MARKER_FIRST,
            anim_count: SPEED * 2,
        }
    }

    /// The active marker as a slot index.
    fn get_current_mark(&self) -> (mark: usize)
        requires
            self.wf(),
        ensures
            mark == self.curr_mark,
    {
        self.curr_mark as usize
    }

    /// A discrete step to the adjacent game marker (keyboard input), leftward
    /// or rightward, wrapping circularly. Unconditionally begins a fresh move:
    /// the frame counter restarts, the current visual position becomes the
    /// interpolation source, and the new active marker's position becomes the
    /// destination.
    pub fn update_pos_key(&mut self, is_left: bool, markers: &Markers)
        requires
            old(self).wf(),
        ensures
            final(self).wf(),
            final(self).curr_mark == next_marker(old(self).curr_mark as int, is_left),
            final(self).anim_count == 0,
            final(self).prev == old(self).curr,
            final(self).dest == markers[final(self).curr_mark as int],
            final(self).curr == old(self).curr,
    {
        // Move to the left
        if is_left {
            self.curr_mark = self.curr_mark - 1;
            if self.curr_mark < GAME_MARKER_FIRST {
                self.curr_mark = GAME_MARKER_LAST;
            }
        // Move to the right
        } else {
            self.curr_mark = self.curr_mark + 1;
            if self.curr_mark > GAME_MARKER_LAST {
                self.curr_mark = GAME_MARKER_FIRST;
            }
        }

        // Reset animation counter
        self.anim_count = 0;
        // Set starting position
        self.prev = self.curr;
        // Set ending position
        self.dest = markers[self.get_current_mark()];
    }

    /// A direct jump to a specific game marker (pointer input). `marker` must
    /// be a valid game-marker index.
    ///
    /// Asking for the marker that is already active changes nothing and only
    /// reports whether the token has arrived there, the signal on which the
    /// host may run arrival-dependent logic. Asking for a different marker
    /// retargets the move and reports `false`; if the move had already passed
    /// the midpoint the animation restarts from the current visual position,
    /// while a retarget still in the first phase keeps its progress and its
    /// interpolation source, so the approach to the midpoint is never begun
    /// twice. The destination becomes the new marker's position either way.
    pub fn update_pos_click(&mut self, marker: i32, markers: &Markers) -> (arrived: bool)
        requires
            old(self).wf(),
            GAME_MARKER_FIRST <= marker <= GAME_MARKER_LAST,
        ensures
            final(self).wf(),
            marker == old(self).curr_mark ==> {
                &&& *final(self) == *old(self)
                &&& arrived == old(self).arrived()
            },
            marker != old(self).curr_mark ==> {
                &&& !arrived
                &&& final(self).curr_mark == marker
                &&& final(self).dest == markers[marker as int]
                &&& final(self).curr == old(self).curr
                &&& (old(self).anim_count > SPEED ==> final(self).anim_count == 0
                    && final(self).prev == old(self).curr)
                &&& (old(self).anim_count <= SPEED
                    ==> final(self).anim_count == old(self).anim_count
                    && final(self).prev == old(self).prev)
            },
    {
        // If marker matches the current, no update is needed
        if marker == self.curr_mark {
            // Check if player has reached marker
            if self.anim_count <= SPEED * 2 {
                return false;  // Do not update level yet
            } else {
                return true;  // Update the level
            }
        }
        // Update the player's current marker
        self.curr_mark = marker;

        // If intersection has been passed
        if self.anim_count > SPEED {
            // Reset animation counter
            self.anim_count = 0;

            // Set starting position
            self.prev = self.curr;
        }
        // Set ending position - this is always changed
        self.dest = markers[self.get_current_mark()];
        false
    }

    /// One animation frame. While the move is in progress this tells the host
    /// which two positions to interpolate between — the segment source and the
    /// midpoint during the first phase, the midpoint and the destination
    /// during the second — at parameter `tick / SPEED`, and advances the frame
    /// counter; the host reports the interpolated position back through
    /// [`Player::set_current`]. Once the move has finished, the token is
    /// pinned exactly to the active marker's position.
    pub fn update_anim(&mut self, middle_waypoint: &Vec2, markers: &Markers) -> (step: AnimStep)
        requires
            old(self).wf(),
        ensures
            final(self).wf(),
            final(self).prev == old(self).prev,
            final(self).dest == old(self).dest,
            final(self).curr_mark == old(self).curr_mark,
            old(self).in_phase_a() ==> {
                &&& step == (AnimStep::Lerp {
                    from: old(self).prev,
                    to: *middle_waypoint,
                    tick: old(self).anim_count,
                })
                &&& final(self).anim_count == old(self).anim_count + 1
                &&& final(self).curr == old(self).curr
            },
            old(self).in_phase_b() ==> {
                &&& step == (AnimStep::Lerp {
                    from: *middle_waypoint,
                    to: old(self).dest,
                    tick: (old(self).anim_count - SPEED) as i32,
                })
                &&& final(self).anim_count == old(self).anim_count + 1
                &&& final(self).curr == old(self).curr
            },
            old(self).arrived() ==> {
                &&& step == (AnimStep::Hold { at: markers[old(self).curr_mark as int] })
                &&& final(self).curr == markers[old(self).curr_mark as int]
                &&& final(self).anim_count == old(self).anim_count
            },
    {
        // Move to the middle waypoint
        if self.anim_count <= SPEED {
            let step = AnimStep::Lerp { from: self.prev, to: *middle_waypoint, tick: self.anim_count };
            self.anim_count = self.anim_count + 1;
            step
        // Now move to the final destination waypoint
        } else if self.anim_count <= SPEED * 2 {
            let step = AnimStep::Lerp {
                from: *middle_waypoint,
                to: self.dest,
                tick: self.anim_count - SPEED,
            };
            self.anim_count = self.anim_count + 1;
            step
        // Stay at the current position
        } else {
            self.curr = markers[self.get_current_mark()];
            AnimStep::Hold { at: self.curr }
        }
    }

    /// Stores the position the host computed for this frame as the token's
    /// visual position; nothing else changes.
    pub fn set_current(&mut self, position: Vec2)
        ensures
            final(self).curr == position,
            final(self).prev == old(self).prev,
            final(self).dest == old(self).dest,
            final(self).curr_mark == old(self).curr_mark,
            final(self).anim_count == old(self).anim_count,
    {
        self.curr = position;
    }
}

/// The game marker reached from `mark` by a whole sequence of directional
/// steps, each `true` entry a leftward step.
pub open spec fn marker_after_moves(mark: int, moves: Seq<bool>) -> int
    decreases moves.len(),
{
    if moves.len() == 0 {
        mark
    } else {
        marker_after_moves(next_marker(mark, moves[0]), moves.skip(1))
    }
}

/// One directional step from a game marker lands on a game marker, and the
/// wrap is circular: a leftward step from the first game marker lands on the
/// last, a rightward step from the last lands on the first.
pub proof fn lemma_next_marker_wraps(mark: int, is_left: bool)
    requires
        GAME_MARKER_FIRST <= mark <= GAME_MARKER_LAST,
    ensures
        GAME_MARKER_FIRST <= next_marker(mark, is_left) <= GAME_MARKER_LAST,
        mark == GAME_MARKER_FIRST && is_left ==> next_marker(mark, is_left)
            == GAME_MARKER_LAST,
        mark == GAME_MARKER_LAST && !is_left ==> next_marker(mark, is_left)
            == GAME_MARKER_FIRST,
{
}

/// Every sequence of directional steps keeps the active marker within the
/// game-marker range.
pub proof fn lemma_moves_stay_in_range(mark: int, moves: Seq<bool>)
    requires
        GAME_MARKER_FIRST <= mark <= GAME_MARKER_LAST,
    ensures
        GAME_MARKER_FIRST <= marker_after_moves(mark, moves) <= GAME_MARKER_LAST,
    decreases moves.len(),
{
    if moves.len() > 0 {
        lemma_moves_stay_in_range(next_marker(mark, moves[0]), moves.skip(1));
    }
}

} // verus!
