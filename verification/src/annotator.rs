//! The idle-pointer state machine: one record, updated once per rendering
//! frame, that decides whether the idle annotation is painted.
//!
//! Per frame the host loop hands in the latest pointer sample (if the
//! pointer was observable at all) and the current time in milliseconds on
//! a monotonic clock. A sample that differs from the stored position
//! records the move and hides the annotation; once no move has been seen
//! for [`IDLE_THRESHOLD_MS`], the annotation turns visible and stays so
//! until the next move.

use vstd::prelude::*;
use crate::geom::{DrawCommand, Point};

verus! {

/// How long, in milliseconds, the pointer must sit still before the
/// annotation is shown.
pub const IDLE_THRESHOLD_MS: u64 = 200;

/// The whole mutable state of the annotator: the last observed pointer
/// position, when it last changed, and whether the annotation is
/// currently painted.
#[derive(Clone, Copy, PartialEq, Eq, Structural, Debug)]
pub struct AnnotatorState {
    /// Last observed pointer position; starts at the origin.
    pub position: Point,
    /// Monotonic instant, in milliseconds, of the last observed position
    /// change; starts at the construction instant.
    pub last_move_timestamp: u64,
    /// Whether the idle annotation should currently be painted.
    pub annotation_visible: bool,
}

impl AnnotatorState {
    /// Whether this frame's sample registers as a move: a sample is
    /// present and differs, in either coordinate, from the stored
    /// position.
    pub open spec fn sample_moves(self, sample: Option<Point>) -> bool {
        sample matches Some(p) && p != self.position
    }

    /// The state after a frame that registered no move, evaluated at
    /// `now_ms`: the annotation turns visible once the idle threshold has
    /// elapsed since the last recorded move.
    pub open spec fn spec_idle_step(self, now_ms: u64) -> AnnotatorState {
        if now_ms - self.last_move_timestamp >= IDLE_THRESHOLD_MS {
            AnnotatorState { annotation_visible: true, ..self }
        } else {
            self
        }
    }

    /// The state after one frame with sample `sample` evaluated at
    /// `now_ms`: a differing sample overwrites the position, resets the
    /// idle timer and hides the annotation; anything else leaves the
    /// record to the idle check alone.
    pub open spec fn spec_step(self, sample: Option<Point>, now_ms: u64) -> AnnotatorState {
        match sample {
            Some(p) => if p != self.position {
                AnnotatorState {
                    position: p,
                    last_move_timestamp: now_ms,
                    annotation_visible: false,
                }
            } else {
                self.spec_idle_step(now_ms)
            },
            None => self.spec_idle_step(now_ms),
        }
    }

    /// The draw decision for this state: the annotation's anchor when it
    /// is visible, nothing otherwise.
    pub open spec fn spec_draw(self) -> Option<DrawCommand> {
        if self.annotation_visible {
            Some(self.position.spec_anchor())
        } else {
            None
        }
    }

    /// Soundness of the visibility flag at time `now_ms`: the clock has
    /// not run backwards past the last recorded move, and the annotation
    /// is visible only once the idle threshold has elapsed since it.
    pub open spec fn inv(self, now_ms: u64) -> bool {
        &&& self.last_move_timestamp <= now_ms
        &&& (self.annotation_visible ==> now_ms - self.last_move_timestamp >= IDLE_THRESHOLD_MS)
    }

    /// The start state at construction time `now_ms`: position at the
    /// origin, idle timer just reset, annotation hidden.
    pub fn new(now_ms: u64) -> (s: AnnotatorState)
        ensures
            s.position == (Point { x: 0, y: 0 }),
            s.last_move_timestamp == now_ms,
            !s.annotation_visible,
            s.inv(now_ms),
    {
        AnnotatorState {
            position: Point::origin(),
            last_move_timestamp: now_ms,
            annotation_visible: false,
        }
    }

    /// One per-frame state update. Returns whether the sample registered
    /// as a move. Absence of a sample is a no-op apart from the idle
    /// check; time is read off a monotonic clock, so it never precedes
    /// the last recorded move.
    pub fn frame_update(&mut self, sample: Option<Point>, now_ms: u64) -> (moved: bool)
        requires
            old(self).last_move_timestamp <= now_ms,
        ensures
            moved == old(self).sample_moves(sample),
            *final(self) == old(self).spec_step(sample, now_ms),
    {
        let mut moved = false;
        if let Some(p) = sample {
            if p != self.position {
                self.position = p;
                self.last_move_timestamp = now_ms;
                self.annotation_visible = false;
                moved = true;
            }
        }
        if !moved && now_ms - self.last_move_timestamp >= IDLE_THRESHOLD_MS {
            self.annotation_visible = true;
        }
        moved
    }

    /// The draw decision for the current state: `Some` anchor exactly
    /// when the annotation is visible.
    pub fn draw_command(&self) -> (d: Option<DrawCommand>)
        ensures
            d == self.spec_draw(),
    {
        if self.annotation_visible {
            Some(self.position.anchor())
        } else {
            None
        }
    }

    /// One whole frame: update the state on this frame's sample, then
    /// decide what to paint.
    pub fn frame(&mut self, sample: Option<Point>, now_ms: u64) -> (d: Option<DrawCommand>)
        requires
            old(self).last_move_timestamp <= now_ms,
        ensures
            *final(self) == old(self).spec_step(sample, now_ms),
            d == final(self).spec_draw(),
    {
        self.frame_update(sample, now_ms);
        self.draw_command()
    }
}

/// The fixed literal painted while the pointer is idle.
pub fn annotation_text() -> (s: &'static str)
    ensures
        s@ == "You are not moving the pointer"@,
{
    "You are not moving the pointer"
}

/// A frame whose sample differs from the stored position hides the
/// annotation at once and resets the idle timer to that frame's time,
/// whatever the state was before.
pub proof fn lemma_move_hides_annotation(
    s: AnnotatorState,
    sample: Option<Point>,
    now_ms: u64,
)
    requires
        s.sample_moves(sample),
    ensures
        !s.spec_step(sample, now_ms).annotation_visible,
        s.spec_step(sample, now_ms).last_move_timestamp == now_ms,
        s.spec_step(sample, now_ms).position == sample->Some_0,
{
}

/// Once the idle threshold has elapsed since the last recorded move, the
/// first frame that registers no move and is evaluated at or past the
/// threshold turns the annotation visible, touching nothing else.
pub proof fn lemma_idle_shows_annotation(
    s: AnnotatorState,
    sample: Option<Point>,
    now_ms: u64,
)
    requires
        !s.sample_moves(sample),
        s.last_move_timestamp + IDLE_THRESHOLD_MS <= now_ms,
    ensures
        s.spec_step(sample, now_ms).annotation_visible,
        s.spec_step(sample, now_ms).position == s.position,
        s.spec_step(sample, now_ms).last_move_timestamp == s.last_move_timestamp,
{
}

/// Repeating the stored position (or missing a sample) never resets the
/// idle timer, never changes the position, and never turns a visible
/// annotation back off — only a differing position does.
pub proof fn lemma_no_move_preserves(
    s: AnnotatorState,
    sample: Option<Point>,
    now_ms: u64,
)
    requires
        !s.sample_moves(sample),
    ensures
        s.spec_step(sample, now_ms).position == s.position,
        s.spec_step(sample, now_ms).last_move_timestamp == s.last_move_timestamp,
        s.annotation_visible ==> s.spec_step(sample, now_ms).annotation_visible,
{
}

/// Stepping preserves soundness of the visibility flag: if the flag was
/// honest at some earlier instant, it is honest at the instant of the
/// frame that steps the state.
pub proof fn lemma_step_preserves_inv(
    s: AnnotatorState,
    sample: Option<Point>,
    then_ms: u64,
    now_ms: u64,
)
    requires
        s.inv(then_ms),
        then_ms <= now_ms,
    ensures
        s.spec_step(sample, now_ms).inv(now_ms),
{
}

} // verus!
