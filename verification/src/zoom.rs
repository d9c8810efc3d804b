//! The window content zoom level.
//!
//! The scale factor ranges over [0.5, 3.0] in steps of 0.1 and defaults to
//! 1.0. It is held here in tenths (an integer in [5, 30], default 10) so the
//! clamping arithmetic is exact; the host converts tenths to a scale factor
//! when it applies the level to a window.

use vstd::prelude::*;

verus! {

/// Smallest zoom level, in tenths (a scale factor of 0.5).
pub const ZOOM_MIN_TENTHS: u8 = 5;

/// Largest zoom level, in tenths (a scale factor of 3.0).
pub const ZOOM_MAX_TENTHS: u8 = 30;

/// Default zoom level, in tenths (a scale factor of 1.0).
pub const ZOOM_DEFAULT_TENTHS: u8 = 10;

/// Zooming in raises the level by one step, clamped at the top of the range.
pub open spec fn spec_zoom_in(t: int) -> int {
    if t + 1 <= ZOOM_MAX_TENTHS { t + 1 } else { ZOOM_MAX_TENTHS as int }
}

/// Zooming out lowers the level by one step, clamped at the bottom of the
/// range.
pub open spec fn spec_zoom_out(t: int) -> int {
    if t - 1 >= ZOOM_MIN_TENTHS { t - 1 } else { ZOOM_MIN_TENTHS as int }
}

/// The current zoom level of the window's content, in tenths of the scale
/// factor. Created once at startup and mutated only by the zoom menu
/// actions.
pub struct ZoomLevel {
    tenths: u8,
}

impl ZoomLevel {
    /// The level in tenths of the scale factor.
    pub closed spec fn spec_tenths(&self) -> u8 {
        self.tenths
    }

    /// The level is within the clamped range.
    pub open spec fn wf(&self) -> bool {
        ZOOM_MIN_TENTHS <= self.spec_tenths() <= ZOOM_MAX_TENTHS
    }

    /// A fresh zoom level starts at the default scale factor.
    pub fn new() -> (z: ZoomLevel)
        ensures
            z.spec_tenths() == ZOOM_DEFAULT_TENTHS,
            z.wf(),
    {
        ZoomLevel { tenths: ZOOM_DEFAULT_TENTHS }
    }

    /// Read the current level, in tenths.
    pub fn tenths(&self) -> (t: u8)
        ensures
            t == self.spec_tenths(),
    {
        self.tenths
    }

    /// Raise the level by one step, clamped at the top of the range.
    pub fn zoom_in(&mut self)
        requires
            old(self).wf(),
        ensures
            final(self).spec_tenths() as int == spec_zoom_in(old(self).spec_tenths() as int),
            final(self).wf(),
    {
        if self.tenths < ZOOM_MAX_TENTHS {
            self.tenths = self.tenths + 1;
        }
    }

    /// Lower the level by one step, clamped at the bottom of the range.
    pub fn zoom_out(&mut self)
        requires
            old(self).wf(),
        ensures
            final(self).spec_tenths() as int == spec_zoom_out(old(self).spec_tenths() as int),
            final(self).wf(),
    {
        if self.tenths > ZOOM_MIN_TENTHS {
            self.tenths = self.tenths - 1;
        }
    }

    /// Set the level back to the default, whatever it was before.
    pub fn zoom_reset(&mut self)
        ensures
            final(self).spec_tenths() == ZOOM_DEFAULT_TENTHS,
            final(self).wf(),
    {
        self.tenths = ZOOM_DEFAULT_TENTHS;
    }
}

/// One zoom operation, as a value, so that laws can speak of sequences of
/// them.
#[derive(Clone, Copy, PartialEq, Eq, Structural, Debug)]
pub enum ZoomOp {
    In,
    Out,
    Reset,
}

/// The level that one operation leaves behind.
pub open spec fn spec_zoom_step(t: int, op: ZoomOp) -> int {
    match op {
        ZoomOp::In => spec_zoom_in(t),
        ZoomOp::Out => spec_zoom_out(t),
        ZoomOp::Reset => ZOOM_DEFAULT_TENTHS as int,
    }
}

/// The level that a sequence of operations, applied in order, leaves behind.
pub open spec fn spec_apply_ops(t: int, ops: Seq<ZoomOp>) -> int
    decreases ops.len(),
{
    if ops.len() == 0 {
        t
    } else {
        spec_apply_ops(spec_zoom_step(t, ops.first()), ops.drop_first())
    }
}

/// Law: from any level within the range, every sequence of zoom operations
/// leaves the level within the range — the steps clamp at the boundaries,
/// they never overshoot.
pub proof fn lemma_zoom_ops_stay_in_range(t: int, ops: Seq<ZoomOp>)
    requires
        ZOOM_MIN_TENTHS <= t <= ZOOM_MAX_TENTHS,
    ensures
        ZOOM_MIN_TENTHS <= spec_apply_ops(t, ops) <= ZOOM_MAX_TENTHS,
    decreases ops.len(),
{
    if ops.len() > 0 {
        lemma_zoom_ops_stay_in_range(spec_zoom_step(t, ops.first()), ops.drop_first());
    }
}

} // verus!
