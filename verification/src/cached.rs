//! The decisions of the texture-cached wrapper: when to snap the composite
//! to the device-pixel grid, when to raise the recording resolution, how to
//! record, and how large the recorded texture is.

use vstd::prelude::*;

verus! {

/// Transparent bleed margin, in logical pixels, kept around the content
/// inside the cache texture.
pub const MARGIN: u32 = 2;

/// Whether the composited cache is snapped to the device-pixel grid.
#[derive(Debug, Clone, Copy, PartialEq, Eq)]
pub enum PixelSnap {
    /// Snap a pure translation that is at rest; never snap while moving.
    Auto,
    /// Always snap the composited origin.
    Always,
    /// Never snap.
    Never,
    /// Snap only the layout-bounds part of the origin; leave the
    /// transform's translation fractional.
    Hybrid,
}

impl Default for PixelSnap {
    fn default() -> (r: Self)
        ensures
            r == PixelSnap::Auto,
    {
        PixelSnap::Auto
    }
}

/// How the cache is composited into the frame.
#[derive(Debug, Clone, Copy, PartialEq, Eq)]
pub enum CompositingMode {
    /// A compositor layer, composited after the widget tree is drawn.
    Layer,
    /// Inline at the end of `draw`, in source order.
    Bake,
}

impl Default for CompositingMode {
    fn default() -> (r: Self)
        ensures
            r == CompositingMode::Layer,
    {
        CompositingMode::Layer
    }
}

/// How the content is recorded into the cache this frame.
#[derive(Debug, Clone, Copy, PartialEq, Eq)]
pub enum RecordMode {
    /// Record, or reuse the texture when it is fresh.
    Flush,
    /// Walk the content only, so that nested caches re-record.
    TraverseOnly,
}

/// Whether the layout bounds are snapped before the transform applies:
/// only for `Hybrid`.
pub fn snaps_bounds(mode: PixelSnap) -> (r: bool)
    ensures
        r == (mode == PixelSnap::Hybrid),
{
    match mode {
        PixelSnap::Hybrid => true,
        _ => false,
    }
}

/// Whether the whole composite is snapped to the device grid: always for
/// `Always`, never for `Never` or `Hybrid`, and for `Auto` only a pure
/// translation that is at rest.
pub open spec fn composite_snaps(mode: PixelSnap, translation_only: bool, at_rest: bool) -> bool {
    match mode {
        PixelSnap::Always => true,
        PixelSnap::Never | PixelSnap::Hybrid => false,
        PixelSnap::Auto => translation_only && at_rest,
    }
}

/// Decides `composite_snaps`.
pub fn snaps_composite(mode: PixelSnap, translation_only: bool, at_rest: bool) -> (r: bool)
    ensures
        r == composite_snaps(mode, translation_only, at_rest),
{
    match mode {
        PixelSnap::Always => true,
        PixelSnap::Never | PixelSnap::Hybrid => false,
        PixelSnap::Auto => translation_only && at_rest,
    }
}

/// Whether the recording resolution is raised for motion: only when
/// asked for and the cache is moving.
pub fn raises_supersample(auto_on_motion: bool, at_rest: bool) -> (r: bool)
    ensures
        r == (auto_on_motion && !at_rest),
{
    auto_on_motion && !at_rest
}

/// How to record: in `Layer` mode a fresh cache whose subtree is dirty is
/// only walked, so the nested caches re-record; otherwise it is recorded
/// (or reused when fresh).
pub fn record_mode(mode: CompositingMode, invalidated: bool, subtree_dirty: bool) -> (r: RecordMode)
    ensures
        r == (if mode == CompositingMode::Layer && !invalidated && subtree_dirty {
            RecordMode::TraverseOnly
        } else {
            RecordMode::Flush
        }),
{
    match mode {
        CompositingMode::Layer => {
            if invalidated {
                RecordMode::Flush
            } else if subtree_dirty {
                RecordMode::TraverseOnly
            } else {
                RecordMode::Flush
            }
        },
        CompositingMode::Bake => RecordMode::Flush,
    }
}

/// Whether the cache is at rest: its transform equals the one composited
/// on the previous frame, or there was no previous frame.
pub fn at_rest(previous_equal: Option<bool>) -> (r: bool)
    ensures
        r == match previous_equal {
            Some(same) => same,
            None => true,
        },
{
    match previous_equal {
        Some(same) => same,
        None => true,
    }
}

/// Whether the cache registers and pushes its compositor layer while
/// handling an event: on a redraw request, in `Layer` mode.
pub fn registers_layer(is_redraw: bool, mode: CompositingMode) -> (r: bool)
    ensures
        r == (is_redraw && mode == CompositingMode::Layer),
{
    is_redraw && match mode {
        CompositingMode::Layer => true,
        CompositingMode::Bake => false,
    }
}

/// Whether the cache is marked stale after the content handled an event:
/// when auto-invalidation is on, the event is not a redraw request, and
/// the content reacted (it changed the shell's redraw request, event
/// status, or layout or widget validity).
pub fn invalidates_after_event(auto_invalidate: bool, is_redraw: bool, reacted: bool) -> (r: bool)
    ensures
        r == (auto_invalidate && !is_redraw && reacted),
{
    auto_invalidate && !is_redraw && reacted
}

/// The recorded texture's size: the content's size in whole logical
/// pixels, at least one each way, plus the margin on both sides.
pub fn padded_size(width: u32, height: u32, margin: u32) -> (r: (u32, u32))
    requires
        (if width > 1 { width as int } else { 1 }) + 2 * margin <= u32::MAX,
        (if height > 1 { height as int } else { 1 }) + 2 * margin <= u32::MAX,
    ensures
        r.0 == (if width > 1 { width as int } else { 1 }) + 2 * margin,
        r.1 == (if height > 1 { height as int } else { 1 }) + 2 * margin,
{
    let w = if width > 1 {
        width
    } else {
        1
    };
    let h = if height > 1 {
        height
    } else {
        1
    };
    (w + 2 * margin, h + 2 * margin)
}

/// Under `Auto` a moving cache never snaps and a cache at rest snaps
/// exactly when its transform is a pure translation; `Never` and `Hybrid`
/// never snap the composite, `Always` always does; a composite snaps only
/// under `Always` or under `Auto` at rest with a pure translation.
pub proof fn lemma_snap_policies(translation_only: bool, at_rest: bool, mode: PixelSnap)
    ensures
        !composite_snaps(PixelSnap::Auto, translation_only, false),
        composite_snaps(PixelSnap::Auto, translation_only, true) == translation_only,
        !composite_snaps(PixelSnap::Hybrid, translation_only, at_rest),
        !composite_snaps(PixelSnap::Never, translation_only, at_rest),
        composite_snaps(PixelSnap::Always, translation_only, at_rest),
        composite_snaps(mode, translation_only, at_rest) ==> mode == PixelSnap::Always || (mode
            == PixelSnap::Auto && translation_only && at_rest),
        (mode == PixelSnap::Hybrid) ==> !composite_snaps(mode, translation_only, at_rest),
{
}

} // verus!
