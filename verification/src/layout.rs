//! The layout capability: the uniform contract implemented by every
//! concrete arrangement strategy, together with the shared single-window
//! arrangement path.

use vstd::prelude::*;

pub mod tile;

pub use self::tile::TileLayout;

use crate::stack::Stack;
use crate::x::{Connection, ConnectionCall, WindowGeometry, WindowId};
use crate::Viewport;

verus! {

/// The observable state of a layout strategy instance: its display name and
/// its tunables (signed split offset and the two non-negative gap
/// counters).
pub ghost struct LayoutModel {
    pub name: Seq<char>,
    pub resized_width: int,
    pub innergaps: int,
    pub outergaps: int,
}

/// How far the split offset may move from the 50/50 line: the master
/// region's width never leaves the inclusive range
/// [width/8, 7*width/8], so the offset stays within
/// [-(width/2 - width/8), width/2 - width/8].
pub open spec fn split_bound(viewport: Viewport) -> int {
    viewport.width as int / 2 - viewport.width as int / 8
}

/// The split offset after one increase step: the adjustment is applied only
/// while the result stays within the bound, and silently refused otherwise.
pub open spec fn increased_offset(offset: int, amount: int, viewport: Viewport) -> int {
    if offset + amount <= split_bound(viewport) {
        offset + amount
    } else {
        offset
    }
}

/// The split offset after one decrease step: the adjustment is applied only
/// while the result stays within the bound, and silently refused otherwise.
pub open spec fn decreased_offset(offset: int, amount: int, viewport: Viewport) -> int {
    if offset - amount >= -split_bound(viewport) {
        offset - amount
    } else {
        offset
    }
}

/// The anchor window of an arrangement call: the explicit master override
/// if present, otherwise the stack's focused entry.
pub open spec fn anchor_of(stack: Stack, master: Option<WindowId>) -> WindowId {
    match master {
        Option::Some(window) => window,
        Option::None => stack.spec_focused(),
    }
}

/// The call sequence that maximizes a single window to the viewport's
/// default full-coverage rectangle, bracketed by a scoped disable/enable of
/// window-system change tracking around the mutation.
pub open spec fn single_window_calls(viewport: Viewport, window: WindowId) -> Seq<ConnectionCall> {
    seq![
        ConnectionCall::DisableWindowTracking(window),
        ConnectionCall::MapWindow(window),
        ConnectionCall::ConfigureWindow(window, WindowGeometry::spec_default(viewport)),
        ConnectionCall::EnableWindowTracking(window),
    ]
}

/// Deep copy of a layout strategy instance; required because each owner
/// holds its own mutable instance, and subsequent tunable adjustments must
/// never cross-contaminate sibling instances.
pub trait LayoutClone: Sized {
    /// The display name and tunables of this instance.
    spec fn model(&self) -> LayoutModel;

    /// Produce an independent instance with identical name and tunables.
    fn clone_box(&self) -> (copy: Self)
        ensures
            copy.model() == self.model(),
    ;
}

/// Uniform contract for arranging a window collection inside a region,
/// interchangeable across strategy variants.
pub trait Layout: LayoutClone {
    /// The inputs a strategy accepts for one arrangement call: the machine
    /// limits its geometry arithmetic needs to stay representable.
    spec fn layout_pre(&self, viewport: Viewport, stack: Stack, master: Option<WindowId>) -> bool;

    /// The exact sequence of configuration calls the strategy issues for
    /// these inputs.
    spec fn calls_of(&self, viewport: Viewport, stack: Stack, master: Option<WindowId>) -> Seq<
        ConnectionCall,
    >;

    /// The strategy's identity string; pure and non-mutating.
    fn name(&self) -> (name: &str)
        ensures
            name@ == self.model().name,
    ;

    /// Arrange the stack inside the viewport, issuing one configuration
    /// call per window against the connection. A no-op on an empty stack;
    /// a stack of exactly one window is maximized to the viewport's
    /// default full-coverage geometry, independent of the tunables.
    fn layout(
        &self,
        connection: &mut Connection,
        viewport: &Viewport,
        stack: &Stack,
        master: &Option<WindowId>,
    )
        requires
            stack.wf(),
            self.layout_pre(*viewport, *stack, *master),
        ensures
            final(connection)@ == old(connection)@ + self.calls_of(*viewport, *stack, *master),
            stack@.len() == 0 ==> final(connection)@ == old(connection)@,
            stack@.len() == 1 ==> self.calls_of(*viewport, *stack, *master)
                == single_window_calls(*viewport, anchor_of(*stack, *master)),
    ;

    /// Shrink the master region by the given step, silently refusing the
    /// adjustment once it would exceed the bound.
    fn decrease_master(&mut self, viewport: &Viewport, resize_amount: i16)
        requires
            0 <= resize_amount,
            i16::MIN <= old(self).model().resized_width - resize_amount,
        ensures
            final(self).model() == (LayoutModel {
                resized_width: decreased_offset(
                    old(self).model().resized_width,
                    resize_amount as int,
                    *viewport,
                ),
                ..old(self).model()
            }),
    ;

    /// Grow the master region by the given step, silently refusing the
    /// adjustment once it would exceed the bound.
    fn increase_master(&mut self, viewport: &Viewport, resize_amount: i16)
        requires
            0 <= resize_amount,
            old(self).model().resized_width + resize_amount <= i16::MAX,
        ensures
            final(self).model() == (LayoutModel {
                resized_width: increased_offset(
                    old(self).model().resized_width,
                    resize_amount as int,
                    *viewport,
                ),
                ..old(self).model()
            }),
    ;

    /// Widen the spacing between adjacent tiled windows by one.
    fn increase_innergaps(&mut self)
        requires
            old(self).model().innergaps < u32::MAX,
        ensures
            final(self).model() == (LayoutModel {
                innergaps: old(self).model().innergaps + 1,
                ..old(self).model()
            }),
    ;

    /// Narrow the spacing between adjacent tiled windows by one; a decrease
    /// below zero is rejected and the counter left unchanged.
    fn decrease_innergaps(&mut self)
        ensures
            final(self).model() == (LayoutModel {
                innergaps: if old(self).model().innergaps > 0 {
                    old(self).model().innergaps - 1
                } else {
                    old(self).model().innergaps
                },
                ..old(self).model()
            }),
    ;

    /// Narrow the spacing between tiled windows and the viewport edge by
    /// one; a decrease below zero is rejected and the counter left
    /// unchanged.
    fn decrease_outergaps(&mut self)
        ensures
            final(self).model() == (LayoutModel {
                outergaps: if old(self).model().outergaps > 0 {
                    old(self).model().outergaps - 1
                } else {
                    old(self).model().outergaps
                },
                ..old(self).model()
            }),
    ;

    /// Widen the spacing between tiled windows and the viewport edge by
    /// one.
    fn increase_outergaps(&mut self)
        requires
            old(self).model().outergaps < u32::MAX,
        ensures
            final(self).model() == (LayoutModel {
                outergaps: old(self).model().outergaps + 1,
                ..old(self).model()
            }),
    ;
}

/// Maximize one window to the viewport's default full-coverage geometry,
/// bracketed by a scoped disable/enable of window-system change tracking so
/// the programmatic resize does not re-trigger the event layer.
pub fn configure_single_window(
    connection: &mut Connection,
    viewport: &Viewport,
    window_id: &WindowId,
)
    ensures
        final(connection)@ == old(connection)@ + single_window_calls(*viewport, *window_id),
{
    connection.disable_window_tracking(window_id);
    connection.map_window(window_id);
    connection.configure_window(window_id, &WindowGeometry::default(viewport));
    connection.enable_window_tracking(window_id);
    proof {
        assert(connection@ =~= old(connection)@ + single_window_calls(*viewport, *window_id));
    }
}

/// Bound invariant on the split offset: one increase or decrease step
/// keeps an offset that satisfies |offset| <= width/2 - width/8 within that
/// bound, so by induction any sequence of such steps does.
pub proof fn lemma_split_offset_bounded(offset: int, amount: int, viewport: Viewport)
    requires
        -split_bound(viewport) <= offset <= split_bound(viewport),
        0 <= amount,
    ensures
        -split_bound(viewport) <= increased_offset(offset, amount, viewport) <= split_bound(
            viewport,
        ),
        -split_bound(viewport) <= decreased_offset(offset, amount, viewport) <= split_bound(
            viewport,
        ),
{
}

} // verus!
