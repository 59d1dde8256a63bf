//! The master-stack tiling strategy: the anchor window fills a master
//! region on the left of the viewport, and every other window is stacked
//! in order in the remaining region on the right.

use vstd::prelude::*;

use crate::layout::{
    anchor_of, configure_single_window, single_window_calls, Layout, LayoutClone, LayoutModel,
};
use crate::stack::Stack;
use crate::x::{Connection, ConnectionCall, WindowGeometry, WindowId};
use crate::Viewport;

verus! {

/// Master-stack tiling strategy instance: a display name, the signed split
/// offset of the master/stack boundary from the 50/50 line, and the two
/// gap counters.
pub struct TileLayout {
    name: String,
    pub resized_width: i16,
    outergaps: u32,
    innergaps: u32,
}

impl TileLayout {
    /// The machine limits the master-region arithmetic needs: the master
    /// rectangle's fields stay representable as unsigned 32-bit values.
    pub open spec fn master_pre(self, viewport: Viewport) -> bool {
        let og = self.model().outergaps;
        &&& viewport.x as int + og <= u32::MAX as int
        &&& viewport.y as int + og <= u32::MAX as int
        &&& 2 * og <= viewport.height as int
        &&& 0 <= viewport.width as int / 2 + self.model().resized_width - og
    }

    /// The machine limits the whole tiling arithmetic needs, for a given
    /// total window count.
    pub open spec fn tile_pre(self, viewport: Viewport, window_count: int) -> bool {
        let w2 = viewport.width as int / 2;
        let r = self.model().resized_width;
        let ig = self.model().innergaps;
        let og = self.model().outergaps;
        let total = viewport.height as int - 2 * og + ig;
        &&& 2 <= window_count <= u32::MAX as int
        &&& self.master_pre(viewport)
        &&& w2 + r + ig <= u32::MAX as int
        &&& 0 <= w2 - r - og - ig
        &&& ig <= total / (window_count - 1)
        &&& og + total <= u32::MAX as int
    }

    /// Master rectangle: anchored at the viewport origin plus the outer
    /// gap, covering the left half of the viewport shifted by the split
    /// offset.
    pub open spec fn spec_master_geometry(self, viewport: Viewport) -> WindowGeometry {
        let og = self.model().outergaps;
        WindowGeometry {
            x: (viewport.x as int + og) as u32,
            y: (viewport.y as int + og) as u32,
            width: (viewport.width as int / 2 + self.model().resized_width - og) as u32,
            height: (viewport.height as int - 2 * og) as u32,
        }
    }

    /// Height of one stacked window: the stacked region's height, evened
    /// out by truncating division over the non-master windows; any
    /// remainder is absorbed by the last window's gap to the viewport
    /// edge.
    pub open spec fn spec_normal_height(self, viewport: Viewport, window_count: int) -> int {
        (viewport.height as int - 2 * self.model().outergaps + self.model().innergaps) / (
        window_count - 1) - self.model().innergaps
    }

    /// Rectangle of the stacked window at zero-based position `index`
    /// among the non-master windows, out of `window_count` windows in
    /// total.
    pub open spec fn spec_normal_geometry(
        self,
        index: int,
        window_count: int,
        viewport: Viewport,
    ) -> WindowGeometry {
        let w2 = viewport.width as int / 2;
        let r = self.model().resized_width;
        let ig = self.model().innergaps;
        let og = self.model().outergaps;
        let height = self.spec_normal_height(viewport, window_count);
        WindowGeometry {
            x: (w2 + r + ig) as u32,
            y: (og + index * (height + ig)) as u32,
            width: (w2 - r - og - ig) as u32,
            height: height as u32,
        }
    }

    /// The configuration calls issued for the windows at positions `next`
    /// and onward in stack order, when `placed` non-master windows have
    /// already been placed in the stacked region.
    pub open spec fn spec_stack_calls(
        self,
        viewport: Viewport,
        windows: Seq<WindowId>,
        master: WindowId,
        next: int,
        placed: int,
    ) -> Seq<ConnectionCall>
        decreases windows.len() - next,
    {
        if next < 0 || next >= windows.len() {
            Seq::<ConnectionCall>::empty()
        } else if windows[next] == master {
            self.spec_stack_calls(viewport, windows, master, next + 1, placed)
        } else {
            seq![
                ConnectionCall::ConfigureWindow(
                    windows[next],
                    self.spec_normal_geometry(placed, windows.len() as int, viewport),
                ),
            ] + self.spec_stack_calls(viewport, windows, master, next + 1, placed + 1)
        }
    }

    /// The whole call sequence of a multi-window arrangement: the master
    /// window is configured first, then every non-master window in stack
    /// order.
    pub open spec fn spec_tile_calls(
        self,
        viewport: Viewport,
        stack: Stack,
        master: WindowId,
    ) -> Seq<ConnectionCall> {
        seq![ConnectionCall::ConfigureWindow(master, self.spec_master_geometry(viewport))]
            + self.spec_stack_calls(viewport, stack@, master, 0, 0)
    }

    /// Create a strategy instance with the given display name and initial
    /// gap counters; the split offset defaults to 160 units of horizontal
    /// offset from the 50/50 line.
    pub fn new(name: String, innergaps: u32, outergaps: u32) -> (strategy: TileLayout)
        ensures
            strategy.model() == (LayoutModel {
                name: name@,
                resized_width: 160,
                innergaps: innergaps as int,
                outergaps: outergaps as int,
            }),
    {
        TileLayout { name, resized_width: 160, innergaps, outergaps }
    }

    /// The current inner-gap counter.
    pub fn innergaps(&self) -> (gap: u32)
        ensures
            gap as int == self.model().innergaps,
    {
        self.innergaps
    }

    /// The current outer-gap counter.
    pub fn outergaps(&self) -> (gap: u32)
        ensures
            gap as int == self.model().outergaps,
    {
        self.outergaps
    }

    /// Compute the master rectangle for this viewport.
    pub fn get_master_geometry(&self, viewport: &Viewport) -> (geometry: WindowGeometry)
        requires
            self.master_pre(*viewport),
        ensures
            geometry == self.spec_master_geometry(*viewport),
    {
        let half: u32 = viewport.width / 2;
        let width_wide: i64 = half as i64 + self.resized_width as i64 - self.outergaps as i64;
        WindowGeometry {
            x: viewport.x + self.outergaps,
            y: viewport.y + self.outergaps,
            width: width_wide as u32,
            height: viewport.height - 2 * self.outergaps,
        }
    }

    /// Compute the rectangle of the stacked window at zero-based position
    /// `index` among the non-master windows.
    pub fn get_normal_geometry(&self, index: u32, stack: &Stack, viewport: &Viewport) -> (geometry:
        WindowGeometry)
        requires
            self.tile_pre(*viewport, stack@.len() as int),
            index as int <= stack@.len() as int - 1,
        ensures
            geometry == self.spec_normal_geometry(index as int, stack@.len() as int, *viewport),
    {
        let count: usize = stack.len();
        let half: u32 = viewport.width / 2;
        let x_wide: i64 = half as i64 + self.resized_width as i64 + self.innergaps as i64;
        let width_wide: i64 = half as i64 - self.resized_width as i64 - self.outergaps as i64
            - self.innergaps as i64;
        let stacked: u64 = viewport.height as u64 - 2 * (self.outergaps as u64)
            + self.innergaps as u64;
        let share: u64 = stacked / ((count - 1) as u64);
        let height_wide: u64 = share - self.innergaps as u64;
        proof {
            let total = viewport.height as int - 2 * self.model().outergaps
                + self.model().innergaps;
            let divisor = stack@.len() as int - 1;
            vstd::arithmetic::div_mod::lemma_fundamental_div_mod(total, divisor);
            vstd::arithmetic::div_mod::lemma_mod_bound(total, divisor);
            assert(divisor * (total / divisor) <= total);
            vstd::arithmetic::mul::lemma_mul_inequality(index as int, divisor, total / divisor);
        }
        let y_wide: u64 = self.outergaps as u64 + index as u64 * share;
        WindowGeometry {
            x: x_wide as u32,
            y: y_wide as u32,
            width: width_wide as u32,
            height: height_wide as u32,
        }
    }

    /// Arrange two or more windows: the master window fills the master
    /// rectangle, and every other window is stacked in order in the
    /// remaining region.
    pub fn tile(
        &self,
        connection: &mut Connection,
        viewport: &Viewport,
        stack: &Stack,
        master_id: &WindowId,
    )
        requires
            self.tile_pre(*viewport, stack@.len() as int),
        ensures
            final(connection)@ == old(connection)@ + self.spec_tile_calls(
                *viewport,
                *stack,
                *master_id,
            ),
    {
        self.configure_master_window(connection, viewport, master_id);
        proof {
            assert(connection@ + self.spec_stack_calls(*viewport, stack@, *master_id, 0, 0)
                =~= old(connection)@ + self.spec_tile_calls(*viewport, *stack, *master_id));
        }
        let count: usize = stack.len();
        let mut accumulator: u32 = 0;
        let mut position: usize = 0;
        while position < count
            invariant
                count == stack@.len(),
                position <= count,
                accumulator as int <= position as int,
                self.tile_pre(*viewport, count as int),
                connection@ + self.spec_stack_calls(
                    *viewport,
                    stack@,
                    *master_id,
                    position as int,
                    accumulator as int,
                ) == old(connection)@ + self.spec_tile_calls(*viewport, *stack, *master_id),
            decreases count - position,
        {
            let window_id: WindowId = stack.window_at(position);
            if window_id != *master_id {
                self.configure_normal_window(accumulator, connection, stack, viewport, &window_id);
                proof {
                    assert(connection@ + self.spec_stack_calls(
                        *viewport,
                        stack@,
                        *master_id,
                        position as int + 1,
                        accumulator as int + 1,
                    ) =~= old(connection)@ + self.spec_tile_calls(*viewport, *stack, *master_id));
                }
                accumulator = accumulator + 1;
            }
            position = position + 1;
        }
        proof {
            assert(connection@ =~= old(connection)@ + self.spec_tile_calls(
                *viewport,
                *stack,
                *master_id,
            ));
        }
    }

    /// Configure one stacked window with its computed rectangle.
    fn configure_normal_window(
        &self,
        index: u32,
        connection: &mut Connection,
        stack: &Stack,
        viewport: &Viewport,
        window_id: &WindowId,
    )
        requires
            self.tile_pre(*viewport, stack@.len() as int),
            index as int <= stack@.len() as int - 1,
        ensures
            final(connection)@ == old(connection)@.push(
                ConnectionCall::ConfigureWindow(
                    *window_id,
                    self.spec_normal_geometry(index as int, stack@.len() as int, *viewport),
                ),
            ),
    {
        let normal_geometry: WindowGeometry = self.get_normal_geometry(index, stack, viewport);
        connection.configure_window(window_id, &normal_geometry);
    }

    /// Configure the master window with the master rectangle.
    fn configure_master_window(
        &self,
        connection: &mut Connection,
        viewport: &Viewport,
        window_id: &WindowId,
    )
        requires
            self.master_pre(*viewport),
        ensures
            final(connection)@ == old(connection)@.push(
                ConnectionCall::ConfigureWindow(
                    *window_id,
                    self.spec_master_geometry(*viewport),
                ),
            ),
    {
        let focused_geometry: WindowGeometry = self.get_master_geometry(viewport);
        connection.configure_window(window_id, &focused_geometry);
    }
}

impl LayoutClone for TileLayout {
    closed spec fn model(&self) -> LayoutModel {
        LayoutModel {
            name: self.name@,
            resized_width: self.resized_width as int,
            innergaps: self.innergaps as int,
            outergaps: self.outergaps as int,
        }
    }

    fn clone_box(&self) -> (copy: TileLayout) {
        TileLayout {
            name: self.name.clone(),
            resized_width: self.resized_width,
            innergaps: self.innergaps,
            outergaps: self.outergaps,
        }
    }
}

impl Layout for TileLayout {
    open spec fn layout_pre(
        &self,
        viewport: Viewport,
        stack: Stack,
        master: Option<WindowId>,
    ) -> bool {
        stack@.len() >= 2 ==> self.tile_pre(viewport, stack@.len() as int)
    }

    open spec fn calls_of(
        &self,
        viewport: Viewport,
        stack: Stack,
        master: Option<WindowId>,
    ) -> Seq<ConnectionCall> {
        if stack@.len() == 0 {
            Seq::<ConnectionCall>::empty()
        } else if stack@.len() < 2 {
            single_window_calls(viewport, anchor_of(stack, master))
        } else {
            self.spec_tile_calls(viewport, stack, anchor_of(stack, master))
        }
    }

    fn name(&self) -> (name: &str) {
        self.name.as_str()
    }

    fn layout(
        &self,
        connection: &mut Connection,
        viewport: &Viewport,
        stack: &Stack,
        master: &Option<WindowId>,
    ) {
        if stack.is_empty() {
            proof {
                assert(connection@ =~= old(connection)@ + self.calls_of(
                    *viewport,
                    *stack,
                    *master,
                ));
            }
            return ;
        }
        let master_id: WindowId = match master {
            Option::Some(window) => *window,
            Option::None => stack.focused().unwrap(),
        };
        if stack.len() < 2 {
            configure_single_window(connection, viewport, &master_id);
        } else {
            self.tile(connection, viewport, stack, &master_id);
        }
    }

    fn decrease_master(&mut self, viewport: &Viewport, resize_amount: i16) {
        let bound: i64 = (viewport.width / 2) as i64 - (viewport.width / 8) as i64;
        if self.resized_width as i64 - resize_amount as i64 >= -bound {
            self.resized_width = self.resized_width - resize_amount;
        }
    }

    fn increase_master(&mut self, viewport: &Viewport, resize_amount: i16) {
        let bound: i64 = (viewport.width / 2) as i64 - (viewport.width / 8) as i64;
        if self.resized_width as i64 + resize_amount as i64 <= bound {
            self.resized_width = self.resized_width + resize_amount;
        }
    }

    fn increase_innergaps(&mut self) {
        self.innergaps = self.innergaps + 1;
    }

    fn decrease_innergaps(&mut self) {
        if self.innergaps > 0 {
            self.innergaps = self.innergaps - 1;
        }
    }

    fn decrease_outergaps(&mut self) {
        if self.outergaps > 0 {
            self.outergaps = self.outergaps - 1;
        }
    }

    fn increase_outergaps(&mut self) {
        self.outergaps = self.outergaps + 1;
    }
}

/// Explicit-master override: supplying an explicit master makes that
/// window the anchor regardless of the focused entry, so it is the window
/// arranged in the master region (for two or more windows) or maximized
/// (for exactly one window).
pub proof fn lemma_explicit_master_override(
    strategy: TileLayout,
    viewport: Viewport,
    stack: Stack,
    master: WindowId,
)
    requires
        stack@.len() >= 1,
    ensures
        anchor_of(stack, Option::Some(master)) == master,
        stack@.len() >= 2 ==> strategy.calls_of(viewport, stack, Option::Some(master))[0]
            == ConnectionCall::ConfigureWindow(
            master,
            strategy.spec_master_geometry(viewport),
        ),
        stack@.len() == 1 ==> strategy.calls_of(viewport, stack, Option::Some(master))
            == single_window_calls(viewport, master),
{
}

} // verus!
