//! The window-system side of the core: window identifiers, target
//! rectangles, and the connection the core issues configuration calls
//! against.

use vstd::prelude::*;

use crate::Viewport;

verus! {

/// Opaque identifier for a managed window; equality-comparable, no internal
/// structure is interpreted by the core.
#[derive(Clone, Copy, Debug, PartialEq, Eq, Structural, Hash)]
pub struct WindowId(pub u32);

/// Target rectangle for one window; the sole output unit of the core, one
/// per window per call.
#[derive(Clone, Copy, Debug, PartialEq, Eq, Structural)]
pub struct WindowGeometry {
    pub x: u32,
    pub y: u32,
    pub width: u32,
    pub height: u32,
}

impl WindowGeometry {
    /// The default full-coverage rectangle of a viewport.
    pub open spec fn spec_default(viewport: Viewport) -> WindowGeometry {
        WindowGeometry {
            x: viewport.x,
            y: viewport.y,
            width: viewport.width,
            height: viewport.height,
        }
    }

    /// The geometry that covers the whole viewport.
    pub fn default(viewport: &Viewport) -> (geometry: WindowGeometry)
        ensures
            geometry == WindowGeometry::spec_default(*viewport),
    {
        WindowGeometry {
            x: viewport.x,
            y: viewport.y,
            width: viewport.width,
            height: viewport.height,
        }
    }
}

/// One operation issued against the window-system link.
#[derive(Clone, Copy, Debug, PartialEq, Eq, Structural)]
pub enum ConnectionCall {
    /// Suspend change tracking for a window, so a programmatic resize does
    /// not re-trigger the event layer.
    DisableWindowTracking(WindowId),
    /// Resume change tracking for a window.
    EnableWindowTracking(WindowId),
    /// Make a window visible.
    MapWindow(WindowId),
    /// Apply a target rectangle to a window, fire-and-forget.
    ConfigureWindow(WindowId, WindowGeometry),
}

/// The window-system link. The core treats every call as fire-and-forget:
/// it does not await confirmation and does not learn of per-window
/// failures. The connection is modelled by the ordered sequence of calls
/// issued against it, which is its view.
pub struct Connection {
    calls: Vec<ConnectionCall>,
}

impl View for Connection {
    type V = Seq<ConnectionCall>;

    closed spec fn view(&self) -> Seq<ConnectionCall> {
        self.calls@
    }
}

impl Connection {
    /// A fresh connection against which no call has been issued yet.
    pub fn new() -> (connection: Connection)
        ensures
            connection@ == Seq::<ConnectionCall>::empty(),
    {
        Connection { calls: Vec::new() }
    }

    /// Suspend change tracking for the given window.
    pub fn disable_window_tracking(&mut self, window_id: &WindowId)
        ensures
            final(self)@ == old(self)@.push(ConnectionCall::DisableWindowTracking(*window_id)),
    {
        self.calls.push(ConnectionCall::DisableWindowTracking(*window_id));
    }

    /// Resume change tracking for the given window.
    pub fn enable_window_tracking(&mut self, window_id: &WindowId)
        ensures
            final(self)@ == old(self)@.push(ConnectionCall::EnableWindowTracking(*window_id)),
    {
        self.calls.push(ConnectionCall::EnableWindowTracking(*window_id));
    }

    /// Make the given window visible.
    pub fn map_window(&mut self, window_id: &WindowId)
        ensures
            final(self)@ == old(self)@.push(ConnectionCall::MapWindow(*window_id)),
    {
        self.calls.push(ConnectionCall::MapWindow(*window_id));
    }

    /// Apply a target rectangle to the given window.
    pub fn configure_window(&mut self, window_id: &WindowId, geometry: &WindowGeometry)
        ensures
            final(self)@ == old(self)@.push(
                ConnectionCall::ConfigureWindow(*window_id, *geometry),
            ),
    {
        self.calls.push(ConnectionCall::ConfigureWindow(*window_id, *geometry));
    }

    /// The calls issued so far, oldest first.
    pub fn calls(&self) -> (calls: &Vec<ConnectionCall>)
        ensures
            calls@ == self@,
    {
        &self.calls
    }
}

} // verus!
