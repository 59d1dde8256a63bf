//! The ordered collection of currently managed windows, with one tracked
//! focused entry. The layout core only reads it.

use vstd::prelude::*;

use crate::x::WindowId;

verus! {

/// Ordered sequence of window identifiers with unique entries and a tracked
/// focused entry. Invariant: whenever the stack is non-empty, exactly one
/// entry is focused.
pub struct Stack {
    windows: Vec<WindowId>,
    focused: usize,
}

impl View for Stack {
    type V = Seq<WindowId>;

    closed spec fn view(&self) -> Seq<WindowId> {
        self.windows@
    }
}

impl Stack {
    /// Well-formedness: the focused index resolves whenever the stack is
    /// non-empty, and entries are unique.
    pub closed spec fn wf(self) -> bool {
        &&& (self.windows@.len() > 0 ==> (self.focused as int) < self.windows@.len())
        &&& (self.windows@.len() == 0 ==> self.focused == 0)
        &&& (forall|i: int, j: int|
            0 <= i < j < self.windows@.len() ==> self.windows@[i] != self.windows@[j])
    }

    /// The currently focused entry (meaningful only for a non-empty stack).
    pub closed spec fn spec_focused(self) -> WindowId {
        self.windows@[self.focused as int]
    }

    /// An empty stack.
    pub fn new() -> (stack: Stack)
        ensures
            stack@ == Seq::<WindowId>::empty(),
            stack.wf(),
    {
        Stack { windows: Vec::new(), focused: 0 }
    }

    /// Append a window not yet on the stack; the first window pushed
    /// becomes the focused entry.
    pub fn push(&mut self, window: WindowId)
        requires
            old(self).wf(),
            !old(self)@.contains(window),
        ensures
            final(self)@ == old(self)@.push(window),
            final(self).wf(),
            final(self).spec_focused() == if old(self)@.len() == 0 {
                window
            } else {
                old(self).spec_focused()
            },
    {
        self.windows.push(window);
        proof {
            let before = old(self).windows@;
            let after = self.windows@;
            assert forall|i: int, j: int| 0 <= i < j < after.len() implies after[i] != after[j] by {
                if j == before.len() {
                    assert(after[j] == window);
                    assert(after[i] == before[i]);
                    if before[i] == window {
                        assert(before.contains(window));
                    }
                }
            }
        }
    }

    /// Move focus to the entry at the given position.
    pub fn focus(&mut self, index: usize)
        requires
            old(self).wf(),
            index < old(self)@.len(),
        ensures
            final(self)@ == old(self)@,
            final(self).wf(),
            final(self).spec_focused() == old(self)@[index as int],
    {
        self.focused = index;
    }

    /// Whether no window is managed.
    pub fn is_empty(&self) -> (empty: bool)
        ensures
            empty == (self@.len() == 0),
    {
        self.windows.len() == 0
    }

    /// The number of managed windows.
    pub fn len(&self) -> (count: usize)
        ensures
            count == self@.len(),
    {
        self.windows.len()
    }

    /// The currently focused entry, if any.
    pub fn focused(&self) -> (window: Option<WindowId>)
        requires
            self.wf(),
        ensures
            window == if self@.len() == 0 {
                Option::<WindowId>::None
            } else {
                Option::Some(self.spec_focused())
            },
    {
        if self.windows.len() == 0 {
            None
        } else {
            Some(self.windows[self.focused])
        }
    }

    /// The window at the given position in stack order.
    pub fn window_at(&self, index: usize) -> (window: WindowId)
        requires
            index < self@.len(),
        ensures
            window == self@[index as int],
    {
        self.windows[index]
    }
}

} // verus!
