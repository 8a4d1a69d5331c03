//! Model of the application window state owned by the windowing toolkit.
//!
//! The toolkit, not this crate, owns the real window: its position and
//! whether it ignores cursor events (click-through). Command handlers
//! therefore do not mutate a window; they emit a [`WindowCall`], the one
//! narrow request the host forwards to the toolkit. [`WindowModel`]
//! states what the toolkit does with each such request when it succeeds,
//! so that properties of request sequences — last write wins, position
//! set to exactly the requested coordinates — can be proved here.

use vstd::prelude::*;

verus! {

/// A request to the windowing toolkit, emitted by a command handler and
/// performed by the host: either set the ignore-cursor-events flag
/// (click-through), or move the window to a physical pixel position.
#[derive(Clone, Copy, Debug, PartialEq, Eq, Structural)]
pub enum WindowCall {
    SetIgnoreCursorEvents(bool),
    SetPosition(i32, i32),
}

/// The toolkit-owned window state a [`WindowCall`] acts on: the
/// click-through flag and the physical pixel position.
#[derive(Clone, Copy, Debug, PartialEq, Eq, Structural)]
pub struct WindowModel {
    click_through: bool,
    x: i32,
    y: i32,
}

impl WindowModel {
    /// Whether the window currently ignores cursor events.
    pub closed spec fn spec_click_through(self) -> bool {
        self.click_through
    }

    /// The window's horizontal position, in physical pixels.
    pub closed spec fn spec_x(self) -> i32 {
        self.x
    }

    /// The window's vertical position, in physical pixels.
    pub closed spec fn spec_y(self) -> i32 {
        self.y
    }

    /// The window state after the toolkit performs `c` successfully:
    /// each request overwrites exactly the state it addresses and leaves
    /// the rest unchanged.
    pub closed spec fn spec_apply(self, c: WindowCall) -> WindowModel {
        match c {
            WindowCall::SetIgnoreCursorEvents(enabled) => WindowModel {
                click_through: enabled,
                x: self.x,
                y: self.y,
            },
            WindowCall::SetPosition(x, y) => WindowModel { click_through: self.click_through, x, y },
        }
    }

    /// Whether the window currently ignores cursor events.
    pub fn click_through(&self) -> (r: bool)
        ensures
            r == self.spec_click_through(),
    {
        self.click_through
    }

    /// The window's horizontal position, in physical pixels.
    pub fn x(&self) -> (r: i32)
        ensures
            r == self.spec_x(),
    {
        self.x
    }

    /// The window's vertical position, in physical pixels.
    pub fn y(&self) -> (r: i32)
        ensures
            r == self.spec_y(),
    {
        self.y
    }

    /// A window in a known state, as the host observes it when the
    /// window is created.
    pub fn new(click_through: bool, x: i32, y: i32) -> (w: WindowModel)
        ensures
            w.spec_click_through() == click_through,
            w.spec_x() == x,
            w.spec_y() == y,
    {
        WindowModel { click_through, x, y }
    }

    /// Performs a request on the model, as the toolkit would on the real
    /// window when the call succeeds.
    pub fn apply(&mut self, c: &WindowCall)
        ensures
            *final(self) == old(self).spec_apply(*c),
            (*c matches WindowCall::SetIgnoreCursorEvents(enabled) ==> {
                &&& final(self).spec_click_through() == enabled
                &&& final(self).spec_x() == old(self).spec_x()
                &&& final(self).spec_y() == old(self).spec_y()
            }),
            (*c matches WindowCall::SetPosition(x, y) ==> {
                &&& final(self).spec_x() == x
                &&& final(self).spec_y() == y
                &&& final(self).spec_click_through() == old(self).spec_click_through()
            }),
    {
        match c {
            WindowCall::SetIgnoreCursorEvents(enabled) => {
                self.click_through = *enabled;
            },
            WindowCall::SetPosition(x, y) => {
                self.x = *x;
                self.y = *y;
            },
        }
    }
}

/// Two ignore-cursor-events requests in a row leave the flag equal to
/// the second one — last write wins, with no other state observable in
/// between. In particular, enabling click-through and then disabling it
/// leaves the toolkit's flag off.
pub proof fn lemma_ignore_cursor_last_write_wins(w: WindowModel, first: bool, second: bool)
    ensures
        w.spec_apply(WindowCall::SetIgnoreCursorEvents(first)).spec_apply(
            WindowCall::SetIgnoreCursorEvents(second),
        ).spec_click_through() == second,
{
}

} // verus!
