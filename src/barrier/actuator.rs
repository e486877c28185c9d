//! The capabilities the protocol driver drives.
use vstd::prelude::*;

use crate::actuator_msg::ActuatorMsg;

verus! {

/// The cursor position after moving (x, y) by (dx, dy), wrapping at the
/// 16-bit bounds.
pub open spec fn moved(pos: (u16, u16), dx: i16, dy: i16) -> (u16, u16) {
    ((pos.0 as int + dx as int) as u16, (pos.1 as int + dy as int) as u16)
}

/// What the protocol driver acts on. Every operation that changes the
/// actuator is recorded in `calls`, as the message that stands for it.
pub trait Actuator {
    /// The actuator's own invariant, kept by every operation.
    spec fn wf(&self) -> bool;

    /// The operations performed so far, oldest first.
    spec fn calls(&self) -> Seq<ActuatorMsg>;

    /// The screen size, fixed for a session.
    spec fn screen_size(&self) -> (u16, u16);

    /// The cursor position in screen coordinates.
    spec fn cursor(&self) -> (u16, u16);

    fn connected(&mut self)
        requires
            old(self).wf(),
        ensures
            final(self).wf(),
            final(self).calls() == old(self).calls().push(ActuatorMsg::Connected),
    ;

    fn disconnected(&mut self)
        requires
            old(self).wf(),
        ensures
            final(self).wf(),
            final(self).calls() == old(self).calls().push(ActuatorMsg::Disconnected),
    ;

    fn get_screen_size(&self) -> (r: (u16, u16))
        ensures
            r == self.screen_size(),
    ;

    fn get_cursor_position(&self) -> (r: (u16, u16))
        ensures
            r == self.cursor(),
    ;

    fn set_cursor_position(&mut self, x: u16, y: u16)
        requires
            old(self).wf(),
        ensures
            final(self).wf(),
            final(self).calls() == old(self).calls().push(ActuatorMsg::SetCursorPosition(x, y)),
            final(self).cursor() == (x, y),
    ;

    /// Moves the cursor by (x, y): reads the position and sets the moved one.
    fn move_cursor(&mut self, x: i16, y: i16)
        requires
            old(self).wf(),
        ensures
            final(self).wf(),
            final(self).calls() == old(self).calls().push(
                ActuatorMsg::SetCursorPosition(moved(old(self).cursor(), x, y).0, moved(old(self).cursor(), x, y).1),
            ),
    {
        let (cx, cy) = self.get_cursor_position();
        self.set_cursor_position((cx as i32 + x as i32) as u16, (cy as i32 + y as i32) as u16);
    }

    fn mouse_down(&mut self, button: i8)
        requires
            old(self).wf(),
        ensures
            final(self).wf(),
            final(self).calls() == old(self).calls().push(ActuatorMsg::MouseDown(button)),
    ;

    fn mouse_up(&mut self, button: i8)
        requires
            old(self).wf(),
        ensures
            final(self).wf(),
            final(self).calls() == old(self).calls().push(ActuatorMsg::MouseUp(button)),
    ;

    fn mouse_wheel(&mut self, x: i16, y: i16)
        requires
            old(self).wf(),
        ensures
            final(self).wf(),
            final(self).calls() == old(self).calls().push(ActuatorMsg::MouseWheel(x, y)),
    ;

    fn key_down(&mut self, key: u16, mask: u16, button: u16)
        requires
            old(self).wf(),
        ensures
            final(self).wf(),
            final(self).calls() == old(self).calls().push(ActuatorMsg::KeyDown(key, mask, button)),
    ;

    fn key_repeat(&mut self, key: u16, mask: u16, button: u16, count: u16)
        requires
            old(self).wf(),
        ensures
            final(self).wf(),
            final(self).calls() == old(self).calls().push(
                ActuatorMsg::KeyRepeat(key, mask, button, count),
            ),
    ;

    fn key_up(&mut self, key: u16, mask: u16, button: u16)
        requires
            old(self).wf(),
        ensures
            final(self).wf(),
            final(self).calls() == old(self).calls().push(ActuatorMsg::KeyUp(key, mask, button)),
    ;

    fn reset_options(&mut self)
        requires
            old(self).wf(),
        ensures
            final(self).wf(),
            final(self).calls() == old(self).calls().push(ActuatorMsg::ResetOptions),
    ;

    fn enter(&mut self)
        requires
            old(self).wf(),
        ensures
            final(self).wf(),
            final(self).calls() == old(self).calls().push(ActuatorMsg::Enter),
    ;

    fn leave(&mut self)
        requires
            old(self).wf(),
        ensures
            final(self).wf(),
            final(self).calls() == old(self).calls().push(ActuatorMsg::Leave),
    ;
}

} // verus!
