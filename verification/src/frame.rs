//! The frame state controller: how one frame's input changes the
//! push-constant block.

use crate::constants::{Scalar, ShaderConstants};
use vstd::prelude::*;

verus! {

/// The bit of the primary button, whose press begins a drag.
pub const PRIMARY_BUTTON: u32 = 1;

/// The button transitions since the last frame, as bit masks over the buttons
/// (bit 0 left, 1 middle, 2 right).
#[derive(Clone, Copy, Debug, PartialEq, Eq, Structural)]
pub struct ButtonEvents {
    /// The buttons that went down.
    pub pressed: u32,
    /// The buttons that came up.
    pub released: u32,
}

impl ButtonEvents {
    /// The buttons that make a press transition: they go down and were not
    /// down before.
    pub open spec fn newly_pressed(self, down_before: u32) -> u32 {
        self.pressed & !down_before
    }

    /// The buttons that are down once the transitions are applied.
    pub open spec fn down_after(self, down_before: u32) -> u32 {
        (down_before | self.pressed) & !self.released
    }

    /// No button changed.
    pub fn none() -> (events: ButtonEvents)
        ensures
            events.pressed == 0,
            events.released == 0,
    {
        ButtonEvents { pressed: 0, released: 0 }
    }
}

/// Button `button` is in `mask`.
pub open spec fn has_button(mask: u32, button: int) -> bool
    recommends
        0 <= button < 3,
{
    if button == 0 {
        mask & 1 != 0
    } else if button == 1 {
        mask & 2 != 0
    } else {
        mask & 4 != 0
    }
}

/// The bit mask of the given buttons.
pub fn button_mask(left: bool, middle: bool, right: bool) -> (mask: u32)
    ensures
        mask < 8,
        has_button(mask, 0) == left,
        has_button(mask, 1) == middle,
        has_button(mask, 2) == right,
{
    let l: u32 = if left {
        1
    } else {
        0
    };
    let m: u32 = if middle {
        2
    } else {
        0
    };
    let r: u32 = if right {
        4
    } else {
        0
    };
    let mask: u32 = l | m | r;
    assert(mask < 8 && (mask & 1 != 0) == (l == 1) && (mask & 2 != 0) == (m == 2) && (mask & 4
        != 0) == (r == 4)) by (bit_vector)
        requires
            l == 0 || l == 1,
            m == 0 || m == 2,
            r == 0 || r == 4,
            mask == l | m | r,
    ;
    mask
}

impl ShaderConstants {
    /// `self` is what `before` becomes with one frame's input, but for the
    /// translation, which takes arithmetic on scalars.
    ///
    /// The viewport size and the time are taken over as they are, and so is
    /// the cursor, which stays where it was while the pointer is away. The
    /// press of the primary button begins a drag and sets both ends of the
    /// drag to the cursor; while the button stays down the end follows the
    /// cursor and the start holds. A button's press time becomes the time of
    /// this frame when the button makes a press transition, and only then.
    /// The zoom is left alone.
    pub open spec fn is_after_input(
        self,
        before: ShaderConstants,
        drag_delta: (Scalar, Scalar),
        viewport_size: (u32, u32),
        elapsed_time: Scalar,
        cursor_pos: Option<(Scalar, Scalar)>,
        button_events: ButtonEvents,
    ) -> bool {
        let newly_pressed = button_events.newly_pressed(before.mouse_button_pressed);
        let drag_begins = has_button(newly_pressed, 0);
        let drag_goes_on = !drag_begins && has_button(before.mouse_button_pressed, 0);
        let cursor_pos = match cursor_pos {
            Some(pos) => pos,
            None => (before.cursor_x, before.cursor_y),
        };
        &&& self.width == viewport_size.0
        &&& self.height == viewport_size.1
        &&& self.time == elapsed_time
        &&& self.cursor_x == cursor_pos.0
        &&& self.cursor_y == cursor_pos.1
        &&& self.zoom == before.zoom
        &&& self.mouse_button_pressed == button_events.down_after(before.mouse_button_pressed)
        &&& forall|button: int|
            0 <= button < 3 ==> self.mouse_button_press_time[button] == (if has_button(
                newly_pressed,
                button,
            ) {
                elapsed_time
            } else {
                before.mouse_button_press_time[button]
            })
        &&& self.drag_start_x == (if drag_begins {
            cursor_pos.0
        } else {
            before.drag_start_x
        })
        &&& self.drag_start_y == (if drag_begins {
            cursor_pos.1
        } else {
            before.drag_start_y
        })
        &&& self.drag_end_x == (if drag_begins || drag_goes_on {
            cursor_pos.0
        } else {
            before.drag_end_x
        })
        &&& self.drag_end_y == (if drag_begins || drag_goes_on {
            cursor_pos.1
        } else {
            before.drag_end_y
        })
    }

    /// Brings the block up to date with one frame's input, as
    /// `is_after_input` says. The translation moves against the drag: on each
    /// axis it becomes what `difference` gives for the old translation and
    /// the drag delta, in this order.
    pub fn on_input<F: Fn(Scalar, Scalar) -> Scalar>(
        &mut self,
        drag_delta: (Scalar, Scalar),
        viewport_size: (u32, u32),
        elapsed_time: Scalar,
        cursor_pos: Option<(Scalar, Scalar)>,
        button_events: ButtonEvents,
        difference: F,
    )
        requires
            forall|a: Scalar, b: Scalar| difference.requires((a, b)),
        ensures
            final(self).is_after_input(
                *old(self),
                drag_delta,
                viewport_size,
                elapsed_time,
                cursor_pos,
                button_events,
            ),
            difference.ensures((old(self).translate_x, drag_delta.0), final(self).translate_x),
            difference.ensures((old(self).translate_y, drag_delta.1), final(self).translate_y),
    {
        let down_before: u32 = self.mouse_button_pressed;
        let newly_pressed: u32 = button_events.pressed & !down_before;
        let cursor_pos: (Scalar, Scalar) = match cursor_pos {
            Some(pos) => pos,
            None => (self.cursor_x, self.cursor_y),
        };

        self.width = viewport_size.0;
        self.height = viewport_size.1;
        self.time = elapsed_time;
        self.cursor_x = cursor_pos.0;
        self.cursor_y = cursor_pos.1;
        self.translate_x = difference(self.translate_x, drag_delta.0);
        self.translate_y = difference(self.translate_y, drag_delta.1);

        if newly_pressed & PRIMARY_BUTTON != 0 {
            self.drag_start_x = cursor_pos.0;
            self.drag_start_y = cursor_pos.1;
            self.drag_end_x = cursor_pos.0;
            self.drag_end_y = cursor_pos.1;
        } else if down_before & PRIMARY_BUTTON != 0 {
            self.drag_end_x = cursor_pos.0;
            self.drag_end_y = cursor_pos.1;
        }
        let mut times: [Scalar; 3] = self.mouse_button_press_time;
        if newly_pressed & 1 != 0 {
            times[0] = elapsed_time;
        }
        if newly_pressed & 2 != 0 {
            times[1] = elapsed_time;
        }
        if newly_pressed & 4 != 0 {
            times[2] = elapsed_time;
        }
        self.mouse_button_press_time = times;
        self.mouse_button_pressed = (down_before | button_events.pressed) & !button_events.released;
    }
}

} // verus!
