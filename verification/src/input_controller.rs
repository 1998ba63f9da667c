//! Tracking of discrete input events: mouse motion, device buttons, keys.
//!
//! Keys are carried as plain key codes; the windowing layer maps its own
//! key type to a code before handing the event over.
use crate::algebra::Vec2;
use crate::fixed::Fx;
use std::collections::HashMap;
use vstd::prelude::*;

verus! {

/// Mouse state: a button bitmask and the latest motion delta.
pub struct InputMouse {
    pub mouse_buttons: u8,
    pub mouse_delta: Vec2,
}

/// Keyboard state: for each key code seen so far, whether it is down.
pub struct InputKeyboard {
    pub key_map: HashMap<u32, bool>,
}

/// Tracks the input devices' last known state.
pub struct InputController {
    pub mouse: InputMouse,
    pub keyboard: InputKeyboard,
}

impl InputController {
    /// A controller with no buttons down, no keys seen and a zero delta.
    pub fn new() -> (r: InputController)
        ensures
            r.mouse.mouse_buttons == 0,
            r.mouse.mouse_delta == (Vec2 { x: Fx { raw: 0 }, y: Fx { raw: 0 } }),
            r.keyboard.key_map@ =~= Map::<u32, bool>::empty(),
    {
        InputController {
            mouse: InputMouse {
                mouse_delta: Vec2::new(Fx { raw: 0 }, Fx { raw: 0 }),
                mouse_buttons: 0,
            },
            keyboard: InputKeyboard { key_map: HashMap::new() },
        }
    }

    /// Record the latest mouse motion delta, replacing the previous one.
    pub fn engine_mouse_move(&mut self, mouse_delta: Vec2)
        ensures
            final(self).mouse.mouse_delta == mouse_delta,
            final(self).mouse.mouse_buttons == old(self).mouse.mouse_buttons,
            final(self).keyboard.key_map@ == old(self).keyboard.key_map@,
    {
        self.mouse.mouse_delta = mouse_delta;
    }

    /// Set or clear one button's bit in the mask.
    pub fn engine_device_button(&mut self, button: u32, pressed: bool)
        requires
            button < 8,
        ensures
            final(self).mouse.mouse_buttons == (if pressed {
                old(self).mouse.mouse_buttons | (1u8 << button)
            } else {
                old(self).mouse.mouse_buttons & !(1u8 << button)
            }),
            final(self).mouse.mouse_delta == old(self).mouse.mouse_delta,
            final(self).keyboard.key_map@ == old(self).keyboard.key_map@,
    {
        if pressed {
            self.mouse.mouse_buttons = self.mouse.mouse_buttons | (1u8 << button);
        } else {
            self.mouse.mouse_buttons = self.mouse.mouse_buttons & !(1u8 << button);
        }
    }

    /// Record a key transition; an event with no key code is ignored.
    pub fn engine_key_input(&mut self, virtual_keycode: Option<u32>, pressed: bool)
        ensures
            final(self).keyboard.key_map@ == (match virtual_keycode {
                Option::Some(key) => old(self).keyboard.key_map@.insert(key, pressed),
                Option::None => old(self).keyboard.key_map@,
            }),
            final(self).mouse.mouse_delta == old(self).mouse.mouse_delta,
            final(self).mouse.mouse_buttons == old(self).mouse.mouse_buttons,
    {
        if virtual_keycode.is_none() {
            return ;
        }
        self.keyboard.key_map.insert(virtual_keycode.unwrap(), pressed);
    }
}

} // verus!
