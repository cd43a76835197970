//! USB keyboard input: mapping HID keycodes to demo selections.
use vstd::prelude::*;

use crate::scene::demos::{demo_for_index, Demo};

verus! {

/// HID keycode of the "1" key.
pub const HID_KEY_1: u8 = 0x1E;

/// HID keycode of the "2" key.
pub const HID_KEY_2: u8 = 0x1F;

/// HID keycode of the "3" key.
pub const HID_KEY_3: u8 = 0x20;

/// A keyboard event mapped to a demo selection.
#[derive(Clone, Copy, Debug, PartialEq, Eq, Structural)]
pub enum KeyEvent {
    SelectDemo(Demo),
}

/// The event a keycode maps to: keys 1, 2 and 3 select the three demos in
/// order; every other key maps to nothing.
pub open spec fn key_event_for(keycode: u8) -> Option<KeyEvent> {
    if keycode == HID_KEY_1 {
        Some(KeyEvent::SelectDemo(Demo::GouraudTriangle))
    } else if keycode == HID_KEY_2 {
        Some(KeyEvent::SelectDemo(Demo::TexturedTriangle))
    } else if keycode == HID_KEY_3 {
        Some(KeyEvent::SelectDemo(Demo::SpinningTeapot))
    } else {
        None
    }
}

/// Map an HID keycode to a demo selection.
pub fn map_keycode(keycode: u8) -> (e: Option<KeyEvent>)
    ensures
        e == key_event_for(keycode),
{
    if keycode == HID_KEY_1 {
        Some(KeyEvent::SelectDemo(Demo::GouraudTriangle))
    } else if keycode == HID_KEY_2 {
        Some(KeyEvent::SelectDemo(Demo::TexturedTriangle))
    } else if keycode == HID_KEY_3 {
        Some(KeyEvent::SelectDemo(Demo::SpinningTeapot))
    } else {
        None
    }
}

/// The event for a latched keycode, if one is pending.
pub open spec fn pending_event(pending: Option<u8>) -> Option<KeyEvent> {
    match pending {
        Some(k) => key_event_for(k),
        None => None,
    }
}

/// Latch the first keycode of an HID keyboard report: a nonzero keycode
/// replaces whatever was pending; a zero keycode (no key) leaves it.
pub fn latch_keycode(pending: &mut Option<u8>, keycode: u8)
    ensures
        keycode != 0 ==> *final(pending) == Some(keycode),
        keycode == 0 ==> *final(pending) == *old(pending),
{
    if keycode != 0 {
        *pending = Some(keycode);
    }
}

/// Poll for a keyboard event: take the pending keycode, if any, and map it
/// to its demo selection. Nothing is pending afterwards.
pub fn poll_keyboard(pending: &mut Option<u8>) -> (e: Option<KeyEvent>)
    ensures
        e == pending_event(*old(pending)),
        *final(pending) is None,
{
    let taken = *pending;
    *pending = None;
    match taken {
        Some(k) => map_keycode(k),
        None => None,
    }
}

/// The number keys and the demo indices agree: key "1" + i selects the demo
/// with index i, for each of the three demos, and no other index names a demo.
pub proof fn law_keys_match_demo_indices(i: u8)
    ensures
        i < 3 ==> demo_for_index(i) is Some && key_event_for((HID_KEY_1 + i) as u8) == Some(
            KeyEvent::SelectDemo(demo_for_index(i)->0),
        ),
        i >= 3 ==> demo_for_index(i) is None,
{
}

} // verus!
