//! Input event types: keyboard, HW serial (Arduino HID), and the action
//! kinds of mouse and touch events.
//!
//! Published on `nexox/down/input/<node>/...` (downstream: controller to
//! leaf), consumed by nexox input injection.
use vstd::prelude::*;

use crate::text::{is_non_empty, non_empty};
use crate::validate::PayloadValidation;

verus! {

#[derive(Debug, Clone, Copy, PartialEq, Eq, Structural)]
pub enum MouseAction {
    Move,
    Click,
    DoubleClick,
    Down,
    Up,
    Scroll,
}

#[derive(Debug, Clone, Copy, PartialEq, Eq, Structural)]
pub enum MouseButton {
    Left,
    Right,
    Middle,
}

#[derive(Debug, Clone, PartialEq, Eq)]
pub struct KeyEvent {
    pub action: KeyAction,
    pub key_code: u32,
    pub modifiers: Vec<KeyModifier>,
}

#[derive(Debug, Clone, Copy, PartialEq, Eq, Structural)]
pub enum KeyAction {
    Press,
    Release,
}

#[derive(Debug, Clone, Copy, PartialEq, Eq, Structural)]
pub enum KeyModifier {
    Shift,
    Ctrl,
    Alt,
    Meta,
}

impl KeyEvent {
    /// Every key event is acceptable: key code 0 is valid on some platforms.
    pub open spec fn valid(&self) -> bool {
        true
    }
}

impl PayloadValidation for KeyEvent {
    fn is_valid(&self) -> (b: bool)
        ensures
            b == self.valid(),
    {
        true
    }
}

#[derive(Debug, Clone, Copy, PartialEq, Eq, Structural)]
pub enum TouchAction {
    Tap,
    Swipe,
    LongPress,
}

#[derive(Debug, Clone, PartialEq, Eq)]
pub struct HwSerialEvent {
    pub port: String,
    pub data: Vec<u8>,
}

impl HwSerialEvent {
    /// A serial event names its port and carries some bytes.
    pub open spec fn valid(&self) -> bool {
        non_empty(self.port@) && self.data@.len() > 0
    }
}

impl PayloadValidation for HwSerialEvent {
    fn is_valid(&self) -> (b: bool)
        ensures
            b == self.valid(),
    {
        is_non_empty(&self.port) && !self.data.is_empty()
    }
}

/// Every key event is valid, key code 0 included.
pub proof fn lemma_key_event_rule(e: KeyEvent)
    ensures
        e.valid(),
{
}

/// A serial event is valid exactly when it names its port and carries at
/// least one byte.
pub proof fn lemma_hw_serial_rule(e: HwSerialEvent)
    ensures
        e.port@.len() == 0 ==> !e.valid(),
        e.data@.len() == 0 ==> !e.valid(),
        e.port@.len() > 0 && e.data@.len() > 0 ==> e.valid(),
{
}

} // verus!
