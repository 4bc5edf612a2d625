use vstd::prelude::*;
use crate::keyboard::{Key, KeyDecoder};
use crate::vectors::InterruptIndex;

verus! {

/// Fixed I/O port from which the keyboard handler reads one scancode byte.
pub const KEYBOARD_DATA_PORT: u16 = 0x60;

/// A step that a device handler asks of the hardware, in order.
#[derive(Debug, Clone, Copy, PartialEq, Eq, Structural)]
pub enum DeviceAction {
    /// Hand a decoded character to the console sink.
    PutChar(char),
    /// End of interrupt to the legacy controller for this vector.
    Acknowledge(u8),
    /// End of interrupt to the local controller.
    AcknowledgeLocal,
    /// Write a line to the console.
    Log(Notice),
}

/// Console lines that device handlers write.
#[derive(Debug, Clone, Copy, PartialEq, Eq, Structural)]
pub enum Notice {
    /// The framed local-timer handler ran.
    LocalTimer,
}

impl Notice {
    /// The line's text.
    pub fn text(self) -> (r: &'static str)
        ensures
            r@ == "Timer APIC"@,
    {
        match self {
            Notice::LocalTimer => "Timer APIC",
        }
    }
}

/// Whether an action is an end of interrupt to either controller.
pub open spec fn is_ack(a: DeviceAction) -> bool {
    a is Acknowledge || a is AcknowledgeLocal
}

/// Number of end-of-interrupt actions in a plan.
pub open spec fn ack_count(s: Seq<DeviceAction>) -> nat
    decreases s.len(),
{
    if s.len() == 0 {
        0
    } else {
        ack_count(s.drop_last()) + if is_ack(s.last()) { 1nat } else { 0nat }
    }
}

/// A handler's plan acknowledges exactly once, as its last action, with `ack`.
pub open spec fn acks_once_last(s: Seq<DeviceAction>, ack: DeviceAction) -> bool {
    &&& s.len() > 0
    &&& s.last() == ack
    &&& ack_count(s) == 1
}

/// What the keyboard handler does once the decoder has produced `key`.
pub open spec fn keyboard_plan(key: Option<Key>) -> Seq<DeviceAction> {
    let ack = DeviceAction::Acknowledge(InterruptIndex::Keyboard.vector());
    match key {
        Some(Key::Unicode(c)) => seq![DeviceAction::PutChar(c), ack],
        _ => seq![ack],
    }
}

/// The keyboard handler's plan for a decoded key: forward a character to
/// the console, then acknowledge line 1; acknowledge alone otherwise.
pub fn keyboard_actions(key: Option<Key>) -> (r: Vec<DeviceAction>)
    ensures
        r@ == keyboard_plan(key),
{
    let ack = DeviceAction::Acknowledge(InterruptIndex::Keyboard.as_u8());
    match key {
        Some(Key::Unicode(c)) => vec![DeviceAction::PutChar(c), ack],
        _ => vec![ack],
    }
}

/// The keyboard handler, given the byte read from the data port.
pub fn keyboard_interrupt(decoder: &mut KeyDecoder, scancode: u8) -> (r: Vec<DeviceAction>)
    ensures
        final(decoder).fed() == old(decoder).fed().push(scancode),
        exists|key: Option<Key>| r@ == keyboard_plan(key),
        acks_once_last(r@, DeviceAction::Acknowledge(InterruptIndex::Keyboard.vector())),
{
    let key = decoder.feed(scancode);
    let r = keyboard_actions(key);
    proof {
        lemma_device_acks_once(key);
    }
    r
}

/// The legacy timer handler: acknowledge line 0 and nothing else.
pub fn timer_interrupt() -> (r: Vec<DeviceAction>)
    ensures
        r@ == seq![DeviceAction::Acknowledge(InterruptIndex::Timer.vector())],
{
    vec![DeviceAction::Acknowledge(InterruptIndex::Timer.as_u8())]
}

/// The framed local-timer handler: log a line, then acknowledge the local
/// controller.
pub fn apic_timer_interrupt() -> (r: Vec<DeviceAction>)
    ensures
        r@ == seq![DeviceAction::Log(Notice::LocalTimer), DeviceAction::AcknowledgeLocal],
{
    vec![DeviceAction::Log(Notice::LocalTimer), DeviceAction::AcknowledgeLocal]
}

/// Every device handler acknowledges its own line exactly once per
/// interrupt, and only after all its other work: for the keyboard whatever
/// the decoder produced, and for both timers.
pub proof fn lemma_device_acks_once(key: Option<Key>)
    ensures
        acks_once_last(keyboard_plan(key), DeviceAction::Acknowledge(InterruptIndex::Keyboard.vector())),
        acks_once_last(
            seq![DeviceAction::Acknowledge(InterruptIndex::Timer.vector())],
            DeviceAction::Acknowledge(InterruptIndex::Timer.vector()),
        ),
        acks_once_last(
            seq![DeviceAction::Log(Notice::LocalTimer), DeviceAction::AcknowledgeLocal],
            DeviceAction::AcknowledgeLocal,
        ),
{
    let ack = DeviceAction::Acknowledge(InterruptIndex::Keyboard.vector());
    reveal_with_fuel(ack_count, 3);
    match key {
        Some(Key::Unicode(c)) => {
            let s = seq![DeviceAction::PutChar(c), ack];
            assert(s.drop_last() =~= seq![DeviceAction::PutChar(c)]);
            assert(s.drop_last().drop_last() =~= Seq::<DeviceAction>::empty());
        },
        _ => {
            assert(seq![ack].drop_last() =~= Seq::<DeviceAction>::empty());
        },
    }
    let local = seq![DeviceAction::Log(Notice::LocalTimer), DeviceAction::AcknowledgeLocal];
    assert(local.drop_last() =~= seq![DeviceAction::Log(Notice::LocalTimer)]);
    assert(local.drop_last().drop_last() =~= Seq::<DeviceAction>::empty());
    assert(seq![DeviceAction::Acknowledge(InterruptIndex::Timer.vector())].drop_last()
        =~= Seq::<DeviceAction>::empty());
}

} // verus!
