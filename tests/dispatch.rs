use pc_keyboard::{KeyCode, KeyEvent, KeyState};
use kern_interrupts::{
    apic_timer_interrupt, begin_page_fault, disposition, init_idt, keyboard_actions,
    keyboard_interrupt, step_page_fault, timer_interrupt, ChainedPics, DeviceAction, Disposition,
    Entry, Fatal, Notice, FaultAction, FaultEvent, FaultState, Handler, InterruptIndex, Key, KeyDecoder,
    APIC_TIMER_VECTOR, DOUBLE_FAULT_IST_INDEX, PIC1_COMMAND, PIC1_OFFSET, PIC2_COMMAND,
    PIC2_OFFSET,
};

#[test]
fn vector_numbers() {
    assert_eq!(InterruptIndex::Timer.as_u8(), 0x20);
    assert_eq!(InterruptIndex::Keyboard.as_u8(), 0x21);
    assert_eq!(InterruptIndex::ApicTimer.as_u8(), 0x30);
    assert_eq!(InterruptIndex::Keyboard.as_usize(), 33usize);
    assert_ne!(InterruptIndex::Timer.as_u8(), InterruptIndex::ApicTimer.as_u8());
    assert_eq!(PIC2_OFFSET, PIC1_OFFSET + 8);
}

#[test]
fn table_dispatches_each_vector_to_its_handler() {
    let t = init_idt();
    assert_eq!(t.dispatch(3), Some(Handler::Breakpoint));
    assert_eq!(t.dispatch(8), Some(Handler::DoubleFault));
    assert_eq!(t.dispatch(13), Some(Handler::GeneralProtection));
    assert_eq!(t.dispatch(14), Some(Handler::PageFault));
    assert_eq!(t.dispatch(PIC1_OFFSET), Some(Handler::Timer));
    assert_eq!(t.dispatch(PIC1_OFFSET + 1), Some(Handler::Keyboard));
    assert_eq!(t.dispatch(APIC_TIMER_VECTOR), Some(Handler::ContextSwitch));
    assert_eq!(t.dispatch(0), None);
    assert_eq!(t.dispatch(255), None);
    let mut used = 0;
    for v in 0..=255u8 {
        if t.dispatch(v).is_some() {
            used += 1;
        }
    }
    assert_eq!(used, 7);
}

#[test]
fn double_fault_slot_uses_reserved_stack() {
    let t = init_idt();
    assert_eq!(
        t.entry(8),
        Entry::Framed { handler: Handler::DoubleFault, stack_index: Some(DOUBLE_FAULT_IST_INDEX) }
    );
    assert_eq!(t.entry(14), Entry::Framed { handler: Handler::PageFault, stack_index: None });
    assert_eq!(t.entry(0x30), Entry::RawCapture(Handler::ContextSwitch));
}

#[test]
fn exception_dispositions() {
    assert_eq!(disposition(Handler::Breakpoint), Disposition::Resume);
    assert_eq!(disposition(Handler::GeneralProtection), Disposition::Halt);
    assert_eq!(disposition(Handler::DoubleFault), Disposition::Halt);
    assert_eq!(disposition(Handler::PageFault), Disposition::DemandPage);
    assert_eq!(disposition(Handler::ContextSwitch), Disposition::Reschedule);
}

#[test]
fn page_fault_maps_page_to_allocated_frame() {
    let frame = 0x5000u64;
    let (s0, a0) = begin_page_fault(0x2000);
    assert_eq!(a0, FaultAction::AllocateFrame);
    assert_eq!(s0, FaultState::AwaitFrame { page: 0x2000 });
    let (s1, a1) = step_page_fault(s0, FaultEvent::FrameAllocated(frame));
    assert_eq!(a1, FaultAction::MapPage { page: 0x2000, frame, flags: 0b11 });
    let (s2, a2) = step_page_fault(s1, FaultEvent::Mapped);
    assert_eq!(a2, FaultAction::Flush { page: 0x2000 });
    let (s3, a3) = step_page_fault(s2, FaultEvent::Flushed);
    assert_eq!(s3, FaultState::Resumed);
    assert_eq!(a3, FaultAction::Resume);
}

#[test]
fn page_fault_rounds_down_to_page_start() {
    let (s0, _) = begin_page_fault(0x2abc);
    assert_eq!(s0, FaultState::AwaitFrame { page: 0x2000 });
    let (s0, _) = begin_page_fault(0xffff_8000_0000_1fff);
    assert_eq!(s0, FaultState::AwaitFrame { page: 0xffff_8000_0000_1000 });
}

#[test]
fn page_fault_halts_when_frames_run_out() {
    let (s0, _) = begin_page_fault(0x2000);
    let (s1, a1) = step_page_fault(s0, FaultEvent::FramesExhausted);
    assert_eq!(s1, FaultState::Halted(Fatal::FramesExhausted));
    assert_eq!(a1, FaultAction::Halt(Fatal::FramesExhausted));
}

#[test]
fn page_fault_halts_when_mapping_refused() {
    let (s0, _) = begin_page_fault(0x7000);
    let (s1, _) = step_page_fault(s0, FaultEvent::FrameAllocated(0x9000));
    let (s2, a2) = step_page_fault(s1, FaultEvent::MapRefused);
    assert_eq!(s2, FaultState::Halted(Fatal::MapRefused));
    assert_eq!(a2, FaultAction::Halt(Fatal::MapRefused));
    let (_, a) = step_page_fault(FaultState::Resumed, FaultEvent::Mapped);
    assert_eq!(a, FaultAction::Halt(Fatal::UnexpectedEvent));
}

#[test]
fn keyboard_byte_for_a_forwards_character_then_acknowledges() {
    let mut dec = KeyDecoder::new();
    let plan = keyboard_interrupt(&mut dec, 0x1E);
    assert_eq!(plan, vec![DeviceAction::PutChar('a'), DeviceAction::Acknowledge(0x21)]);
}

#[test]
fn keyboard_release_only_acknowledges() {
    let mut dec = KeyDecoder::new();
    let _ = keyboard_interrupt(&mut dec, 0x1E);
    let plan = keyboard_interrupt(&mut dec, 0x9E);
    assert_eq!(plan, vec![DeviceAction::Acknowledge(0x21)]);
}

#[test]
fn decoder_feeds_keys() {
    let mut dec = KeyDecoder::new();
    assert_eq!(dec.feed(0x30), Some(Key::Unicode('b')));
    assert_eq!(dec.feed(0xB0), None);
}

#[test]
fn device_plans_acknowledge_once_last() {
    assert_eq!(keyboard_actions(None), vec![DeviceAction::Acknowledge(0x21)]);
    assert_eq!(keyboard_actions(Some(Key::Raw)), vec![DeviceAction::Acknowledge(0x21)]);
    assert_eq!(
        keyboard_actions(Some(Key::Unicode('z'))),
        vec![DeviceAction::PutChar('z'), DeviceAction::Acknowledge(0x21)]
    );
    assert_eq!(timer_interrupt(), vec![DeviceAction::Acknowledge(0x20)]);
    assert_eq!(
        apic_timer_interrupt(),
        vec![DeviceAction::Log(Notice::LocalTimer), DeviceAction::AcknowledgeLocal]
    );
    assert_eq!(Notice::LocalTimer.text(), "Timer APIC");
}

#[test]
fn chained_pics_end_of_interrupt() {
    let p = ChainedPics::kernel_default();
    assert!(p.handles_interrupt(0x20));
    assert!(p.handles_interrupt(0x2f));
    assert!(!p.handles_interrupt(0x30));
    assert!(!p.handles_interrupt(0x1f));
    assert_eq!(p.end_of_interrupt_ports(0x21), vec![PIC1_COMMAND]);
    assert_eq!(p.end_of_interrupt_ports(0x2c), vec![PIC2_COMMAND, PIC1_COMMAND]);
    assert_eq!(p.end_of_interrupt_ports(0x80), Vec::<u16>::new());
    assert_eq!(p.line_vector(0), 0x20);
    assert_eq!(p.line_vector(1), 0x21);
    assert_eq!(p.line_vector(12), 0x2c);
}

#[test]
fn decoder_resolves_only_completed_events() {
    let mut dec = KeyDecoder::new();
    assert_eq!(dec.resolve(Ok(None)), None);
    assert_eq!(dec.resolve(Err(pc_keyboard::Error::UnknownKeyCode)), None);
    assert_eq!(
        dec.resolve(Ok(Some(KeyEvent::new(KeyCode::A, KeyState::Down)))),
        Some(Key::Unicode('a'))
    );
}

#[test]
fn decoder_partial_sequence_yields_nothing() {
    let mut dec = KeyDecoder::new();
    assert_eq!(dec.feed(0xE0), None);
    assert_eq!(keyboard_interrupt(&mut dec, 0xE0), vec![DeviceAction::Acknowledge(0x21)]);
}
