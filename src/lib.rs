//! Exception and interrupt dispatch core of a small x86-64 kernel: vector
//! assignment, the vector table, the demand-paging policy, device handler
//! plans, the chained interrupt controller shim, and the command shell's
//! input logic.

mod vectors;
mod table;
mod faults;
mod keyboard;
mod devices;
mod pic;
mod shell;

pub use vectors::{InterruptIndex, PIC1_OFFSET, PIC2_OFFSET, APIC_TIMER_VECTOR};
pub use table::{
    init_idt, Entry, Handler, VectorTable, BREAKPOINT_VECTOR, DOUBLE_FAULT_IST_INDEX,
    DOUBLE_FAULT_VECTOR, GENERAL_PROTECTION_VECTOR, PAGE_FAULT_VECTOR, TABLE_LEN,
};
pub use faults::{
    begin_page_fault, disposition, step_page_fault, Disposition, Fatal, FaultAction, FaultEvent,
    FaultState, FLAG_PRESENT, FLAG_WRITABLE, PAGE_SIZE,
};
pub use devices::{
    apic_timer_interrupt, keyboard_actions, keyboard_interrupt, timer_interrupt, DeviceAction,
    Notice, KEYBOARD_DATA_PORT,
};
pub use keyboard::{Key, KeyDecoder};
pub use pic::{ChainedPics, CMD_END_OF_INTERRUPT, PIC1_COMMAND, PIC2_COMMAND};
pub use shell::{edit_line, Command, Edit, Outcome, ParseError, Reply, Shell, HISTORY_CAPACITY};
