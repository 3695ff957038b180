//! The privileged call layer: the one boundary across which the kernel
//! requests services from the firmware beneath it.
//!
//! The firmware itself is a collaborator, not part of this core, so it is
//! modelled by [`Firmware`]: the state the kernel can observe or change
//! through environment calls — the armed timer deadline, the bytes emitted
//! on the console, and whether the machine has been halted. Every call
//! goes through [`sbi_call`], which dispatches on the selector exactly as
//! the firmware ABI fixes it.
//!
//! [`shutdown`] never hands control back on real hardware. The model
//! renders that as a one-way transition: it sets [`Firmware::halted`],
//! and every environment call requires the machine not yet halted, so no
//! verified code can interact with the machine after a shutdown request.

use vstd::prelude::*;

verus! {

/// Selector of the set-timer environment call.
pub const SBI_SET_TIMER: usize = 0;

/// Selector of the console-putchar environment call.
pub const SBI_CONSOLE_PUTCHAR: usize = 1;

/// Selector of the shutdown environment call.
pub const SBI_SHUTDOWN: usize = 8;

/// Observable state of the firmware / execution environment beneath the
/// kernel: everything an environment call can read or change.
pub struct Firmware {
    /// Deadline of the next timer interrupt, if one has been armed.
    pub timer: Option<usize>,
    /// Bytes emitted on the console device, oldest first.
    pub console: Vec<u8>,
    /// Whether the machine has been brought down. Once set it never
    /// clears, and no environment call accepts a halted machine: the
    /// state is terminal.
    pub halted: bool,
}

/// One synchronous environment call under the fixed register convention:
/// a selector and up to three arguments, the raw result handed back in
/// the first argument register.
fn sbi_call(firmware: &mut Firmware, which: usize, arg0: usize, arg1: usize, arg2: usize) -> (r:
    usize)
    requires
        !old(firmware).halted,
        which == SBI_SET_TIMER || which == SBI_CONSOLE_PUTCHAR || which == SBI_SHUTDOWN,
    ensures
        which == SBI_SET_TIMER ==> *final(firmware) == (Firmware {
            timer: Some(arg0),
            ..*old(firmware)
        }),
        which == SBI_CONSOLE_PUTCHAR ==> *final(firmware) == (Firmware {
            console: final(firmware).console,
            ..*old(firmware)
        }) && final(firmware).console@ == old(firmware).console@.push((arg0 % 256) as u8),
        which == SBI_SHUTDOWN ==> *final(firmware) == (Firmware {
            halted: true,
            ..*old(firmware)
        }),
        r == 0,
{
    if which == SBI_SET_TIMER {
        firmware.timer = Some(arg0);
    } else if which == SBI_CONSOLE_PUTCHAR {
        firmware.console.push((arg0 % 256) as u8);
    } else {
        firmware.halted = true;
    }
    0
}

/// Arm the next timer interrupt to fire at the absolute tick `timer`;
/// fire and forget, nothing else about the firmware changes.
pub fn set_timer(firmware: &mut Firmware, timer: usize)
    requires
        !old(firmware).halted,
    ensures
        *final(firmware) == (Firmware { timer: Some(timer), ..*old(firmware) }),
{
    sbi_call(firmware, SBI_SET_TIMER, timer, 0, 0);
}

/// Emit one byte (the low eight bits of `c`) on the console device;
/// nothing else about the firmware changes.
pub fn console_putchar(firmware: &mut Firmware, c: usize)
    requires
        !old(firmware).halted,
    ensures
        final(firmware).console@ == old(firmware).console@.push((c % 256) as u8),
        final(firmware).timer == old(firmware).timer,
        final(firmware).halted == old(firmware).halted,
{
    sbi_call(firmware, SBI_CONSOLE_PUTCHAR, c, 0, 0);
}

/// Request that the firmware power the machine off. On hardware this
/// call never returns; here it moves the model into its terminal halted
/// state, which no environment call accepts, so verified kernel code can
/// take no further action on the machine after this point.
pub fn shutdown(firmware: &mut Firmware)
    requires
        !old(firmware).halted,
    ensures
        *final(firmware) == (Firmware { halted: true, ..*old(firmware) }),
{
    sbi_call(firmware, SBI_SHUTDOWN, 0, 0, 0);
}

} // verus!
