//! The trap context: the state snapshot written into each task's
//! trap-context frame so that the trap dispatcher (a collaborator of this
//! core, with its own register-save-area layout) can enter the task in
//! user mode and the kernel can regain control on the next trap.
//!
//! Only what this core reads and writes is modelled: the fields the
//! initial-context constructor fills. The two entry points of the trap
//! dispatcher are fixed model addresses in kernel text.

use vstd::prelude::*;

verus! {

/// Model address of the trap dispatcher's entry handler in kernel text.
pub const TRAP_HANDLER_ENTRY: usize = 0x8020_0000;

/// Model address of the generic trap-return path in kernel text, through
/// which a freshly built task is first resumed.
pub const TRAP_RETURN_ENTRY: usize = 0x8020_1000;

/// Saved state used to enter and resume from privilege-level
/// transitions, one instance per task in that task's trap-context frame.
#[derive(Clone, Copy, PartialEq, Eq, Structural, Debug)]
pub struct TrapContext {
    /// Whether the trap returns to user privilege.
    pub spp_user: bool,
    /// Program counter the trap returns to.
    pub sepc: usize,
    /// The task's stack pointer register.
    pub user_sp: usize,
    /// Token of the kernel's own address space, installed on trap entry.
    pub kernel_satp: usize,
    /// Top of the task's kernel-mode stack, used on trap entry.
    pub kernel_sp: usize,
    /// Address the trap entry code dispatches to.
    pub trap_handler: usize,
}

impl TrapContext {
    /// The all-clear context a freshly allocated trap-context frame
    /// holds before the initial context is written into it.
    pub open spec fn spec_zeroed() -> TrapContext {
        TrapContext {
            spp_user: false,
            sepc: 0,
            user_sp: 0,
            kernel_satp: 0,
            kernel_sp: 0,
            trap_handler: 0,
        }
    }

    /// Image of the initial trap context of an application: resume at
    /// `entry` in user privilege on stack `sp`, with the kernel's
    /// address-space token, kernel stack top and trap-handler address at
    /// hand for the next trap.
    pub open spec fn spec_app_init_context(
        entry: usize,
        sp: usize,
        kernel_satp: usize,
        kernel_sp: usize,
        trap_handler: usize,
    ) -> TrapContext {
        TrapContext { spp_user: true, sepc: entry, user_sp: sp, kernel_satp, kernel_sp, trap_handler }
    }

    /// Build the zeroed context.
    pub fn zeroed() -> (cx: TrapContext)
        ensures
            cx == TrapContext::spec_zeroed(),
    {
        TrapContext {
            spp_user: false,
            sepc: 0,
            user_sp: 0,
            kernel_satp: 0,
            kernel_sp: 0,
            trap_handler: 0,
        }
    }

    /// Build the initial trap context of an application, exactly the
    /// image [`TrapContext::spec_app_init_context`] describes.
    pub fn app_init_context(
        entry: usize,
        sp: usize,
        kernel_satp: usize,
        kernel_sp: usize,
        trap_handler: usize,
    ) -> (cx: TrapContext)
        ensures
            cx == TrapContext::spec_app_init_context(entry, sp, kernel_satp, kernel_sp, trap_handler),
    {
        TrapContext { spp_user: true, sepc: entry, user_sp: sp, kernel_satp, kernel_sp, trap_handler }
    }
}

} // verus!
