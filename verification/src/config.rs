//! Memory-layout constants of the kernel and the geometry of the per-task
//! kernel stacks, together with the proof that stacks of distinct task
//! slots never overlap.

use vstd::prelude::*;
use vstd::arithmetic::mul::lemma_mul_inequality;

verus! {

/// Bytes in one page of memory.
pub const PAGE_SIZE: usize = 4096;

/// Bytes reserved for each task's kernel-mode stack.
pub const KERNEL_STACK_SIZE: usize = 4096 * 2;

/// Bytes reserved for each task's user-mode stack.
pub const USER_STACK_SIZE: usize = 4096 * 2;

/// Highest page of the virtual address space, shared by every address
/// space so that trap entry code has one fixed home.
pub const TRAMPOLINE: usize = usize::MAX - PAGE_SIZE + 1;

/// Fixed virtual address, just below the trampoline, at which every
/// task's trap context is mapped in that task's own address space.
pub const TRAP_CONTEXT_BASE: usize = TRAMPOLINE - PAGE_SIZE;

/// Virtual page number of the trap-context page.
pub const TRAP_CONTEXT_VPN: usize = TRAP_CONTEXT_BASE / PAGE_SIZE;

/// Upper bound (exclusive) on task slot identifiers, so that the stack
/// geometry below stays inside the address space.
pub const MAX_TASK_SLOTS: usize = 4096;

/// Bytes of an application image's header: two little-endian 64-bit
/// words, the entry point and the top of the loaded region.
pub const IMAGE_HEADER_BYTES: usize = 16;

/// Upper bound on the top of an image's loaded region.
pub const MAX_IMAGE_END: usize = 0x1000_0000;

/// Highest user virtual address the model address space can back with
/// frames; growing a mapped range past it fails, the way exhausting the
/// frame pool would.
pub const USER_SPACE_LIMIT: usize = 0x4000_0000;

/// Physical frames the model machine has.
pub const MAX_PHYS_PAGES: usize = 0x10_0000;

/// Virtual bytes one kernel-stack slot occupies: the stack itself plus a
/// guard page that is left unmapped below it.
pub const KERNEL_STACK_SLOT: usize = KERNEL_STACK_SIZE + PAGE_SIZE;

/// Top (exclusive) of the kernel stack reserved for slot `slot_id`.
pub open spec fn spec_kernel_stack_top(slot_id: int) -> int {
    TRAMPOLINE - slot_id * KERNEL_STACK_SLOT
}

/// Bottom (inclusive) of the kernel stack reserved for slot `slot_id`.
pub open spec fn spec_kernel_stack_bottom(slot_id: int) -> int {
    spec_kernel_stack_top(slot_id) - KERNEL_STACK_SIZE
}

/// Both ends of slot `slot_id`'s kernel stack fit in the address space.
pub proof fn lemma_kernel_stack_in_range(slot_id: int)
    requires
        0 <= slot_id < MAX_TASK_SLOTS,
    ensures
        0 < spec_kernel_stack_bottom(slot_id),
        spec_kernel_stack_bottom(slot_id) < spec_kernel_stack_top(slot_id),
        spec_kernel_stack_top(slot_id) <= TRAMPOLINE,
{
    lemma_mul_inequality(slot_id, MAX_TASK_SLOTS as int, KERNEL_STACK_SLOT as int);
    lemma_mul_inequality(0, slot_id, KERNEL_STACK_SLOT as int);
}

/// Kernel stacks of two distinct slots are disjoint: one range ends at or
/// below the point where the other begins.
pub proof fn lemma_kernel_stacks_disjoint(slot_a: int, slot_b: int)
    requires
        0 <= slot_a < MAX_TASK_SLOTS,
        0 <= slot_b < MAX_TASK_SLOTS,
        slot_a != slot_b,
    ensures
        spec_kernel_stack_top(slot_a) <= spec_kernel_stack_bottom(slot_b)
            || spec_kernel_stack_top(slot_b) <= spec_kernel_stack_bottom(slot_a),
{
    if slot_a < slot_b {
        lemma_mul_inequality(slot_a + 1, slot_b, KERNEL_STACK_SLOT as int);
        assert((slot_a + 1) * KERNEL_STACK_SLOT == slot_a * KERNEL_STACK_SLOT
            + KERNEL_STACK_SLOT) by (nonlinear_arith);
    } else {
        lemma_mul_inequality(slot_b + 1, slot_a, KERNEL_STACK_SLOT as int);
        assert((slot_b + 1) * KERNEL_STACK_SLOT == slot_b * KERNEL_STACK_SLOT
            + KERNEL_STACK_SLOT) by (nonlinear_arith);
    }
}

/// Reserved kernel-stack range `(bottom, top)` of slot `slot_id` in the
/// kernel's shared address space; ranges of distinct slots are disjoint
/// (`lemma_kernel_stacks_disjoint`).
pub fn kernel_stack_position(slot_id: usize) -> (r: (usize, usize))
    requires
        slot_id < MAX_TASK_SLOTS,
    ensures
        r.0 == spec_kernel_stack_bottom(slot_id as int),
        r.1 == spec_kernel_stack_top(slot_id as int),
        0 < r.0 < r.1 <= TRAMPOLINE,
{
    proof {
        lemma_kernel_stack_in_range(slot_id as int);
        lemma_mul_inequality(slot_id as int, MAX_TASK_SLOTS as int, KERNEL_STACK_SLOT as int);
    }
    let top: usize = TRAMPOLINE - slot_id * KERNEL_STACK_SLOT;
    let bottom: usize = top - KERNEL_STACK_SIZE;
    (bottom, top)
}

} // verus!
