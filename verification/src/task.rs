//! Task management: the task control block, its construction from a
//! loadable application image, and the heap-break mutation.

use vstd::prelude::*;
use crate::config::MAX_TASK_SLOTS;
use crate::config::MAX_PHYS_PAGES;
use crate::config::TRAP_CONTEXT_BASE;
use crate::config::USER_SPACE_LIMIT;
use crate::config::kernel_stack_position;
use crate::config::spec_kernel_stack_bottom;
use crate::config::spec_kernel_stack_top;
use crate::mm::Kernel;
use crate::mm::MapArea;
use crate::mm::MapPermission;
use crate::mm::MemorySet;
use crate::mm::PhysPageNum;
use crate::mm::VirtAddr;
use crate::mm::lemma_index_of_first_match;
use crate::mm::spec_area_starts;
use crate::mm::spec_frame_vpns;
use crate::mm::spec_image_entry;
use crate::mm::spec_image_wellformed;
use crate::mm::spec_initial_areas;
use crate::mm::spec_range_free;
use crate::mm::spec_user_stack_top;
use crate::trap::TRAP_HANDLER_ENTRY;
use crate::trap::TRAP_RETURN_ENTRY;
use crate::trap::TrapContext;

verus! {

/// Callee-saved execution context the context-switch mechanism saves and
/// restores; owned exclusively by one task.
#[derive(Clone, Copy, PartialEq, Eq, Structural, Debug)]
pub struct TaskContext {
    /// Address execution resumes at when this context is switched in.
    pub ra: usize,
    /// Kernel-stack pointer the context is resumed on.
    pub sp: usize,
}

impl TaskContext {
    /// Context that resumes through the generic trap-return entry point
    /// on the kernel stack whose top is `kstack_ptr`.
    pub open spec fn spec_goto_trap_return(kstack_ptr: usize) -> TaskContext {
        TaskContext { ra: TRAP_RETURN_ENTRY, sp: kstack_ptr }
    }

    /// Build the context [`TaskContext::spec_goto_trap_return`] describes.
    pub fn goto_trap_return(kstack_ptr: usize) -> (cx: TaskContext)
        ensures
            cx == TaskContext::spec_goto_trap_return(kstack_ptr),
    {
        TaskContext { ra: TRAP_RETURN_ENTRY, sp: kstack_ptr }
    }
}

/// Lifecycle state of a task. A freshly constructed task is `Ready`;
/// `UnInit` only describes a slot before any task occupies it, and
/// `Exited` is terminal.
#[derive(Clone, Copy, PartialEq, Eq, Structural, Debug)]
pub enum TaskStatus {
    /// No task occupies the slot yet.
    UnInit,
    /// Ready to be dispatched.
    Ready,
    /// Currently holding the processor.
    Running,
    /// Terminated; no outgoing transition.
    Exited,
}

/// The task control block: per-task bookkeeping of execution context,
/// lifecycle state and address-space ownership.
#[derive(Debug)]
pub struct TaskControlBlock {
    /// Saved execution context used by the context-switch mechanism.
    pub task_cx: TaskContext,
    /// Current lifecycle state.
    pub task_status: TaskStatus,
    /// The task's private address space; never shared between tasks.
    pub memory_set: MemorySet,
    /// Physical frame holding the trap context of the task.
    pub trap_cx_ppn: PhysPageNum,
    /// Top of the initially mapped user region, as loaded from the image.
    pub base_size: usize,
    /// Fixed lower bound of the task's heap.
    pub heap_bottom: usize,
    /// Current upper bound of the task's heap; mutable.
    pub program_brk: usize,
}

impl TaskControlBlock {
    /// Well-formedness: the task's address space maps exactly its four
    /// initial areas; the third is the heap, running from `heap_bottom`
    /// to `program_brk` with read/write user permission, and no earlier
    /// area starts at `heap_bottom`, so the heap is the area a resize
    /// addressed by `heap_bottom` finds. The break never drops under the
    /// heap bottom and stays inside the mappable user range.
    pub open spec fn wf(self) -> bool {
        &&& self.memory_set.areas@.len() == 4
        &&& self.memory_set.areas@[2].start == self.heap_bottom
        &&& self.memory_set.areas@[2].end == self.program_brk
        &&& self.memory_set.areas@[2].perm == (MapPermission { r: true, w: true, x: false, u: true })
        &&& self.memory_set.areas@[0].start != self.heap_bottom
        &&& self.memory_set.areas@[1].start != self.heap_bottom
        &&& self.heap_bottom <= self.program_brk
        &&& self.program_brk <= USER_SPACE_LIMIT
    }

    /// Decide [`TaskControlBlock::wf`] at run time, for callers outside
    /// verified code that must test it before asking for a break change.
    pub fn is_wf(&self) -> (wellformed: bool)
        ensures
            wellformed == self.wf(),
    {
        let perm = MapPermission { r: true, w: true, x: false, u: true };
        self.memory_set.areas.len() == 4 && self.memory_set.areas[2].start == self.heap_bottom
            && self.memory_set.areas[2].end == self.program_brk && self.memory_set.areas[2].perm
            == perm && self.memory_set.areas[0].start != self.heap_bottom
            && self.memory_set.areas[1].start != self.heap_bottom && self.heap_bottom
            <= self.program_brk && self.program_brk <= USER_SPACE_LIMIT
    }

    /// Direct reference to the trap context, reached through the
    /// physical frame rather than through the task's own page table (the
    /// kernel runs with full physical visibility).
    pub fn get_trap_cx(&self) -> (cx: &TrapContext)
        ensures
            *cx == self.memory_set.trap_cx_frame,
    {
        &self.memory_set.trap_cx_frame
    }

    /// Token the context-switch mechanism uses to install the task's
    /// address space as the active one; a pure read.
    pub fn get_user_token(&self) -> (token: usize)
        ensures
            token == self.memory_set.satp,
    {
        self.memory_set.token()
    }

    /// Build the contents of a task from a loadable application image in
    /// a fresh, isolated address space: resolve the trap-context frame,
    /// map a kernel stack for slot `app_id` in the kernel's shared
    /// space, assemble the block with `Ready` status and the break at
    /// the initial stack pointer, and write the initial trap context
    /// (entry point, user stack, kernel token, kernel stack top, trap
    /// handler) into the trap-context frame.
    pub fn new(elf_data: &[u8], app_id: usize, kernel: &mut Kernel) -> (task: TaskControlBlock)
        requires
            spec_image_wellformed(elf_data@),
            app_id < MAX_TASK_SLOTS,
            old(kernel).allocator.next + 2 <= MAX_PHYS_PAGES,
            spec_range_free(
                old(kernel).space.areas@,
                spec_kernel_stack_bottom(app_id as int),
                spec_kernel_stack_top(app_id as int),
            ),
        ensures
            task.wf(),
            task.task_status == TaskStatus::Ready,
            task.heap_bottom == spec_user_stack_top(elf_data@),
            task.program_brk == spec_user_stack_top(elf_data@),
            task.base_size == spec_user_stack_top(elf_data@),
            task.task_cx == TaskContext::spec_goto_trap_return(
                spec_kernel_stack_top(app_id as int) as usize,
            ),
            task.trap_cx_ppn.0 == old(kernel).allocator.next + 1,
            task.memory_set.satp == old(kernel).allocator.next,
            task.memory_set.areas@ == spec_initial_areas(elf_data@),
            task.memory_set.trap_cx_frame == TrapContext::spec_app_init_context(
                spec_image_entry(elf_data@) as usize,
                spec_user_stack_top(elf_data@) as usize,
                old(kernel).space.satp,
                spec_kernel_stack_top(app_id as int) as usize,
                TRAP_HANDLER_ENTRY,
            ),
            final(kernel).space.areas@ == old(kernel).space.areas@.push(
                MapArea {
                    start: spec_kernel_stack_bottom(app_id as int) as usize,
                    end: spec_kernel_stack_top(app_id as int) as usize,
                    perm: MapPermission { r: true, w: true, x: false, u: false },
                },
            ),
            final(kernel).space.satp == old(kernel).space.satp,
            final(kernel).space.frames@ == old(kernel).space.frames@,
            final(kernel).space.trap_cx_frame == old(kernel).space.trap_cx_frame,
            final(kernel).allocator.next == old(kernel).allocator.next + 2,
    {
        let (memory_set, user_sp, entry_point) = MemorySet::from_elf(
            elf_data,
            &mut kernel.allocator,
        );
        proof {
            lemma_index_of_first_match(
                spec_frame_vpns(memory_set.frames@),
                (TRAP_CONTEXT_BASE / crate::config::PAGE_SIZE) as usize,
                0,
            );
        }
        let trap_cx_ppn = memory_set.translate(VirtAddr(TRAP_CONTEXT_BASE).floor()).unwrap();
        let task_status = TaskStatus::Ready;
        let (kernel_stack_bottom, kernel_stack_top) = kernel_stack_position(app_id);
        kernel.space.insert_framed_area(
            VirtAddr(kernel_stack_bottom),
            VirtAddr(kernel_stack_top),
            MapPermission { r: true, w: true, x: false, u: false },
        );
        let mut task_control_block = TaskControlBlock {
            task_status,
            task_cx: TaskContext::goto_trap_return(kernel_stack_top),
            memory_set,
            trap_cx_ppn,
            base_size: user_sp,
            heap_bottom: user_sp,
            program_brk: user_sp,
        };
        let kernel_token = kernel.space.token();
        task_control_block.memory_set.trap_cx_frame = TrapContext::app_init_context(
            entry_point,
            user_sp,
            kernel_token,
            kernel_stack_top,
            TRAP_HANDLER_ENTRY,
        );
        task_control_block
    }

    /// Move the program break by `size` bytes. A request that would drop
    /// the break under the heap bottom, or that the address space cannot
    /// back, fails and returns nothing, with the task left unchanged. On
    /// success the break moves to `program_brk + size`, the heap area
    /// covers exactly `[heap_bottom, program_brk + size)` with read/write
    /// user permission, and the previous break is returned.
    pub fn change_program_brk(&mut self, size: i32) -> (prev: Option<usize>)
        requires
            old(self).wf(),
        ensures
            final(self).wf(),
            final(self).task_status == old(self).task_status,
            final(self).task_cx == old(self).task_cx,
            final(self).trap_cx_ppn == old(self).trap_cx_ppn,
            final(self).base_size == old(self).base_size,
            final(self).heap_bottom == old(self).heap_bottom,
            final(self).memory_set.satp == old(self).memory_set.satp,
            final(self).memory_set.frames@ == old(self).memory_set.frames@,
            final(self).memory_set.trap_cx_frame == old(self).memory_set.trap_cx_frame,
            ({
                let new_brk = old(self).program_brk + size as int;
                if new_brk < old(self).heap_bottom || new_brk > USER_SPACE_LIMIT {
                    &&& prev is None
                    &&& final(self).program_brk == old(self).program_brk
                    &&& final(self).memory_set.areas@ == old(self).memory_set.areas@
                } else {
                    &&& prev == Some(old(self).program_brk)
                    &&& final(self).program_brk == new_brk
                    &&& final(self).memory_set.areas@ == old(self).memory_set.areas@.update(
                        2,
                        (MapArea {
                            start: old(self).heap_bottom,
                            end: new_brk as usize,
                            perm: MapPermission { r: true, w: true, x: false, u: true },
                        }),
                    )
                }
            }),
    {
        let old_break = self.program_brk;
        let new_brk: i64 = self.program_brk as i64 + size as i64;
        if new_brk < self.heap_bottom as i64 {
            return None;
        }
        proof {
            lemma_index_of_first_match(
                spec_area_starts(self.memory_set.areas@),
                self.heap_bottom,
                2,
            );
        }
        let result = if size < 0 {
            self.memory_set.shrink_to(VirtAddr(self.heap_bottom), VirtAddr(new_brk as usize))
        } else {
            self.memory_set.append_to(VirtAddr(self.heap_bottom), VirtAddr(new_brk as usize))
        };
        if result {
            self.program_brk = new_brk as usize;
            Some(old_break)
        } else {
            None
        }
    }
}

} // verus!
