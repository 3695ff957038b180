use kernel_core::config::KERNEL_STACK_SIZE;
use kernel_core::config::MAX_TASK_SLOTS;
use kernel_core::config::PAGE_SIZE;
use kernel_core::config::TRAMPOLINE;
use kernel_core::config::TRAP_CONTEXT_BASE;
use kernel_core::config::USER_STACK_SIZE;
use kernel_core::config::kernel_stack_position;
use kernel_core::mm::FrameAllocator;
use kernel_core::mm::Kernel;
use kernel_core::mm::MapPermission;
use kernel_core::mm::MemorySet;
use kernel_core::mm::VirtAddr;
use kernel_core::mm::VirtPageNum;
use kernel_core::mm::image_wellformed;
use kernel_core::task::TaskControlBlock;
use kernel_core::task::TaskStatus;
use kernel_core::trap::TRAP_HANDLER_ENTRY;
use kernel_core::trap::TRAP_RETURN_ENTRY;
use kernel_core::trap::TrapContext;

/// A loadable image: entry point and top of the loaded region as two
/// little-endian words, padded to the header size.
fn image(entry: u64, mem_top: u64) -> Vec<u8> {
    let mut bytes = Vec::new();
    bytes.extend_from_slice(&entry.to_le_bytes());
    bytes.extend_from_slice(&mem_top.to_le_bytes());
    bytes
}

fn fresh_kernel() -> Kernel {
    Kernel {
        space: MemorySet {
            satp: 7,
            areas: Vec::new(),
            frames: Vec::new(),
            trap_cx_frame: TrapContext::zeroed(),
        },
        allocator: FrameAllocator { next: 100 },
    }
}

#[test]
fn kernel_stack_slots_are_disjoint() {
    let (b0, t0) = kernel_stack_position(0);
    let (b1, t1) = kernel_stack_position(1);
    assert!(b0 < t0);
    assert!(b1 < t1);
    assert!(t1 <= b0 || t0 <= b1);
    assert_eq!(t0, TRAMPOLINE);
    assert_eq!(t0 - b0, KERNEL_STACK_SIZE);
    // A guard page separates consecutive slots.
    assert_eq!(b0 - t1, PAGE_SIZE);
    let (b5, t5) = kernel_stack_position(5);
    let (b6, t6) = kernel_stack_position(6);
    assert!(t6 <= b5 || t5 <= b6);
    let (b_last, t_last) = kernel_stack_position(MAX_TASK_SLOTS - 1);
    assert!(0 < b_last && b_last < t_last);
}

#[test]
fn image_wellformedness_is_checked() {
    assert!(image_wellformed(&image(0x1000, 0x4000)));
    // Too short for the header.
    assert!(!image_wellformed(&[1, 2, 3]));
    // Empty loaded region.
    assert!(!image_wellformed(&image(0, 0)));
    // Region top not page aligned.
    assert!(!image_wellformed(&image(0x10, 0x4321)));
    // Entry point outside the region.
    assert!(!image_wellformed(&image(0x4000, 0x4000)));
    // Region too large.
    assert!(!image_wellformed(&image(0x1000, 1 << 60)));
}

#[test]
fn construct_yields_ready_task_with_break_at_stack_top() {
    let mut kernel = fresh_kernel();
    let img = image(0x1000, 0x4000);
    let task = TaskControlBlock::new(&img, 0, &mut kernel);
    let user_sp = 0x4000 + PAGE_SIZE + USER_STACK_SIZE;
    assert!(matches!(task.task_status, TaskStatus::Ready));
    assert_eq!(task.heap_bottom, user_sp);
    assert_eq!(task.program_brk, user_sp);
    assert_eq!(task.base_size, user_sp);
}

#[test]
fn construct_wires_contexts_and_frames() {
    let mut kernel = fresh_kernel();
    let img = image(0x1000, 0x4000);
    let kernel_token = kernel.space.satp;
    let task = TaskControlBlock::new(&img, 3, &mut kernel);
    let (_, kstack_top) = kernel_stack_position(3);
    // Task context resumes through the trap-return path on the new stack.
    assert_eq!(task.task_cx.ra, TRAP_RETURN_ENTRY);
    assert_eq!(task.task_cx.sp, kstack_top);
    // Frames: the root table, then the trap-context frame.
    assert_eq!(task.memory_set.satp, 100);
    assert_eq!(task.trap_cx_ppn.0, 101);
    assert_eq!(kernel.allocator.next, 102);
    // The kernel space gained exactly the slot's stack, read/write.
    assert_eq!(kernel.space.areas.len(), 1);
    let stack_area = &kernel.space.areas[0];
    let (kstack_bottom, _) = kernel_stack_position(3);
    assert_eq!(stack_area.start, kstack_bottom);
    assert_eq!(stack_area.end, kstack_top);
    assert!(stack_area.perm.r && stack_area.perm.w && !stack_area.perm.x && !stack_area.perm.u);
    // Token read is a pure read of the address-space token.
    assert_eq!(task.get_user_token(), 100);
    assert_eq!(kernel_token, kernel.space.satp);
}

#[test]
fn trap_context_after_construct_matches_its_constructor() {
    let mut kernel = fresh_kernel();
    let img = image(0x1000, 0x4000);
    let kernel_token = kernel.space.satp;
    let task = TaskControlBlock::new(&img, 0, &mut kernel);
    let user_sp = 0x4000 + PAGE_SIZE + USER_STACK_SIZE;
    let (_, kstack_top) = kernel_stack_position(0);
    let expected = TrapContext::app_init_context(
        0x1000,
        user_sp,
        kernel_token,
        kstack_top,
        TRAP_HANDLER_ENTRY,
    );
    assert_eq!(*task.get_trap_cx(), expected);
    assert!(expected.spp_user);
    assert_eq!(expected.sepc, 0x1000);
}

#[test]
fn two_tasks_get_disjoint_stacks_and_start_ready() {
    let mut kernel = fresh_kernel();
    let first = TaskControlBlock::new(&image(0x1000, 0x4000), 0, &mut kernel);
    let second = TaskControlBlock::new(&image(0x2000, 0x8000), 1, &mut kernel);
    assert!(matches!(first.task_status, TaskStatus::Ready));
    assert!(matches!(second.task_status, TaskStatus::Ready));
    let (b0, t0) = kernel_stack_position(0);
    let (b1, t1) = kernel_stack_position(1);
    assert!(t1 <= b0 || t0 <= b1);
    assert_eq!(kernel.space.areas.len(), 2);
    let (a, b) = (&kernel.space.areas[0], &kernel.space.areas[1]);
    assert!(a.end <= b.start || b.end <= a.start);
    // One address space and one trap-context frame per task.
    assert_ne!(first.memory_set.satp, second.memory_set.satp);
    assert_ne!(first.trap_cx_ppn, second.trap_cx_ppn);
}

#[test]
fn break_below_heap_bottom_is_rejected() {
    let mut kernel = fresh_kernel();
    let mut task = TaskControlBlock::new(&image(0x1000, 0x4000), 0, &mut kernel);
    let before = task.program_brk;
    assert_eq!(task.change_program_brk(-1), None);
    assert_eq!(task.program_brk, before);
    assert_eq!(task.change_program_brk(-4096), None);
    assert_eq!(task.program_brk, before);
    assert_eq!(task.change_program_brk(i32::MIN), None);
    assert_eq!(task.program_brk, before);
}

#[test]
fn growing_the_break_maps_the_heap_read_write() {
    let mut kernel = fresh_kernel();
    let mut task = TaskControlBlock::new(&image(0x1000, 0x4000), 0, &mut kernel);
    let heap_bottom = task.heap_bottom;
    let prior = task.program_brk;
    assert_eq!(task.change_program_brk(4096), Some(prior));
    assert_eq!(task.program_brk, prior + 4096);
    let heap = &task.memory_set.areas[2];
    assert_eq!(heap.start, heap_bottom);
    assert_eq!(heap.end, prior + 4096);
    assert!(heap.perm.r && heap.perm.w);
}

#[test]
fn shrinking_the_break_returns_the_prior_break() {
    let mut kernel = fresh_kernel();
    let mut task = TaskControlBlock::new(&image(0x1000, 0x4000), 0, &mut kernel);
    assert_eq!(task.change_program_brk(8192), Some(task.heap_bottom));
    let grown = task.program_brk;
    assert_eq!(task.change_program_brk(-4096), Some(grown));
    assert_eq!(task.program_brk, grown - 4096);
    // Back down to the heap bottom exactly.
    assert_eq!(task.change_program_brk(-4096), Some(grown - 4096));
    assert_eq!(task.program_brk, task.heap_bottom);
}

#[test]
fn exhausting_the_backing_store_fails_without_partial_growth() {
    let mut kernel = fresh_kernel();
    let mut task = TaskControlBlock::new(&image(0x1000, 0x4000), 0, &mut kernel);
    let before = task.program_brk;
    // Far past the mappable user range: refused, nothing changes.
    assert_eq!(task.change_program_brk(i32::MAX), None);
    assert_eq!(task.program_brk, before);
    assert_eq!(task.memory_set.areas[2].end, before);
}

#[test]
fn translate_resolves_only_pinned_pages() {
    let mut kernel = fresh_kernel();
    let task = TaskControlBlock::new(&image(0x1000, 0x4000), 0, &mut kernel);
    let trap_vpn = VirtAddr(TRAP_CONTEXT_BASE).floor();
    let frame = task.memory_set.translate(trap_vpn);
    assert_eq!(frame.map(|p| p.0), Some(101));
    assert_eq!(task.memory_set.translate(VirtPageNum(0)), None);
}

#[test]
fn resizing_an_unknown_area_fails() {
    let mut space = MemorySet {
        satp: 1,
        areas: Vec::new(),
        frames: Vec::new(),
        trap_cx_frame: TrapContext::zeroed(),
    };
    assert!(!space.shrink_to(VirtAddr(0x1000), VirtAddr(0x1000)));
    assert!(!space.append_to(VirtAddr(0x1000), VirtAddr(0x2000)));
    assert!(space.areas.is_empty());
}

#[test]
fn insert_framed_area_records_the_mapping() {
    let mut space = MemorySet {
        satp: 1,
        areas: Vec::new(),
        frames: Vec::new(),
        trap_cx_frame: TrapContext::zeroed(),
    };
    space.insert_framed_area(
        VirtAddr(0x1000),
        VirtAddr(0x3000),
        MapPermission { r: true, w: true, x: false, u: false },
    );
    assert_eq!(space.areas.len(), 1);
    assert_eq!(space.areas[0].start, 0x1000);
    assert_eq!(space.areas[0].end, 0x3000);
}
