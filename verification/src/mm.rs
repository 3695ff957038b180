//! Model of the virtual-memory collaborators this core consumes: an
//! address space as its token, its mapped areas and the frames the kernel
//! pins by physical number, plus the frame allocator that hands out fresh
//! physical pages.
//!
//! An application image is taken in an already-loadable form: a header of
//! two little-endian 64-bit words — the entry point and the page-aligned
//! top of the loaded region — followed by the region's bytes. Everything
//! the construction of a task needs is a function of those two words.

use vstd::prelude::*;
use vstd::bytes::u64_from_le_bytes;
use vstd::bytes::spec_u64_from_le_bytes;
use crate::config::PAGE_SIZE;
use crate::config::USER_STACK_SIZE;
use crate::config::TRAMPOLINE;
use crate::config::TRAP_CONTEXT_BASE;
use crate::config::TRAP_CONTEXT_VPN;
use crate::config::MAX_IMAGE_END;
use crate::config::USER_SPACE_LIMIT;
use crate::config::MAX_PHYS_PAGES;
use crate::config::IMAGE_HEADER_BYTES;
use crate::trap::TrapContext;

verus! {

/// A virtual address.
#[derive(Clone, Copy, PartialEq, Eq, Structural, Debug)]
pub struct VirtAddr(pub usize);

/// A virtual page number.
#[derive(Clone, Copy, PartialEq, Eq, Structural, Debug)]
pub struct VirtPageNum(pub usize);

/// A physical frame number, independent of any virtual mapping.
#[derive(Clone, Copy, PartialEq, Eq, Structural, Debug)]
pub struct PhysPageNum(pub usize);

impl VirtAddr {
    /// Number of the page this address lies on.
    pub fn floor(self) -> (vpn: VirtPageNum)
        ensures
            vpn.0 == self.0 / PAGE_SIZE,
    {
        VirtPageNum(self.0 / PAGE_SIZE)
    }
}

/// Read, write, execute and user-accessible permission bits of a mapped
/// area.
#[derive(Clone, Copy, PartialEq, Eq, Structural, Debug)]
pub struct MapPermission {
    pub r: bool,
    pub w: bool,
    pub x: bool,
    pub u: bool,
}

/// One mapped region `[start, end)` of an address space, with its
/// permissions.
#[derive(Clone, Copy, PartialEq, Eq, Structural, Debug)]
pub struct MapArea {
    pub start: usize,
    pub end: usize,
    pub perm: MapPermission,
}

/// A page the kernel pins by physical number: the frame backing virtual
/// page `vpn` is `ppn`.
#[derive(Clone, Copy, PartialEq, Eq, Structural, Debug)]
pub struct FrameMapping {
    pub vpn: usize,
    pub ppn: usize,
}

/// The model frame allocator: frames are handed out in order, so every
/// allocation is fresh.
#[derive(Clone, Copy, PartialEq, Eq, Structural, Debug)]
pub struct FrameAllocator {
    /// Number of the next free physical frame.
    pub next: usize,
}

impl FrameAllocator {
    /// Allocate one fresh physical frame.
    pub fn allocate(&mut self) -> (frame: PhysPageNum)
        requires
            old(self).next < MAX_PHYS_PAGES,
        ensures
            frame.0 == old(self).next,
            final(self).next == old(self).next + 1,
    {
        let frame = PhysPageNum(self.next);
        self.next = self.next + 1;
        frame
    }
}

/// Index of the first element of `keys` equal to `key`, or `-1` if none
/// is.
pub open spec fn spec_index_of(keys: Seq<usize>, key: usize) -> int
    decreases keys.len(),
{
    if keys.len() == 0 {
        -1
    } else if keys.first() == key {
        0
    } else if spec_index_of(keys.drop_first(), key) == -1 {
        -1
    } else {
        spec_index_of(keys.drop_first(), key) + 1
    }
}

/// What [`spec_index_of`] returns: `-1` exactly when no element matches,
/// otherwise the position of the first match.
pub proof fn lemma_index_of(keys: Seq<usize>, key: usize)
    ensures
        spec_index_of(keys, key) >= -1,
        spec_index_of(keys, key) == -1 ==> forall|j: int| 0 <= j < keys.len() ==> keys[j] != key,
        spec_index_of(keys, key) >= 0 ==> 0 <= spec_index_of(keys, key) < keys.len()
            && keys[spec_index_of(keys, key)] == key && (forall|j: int|
            0 <= j < spec_index_of(keys, key) ==> keys[j] != key),
    decreases keys.len(),
{
    if keys.len() > 0 && keys.first() != key {
        lemma_index_of(keys.drop_first(), key);
        let rest = spec_index_of(keys.drop_first(), key);
        if rest == -1 {
            assert forall|j: int| 0 <= j < keys.len() implies keys[j] != key by {
                if j > 0 {
                    assert(keys.drop_first()[j - 1] == keys[j]);
                }
            }
        } else {
            assert(keys.drop_first()[rest] == keys[rest + 1]);
            assert forall|j: int| 0 <= j < rest + 1 implies keys[j] != key by {
                if j > 0 {
                    assert(keys.drop_first()[j - 1] == keys[j]);
                }
            }
        }
    }
}

/// If `i` is a match and nothing before it is, it is the first match.
pub proof fn lemma_index_of_first_match(keys: Seq<usize>, key: usize, i: int)
    requires
        0 <= i < keys.len(),
        keys[i] == key,
        forall|j: int| 0 <= j < i ==> keys[j] != key,
    ensures
        spec_index_of(keys, key) == i,
{
    lemma_index_of(keys, key);
    let found = spec_index_of(keys, key);
    if found == -1 {
        assert(keys[i] != key);
    } else if found < i {
        assert(keys[found] != key);
    } else if found > i {
        assert(keys[i] != key);
    }
}

/// No area of `areas` meets the virtual range `[lo, hi)`.
pub open spec fn spec_range_free(areas: Seq<MapArea>, lo: int, hi: int) -> bool {
    forall|j: int| 0 <= j < areas.len() ==> areas[j].end <= lo || hi <= areas[j].start
}

/// Starts of the areas of an address space, in order.
pub open spec fn spec_area_starts(areas: Seq<MapArea>) -> Seq<usize> {
    areas.map_values(|a: MapArea| a.start)
}

/// Pinned virtual page numbers of an address space, in order.
pub open spec fn spec_frame_vpns(frames: Seq<FrameMapping>) -> Seq<usize> {
    frames.map_values(|f: FrameMapping| f.vpn)
}

/// Entry point an application image asks for: its first header word.
pub open spec fn spec_image_entry(img: Seq<u8>) -> u64 {
    spec_u64_from_le_bytes(img.subrange(0, 8))
}

/// Top (exclusive) of the image's loaded region: its second header word.
pub open spec fn spec_image_mem_top(img: Seq<u8>) -> u64 {
    spec_u64_from_le_bytes(img.subrange(8, 16))
}

/// A well-formed loadable application image: full header, a non-empty
/// page-aligned loaded region of bounded size, and an entry point inside
/// it.
pub open spec fn spec_image_wellformed(img: Seq<u8>) -> bool {
    &&& img.len() >= IMAGE_HEADER_BYTES
    &&& 0 < spec_image_mem_top(img) <= MAX_IMAGE_END
    &&& spec_image_mem_top(img) as int % (PAGE_SIZE as int) == 0
    &&& spec_image_entry(img) < spec_image_mem_top(img)
}

/// Bottom of the user stack: one unmapped guard page above the loaded
/// region.
pub open spec fn spec_user_stack_bottom(img: Seq<u8>) -> int {
    spec_image_mem_top(img) + PAGE_SIZE
}

/// Top of the user stack; also the initial stack pointer, the initial
/// program break and the bottom of the heap.
pub open spec fn spec_user_stack_top(img: Seq<u8>) -> int {
    spec_user_stack_bottom(img) + USER_STACK_SIZE
}

/// The four areas a fresh address space maps: the loaded region, the
/// user stack, the (initially empty) heap, and the trap-context page.
pub open spec fn spec_initial_areas(img: Seq<u8>) -> Seq<MapArea> {
    seq![
        MapArea {
            start: 0,
            end: spec_image_mem_top(img) as usize,
            perm: MapPermission { r: true, w: true, x: true, u: true },
        },
        MapArea {
            start: spec_user_stack_bottom(img) as usize,
            end: spec_user_stack_top(img) as usize,
            perm: MapPermission { r: true, w: true, x: false, u: true },
        },
        MapArea {
            start: spec_user_stack_top(img) as usize,
            end: spec_user_stack_top(img) as usize,
            perm: MapPermission { r: true, w: true, x: false, u: true },
        },
        MapArea {
            start: TRAP_CONTEXT_BASE,
            end: TRAMPOLINE,
            perm: MapPermission { r: true, w: false, x: false, u: false },
        },
    ]
}

/// Decide [`spec_image_wellformed`] for a byte slice.
pub fn image_wellformed(image: &[u8]) -> (wellformed: bool)
    ensures
        wellformed == spec_image_wellformed(image@),
{
    if image.len() < IMAGE_HEADER_BYTES {
        return false;
    }
    let entry = u64_from_le_bytes(&image[0..8]);
    let mem_top = u64_from_le_bytes(&image[8..16]);
    0 < mem_top && mem_top <= MAX_IMAGE_END as u64 && mem_top % (PAGE_SIZE as u64) == 0 && entry
        < mem_top
}

/// A task's (or the kernel's) address space: its token, its mapped
/// areas, the frames pinned by physical number, and the contents of the
/// trap-context frame, which the kernel reads and writes through the
/// frame's physical number rather than through the page table.
#[derive(Debug)]
pub struct MemorySet {
    /// Token under which the hardware installs this address space; in
    /// the model, the number of the root page-table frame.
    pub satp: usize,
    /// The mapped areas, in the order they were inserted.
    pub areas: Vec<MapArea>,
    /// The pinned page-to-frame translations the kernel later queries.
    pub frames: Vec<FrameMapping>,
    /// Contents of this space's trap-context frame.
    pub trap_cx_frame: TrapContext,
}

impl MemorySet {
    /// Token the context-switch mechanism uses to install this address
    /// space.
    pub fn token(&self) -> (token: usize)
        ensures
            token == self.satp,
    {
        self.satp
    }

    /// Physical frame backing virtual page `vpn`, if the kernel pinned
    /// one.
    pub fn translate(&self, vpn: VirtPageNum) -> (frame: Option<PhysPageNum>)
        ensures
            ({
                let i = spec_index_of(spec_frame_vpns(self.frames@), vpn.0);
                if i >= 0 {
                    frame == Some(PhysPageNum(self.frames@[i].ppn))
                } else {
                    frame is None
                }
            }),
    {
        let ghost vpns = spec_frame_vpns(self.frames@);
        let n: usize = self.frames.len();
        let mut i: usize = 0;
        while i < n
            invariant
                n == self.frames.len(),
                0 <= i <= n,
                vpns == spec_frame_vpns(self.frames@),
                forall|j: int| 0 <= j < i ==> vpns[j] != vpn.0,
            decreases n - i,
        {
            if self.frames[i].vpn == vpn.0 {
                proof {
                    lemma_index_of_first_match(vpns, vpn.0, i as int);
                }
                return Some(PhysPageNum(self.frames[i].ppn));
            }
            i = i + 1;
        }
        proof {
            lemma_index_of(vpns, vpn.0);
        }
        None
    }

    /// Map `[start, end)` with permissions `perm`, backed by fresh
    /// frames; used by the kernel to insert a task's kernel stack into
    /// its own shared address space.
    pub fn insert_framed_area(&mut self, start: VirtAddr, end: VirtAddr, perm: MapPermission)
        ensures
            final(self).areas@ == old(self).areas@.push(
                MapArea { start: start.0, end: end.0, perm },
            ),
            final(self).satp == old(self).satp,
            final(self).frames@ == old(self).frames@,
            final(self).trap_cx_frame == old(self).trap_cx_frame,
    {
        self.areas.push(MapArea { start: start.0, end: end.0, perm });
    }

    /// Shrink the area that starts at `start` so that it ends at
    /// `new_end`, unmapping the vacated pages; fails, changing nothing,
    /// when no area starts there.
    pub fn shrink_to(&mut self, start: VirtAddr, new_end: VirtAddr) -> (shrunk: bool)
        ensures
            ({
                let i = spec_index_of(spec_area_starts(old(self).areas@), start.0);
                if i >= 0 {
                    shrunk && final(self).areas@ == old(self).areas@.update(
                        i,
                        MapArea { end: new_end.0, ..old(self).areas@[i] },
                    )
                } else {
                    !shrunk && final(self).areas@ == old(self).areas@
                }
            }),
            final(self).satp == old(self).satp,
            final(self).frames@ == old(self).frames@,
            final(self).trap_cx_frame == old(self).trap_cx_frame,
    {
        self.resize_area(start, new_end)
    }

    /// Extend the area that starts at `start` so that it ends at
    /// `new_end`, mapping fresh zero-filled pages over the grown range;
    /// fails, changing nothing, when no area starts there or when the
    /// model's backing store is exhausted (`new_end` past
    /// `USER_SPACE_LIMIT`).
    pub fn append_to(&mut self, start: VirtAddr, new_end: VirtAddr) -> (grown: bool)
        ensures
            ({
                let i = spec_index_of(spec_area_starts(old(self).areas@), start.0);
                if i >= 0 && new_end.0 <= USER_SPACE_LIMIT {
                    grown && final(self).areas@ == old(self).areas@.update(
                        i,
                        MapArea { end: new_end.0, ..old(self).areas@[i] },
                    )
                } else {
                    !grown && final(self).areas@ == old(self).areas@
                }
            }),
            final(self).satp == old(self).satp,
            final(self).frames@ == old(self).frames@,
            final(self).trap_cx_frame == old(self).trap_cx_frame,
    {
        if new_end.0 > USER_SPACE_LIMIT {
            return false;
        }
        self.resize_area(start, new_end)
    }

    /// Move the end of the first area that starts at `start` to
    /// `new_end`; fails, changing nothing, when no area starts there.
    #[verifier::loop_isolation(false)]
    fn resize_area(&mut self, start: VirtAddr, new_end: VirtAddr) -> (resized: bool)
        ensures
            ({
                let i = spec_index_of(spec_area_starts(old(self).areas@), start.0);
                if i >= 0 {
                    resized && final(self).areas@ == old(self).areas@.update(
                        i,
                        MapArea { end: new_end.0, ..old(self).areas@[i] },
                    )
                } else {
                    !resized && final(self).areas@ == old(self).areas@
                }
            }),
            final(self).satp == old(self).satp,
            final(self).frames@ == old(self).frames@,
            final(self).trap_cx_frame == old(self).trap_cx_frame,
    {
        let ghost pre = *self;
        let ghost starts = spec_area_starts(pre.areas@);
        let n: usize = self.areas.len();
        let mut i: usize = 0;
        while i < n
            invariant
                *self == pre,
                n == self.areas.len(),
                0 <= i <= n,
                starts == spec_area_starts(pre.areas@),
                forall|j: int| 0 <= j < i ==> starts[j] != start.0,
            decreases n - i,
        {
            if self.areas[i].start == start.0 {
                proof {
                    lemma_index_of_first_match(starts, start.0, i as int);
                }
                let area = self.areas.remove(i);
                self.areas.insert(i, MapArea { end: new_end.0, ..area });
                proof {
                    assert(self.areas@ =~= pre.areas@.update(
                        i as int,
                        MapArea { end: new_end.0, ..pre.areas@[i as int] },
                    ));
                }
                return true;
            }
            i = i + 1;
        }
        proof {
            lemma_index_of(starts, start.0);
        }
        false
    }

    /// Build a fresh, isolated address space from a loadable application
    /// image: the loaded region, the user stack above a guard page, the
    /// empty heap at the stack top, and the trap-context page at its
    /// fixed virtual address, backed by a freshly allocated frame that
    /// stays pinned by physical number. Returns the space, the initial
    /// user stack pointer and the entry point.
    pub fn from_elf(elf_data: &[u8], allocator: &mut FrameAllocator) -> (r: (
        MemorySet,
        usize,
        usize,
    ))
        requires
            spec_image_wellformed(elf_data@),
            old(allocator).next + 2 <= MAX_PHYS_PAGES,
        ensures
            final(allocator).next == old(allocator).next + 2,
            r.0.satp == old(allocator).next,
            r.0.areas@ == spec_initial_areas(elf_data@),
            r.0.frames@ == seq![
                FrameMapping { vpn: TRAP_CONTEXT_VPN, ppn: (old(allocator).next + 1) as usize },
            ],
            r.0.trap_cx_frame == TrapContext::spec_zeroed(),
            r.1 == spec_user_stack_top(elf_data@),
            r.2 == spec_image_entry(elf_data@),
    {
        let entry_point = u64_from_le_bytes(&elf_data[0..8]) as usize;
        let mem_top = u64_from_le_bytes(&elf_data[8..16]) as usize;
        let user_stack_bottom = mem_top + PAGE_SIZE;
        let user_stack_top = user_stack_bottom + USER_STACK_SIZE;

        let root_frame = allocator.allocate();
        let trap_cx_frame_number = allocator.allocate();

        let mut areas: Vec<MapArea> = Vec::new();
        areas.push(
            MapArea {
                start: 0,
                end: mem_top,
                perm: MapPermission { r: true, w: true, x: true, u: true },
            },
        );
        areas.push(
            MapArea {
                start: user_stack_bottom,
                end: user_stack_top,
                perm: MapPermission { r: true, w: true, x: false, u: true },
            },
        );
        areas.push(
            MapArea {
                start: user_stack_top,
                end: user_stack_top,
                perm: MapPermission { r: true, w: true, x: false, u: true },
            },
        );
        areas.push(
            MapArea {
                start: TRAP_CONTEXT_BASE,
                end: TRAMPOLINE,
                perm: MapPermission { r: true, w: false, x: false, u: false },
            },
        );

        let mut frames: Vec<FrameMapping> = Vec::new();
        frames.push(FrameMapping { vpn: TRAP_CONTEXT_VPN, ppn: trap_cx_frame_number.0 });

        let memory_set = MemorySet {
            satp: root_frame.0,
            areas,
            frames,
            trap_cx_frame: TrapContext::zeroed(),
        };
        proof {
            assert(memory_set.areas@ =~= spec_initial_areas(elf_data@));
            assert(memory_set.frames@ =~= seq![
                FrameMapping { vpn: TRAP_CONTEXT_VPN, ppn: trap_cx_frame_number.0 },
            ]);
        }
        (memory_set, user_stack_top, entry_point)
    }
}

/// The kernel's side of task construction: its own shared address space
/// (home of every kernel stack) and the frame allocator.
#[derive(Debug)]
pub struct Kernel {
    /// The kernel's address space, shared across all tasks.
    pub space: MemorySet,
    /// The allocator fresh frames come from.
    pub allocator: FrameAllocator,
}

} // verus!
