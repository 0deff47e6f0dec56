//! Bump-allocated device-memory blocks and the pass/frame allocator that
//! routes image-binding requests between them.
//!
//! A `MemoryBlock` models one contiguous device-memory allocation with a
//! forward-only cursor; a `MemoryAllocator` owns one pass-scoped block and a
//! growable list of frame-scoped blocks. The device call that actually binds
//! an image at the returned offset is the caller's job.

use vstd::arithmetic::div_mod::{lemma_fundamental_div_mod, lemma_mod_bound, lemma_mod_multiples_basic};
use vstd::prelude::*;

verus! {

/// Bytes reserved for render targets that live only for a single render
/// pass: 192 MiB.
pub const PER_PASS_RENDER_TARGET_MEMORY_SIZE: u64 = 201326592;

/// Default bytes reserved per block for render targets that persist for a
/// whole frame: 128 MiB.
pub const PER_FRAME_RENDER_TARGET_MEMORY_SIZE: u64 = 134217728;

/// Lifetime scope of an image bound into a memory block: pass-scoped images
/// may be invalidated as soon as their block resets at the start of a new
/// pass, frame-scoped images stay valid for the whole frame.
#[derive(Clone, Copy, Debug, PartialEq, Eq, Structural)]
pub enum TextureScope {
    Pass,
    Frame,
}

/// `size` rounded up to the next multiple of `alignment`.
pub open spec fn round_up(size: int, alignment: int) -> int
    recommends
        alignment >= 1,
{
    ((size + alignment - 1) / alignment) * alignment
}

/// The rounded size is the unique multiple of the alignment that is at least
/// `size` and less than `size + alignment`.
pub proof fn lemma_round_up_bounds(size: int, alignment: int)
    requires
        alignment >= 1,
    ensures
        round_up(size, alignment) % alignment == 0,
        size <= round_up(size, alignment) < size + alignment,
{
    let x = size + alignment - 1;
    lemma_fundamental_div_mod(x, alignment);
    lemma_mod_bound(x, alignment);
    lemma_mod_multiples_basic(x / alignment, alignment);
    assert(alignment * (x / alignment) == (x / alignment) * alignment) by (nonlinear_arith);
}

/// Rounds an allocation size up to the block's alignment.
fn round_up_to_alignment(size: u64, alignment: u64) -> (r: u64)
    requires
        1 <= alignment,
        size + alignment <= u64::MAX,
    ensures
        r == round_up(size as int, alignment as int),
{
    proof {
        lemma_round_up_bounds(size as int, alignment as int);
    }
    ((size + (alignment - 1)) / alignment) * alignment
}

/// One contiguous device-memory allocation, sub-allocated with a
/// forward-only cursor. `alignment` and `type_mask` are the memory
/// requirements reported for a representative image; every image bound into
/// the block must match them.
#[derive(Clone, Copy, Debug, PartialEq, Eq, Structural)]
pub struct MemoryBlock {
    /// Capacity of the allocation in bytes.
    pub size: u64,
    /// Required alignment of every binding, in bytes.
    pub alignment: u64,
    /// Memory-type mask the allocation was made with.
    pub type_mask: u64,
    /// Bump cursor: the next free byte, monotonically non-decreasing until
    /// an explicit reset.
    pub offset: u64,
}

impl MemoryBlock {
    /// The alignment is usable and cursor arithmetic cannot overflow.
    pub open spec fn wf(self) -> bool {
        &&& 1 <= self.alignment
        &&& self.size + self.alignment <= u64::MAX
    }

    /// Whether the block still has more than `allocation_size` free bytes.
    pub open spec fn spec_has_size(self, allocation_size: u64) -> bool {
        self.offset + allocation_size < self.size
    }

    /// The block with its cursor rewound to zero.
    pub open spec fn spec_reset(self) -> MemoryBlock {
        MemoryBlock { offset: 0, ..self }
    }

    /// The outcome of binding `size` bytes under `scope`: the offset the
    /// image is bound at (`None` when a frame-scoped bind fails) and the
    /// block afterwards. A pass-scoped bind that lacks room rewinds the
    /// cursor and binds at offset zero.
    pub open spec fn spec_bind(self, size: u64, scope: TextureScope) -> (Option<u64>, MemoryBlock) {
        if self.spec_has_size(size) {
            (
                Some(self.offset),
                MemoryBlock {
                    offset: (self.offset + round_up(size as int, self.alignment as int)) as u64,
                    ..self
                },
            )
        } else if scope == TextureScope::Pass {
            (
                Some(0u64),
                MemoryBlock { offset: round_up(size as int, self.alignment as int) as u64, ..self },
            )
        } else {
            (None, self)
        }
    }

    /// Records a fresh allocation of `size` bytes with the given memory
    /// requirements; the cursor starts at zero.
    pub fn new(size: u64, alignment: u64, type_mask: u64) -> (b: MemoryBlock)
        requires
            1 <= alignment,
            size + alignment <= u64::MAX,
        ensures
            b == (MemoryBlock { size, alignment, type_mask, offset: 0 }),
            b.wf(),
    {
        MemoryBlock { size, alignment, type_mask, offset: 0 }
    }

    /// Whether the block still has more than `allocation_size` free bytes.
    pub fn has_size(&self, allocation_size: u64) -> (r: bool)
        ensures
            r == self.spec_has_size(allocation_size),
    {
        self.offset < self.size && self.size - self.offset > allocation_size
    }

    /// Binds an image of `size` bytes into the block. Returns the byte
    /// offset the image must be bound at within the allocation, or `None`
    /// when a frame-scoped request does not fit. On success the cursor
    /// advances by the size rounded up to the block's alignment; a
    /// pass-scoped request that does not fit rewinds the cursor first,
    /// invalidating every pass-scoped image previously bound here.
    pub fn bind_image(&mut self, size: u64, texture_scope: TextureScope) -> (r: Option<u64>)
        requires
            old(self).wf(),
            size + old(self).alignment <= u64::MAX,
        ensures
            r == old(self).spec_bind(size, texture_scope).0,
            *final(self) == old(self).spec_bind(size, texture_scope).1,
            final(self).wf(),
    {
        let can_bind_at: Option<u64> = if self.has_size(size) {
            Some(self.offset)
        } else if texture_scope == TextureScope::Pass {
            self.reset();
            Some(0)
        } else {
            None
        };
        if can_bind_at.is_some() {
            proof {
                lemma_round_up_bounds(size as int, self.alignment as int);
            }
            let rounded = round_up_to_alignment(size, self.alignment);
            self.offset = self.offset + rounded;
        }
        can_bind_at
    }

    /// Rewinds the cursor to zero, making the whole block available again.
    /// Nothing is freed or rebound: the caller must already have ensured no
    /// previously bound image from this block is still needed.
    pub fn reset(&mut self)
        ensures
            *final(self) == old(self).spec_reset(),
    {
        self.offset = 0;
    }
}

/// Law: a pass-scoped bind never fails. When the block lacks room the bind
/// behaves exactly as a reset followed by the same bind: the cursor rewinds
/// and the image lands at offset zero.
pub proof fn lemma_pass_bind_always_succeeds(b: MemoryBlock, size: u64)
    requires
        b.wf(),
        size + b.alignment <= u64::MAX,
    ensures
        b.spec_bind(size, TextureScope::Pass).0 is Some,
        !b.spec_has_size(size) ==> b.spec_bind(size, TextureScope::Pass).0 == Some(0u64),
        !b.spec_has_size(size) ==> b.spec_bind(size, TextureScope::Pass)
            == b.spec_reset().spec_bind(size, TextureScope::Pass),
{
}

/// Law: a reset is idempotent. Resetting twice gives the same block as
/// resetting once, with the cursor at zero.
pub proof fn lemma_reset_idempotent(b: MemoryBlock)
    ensures
        b.spec_reset().spec_reset() == b.spec_reset(),
        b.spec_reset().offset == 0,
{
}

/// Where the allocator bound an image: in the pass-scoped block, in an
/// existing frame-scoped block, or at offset zero of a freshly created
/// frame-scoped block of the given capacity. The caller performs the device
/// allocation and bind this location describes.
#[derive(Clone, Copy, Debug, PartialEq, Eq, Structural)]
pub enum BindLocation {
    /// Bound into the pass-scoped block at this offset.
    PassBlock { offset: u64 },
    /// Bound into the frame-scoped block at this index, at this offset.
    FrameBlock { index: usize, offset: u64 },
    /// No existing frame-scoped block had room: a new block of this
    /// capacity was appended and the image bound at its offset zero.
    NewFrameBlock { capacity: u64 },
}

/// The index of the first block from `i` onward with room for `size` more
/// bytes, if any.
pub open spec fn first_fit_from(blocks: Seq<MemoryBlock>, size: u64, i: int) -> Option<int>
    decreases blocks.len() - i,
{
    if i < 0 || i >= blocks.len() {
        None
    } else if blocks[i].spec_has_size(size) {
        Some(i)
    } else {
        first_fit_from(blocks, size, i + 1)
    }
}

/// Routes image bindings between one pass-scoped memory block, reset and
/// reused pass by pass, and a creation-ordered list of frame-scoped blocks
/// that all reset together once per frame.
pub struct MemoryAllocator {
    /// The single block for pass-scoped images.
    pub per_pass_block: MemoryBlock,
    /// The frame-scoped blocks, in creation order.
    pub per_frame_blocks: Vec<MemoryBlock>,
}

impl MemoryAllocator {
    /// Every block is well-formed and shares the pass block's memory
    /// requirements: the device layer binds only matching images through one
    /// allocator.
    pub open spec fn wf(self) -> bool {
        &&& self.per_pass_block.wf()
        &&& forall|i: int|
            0 <= i < self.per_frame_blocks.len() ==> {
                &&& (#[trigger] self.per_frame_blocks[i]).wf()
                &&& self.per_frame_blocks[i].alignment == self.per_pass_block.alignment
                &&& self.per_frame_blocks[i].type_mask == self.per_pass_block.type_mask
            }
    }

    /// Creates the allocator with the fixed pass-scoped block and the first
    /// frame-scoped block, both empty, with the given memory requirements.
    pub fn new(alignment: u64, type_mask: u64) -> (a: MemoryAllocator)
        requires
            1 <= alignment,
            PER_PASS_RENDER_TARGET_MEMORY_SIZE + alignment <= u64::MAX,
        ensures
            a.per_pass_block == (MemoryBlock {
                size: PER_PASS_RENDER_TARGET_MEMORY_SIZE,
                alignment,
                type_mask,
                offset: 0,
            }),
            a.per_frame_blocks@ =~= seq![
                MemoryBlock {
                    size: PER_FRAME_RENDER_TARGET_MEMORY_SIZE,
                    alignment,
                    type_mask,
                    offset: 0,
                },
            ],
            a.wf(),
    {
        MemoryAllocator {
            per_pass_block: MemoryBlock::new(
                PER_PASS_RENDER_TARGET_MEMORY_SIZE,
                alignment,
                type_mask,
            ),
            per_frame_blocks: vec![
                MemoryBlock::new(PER_FRAME_RENDER_TARGET_MEMORY_SIZE, alignment, type_mask),
            ],
        }
    }

    /// What `bind_image` does: relates the allocator before (`self`) and
    /// after (`post`) a bind of `size` bytes to the location returned. A
    /// pass-scoped request goes to the pass block; a frame-scoped request
    /// goes to the first frame block with room, or to a freshly appended
    /// block of capacity `max(default, size)` bound at its start, with the
    /// existing blocks left untouched.
    pub open spec fn spec_bind_outcome(
        self,
        post: MemoryAllocator,
        size: u64,
        used_in_multiple_passes: bool,
        loc: BindLocation,
    ) -> bool {
        &&& !used_in_multiple_passes ==> {
            &&& loc == (BindLocation::PassBlock {
                offset: self.per_pass_block.spec_bind(size, TextureScope::Pass).0.unwrap(),
            })
            &&& post.per_pass_block == self.per_pass_block.spec_bind(size, TextureScope::Pass).1
            &&& post.per_frame_blocks@ == self.per_frame_blocks@
        }
        &&& used_in_multiple_passes ==> post.per_pass_block == self.per_pass_block
        &&& used_in_multiple_passes ==> (first_fit_from(self.per_frame_blocks@, size, 0)
            matches Some(i) ==> {
            &&& loc == (BindLocation::FrameBlock {
                index: i as usize,
                offset: self.per_frame_blocks[i].offset,
            })
            &&& post.per_frame_blocks@ == self.per_frame_blocks@.update(
                i,
                self.per_frame_blocks[i].spec_bind(size, TextureScope::Frame).1,
            )
        })
        &&& used_in_multiple_passes && first_fit_from(self.per_frame_blocks@, size, 0)
            is None ==> {
            let capacity = if PER_FRAME_RENDER_TARGET_MEMORY_SIZE >= size {
                PER_FRAME_RENDER_TARGET_MEMORY_SIZE
            } else {
                size
            };
            &&& loc == (BindLocation::NewFrameBlock { capacity })
            &&& post.per_frame_blocks@ == self.per_frame_blocks@.push(
                MemoryBlock {
                    size: capacity,
                    alignment: self.per_pass_block.alignment,
                    type_mask: self.per_pass_block.type_mask,
                    offset: round_up(size as int, self.per_pass_block.alignment as int) as u64,
                },
            )
        }
    }

    /// Binds an image of `size` bytes. A request used within a single pass
    /// goes to the pass-scoped block, which resets itself when full. A
    /// request used in multiple passes goes to the first frame-scoped block
    /// with room; when none has room, a new block of capacity
    /// `max(default, size)` is appended and the image bound at its start,
    /// leaving the existing blocks untouched.
    pub fn bind_image(&mut self, size: u64, used_in_multiple_passes: bool) -> (loc: BindLocation)
        requires
            old(self).wf(),
            size + old(self).per_pass_block.alignment <= u64::MAX,
            PER_FRAME_RENDER_TARGET_MEMORY_SIZE + old(self).per_pass_block.alignment <= u64::MAX,
        ensures
            final(self).wf(),
            old(self).spec_bind_outcome(*final(self), size, used_in_multiple_passes, loc),
    {
        if used_in_multiple_passes {
            // Find an existing frame-scoped block with room.
            let ghost blocks0 = self.per_frame_blocks@;
            let mut i: usize = 0;
            let n = self.per_frame_blocks.len();
            while i < n
                invariant
                    used_in_multiple_passes,
                    blocks0 == old(self).per_frame_blocks@,
                    n == blocks0.len(),
                    i <= n,
                    self.per_frame_blocks@ == blocks0,
                    self.per_pass_block == old(self).per_pass_block,
                    self.wf(),
                    size + self.per_pass_block.alignment <= u64::MAX,
                    first_fit_from(blocks0, size, 0) == first_fit_from(blocks0, size, i as int),
                decreases n - i,
            {
                let has_room = self.per_frame_blocks[i].has_size(size);
                if has_room {
                    let mut block = self.per_frame_blocks[i];
                    let offset = block.bind_image(size, TextureScope::Frame);
                    self.per_frame_blocks[i] = block;
                    proof {
                        assert(first_fit_from(blocks0, size, i as int) == Some(i as int));
                        assert(self.per_frame_blocks@ =~= blocks0.update(
                            i as int,
                            blocks0[i as int].spec_bind(size, TextureScope::Frame).1,
                        ));
                    }
                    return BindLocation::FrameBlock { index: i, offset: offset.unwrap() };
                }
                i = i + 1;
            }
            // No block had room: append one sized to at least the request
            // and bind at its start.
            proof {
                assert(first_fit_from(blocks0, size, 0) is None);
            }
            let capacity = if PER_FRAME_RENDER_TARGET_MEMORY_SIZE >= size {
                PER_FRAME_RENDER_TARGET_MEMORY_SIZE
            } else {
                size
            };
            let mut memory_block = MemoryBlock::new(
                capacity,
                self.per_pass_block.alignment,
                self.per_pass_block.type_mask,
            );
            let rounded = round_up_to_alignment(size, memory_block.alignment);
            proof {
                lemma_round_up_bounds(size as int, memory_block.alignment as int);
            }
            memory_block.offset = rounded;
            self.per_frame_blocks.push(memory_block);
            BindLocation::NewFrameBlock { capacity }
        } else {
            let offset = self.per_pass_block.bind_image(size, TextureScope::Pass);
            BindLocation::PassBlock { offset: offset.unwrap() }
        }
    }

    /// Rewinds every frame-scoped block's cursor to zero. Called exactly
    /// once per frame boundary, after the GPU has finished with the previous
    /// frame's content.
    pub fn reset_per_frame_blocks(&mut self)
        ensures
            final(self).per_pass_block == old(self).per_pass_block,
            final(self).per_frame_blocks@.len() == old(self).per_frame_blocks@.len(),
            forall|i: int|
                0 <= i < old(self).per_frame_blocks@.len() ==> final(self).per_frame_blocks[i]
                    == old(self).per_frame_blocks[i].spec_reset(),
            old(self).wf() ==> final(self).wf(),
    {
        let mut i: usize = 0;
        let n = self.per_frame_blocks.len();
        while i < n
            invariant
                n == self.per_frame_blocks@.len(),
                i <= n,
                self.per_pass_block == old(self).per_pass_block,
                forall|j: int|
                    0 <= j < i ==> self.per_frame_blocks[j] == old(self).per_frame_blocks[j]
                        .spec_reset(),
                forall|j: int|
                    i <= j < n ==> self.per_frame_blocks[j] == old(self).per_frame_blocks[j],
            decreases n - i,
        {
            let mut block = self.per_frame_blocks[i];
            block.reset();
            self.per_frame_blocks[i] = block;
            i = i + 1;
        }
    }

    /// The alignment every image bound through this allocator must report.
    pub fn alignment(&self) -> (r: u64)
        ensures
            r == self.per_pass_block.alignment,
    {
        self.per_pass_block.alignment
    }

    /// The memory-type mask every image bound through this allocator must
    /// report.
    pub fn type_mask(&self) -> (r: u64)
        ensures
            r == self.per_pass_block.type_mask,
    {
        self.per_pass_block.type_mask
    }
}

/// Law: when a frame-scoped bind finds no existing block with room, exactly
/// one new block is appended, sized `max(default, size)` — at least the
/// request and at least the default — the image lands at its offset zero,
/// and every existing frame block is left untouched.
pub proof fn lemma_frame_overflow_appends_block(
    a0: MemoryAllocator,
    a1: MemoryAllocator,
    size: u64,
    loc: BindLocation,
)
    requires
        a0.spec_bind_outcome(a1, size, true, loc),
        first_fit_from(a0.per_frame_blocks@, size, 0) is None,
    ensures
        a1.per_frame_blocks@.len() == a0.per_frame_blocks@.len() + 1,
        forall|i: int|
            0 <= i < a0.per_frame_blocks@.len() ==> a1.per_frame_blocks@[i]
                == a0.per_frame_blocks@[i],
        a1.per_frame_blocks@.last().size >= size,
        a1.per_frame_blocks@.last().size >= PER_FRAME_RENDER_TARGET_MEMORY_SIZE,
        loc == (BindLocation::NewFrameBlock { capacity: a1.per_frame_blocks@.last().size }),
        a1.per_pass_block == a0.per_pass_block,
{
}

} // verus!
