//! The GPU cache: one fixed-layout buffer slot per interned template.
//!
//! Slots may be evicted under memory pressure; the request/writer protocol
//! is the only way a slot's contents change. `request` hands out a writer
//! exactly when the slot must be (re)built; `commit` installs the writer's
//! blocks in one step, so a slot is never left partially written.

use vstd::prelude::*;
use crate::units::RectAu;

verus! {

/// One GPU data block: four 32-bit lanes, the unit in which slots are
/// filled.
#[derive(Clone, Copy, Debug, PartialEq, Eq, Hash, Structural)]
pub struct GpuBlock {
    pub x: i32,
    pub y: i32,
    pub z: i32,
    pub w: i32,
}

/// The block encoding of a rectangle: origin in the first two lanes, size
/// in the last two.
pub open spec fn rect_block(r: RectAu) -> GpuBlock {
    GpuBlock { x: r.x, y: r.y, z: r.width, w: r.height }
}

/// The mathematical model of one slot: whether its contents are current,
/// and the blocks it holds.
#[verifier::ext_equal]
pub ghost struct GpuSlotView {
    pub valid: bool,
    pub blocks: Seq<GpuBlock>,
}

/// A non-owning reference to a slot. A fresh handle points nowhere; its
/// slot is assigned on the first `request`.
#[derive(Clone, Copy, Debug, PartialEq, Eq)]
pub struct GpuCacheHandle {
    pub slot: Option<usize>,
}

impl GpuCacheHandle {
    pub fn new() -> (r: Self)
        ensures
            r == (GpuCacheHandle { slot: None::<usize> }),
    {
        GpuCacheHandle { slot: None }
    }
}

/// The slot a handle points at, as a mathematical index.
pub open spec fn slot_of(h: GpuCacheHandle) -> Option<int> {
    match h.slot {
        Some(i) => Some(i as int),
        None => None,
    }
}

/// A handle is well formed for a cache when the slot it points at exists.
pub open spec fn handle_wf(h: GpuCacheHandle, slots: Seq<GpuSlotView>) -> bool {
    match h.slot {
        Some(i) => i < slots.len(),
        None => true,
    }
}

/// Whether the slot a handle points at holds current contents.
pub open spec fn slot_is_valid(slots: Seq<GpuSlotView>, h: Option<int>) -> bool {
    match h {
        Some(i) => 0 <= i < slots.len() && slots[i].valid,
        None => false,
    }
}

/// The slot index population settles on: the handle's own slot, or the
/// newly allocated one at the end.
pub open spec fn populate_index(slots: Seq<GpuSlotView>, h: Option<int>) -> int {
    match h {
        Some(i) => i,
        None => slots.len() as int,
    }
}

/// The cache after one population pass with `blocks`: unchanged when the
/// slot is already valid, otherwise the slot (allocated if need be) holds
/// exactly `blocks` and is valid.
pub open spec fn populate_slots(
    slots: Seq<GpuSlotView>,
    h: Option<int>,
    blocks: Seq<GpuBlock>,
) -> Seq<GpuSlotView> {
    if slot_is_valid(slots, h) {
        slots
    } else {
        match h {
            Some(i) => slots.update(i, GpuSlotView { valid: true, blocks }),
            None => slots.push(GpuSlotView { valid: true, blocks }),
        }
    }
}

/// The cache right after `request`, before `commit`: allocation only.
pub open spec fn alloc_slots(slots: Seq<GpuSlotView>, h: Option<int>) -> Seq<GpuSlotView> {
    match h {
        Some(_) => slots,
        None => slots.push(GpuSlotView { valid: false, blocks: Seq::empty() }),
    }
}

/// Law: population is idempotent. Populating once leaves the slot valid,
/// and populating again with the same blocks, through the handle the first
/// pass settled on, changes nothing.
pub proof fn lemma_populate_idempotent(
    slots: Seq<GpuSlotView>,
    h: Option<int>,
    blocks: Seq<GpuBlock>,
)
    requires
        match h {
            Some(i) => 0 <= i < slots.len(),
            None => true,
        },
    ensures
        ({
            let once = populate_slots(slots, h, blocks);
            let settled = populate_index(slots, h);
            &&& slot_is_valid(once, Some(settled))
            &&& populate_slots(once, Some(settled), blocks) == once
            &&& populate_index(once, Some(settled)) == settled
        }),
{
}

/// A writer for one slot. It accumulates blocks; `GpuCache::commit`
/// installs them all at once.
pub struct GpuDataRequest {
    slot: usize,
    blocks: Vec<GpuBlock>,
}

impl GpuDataRequest {
    /// The slot this writer was handed out for.
    pub closed spec fn slot_spec(&self) -> int {
        self.slot as int
    }

    /// The blocks pushed so far, in order.
    pub closed spec fn blocks_spec(&self) -> Seq<GpuBlock> {
        self.blocks@
    }

    /// Append one block.
    pub fn push(&mut self, block: GpuBlock)
        ensures
            final(self).blocks_spec() == old(self).blocks_spec().push(block),
            final(self).slot_spec() == old(self).slot_spec(),
    {
        self.blocks.push(block);
    }

    /// Append one brush segment's block group: its local rectangle, then
    /// its auxiliary data.
    pub fn write_segment(&mut self, local_rect: RectAu, extra_data: GpuBlock)
        ensures
            final(self).blocks_spec()
                == old(self).blocks_spec().push(rect_block(local_rect)).push(extra_data),
            final(self).slot_spec() == old(self).slot_spec(),
    {
        self.blocks.push(GpuBlock {
            x: local_rect.x,
            y: local_rect.y,
            z: local_rect.width,
            w: local_rect.height,
        });
        self.blocks.push(extra_data);
    }
}

struct GpuSlot {
    valid: bool,
    blocks: Vec<GpuBlock>,
}

/// The cache itself: an arena of slots addressed by handles.
pub struct GpuCache {
    slots: Vec<GpuSlot>,
}

impl View for GpuCache {
    type V = Seq<GpuSlotView>;

    closed spec fn view(&self) -> Seq<GpuSlotView> {
        self.slots@.map(|i: int, s: GpuSlot| GpuSlotView { valid: s.valid, blocks: s.blocks@ })
    }
}

impl GpuCache {
    pub fn new() -> (r: Self)
        ensures
            r@ == Seq::<GpuSlotView>::empty(),
    {
        let r = GpuCache { slots: Vec::new() };
        proof {
            assert(r@ =~= Seq::<GpuSlotView>::empty());
        }
        r
    }

    /// Ask for a writer. Returns no writer exactly when the handle's slot
    /// already holds current contents; otherwise assigns the handle a slot
    /// (allocating one for a fresh handle) and returns an empty writer for
    /// it.
    pub fn request(&mut self, handle: &mut GpuCacheHandle) -> (r: Option<GpuDataRequest>)
        requires
            handle_wf(*old(handle), old(self)@),
        ensures
            handle_wf(*final(handle), final(self)@),
            slot_of(*final(handle))
                == Some(populate_index(old(self)@, slot_of(*old(handle)))),
            match r {
                None => {
                    &&& *final(self) == *old(self)
                    &&& *final(handle) == *old(handle)
                    &&& slot_is_valid(old(self)@, slot_of(*old(handle)))
                },
                Some(writer) => {
                    &&& !slot_is_valid(old(self)@, slot_of(*old(handle)))
                    &&& writer.blocks_spec() == Seq::<GpuBlock>::empty()
                    &&& writer.slot_spec() == populate_index(old(self)@, slot_of(*old(handle)))
                    &&& final(self)@ == alloc_slots(old(self)@, slot_of(*old(handle)))
                },
            },
    {
        match handle.slot {
            Some(i) => {
                if self.slots[i].valid {
                    None
                } else {
                    Some(GpuDataRequest { slot: i, blocks: Vec::new() })
                }
            },
            None => {
                let i = self.slots.len();
                self.slots.push(GpuSlot { valid: false, blocks: Vec::new() });
                handle.slot = Some(i);
                proof {
                    assert(self@ =~= old(self)@.push(
                        GpuSlotView { valid: false, blocks: Seq::empty() },
                    ));
                }
                Some(GpuDataRequest { slot: i, blocks: Vec::new() })
            },
        }
    }

    /// Install a writer's blocks: the slot becomes valid and holds exactly
    /// the blocks pushed, in order.
    pub fn commit(&mut self, writer: GpuDataRequest)
        requires
            0 <= writer.slot_spec() < old(self)@.len(),
        ensures
            final(self)@ == old(self)@.update(
                writer.slot_spec(),
                GpuSlotView { valid: true, blocks: writer.blocks_spec() },
            ),
    {
        let GpuDataRequest { slot, blocks } = writer;
        self.slots[slot] = GpuSlot { valid: true, blocks };
        proof {
            assert(self@ =~= old(self)@.update(
                slot as int,
                GpuSlotView { valid: true, blocks: self.slots@[slot as int].blocks@ },
            ));
        }
    }

    /// Evict a slot: its contents stop being current. What the slot held
    /// stays readable until the next population overwrites it.
    pub fn evict(&mut self, handle: &GpuCacheHandle)
        requires
            handle_wf(*handle, old(self)@),
            handle.slot is Some,
        ensures
            ({
                let i = populate_index(old(self)@, slot_of(*handle));
                final(self)@ == old(self)@.update(
                    i,
                    GpuSlotView { valid: false, blocks: old(self)@[i].blocks },
                )
            }),
    {
        match handle.slot {
            Some(i) => {
                let entry = &mut self.slots[i];
                entry.valid = false;
                proof {
                    assert(self@ =~= old(self)@.update(
                        i as int,
                        GpuSlotView { valid: false, blocks: old(self)@[i as int].blocks },
                    ));
                }
            },
            None => {},
        }
    }

    pub fn slot_count(&self) -> (r: usize)
        ensures
            r == self@.len(),
    {
        self.slots.len()
    }

    pub fn slot_is_populated(&self, i: usize) -> (r: bool)
        requires
            i < self@.len(),
        ensures
            r == self@[i as int].valid,
    {
        self.slots[i].valid
    }

    pub fn slot_block_count(&self, i: usize) -> (r: usize)
        requires
            i < self@.len(),
        ensures
            r == self@[i as int].blocks.len(),
    {
        self.slots[i].blocks.len()
    }

    pub fn slot_block(&self, i: usize, j: usize) -> (r: GpuBlock)
        requires
            i < self@.len(),
            j < self@[i as int].blocks.len(),
        ensures
            r == self@[i as int].blocks[j as int],
    {
        self.slots[i].blocks[j]
    }
}

} // verus!
