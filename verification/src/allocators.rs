//! Per-frame geometry buffers.
//!
//! A drawable object owns one buffer region per frame in flight, so the CPU
//! can fill the region of one frame while the GPU still reads another. The
//! allocator fixes the number of frames in flight at construction and hands
//! out one [`GeometrySlotSet`] per object.

use vstd::prelude::*;

verus! {

/// The replicated buffer regions of one drawable object: one region per
/// frame in flight, each sized for the same number of elements.
pub struct GeometrySlotSet<T> {
    regions: Vec<Vec<T>>,
    element_count: usize,
}

impl<T: Copy> GeometrySlotSet<T> {
    /// Every region holds exactly `element_count` elements.
    pub closed spec fn wf(self) -> bool {
        forall|i: int|
            0 <= i < self.regions@.len() ==> (#[trigger] self.regions@[i])@.len()
                == self.element_count
    }

    /// Number of regions (frames in flight).
    pub closed spec fn num_regions_spec(self) -> nat {
        self.regions@.len()
    }

    /// Number of elements each region holds.
    pub closed spec fn element_count_spec(self) -> nat {
        self.element_count as nat
    }

    /// The contents of the region for one frame parity.
    pub closed spec fn region_spec(self, parity: int) -> Seq<T> {
        self.regions@[parity]@
    }

    /// Builds a slot set of `regions` regions, each filled with `fill`.
    pub fn new_filled(regions: usize, element_count: usize, fill: T) -> (r: Self)
        ensures
            r.wf(),
            r.num_regions_spec() == regions,
            r.element_count_spec() == element_count,
            forall|i: int|
                0 <= i < regions ==> #[trigger] r.region_spec(i) =~= Seq::new(
                    element_count as nat,
                    |j: int| fill,
                ),
    {
        let mut region: Vec<T> = Vec::new();
        let mut j: usize = 0;
        while j < element_count
            invariant
                j <= element_count,
                region@ =~= Seq::new(j as nat, |k: int| fill),
            decreases element_count - j,
        {
            region.push(fill);
            j = j + 1;
        }
        let mut out: Vec<Vec<T>> = Vec::new();
        let mut i: usize = 0;
        while i < regions
            invariant
                i <= regions,
                out@.len() == i,
                region@ =~= Seq::new(element_count as nat, |k: int| fill),
                forall|k: int|
                    0 <= k < i ==> (#[trigger] out@[k])@ =~= Seq::new(
                        element_count as nat,
                        |j: int| fill,
                    ),
            decreases regions - i,
        {
            let copy = clone_elements(&region);
            out.push(copy);
            i = i + 1;
        }
        GeometrySlotSet { regions: out, element_count }
    }

    /// Number of regions, as a runtime value.
    pub fn num_regions(&self) -> (r: usize)
        ensures
            r == self.num_regions_spec(),
    {
        self.regions.len()
    }

    /// Number of elements each region holds, as a runtime value.
    pub fn element_count(&self) -> (r: usize)
        ensures
            r == self.element_count_spec(),
    {
        self.element_count
    }

    /// Reads the region for one frame parity back.
    pub fn region(&self, parity: usize) -> (r: &Vec<T>)
        requires
            parity < self.num_regions_spec(),
        ensures
            r@ == self.region_spec(parity as int),
            self.wf() ==> r@.len() == self.element_count_spec(),
    {
        &self.regions[parity]
    }

    /// Copies `data` into the region for `parity`.
    ///
    /// A caller that hands a slice of the wrong length has broken the
    /// model/buffer size invariant, so the length is a precondition, not a
    /// runtime error. Reading the region back immediately yields exactly
    /// `data`, and no other region changes.
    pub fn write(&mut self, parity: usize, data: &Vec<T>)
        requires
            old(self).wf(),
            parity < old(self).num_regions_spec(),
            data@.len() == old(self).element_count_spec(),
        ensures
            final(self).wf(),
            final(self).num_regions_spec() == old(self).num_regions_spec(),
            final(self).element_count_spec() == old(self).element_count_spec(),
            final(self).region_spec(parity as int) =~= data@,
            forall|i: int|
                0 <= i < old(self).num_regions_spec() && i != parity
                    ==> #[trigger] final(self).region_spec(i) == old(self).region_spec(i),
    {
        let copy = clone_elements(data);
        self.regions.set(parity, copy);
    }
}

/// Buffer round trip: after writing element array `data` into the region
/// for one parity — which `write` promises leaves `region_spec(parity)`
/// equal to `data` — reading that region back yields exactly `data`, even
/// in any later state whose region for that parity was not written again
/// (writes for other parities never touch it).
pub proof fn lemma_buffer_round_trip<T: Copy>(
    after_write: GeometrySlotSet<T>,
    later: GeometrySlotSet<T>,
    parity: int,
    data: Seq<T>,
)
    requires
        0 <= parity < after_write.num_regions_spec(),
        after_write.region_spec(parity) == data,
        later.region_spec(parity) == after_write.region_spec(parity),
    ensures
        later.region_spec(parity) == data,
{
}

/// Copies a vector of plain elements, element by element.
fn clone_elements<T: Copy>(data: &Vec<T>) -> (r: Vec<T>)
    ensures
        r@ =~= data@,
{
    let mut out: Vec<T> = Vec::new();
    let mut i: usize = 0;
    while i < data.len()
        invariant
            i <= data@.len(),
            out@ =~= data@.subrange(0, i as int),
        decreases data@.len() - i,
    {
        out.push(data[i]);
        i = i + 1;
    }
    out
}

/// Allocates per-frame buffer regions; the number of frames in flight is
/// fixed when the allocator is built.
pub struct ObjectAllocator {
    frames: usize,
}

impl ObjectAllocator {
    /// Number of frames in flight this allocator replicates regions for.
    pub closed spec fn frames_spec(self) -> nat {
        self.frames as nat
    }

    /// Builds an allocator for `frames` frames in flight.
    pub fn new(frames: usize) -> (r: Self)
        requires
            frames >= 1,
        ensures
            r.frames_spec() == frames,
    {
        ObjectAllocator { frames }
    }

    /// Allocates one region per frame in flight, each sized for
    /// `element_count` elements and filled with `fill`.
    pub fn subbuffers<T: Copy>(&self, element_count: usize, fill: T) -> (r: GeometrySlotSet<T>)
        ensures
            r.wf(),
            r.num_regions_spec() == self.frames_spec(),
            r.element_count_spec() == element_count,
            forall|i: int|
                0 <= i < r.num_regions_spec() ==> #[trigger] r.region_spec(i) =~= Seq::new(
                    element_count as nat,
                    |j: int| fill,
                ),
    {
        GeometrySlotSet::new_filled(self.frames, element_count, fill)
    }

    /// Number of regions each slot set will have.
    pub fn subbuffers_amount(&self) -> (r: usize)
        ensures
            r == self.frames_spec(),
    {
        self.frames
    }
}

} // verus!
