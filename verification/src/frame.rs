//! The frame lifecycle manager: the bounded frames-in-flight protocol.
//!
//! A fixed number of frame slots (two) race ahead of the device; each slot
//! owns a completion fence, and each presentation image remembers the slot
//! that last used it, because an image may next be handed to either slot.
//! The protocol proves that a slot's fence is reset only when no submission
//! tagged with it is still outstanding: the device model's `reset` demands
//! an outstanding count of zero, and every caller discharges that demand.

use vstd::prelude::*;

verus! {

/// The bounded number of frames the host may record ahead of the device.
pub const MAX_FRAMES_IN_FLIGHT: usize = 2;

/// A host-side model of the device's fences: for each frame slot, how many
/// submissions tagged with its fence are still outstanding.
pub struct FenceDevice {
    pending: Vec<u64>,
}

impl FenceDevice {
    pub closed spec fn pending_spec(&self) -> Seq<u64> {
        self.pending@
    }

    /// A device with `slots` fences and nothing outstanding.
    pub fn new(slots: usize) -> (r: FenceDevice)
        ensures
            r.pending_spec().len() == slots,
            forall|s: int| 0 <= s < slots ==> r.pending_spec()[s] == 0,
    {
        let mut pending: Vec<u64> = Vec::new();
        let mut i: usize = 0;
        while i < slots
            invariant
                i <= slots,
                pending@.len() == i,
                forall|s: int| 0 <= s < i ==> pending@[s] == 0,
            decreases slots - i,
        {
            pending.push(0);
            i += 1;
        }
        FenceDevice { pending }
    }

    /// Blocks until the slot's fence signals: every submission tagged with
    /// it has completed.
    pub fn wait(&mut self, slot: usize)
        requires
            slot < old(self).pending_spec().len(),
        ensures
            final(self).pending_spec() == old(self).pending_spec().update(slot as int, 0u64),
    {
        self.pending.set(slot, 0);
    }

    /// Submits work tagged with the slot's fence.
    pub fn submit(&mut self, slot: usize)
        requires
            slot < old(self).pending_spec().len(),
            old(self).pending_spec()[slot as int] < u64::MAX,
        ensures
            final(self).pending_spec() == old(self).pending_spec().update(
                slot as int, (old(self).pending_spec()[slot as int] + 1) as u64),
    {
        let count = self.pending[slot];
        self.pending.set(slot, count + 1);
    }

    /// Resets the slot's fence. Resetting a fence that still has outstanding
    /// work would lose the completion signal, so the protocol may call this
    /// only when nothing tagged with the fence is pending.
    pub fn reset(&mut self, slot: usize)
        requires
            slot < old(self).pending_spec().len(),
            old(self).pending_spec()[slot as int] == 0,
        ensures
            final(self).pending_spec() == old(self).pending_spec().update(slot as int, 0u64),
    {
        self.pending.set(slot, 0);
    }

    /// The outstanding count of one slot.
    pub fn outstanding(&self, slot: usize) -> (r: u64)
        requires
            slot < self.pending_spec().len(),
        ensures
            r == self.pending_spec()[slot as int],
    {
        self.pending[slot]
    }
}

/// What the acquire step decided: either an image is ready to render into,
/// or the presentation surface is out of date and the chain-dependent
/// resources must be rebuilt instead of rendering.
#[derive(Clone, Copy, Debug, PartialEq, Eq, Structural)]
pub enum FrameStep {
    Render { image: u32 },
    RebuildChain,
}

/// The disposition of an acquire result: out-of-date redirects into the
/// rebuild protocol, every other outcome renders the acquired image.
pub fn acquire_disposition(out_of_date: bool, image: u32) -> (r: FrameStep)
    ensures
        r == if out_of_date { FrameStep::RebuildChain } else { FrameStep::Render { image } },
{
    if out_of_date {
        FrameStep::RebuildChain
    } else {
        FrameStep::Render { image }
    }
}

/// The host-side frame loop state: the rotating slot index and, per
/// presentation image, the slot whose fence last used it.
pub struct FrameLoop {
    slots: usize,
    current: usize,
    images_last_slot: Vec<Option<usize>>,
}

impl FrameLoop {
    pub closed spec fn slots_spec(&self) -> int {
        self.slots as int
    }

    pub closed spec fn current_spec(&self) -> int {
        self.current as int
    }

    pub closed spec fn images_spec(&self) -> Seq<Option<usize>> {
        self.images_last_slot@
    }

    /// The slot index rotates below the slot count, and every recorded
    /// image user is a real slot.
    pub open spec fn wf(&self) -> bool {
        &&& 1 <= self.slots_spec()
        &&& 0 <= self.current_spec() < self.slots_spec()
        &&& forall|i: int| 0 <= i < self.images_spec().len() ==>
            ((#[trigger] self.images_spec()[i]) matches Some(s) ==> (s as int) < self.slots_spec())
    }

    /// A fresh loop over `images` presentation images: no image has been
    /// used yet and the first slot is current.
    pub fn new(slots: usize, images: usize) -> (r: FrameLoop)
        requires
            1 <= slots,
        ensures
            r.wf(),
            r.slots_spec() == slots,
            r.current_spec() == 0,
            r.images_spec().len() == images,
            forall|i: int| 0 <= i < images ==> r.images_spec()[i] is None,
    {
        let mut images_last_slot: Vec<Option<usize>> = Vec::new();
        let mut i: usize = 0;
        while i < images
            invariant
                i <= images,
                images_last_slot@.len() == i,
                forall|k: int| 0 <= k < i ==> images_last_slot@[k] is None,
            decreases images - i,
        {
            images_last_slot.push(None);
            i += 1;
        }
        FrameLoop { slots, current: 0, images_last_slot }
    }

    /// How many presentation images the loop tracks.
    pub fn image_count(&self) -> (r: usize)
        ensures
            r == self.images_spec().len(),
    {
        self.images_last_slot.len()
    }


    /// The slot whose fence gates the next frame.
    pub fn current_slot(&self) -> (r: usize)
        ensures
            r as int == self.current_spec(),
    {
        self.current
    }

    /// The slot that last used the given image, if any.
    pub fn last_user(&self, image: usize) -> (r: Option<usize>)
        requires
            image < self.images_spec().len(),
        ensures
            r == self.images_spec()[image as int],
    {
        self.images_last_slot[image]
    }

    /// Renders one frame into the given acquired image, against the fence
    /// model: wait on the current slot's fence, wait on the fence of the
    /// slot that last used the image if any, record the image as used by the
    /// current slot, reset the current fence, submit tagged with it, and
    /// advance the slot index. The reset is accepted only because both waits
    /// have drained every submission that could still touch the fence.
    pub fn render_frame(&mut self, device: &mut FenceDevice, image: usize)
        requires
            old(self).wf(),
            image < old(self).images_spec().len(),
            old(device).pending_spec().len() == old(self).slots_spec(),
        ensures
            final(self).wf(),
            final(self).slots_spec() == old(self).slots_spec(),
            final(self).current_spec()
                == (old(self).current_spec() + 1) % old(self).slots_spec(),
            final(self).images_spec()
                == old(self).images_spec().update(image as int, Some(old(self).current_spec() as usize)),
            final(device).pending_spec().len() == old(device).pending_spec().len(),
            final(device).pending_spec() == (match old(self).images_spec()[image as int] {
                Some(s) => old(device).pending_spec().update(s as int, 0u64),
                None => old(device).pending_spec(),
            }).update(old(self).current_spec(), 1u64),
            final(device).pending_spec()[old(self).current_spec()] == 1,
    {
        // Bound how far the host races ahead: drain the current slot.
        device.wait(self.current);
        // The image may have last been touched by the other slot; its work
        // must finish before the image is reused.
        match self.images_last_slot[image] {
            Some(slot) => device.wait(slot),
            None => (),
        }
        self.images_last_slot.set(image, Some(self.current));
        // Nothing tagged with the current fence is outstanding now.
        device.reset(self.current);
        device.submit(self.current);
        self.current = (self.current + 1) % self.slots;
        proof {
            assert(device.pending_spec() =~= (match old(self).images_spec()[image as int] {
                Some(s) => old(device).pending_spec().update(s as int, 0u64),
                None => old(device).pending_spec(),
            }).update(old(self).current_spec(), 1u64));
        }
    }

    /// Runs the loop over a schedule of acquired image indices. Verifying
    /// this driver is the frame-loop safety argument: across any number of
    /// consecutive frames, no fence is reset while a submission tagged with
    /// it is outstanding, because `FenceDevice::reset` refuses exactly that.
    /// The slot index and the per-image last-user table end exactly where
    /// replaying the schedule puts them, and each fence keeps at most one
    /// outstanding submission throughout.
    pub fn run_frames(&mut self, device: &mut FenceDevice, schedule: &Vec<usize>)
        requires
            old(self).wf(),
            forall|k: int| 0 <= k < schedule@.len() ==>
                #[trigger] schedule@[k] < old(self).images_spec().len(),
            old(device).pending_spec().len() == old(self).slots_spec(),
            forall|s: int| 0 <= s < old(device).pending_spec().len() ==>
                #[trigger] old(device).pending_spec()[s] <= 1,
        ensures
            final(self).wf(),
            final(self).slots_spec() == old(self).slots_spec(),
            final(self).current_spec() == frames_replayed(
                old(self).current_spec(), old(self).slots_spec(),
                old(self).images_spec(), schedule@).0,
            final(self).images_spec() == frames_replayed(
                old(self).current_spec(), old(self).slots_spec(),
                old(self).images_spec(), schedule@).1,
            final(device).pending_spec().len() == old(device).pending_spec().len(),
            forall|s: int| 0 <= s < final(device).pending_spec().len() ==>
                #[trigger] final(device).pending_spec()[s] <= 1,
    {
        proof {
            assert(schedule@.skip(0) =~= schedule@);
        }
        let mut k: usize = 0;
        while k < schedule.len()
            invariant
                k <= schedule@.len(),
                self.wf(),
                self.slots_spec() == old(self).slots_spec(),
                self.images_spec().len() == old(self).images_spec().len(),
                forall|j: int| 0 <= j < schedule@.len() ==>
                    #[trigger] schedule@[j] < old(self).images_spec().len(),
                device.pending_spec().len() == old(self).slots_spec(),
                forall|s: int| 0 <= s < device.pending_spec().len() ==>
                    #[trigger] device.pending_spec()[s] <= 1,
                frames_replayed(self.current_spec(), old(self).slots_spec(),
                    self.images_spec(), schedule@.skip(k as int))
                    == frames_replayed(old(self).current_spec(), old(self).slots_spec(),
                        old(self).images_spec(), schedule@),
            decreases schedule@.len() - k,
        {
            let image = schedule[k];
            let ghost pre_current = self.current_spec();
            let ghost pre_images = self.images_spec();
            self.render_frame(device, image);
            proof {
                let tail = schedule@.skip(k as int);
                assert(tail[0] == schedule@[k as int]);
                assert(tail.drop_first() =~= schedule@.skip(k as int + 1));
                assert(frames_replayed(pre_current, old(self).slots_spec(), pre_images, tail)
                    == frames_replayed(self.current_spec(), old(self).slots_spec(),
                        self.images_spec(), schedule@.skip(k as int + 1)));
            }
            k += 1;
        }
        proof {
            assert(schedule@.skip(schedule@.len() as int) =~= Seq::<usize>::empty());
        }
    }
}

/// The slot index and per-image last-user table left behind by replaying a
/// schedule of acquired images through the frame protocol.
pub open spec fn frames_replayed(
    current: int,
    slots: int,
    images: Seq<Option<usize>>,
    schedule: Seq<usize>,
) -> (int, Seq<Option<usize>>)
    decreases schedule.len(),
{
    if schedule.len() == 0 {
        (current, images)
    } else {
        frames_replayed(
            (current + 1) % slots,
            slots,
            images.update(schedule[0] as int, Some(current as usize)),
            schedule.drop_first(),
        )
    }
}

} // verus!
