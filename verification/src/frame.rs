//! The per-frame synchronization protocol.
//!
//! A `FrameScheduler` cycles through `N` frame slots, each owning an
//! image-acquired signal, a render-complete signal and an in-flight
//! completion marker (a fence). The scheduler decides which fence the caller
//! must wait on before any resource is reused, records which presentable
//! image is held by which marker, and resets that table when the swapchain
//! is rebuilt.
//!
//! Every decision is appended to a ghost trace of synchronization events,
//! and the scheduler maintains the invariant that its trace replays against
//! an abstract device model: a submitted fence is never resubmitted before a
//! wait, and an image is never claimed while the marker of its previous
//! holder may still be in flight. The lemmas at the end of this module state
//! those guarantees for any trace the scheduler can produce.

use vstd::assert_by_contradiction;
use vstd::prelude::*;

verus! {

/// One host-side synchronization event, as replayed by the device model.
pub enum SyncEvent {
    /// The host blocked until `fence` signaled.
    Wait { fence: nat },
    /// The table entry of `image` was set to `fence`.
    Claim { image: nat, fence: nat },
    /// Work was submitted that will signal `fence` on completion.
    Submit { fence: nat },
    /// The host blocked until the whole device was idle.
    IdleWait,
    /// The swapchain was rebuilt with `count` presentable images.
    Rebuild { count: nat },
}

/// The abstract device state a trace is replayed against: which fences may
/// still be in flight, and which marker each presentable image is held by.
#[verifier::ext_equal]
pub struct DeviceModel {
    /// Fences submitted and not yet known to have signaled.
    pub pending: Set<nat>,
    /// Per presentable image, the marker of the frame slot holding it.
    pub table: Seq<Option<nat>>,
}

/// The device state before any event: nothing in flight, `k0` unheld images.
pub open spec fn init_model(k0: nat) -> DeviceModel {
    DeviceModel { pending: Set::empty(), table: Seq::new(k0, |i: int| None) }
}

/// One replay step. `None` means the event was unsafe in that state.
pub open spec fn model_step(st: DeviceModel, ev: SyncEvent) -> Option<DeviceModel> {
    match ev {
        SyncEvent::Wait { fence } => Some(
            DeviceModel { pending: st.pending.remove(fence), table: st.table },
        ),
        SyncEvent::Claim { image, fence } => {
            if image < st.table.len() && (st.table[image as int] matches Some(g)
                ==> !st.pending.contains(g)) {
                Some(
                    DeviceModel {
                        pending: st.pending,
                        table: st.table.update(image as int, Some(fence)),
                    },
                )
            } else {
                None
            }
        },
        SyncEvent::Submit { fence } => {
            if !st.pending.contains(fence) {
                Some(DeviceModel { pending: st.pending.insert(fence), table: st.table })
            } else {
                None
            }
        },
        SyncEvent::IdleWait => Some(DeviceModel { pending: Set::empty(), table: st.table }),
        SyncEvent::Rebuild { count } => {
            if st.pending == Set::<nat>::empty() {
                Some(DeviceModel { pending: st.pending, table: Seq::new(count, |i: int| None) })
            } else {
                None
            }
        },
    }
}

/// Replays a whole trace from the initial state; `None` as soon as any
/// event is unsafe.
pub open spec fn replay(h: Seq<SyncEvent>, k0: nat) -> Option<DeviceModel>
    decreases h.len(),
{
    if h.len() == 0 {
        Some(init_model(k0))
    } else {
        match replay(h.drop_last(), k0) {
            Some(st) => model_step(st, h.last()),
            None => None,
        }
    }
}

/// Replaying one more event steps the replayed state once.
pub proof fn lemma_replay_push(h: Seq<SyncEvent>, k0: nat, ev: SyncEvent)
    requires
        replay(h, k0) is Some,
    ensures
        replay(h.push(ev), k0) == model_step(replay(h, k0)->Some_0, ev),
{
    assert(h.push(ev).drop_last() =~= h);
    assert(h.push(ev).last() == ev);
}

/// One of the `N` pipelined frame contexts: the handles of its
/// image-acquired signal, its render-complete signal, and its in-flight
/// completion marker.
#[derive(Clone, Copy, Debug, PartialEq, Eq, Structural)]
pub struct FrameSlot {
    pub image_acquired: u64,
    pub render_complete: u64,
    pub in_flight: u64,
}

/// In-flight markers identify their slot, so they must be pairwise distinct.
pub open spec fn distinct_markers(slots: Seq<FrameSlot>) -> bool {
    forall|i: int, j: int|
        0 <= i < slots.len() && 0 <= j < slots.len() && i != j ==> slots[i].in_flight
            != slots[j].in_flight
}

/// Where the scheduler stands inside one frame.
#[derive(Clone, Copy, Debug, PartialEq, Eq, Structural)]
pub enum Phase {
    /// Between frames.
    Idle,
    /// The current slot's in-flight marker has been waited on.
    SlotWaited,
    /// A presentable image has been acquired and claimed for this slot.
    ImageClaimed { image: usize },
    /// This frame's work has been submitted.
    Submitted { image: usize },
    /// The swapchain must be rebuilt before the next frame.
    NeedsRebuild,
}

/// What presentation reported back.
#[derive(Clone, Copy, Debug, PartialEq, Eq, Structural)]
pub enum PresentOutcome {
    Success,
    Suboptimal,
    OutOfDate,
    Failure,
}

/// What the caller must do after a frame ends.
#[derive(Clone, Copy, Debug, PartialEq, Eq, Structural)]
pub enum FrameEnd {
    /// Render the next frame.
    Continue,
    /// Rebuild the swapchain, then report back with `on_rebuilt`.
    NeedRebuild,
    /// Propagate a fatal device error.
    Fatal,
}

/// The action `end_frame` decides on: rebuild when presentation reported
/// the surface stale or a resize was observed, fatal on any other failure.
pub open spec fn spec_frame_end(outcome: PresentOutcome, resized: bool) -> FrameEnd {
    if resized || outcome == PresentOutcome::Suboptimal || outcome == PresentOutcome::OutOfDate {
        FrameEnd::NeedRebuild
    } else if outcome == PresentOutcome::Failure {
        FrameEnd::Fatal
    } else {
        FrameEnd::Continue
    }
}

/// What one submission must do, handle by handle: wait on the slot's
/// image-acquired signal at the color-attachment-output stage, run the
/// claimed image's primary command stream, and signal the slot's
/// render-complete signal and its in-flight marker on completion.
/// Presentation afterwards waits on the same render-complete signal and
/// presents the same image.
#[derive(Clone, Copy, Debug, PartialEq, Eq, Structural)]
pub struct SubmitPlan {
    /// The semaphore the submission waits on, at the color-attachment-output
    /// pipeline stage: the slot's image-acquired signal.
    pub wait_image_acquired: u64,
    /// The presentable image whose primary command stream is executed.
    pub image: usize,
    /// The semaphore signaled when rendering completes: the slot's
    /// render-complete signal.
    pub signal_render_complete: u64,
    /// The fence signaled when all of the submission's work completes: the
    /// slot's in-flight marker.
    pub fence: u64,
}

/// Tracks the frame-slot cycle and the image-in-flight table, and hands the
/// caller the fences it must wait on.
pub struct FrameScheduler {
    /// The `N` frame slots; fixed at construction.
    pub slots: Vec<FrameSlot>,
    /// The current slot index, cycling round-robin.
    pub frame: usize,
    /// Per presentable image, the in-flight marker of the slot holding it.
    pub images_in_flight: Vec<Option<u64>>,
    /// Where the scheduler stands inside the current frame.
    pub phase: Phase,
    /// Every synchronization event decided so far.
    pub trace: Ghost<Seq<SyncEvent>>,
    /// Mirror of the replayed device state's pending set.
    pub pending: Ghost<Set<nat>>,
    /// The image count the scheduler started with.
    pub initial_count: Ghost<nat>,
}

/// The image-in-flight table as the device model sees it.
pub open spec fn table_view(v: Seq<Option<u64>>) -> Seq<Option<nat>> {
    Seq::new(
        v.len(),
        |i: int|
            match v[i] {
                Some(f) => Some(f as nat),
                None => None,
            },
    )
}

impl FrameScheduler {
    /// The in-flight marker of the current slot.
    pub open spec fn cur_marker(self) -> nat {
        self.slots@[self.frame as int].in_flight as nat
    }

    /// The device state the scheduler believes the trace has reached.
    pub open spec fn dev(self) -> DeviceModel {
        DeviceModel { pending: self.pending@, table: table_view(self.images_in_flight@) }
    }

    /// Well-formedness: the trace replays exactly to the mirrored state, and
    /// once the slot wait of the current frame has happened, the current
    /// marker is not pending.
    pub open spec fn wf(self) -> bool {
        &&& self.slots@.len() >= 1
        &&& self.frame < self.slots@.len()
        &&& distinct_markers(self.slots@)
        &&& replay(self.trace@, self.initial_count@) == Some(self.dev())
        &&& match self.phase {
            Phase::SlotWaited => !self.pending@.contains(self.cur_marker()),
            Phase::ImageClaimed { image } => {
                &&& image < self.images_in_flight@.len()
                &&& !self.pending@.contains(self.cur_marker())
            },
            _ => true,
        }
    }

    /// A fresh scheduler over the given slots and `image_count` presentable
    /// images; no image is held, no fence is in flight.
    pub fn new(slots: Vec<FrameSlot>, image_count: usize) -> (s: Self)
        requires
            slots@.len() >= 1,
            distinct_markers(slots@),
        ensures
            s.wf(),
            s.slots == slots,
            s.frame == 0,
            s.phase == Phase::Idle,
            s.images_in_flight@.len() == image_count,
            forall|i: int| 0 <= i < image_count ==> s.images_in_flight@[i] is None,
            s.trace@ == Seq::<SyncEvent>::empty(),
    {
        let table = none_table(image_count);
        let s = FrameScheduler {
            slots,
            frame: 0,
            images_in_flight: table,
            phase: Phase::Idle,
            trace: Ghost(Seq::empty()),
            pending: Ghost(Set::empty()),
            initial_count: Ghost(image_count as nat),
        };
        proof {
            assert(table_view(s.images_in_flight@) =~= Seq::new(
                image_count as nat,
                |i: int| None,
            ));
            assert(s.dev() =~= init_model(image_count as nat));
        }
        s
    }

    /// Starts a frame: the caller must wait on the returned fence, the
    /// current slot's in-flight marker, before any of the slot's resources
    /// are touched.
    pub fn begin_frame(&mut self) -> (fence: u64)
        requires
            old(self).wf(),
            old(self).phase == Phase::Idle,
        ensures
            final(self).wf(),
            fence == old(self).slots@[old(self).frame as int].in_flight,
            final(self).phase == Phase::SlotWaited,
            final(self).frame == old(self).frame,
            final(self).slots == old(self).slots,
            final(self).images_in_flight == old(self).images_in_flight,
            final(self).trace@ == old(self).trace@.push(SyncEvent::Wait { fence: fence as nat }),
            !final(self).pending@.contains(fence as nat),
    {
        let fence = self.slots[self.frame].in_flight;
        proof {
            lemma_replay_push(
                self.trace@,
                self.initial_count@,
                SyncEvent::Wait { fence: fence as nat },
            );
        }
        self.trace = Ghost(self.trace@.push(SyncEvent::Wait { fence: fence as nat }));
        self.pending = Ghost(self.pending@.remove(fence as nat));
        self.phase = Phase::SlotWaited;
        proof {
            assert(replay(self.trace@, self.initial_count@) matches Some(st) && st =~= self.dev());
        }
        fence
    }

    /// Claims presentable image `image` for the current slot. When the image
    /// is still held by an earlier marker, that marker is returned and the
    /// caller must wait on it before going on; the table entry then points
    /// at the current slot's marker.
    pub fn claim_image(&mut self, image: usize) -> (prior: Option<u64>)
        requires
            old(self).wf(),
            old(self).phase == Phase::SlotWaited,
            image < old(self).images_in_flight@.len(),
        ensures
            final(self).wf(),
            prior == old(self).images_in_flight@[image as int],
            final(self).phase == (Phase::ImageClaimed { image }),
            final(self).frame == old(self).frame,
            final(self).slots == old(self).slots,
            final(self).images_in_flight@ == old(self).images_in_flight@.update(
                image as int,
                Some(old(self).slots@[old(self).frame as int].in_flight),
            ),
            final(self).trace@ == match old(self).images_in_flight@[image as int] {
                Some(f) => old(self).trace@.push(SyncEvent::Wait { fence: f as nat }).push(
                    SyncEvent::Claim { image: image as nat, fence: old(self).cur_marker() },
                ),
                None => old(self).trace@.push(
                    SyncEvent::Claim { image: image as nat, fence: old(self).cur_marker() },
                ),
            },
    {
        let marker = self.slots[self.frame].in_flight;
        let prior = self.images_in_flight[image];
        if let Some(f) = prior {
            proof {
                lemma_replay_push(
                    self.trace@,
                    self.initial_count@,
                    SyncEvent::Wait { fence: f as nat },
                );
            }
            self.trace = Ghost(self.trace@.push(SyncEvent::Wait { fence: f as nat }));
            self.pending = Ghost(self.pending@.remove(f as nat));
            proof {
                assert(replay(self.trace@, self.initial_count@) matches Some(st) && st =~= self.dev());
            }
        }
        proof {
            lemma_replay_push(
                self.trace@,
                self.initial_count@,
                SyncEvent::Claim { image: image as nat, fence: marker as nat },
            );
        }
        self.trace = Ghost(
            self.trace@.push(SyncEvent::Claim { image: image as nat, fence: marker as nat }),
        );
        self.images_in_flight.set(image, Some(marker));
        self.phase = Phase::ImageClaimed { image };
        proof {
            assert(table_view(self.images_in_flight@) =~= table_view(
                old(self).images_in_flight@,
            ).update(image as int, Some(marker as nat)));
            assert(replay(self.trace@, self.initial_count@) matches Some(st) && st =~= self.dev());
        }
        prior
    }

    /// Records that this frame's commands are submitted, and says with which
    /// handles: the submission waits the slot's image-acquired signal at the
    /// color-attachment-output stage, executes the claimed image's command
    /// stream, and signals the slot's render-complete signal and its
    /// in-flight marker. The caller must reset the fence and submit exactly
    /// once as planned; presentation then waits the render-complete signal
    /// and presents the same image.
    pub fn mark_submitted(&mut self) -> (p: SubmitPlan)
        requires
            old(self).wf(),
            old(self).phase matches Phase::ImageClaimed { .. },
        ensures
            final(self).wf(),
            p.fence == old(self).slots@[old(self).frame as int].in_flight,
            p.wait_image_acquired == old(self).slots@[old(self).frame as int].image_acquired,
            p.signal_render_complete == old(self).slots@[old(self).frame as int].render_complete,
            p.image == old(self).phase->ImageClaimed_image,
            final(self).phase == (Phase::Submitted { image: old(self).phase->ImageClaimed_image }),
            final(self).frame == old(self).frame,
            final(self).slots == old(self).slots,
            final(self).images_in_flight == old(self).images_in_flight,
            final(self).trace@ == old(self).trace@.push(
                SyncEvent::Submit { fence: p.fence as nat },
            ),
            final(self).pending@ == old(self).pending@.insert(p.fence as nat),
    {
        let slot = self.slots[self.frame];
        let fence = slot.in_flight;
        let image = match self.phase {
            Phase::ImageClaimed { image } => image,
            _ => 0,
        };
        proof {
            lemma_replay_push(
                self.trace@,
                self.initial_count@,
                SyncEvent::Submit { fence: fence as nat },
            );
        }
        self.trace = Ghost(self.trace@.push(SyncEvent::Submit { fence: fence as nat }));
        self.pending = Ghost(self.pending@.insert(fence as nat));
        self.phase = Phase::Submitted { image };
        proof {
            assert(replay(self.trace@, self.initial_count@) matches Some(st) && st =~= self.dev());
        }
        SubmitPlan {
            wait_image_acquired: slot.image_acquired,
            image,
            signal_render_complete: slot.render_complete,
            fence,
        }
    }

    /// Ends the frame once presentation reported back: decides between
    /// continuing, rebuilding and failing, and advances the slot cycle
    /// unless the outcome was fatal.
    pub fn end_frame(&mut self, outcome: PresentOutcome, resized: bool) -> (act: FrameEnd)
        requires
            old(self).wf(),
            old(self).phase matches Phase::Submitted { .. },
        ensures
            final(self).wf(),
            act == spec_frame_end(outcome, resized),
            final(self).phase == if act == FrameEnd::NeedRebuild {
                Phase::NeedsRebuild
            } else {
                Phase::Idle
            },
            final(self).frame == if act == FrameEnd::Fatal {
                old(self).frame as int
            } else {
                ((old(self).frame + 1) % old(self).slots@.len() as int)
            },
            final(self).slots == old(self).slots,
            final(self).images_in_flight == old(self).images_in_flight,
            final(self).trace@ == old(self).trace@,
            final(self).pending@ == old(self).pending@,
    {
        let n = self.slots.len();
        proof {
            assert(self.frame < n);
            assert(n >= 1);
        }
        let stale = outcome == PresentOutcome::Suboptimal || outcome == PresentOutcome::OutOfDate;
        if resized || stale {
            self.frame = (self.frame + 1) % n;
            self.phase = Phase::NeedsRebuild;
            FrameEnd::NeedRebuild
        } else if outcome == PresentOutcome::Failure {
            self.phase = Phase::Idle;
            FrameEnd::Fatal
        } else {
            self.frame = (self.frame + 1) % n;
            self.phase = Phase::Idle;
            FrameEnd::Continue
        }
    }

    /// Abandons the frame because acquisition reported the swapchain out of
    /// date: nothing was submitted, the slot cycle does not advance, and the
    /// swapchain must be rebuilt.
    pub fn abort_acquire(&mut self)
        requires
            old(self).wf(),
            old(self).phase == Phase::SlotWaited,
        ensures
            final(self).wf(),
            final(self).phase == Phase::NeedsRebuild,
            final(self).frame == old(self).frame,
            final(self).slots == old(self).slots,
            final(self).images_in_flight == old(self).images_in_flight,
            final(self).trace@ == old(self).trace@,
            final(self).pending@ == old(self).pending@,
    {
        self.phase = Phase::NeedsRebuild;
    }

    /// Records a completed swapchain rebuild: the device was waited idle,
    /// and the image-in-flight table is reset to `new_count` unheld entries.
    pub fn on_rebuilt(&mut self, new_count: usize)
        requires
            old(self).wf(),
            old(self).phase == Phase::NeedsRebuild || old(self).phase == Phase::Idle,
        ensures
            final(self).wf(),
            final(self).phase == Phase::Idle,
            final(self).images_in_flight@.len() == new_count,
            forall|i: int| 0 <= i < new_count ==> final(self).images_in_flight@[i] is None,
            final(self).pending@ == Set::<nat>::empty(),
            final(self).frame == old(self).frame,
            final(self).slots == old(self).slots,
            final(self).trace@ == old(self).trace@.push(SyncEvent::IdleWait).push(
                SyncEvent::Rebuild { count: new_count as nat },
            ),
    {
        proof {
            lemma_replay_push(self.trace@, self.initial_count@, SyncEvent::IdleWait);
        }
        self.trace = Ghost(self.trace@.push(SyncEvent::IdleWait));
        self.pending = Ghost(Set::empty());
        proof {
            assert(replay(self.trace@, self.initial_count@) matches Some(st) && st =~= self.dev());
        }
        proof {
            lemma_replay_push(
                self.trace@,
                self.initial_count@,
                SyncEvent::Rebuild { count: new_count as nat },
            );
        }
        self.trace = Ghost(self.trace@.push(SyncEvent::Rebuild { count: new_count as nat }));
        self.images_in_flight = none_table(new_count);
        self.phase = Phase::Idle;
        proof {
            assert(table_view(self.images_in_flight@) =~= Seq::new(
                new_count as nat,
                |i: int| None,
            ));
            assert(replay(self.trace@, self.initial_count@) matches Some(st) && st =~= self.dev());
        }
    }

    /// Records the blocking device-idle wait that precedes full teardown:
    /// afterwards no fence is in flight, so every resource of the session
    /// may be released. Callable only between frames.
    pub fn record_shutdown_wait(&mut self)
        requires
            old(self).wf(),
            old(self).phase == Phase::Idle || old(self).phase == Phase::NeedsRebuild,
        ensures
            final(self).wf(),
            final(self).trace@ == old(self).trace@.push(SyncEvent::IdleWait),
            final(self).pending@ == Set::<nat>::empty(),
            final(self).phase == old(self).phase,
            final(self).frame == old(self).frame,
            final(self).slots == old(self).slots,
            final(self).images_in_flight == old(self).images_in_flight,
    {
        proof {
            lemma_replay_push(self.trace@, self.initial_count@, SyncEvent::IdleWait);
        }
        self.trace = Ghost(self.trace@.push(SyncEvent::IdleWait));
        self.pending = Ghost(Set::empty());
        proof {
            assert(replay(self.trace@, self.initial_count@) matches Some(st) && st =~= self.dev());
        }
    }

    /// How many presentable images the table currently covers.
    pub fn image_count(&self) -> (r: usize)
        ensures
            r == self.images_in_flight@.len(),
    {
        self.images_in_flight.len()
    }

    /// How many frame slots the scheduler cycles through.
    pub fn slot_count(&self) -> (r: usize)
        ensures
            r == self.slots@.len(),
    {
        self.slots.len()
    }
}

/// Every trace a well-formed scheduler has produced is admissible: the
/// device model accepts each of its events in order, so the two laws below
/// apply to it.
pub proof fn lemma_scheduler_trace_admissible(s: FrameScheduler)
    requires
        s.wf(),
    ensures
        replay(s.trace@, s.initial_count@) is Some,
{
}

/// Every prefix of an admissible trace is admissible.
pub proof fn lemma_replay_prefix(h: Seq<SyncEvent>, k0: nat, n: int)
    requires
        replay(h, k0) is Some,
        0 <= n <= h.len(),
    ensures
        replay(h.take(n), k0) is Some,
    decreases h.len() - n,
{
    if n == h.len() {
        assert(h.take(n) =~= h);
    } else {
        lemma_replay_prefix(h, k0, n + 1);
        assert(h.take(n + 1).drop_last() =~= h.take(n));
        assert(h.take(n + 1).last() == h[n]);
    }
}

/// Replay up to `m + 1` is one step past replay up to `m`.
pub proof fn lemma_replay_step_at(h: Seq<SyncEvent>, k0: nat, m: int)
    requires
        0 <= m < h.len(),
    ensures
        replay(h.take(m + 1), k0) == match replay(h.take(m), k0) {
            Some(st) => model_step(st, h[m]),
            None => None,
        },
{
    assert(h.take(m + 1).drop_last() =~= h.take(m));
    assert(h.take(m + 1).last() == h[m]);
}

/// A pending fence stays pending over any span that neither waits on it nor
/// waits for the device to go idle.
proof fn lemma_pending_persists(h: Seq<SyncEvent>, k0: nat, a: int, b: int, f: nat)
    requires
        replay(h, k0) is Some,
        0 <= a <= b <= h.len(),
        replay(h.take(a), k0) is Some,
        replay(h.take(a), k0)->Some_0.pending.contains(f),
        forall|m: int|
            a <= m < b ==> h[m] != (SyncEvent::Wait { fence: f }) && h[m] != SyncEvent::IdleWait,
    ensures
        replay(h.take(b), k0) is Some,
        replay(h.take(b), k0)->Some_0.pending.contains(f),
    decreases b - a,
{
    lemma_replay_prefix(h, k0, b);
    if a < b {
        lemma_pending_persists(h, k0, a, b - 1, f);
        lemma_replay_step_at(h, k0, b - 1);
        let st = replay(h.take(b - 1), k0)->Some_0;
        let st2 = replay(h.take(b), k0)->Some_0;
        match h[b - 1] {
            SyncEvent::Wait { fence } => {
                assert(fence != f);
                assert(st2.pending.contains(f));
            },
            SyncEvent::Claim { .. } => {},
            SyncEvent::Submit { .. } => {},
            SyncEvent::IdleWait => {
                assert(false);
            },
            SyncEvent::Rebuild { .. } => {
                assert(st.pending == Set::<nat>::empty());
                assert(false);
            },
        }
    }
}

/// A table entry persists over any span without a claim of that image and
/// without a rebuild.
proof fn lemma_table_persists(h: Seq<SyncEvent>, k0: nat, a: int, b: int, img: nat, e: Option<nat>)
    requires
        replay(h, k0) is Some,
        0 <= a <= b <= h.len(),
        replay(h.take(a), k0) is Some,
        img < replay(h.take(a), k0)->Some_0.table.len(),
        replay(h.take(a), k0)->Some_0.table[img as int] == e,
        forall|m: int|
            a <= m < b ==> ((#[trigger] h[m]) matches SyncEvent::Claim { image, .. } ==> image
                != img),
        forall|m: int| a <= m < b ==> !(h[m] is Rebuild),
    ensures
        replay(h.take(b), k0) is Some,
        img < replay(h.take(b), k0)->Some_0.table.len(),
        replay(h.take(b), k0)->Some_0.table[img as int] == e,
    decreases b - a,
{
    lemma_replay_prefix(h, k0, b);
    if a < b {
        lemma_table_persists(h, k0, a, b - 1, img, e);
        lemma_replay_step_at(h, k0, b - 1);
    }
}

/// A frame slot's in-flight marker is always waited on before the slot is
/// reused: in any trace the device model admits, two submissions signaling
/// the same marker have a wait on that marker, or a full device-idle wait,
/// between them.
pub proof fn lemma_marker_waited_between_submits(
    h: Seq<SyncEvent>,
    k0: nat,
    i: int,
    j: int,
    f: nat,
)
    requires
        replay(h, k0) is Some,
        0 <= i < j < h.len(),
        h[i] == (SyncEvent::Submit { fence: f }),
        h[j] == (SyncEvent::Submit { fence: f }),
    ensures
        exists|m: int|
            i < m < j && (h[m] == (SyncEvent::Wait { fence: f }) || h[m] == SyncEvent::IdleWait),
{
    assert_by_contradiction!(exists|m: int|
        i < m < j && (h[m] == (SyncEvent::Wait { fence: f }) || h[m] == SyncEvent::IdleWait), {
        assert(forall|m: int|
            i + 1 <= m < j ==> h[m] != (SyncEvent::Wait { fence: f }) && h[m]
                != SyncEvent::IdleWait);
        lemma_replay_prefix(h, k0, i + 1);
        lemma_replay_prefix(h, k0, i);
        lemma_replay_step_at(h, k0, i);
        assert(replay(h.take(i + 1), k0)->Some_0.pending.contains(f));
        lemma_pending_persists(h, k0, i + 1, j, f);
        lemma_replay_prefix(h, k0, j + 1);
        lemma_replay_step_at(h, k0, j);
        assert(false);
    });
}

/// No presentable image is handed to a second frame slot while its prior
/// marker may still be in flight: in any trace the device model admits, if
/// an image is claimed by a marker, submitted against, and later claimed
/// again with no rebuild in between, then that marker is waited on (or the
/// whole device is waited idle) between the submission and the second claim.
pub proof fn lemma_image_wait_before_reclaim(
    h: Seq<SyncEvent>,
    k0: nat,
    i: int,
    s: int,
    j: int,
    img: nat,
    f1: nat,
    f2: nat,
)
    requires
        replay(h, k0) is Some,
        0 <= i < s < j < h.len(),
        h[i] == (SyncEvent::Claim { image: img, fence: f1 }),
        h[s] == (SyncEvent::Submit { fence: f1 }),
        h[j] == (SyncEvent::Claim { image: img, fence: f2 }),
        forall|m: int|
            i < m < j ==> ((#[trigger] h[m]) matches SyncEvent::Claim { image, .. } ==> image
                != img),
        forall|m: int| i < m < j ==> !(h[m] is Rebuild),
    ensures
        exists|m: int|
            s < m < j && (h[m] == (SyncEvent::Wait { fence: f1 }) || h[m] == SyncEvent::IdleWait),
{
    assert_by_contradiction!(exists|m: int|
        s < m < j && (h[m] == (SyncEvent::Wait { fence: f1 }) || h[m] == SyncEvent::IdleWait), {
        assert(forall|m: int|
            s + 1 <= m < j ==> h[m] != (SyncEvent::Wait { fence: f1 }) && h[m]
                != SyncEvent::IdleWait);
        lemma_replay_prefix(h, k0, i + 1);
        lemma_replay_prefix(h, k0, i);
        lemma_replay_step_at(h, k0, i);
        assert(replay(h.take(i + 1), k0)->Some_0.table[img as int] == Some(f1));
        lemma_table_persists(h, k0, i + 1, j, img, Some(f1));
        lemma_replay_prefix(h, k0, s + 1);
        lemma_replay_prefix(h, k0, s);
        lemma_replay_step_at(h, k0, s);
        assert(replay(h.take(s + 1), k0)->Some_0.pending.contains(f1));
        lemma_pending_persists(h, k0, s + 1, j, f1);
        lemma_replay_prefix(h, k0, j + 1);
        lemma_replay_step_at(h, k0, j);
        assert(false);
    });
}

/// For all sequences of frames a scheduler has run: its in-flight markers
/// are always waited on before the owning slot's command stream and sync
/// objects are reused. Any two submissions in the scheduler's trace that
/// signal the same marker have a wait on that marker (or a device-idle
/// wait) between them.
pub proof fn lemma_scheduler_no_slot_reuse_before_wait(s: FrameScheduler, i: int, j: int, f: nat)
    requires
        s.wf(),
        0 <= i < j < s.trace@.len(),
        s.trace@[i] == (SyncEvent::Submit { fence: f }),
        s.trace@[j] == (SyncEvent::Submit { fence: f }),
    ensures
        exists|m: int|
            i < m < j && (s.trace@[m] == (SyncEvent::Wait { fence: f }) || s.trace@[m]
                == SyncEvent::IdleWait),
{
    lemma_marker_waited_between_submits(s.trace@, s.initial_count@, i, j, f);
}

/// For all sequences of frames a scheduler has run: no presentable image is
/// claimed for a second frame slot while the marker of the slot that last
/// submitted against it may still be in flight, within one swapchain
/// generation.
pub proof fn lemma_scheduler_no_image_reuse_before_wait(
    s: FrameScheduler,
    i: int,
    sub: int,
    j: int,
    img: nat,
    f1: nat,
    f2: nat,
)
    requires
        s.wf(),
        0 <= i < sub < j < s.trace@.len(),
        s.trace@[i] == (SyncEvent::Claim { image: img, fence: f1 }),
        s.trace@[sub] == (SyncEvent::Submit { fence: f1 }),
        s.trace@[j] == (SyncEvent::Claim { image: img, fence: f2 }),
        forall|m: int|
            i < m < j ==> ((#[trigger] s.trace@[m]) matches SyncEvent::Claim { image, .. }
                ==> image != img),
        forall|m: int| i < m < j ==> !(s.trace@[m] is Rebuild),
    ensures
        exists|m: int|
            sub < m < j && (s.trace@[m] == (SyncEvent::Wait { fence: f1 }) || s.trace@[m]
                == SyncEvent::IdleWait),
{
    lemma_image_wait_before_reclaim(s.trace@, s.initial_count@, i, sub, j, img, f1, f2);
}

/// A table of `count` unheld image entries.
fn none_table(count: usize) -> (v: Vec<Option<u64>>)
    ensures
        v@.len() == count,
        forall|i: int| 0 <= i < count ==> v@[i] is None,
{
    let mut v: Vec<Option<u64>> = Vec::new();
    let mut i: usize = 0;
    while i < count
        invariant
            i <= count,
            v@.len() == i,
            forall|j: int| 0 <= j < i ==> v@[j] is None,
        decreases count - i,
    {
        v.push(None);
        i += 1;
    }
    v
}

} // verus!
