//! The engine: one owning context that couples the frame scheduler, the
//! swapchain manager and the command recorder, and carries the pause and
//! resize policy.
//!
//! The caller performs all device work; the engine hands out each decision
//! in order and keeps the three components consistent: the image-in-flight
//! table always covers the current generation's image count, rendering
//! pauses while the surface has zero extent, and a rebuild resets the table
//! and the recorder together.

use vstd::prelude::*;

use crate::error::EngineError;
use crate::frame::{
    distinct_markers, FrameEnd, FrameScheduler, FrameSlot, Phase, PresentOutcome, spec_frame_end,
    SubmitPlan, SyncEvent,
};
use crate::recorder::{CommandRecorder, RecordAction, RecordStrategy};
use crate::surface::SwapchainSupport;
use crate::swapchain::{ResourceKind, SwapchainManager, SwapchainState};

verus! {

/// What acquisition reported back.
#[derive(Clone, Copy, Debug, PartialEq, Eq, Structural)]
pub enum AcquireOutcome {
    /// Image `image` was acquired.
    Acquired { image: usize },
    /// Image `image` was acquired but the swapchain no longer matches the
    /// surface exactly; the frame still proceeds.
    Suboptimal { image: usize },
    /// No image could be acquired; the swapchain must be rebuilt first.
    OutOfDate,
}

/// What the caller must do after handing acquisition's answer over.
#[derive(Clone, Copy, Debug, PartialEq, Eq, Structural)]
pub enum AcquireAction {
    /// Go on with the frame; when `wait` carries a marker, wait on that
    /// fence first — an older frame slot is still using this image.
    Proceed { wait: Option<u64> },
    /// Abandon this frame and rebuild the swapchain; the slot cycle does
    /// not advance.
    RebuildFirst,
}

/// A member of the session-lifetime resource set: created once around the
/// engine's construction, destroyed only at full shutdown.
#[derive(Clone, Copy, Debug, PartialEq, Eq, Structural)]
pub enum SessionResource {
    /// The API instance.
    InstanceObject,
    /// The diagnostic messenger, present only when diagnostics are on.
    DebugMessenger,
    /// The presentation surface.
    SurfaceObject,
    /// The logical device.
    DeviceObject,
    /// One frame slot's image-acquired signal.
    ImageAcquiredSignal,
    /// One frame slot's render-complete signal.
    RenderCompleteSignal,
    /// One frame slot's in-flight completion marker.
    InFlightMarker,
    /// The pool one-shot transfer commands come from.
    GlobalCommandPool,
    /// The device-local texture image and its memory.
    TextureImage,
    /// The view onto the texture image.
    TextureView,
    /// The texture sampler.
    TextureSampler,
    /// The device-local vertex buffer and its memory.
    VertexBuffer,
    /// The device-local index buffer and its memory.
    IndexBuffer,
    /// The descriptor-set layout, shared by every generation.
    SetLayout,
}

/// The sync objects of `n` frame slots, in creation order: per slot its
/// image-acquired signal, its render-complete signal, then its in-flight
/// marker.
pub open spec fn slot_sync_plan(n: nat) -> Seq<SessionResource>
    decreases n,
{
    if n == 0 {
        Seq::empty()
    } else {
        slot_sync_plan((n - 1) as nat) + seq![
            SessionResource::ImageAcquiredSignal,
            SessionResource::RenderCompleteSignal,
            SessionResource::InFlightMarker,
        ]
    }
}

/// The session-lifetime members, in creation order: the instance (and its
/// messenger when diagnostics are on), the surface and the device, then each
/// frame slot's sync objects, then the persistent upload targets and the
/// descriptor-set layout shared by every generation. Destruction at shutdown
/// walks this backwards.
pub open spec fn session_plan(n: nat, diagnostics: bool) -> Seq<SessionResource> {
    seq![SessionResource::InstanceObject] + (if diagnostics {
        seq![SessionResource::DebugMessenger]
    } else {
        Seq::<SessionResource>::empty()
    }) + seq![SessionResource::SurfaceObject, SessionResource::DeviceObject] + slot_sync_plan(n)
        + seq![
        SessionResource::GlobalCommandPool,
        SessionResource::TextureImage,
        SessionResource::TextureView,
        SessionResource::TextureSampler,
        SessionResource::VertexBuffer,
        SessionResource::IndexBuffer,
        SessionResource::SetLayout,
    ]
}

/// Builds the session teardown list: every session member, in reverse
/// creation order.
fn build_session_teardown(n: usize, diagnostics: bool) -> (v: Vec<SessionResource>)
    ensures
        v@ == session_plan(n as nat, diagnostics).reverse(),
{
    let mut fwd: Vec<SessionResource> = Vec::new();
    fwd.push(SessionResource::InstanceObject);
    if diagnostics {
        fwd.push(SessionResource::DebugMessenger);
    }
    fwd.push(SessionResource::SurfaceObject);
    fwd.push(SessionResource::DeviceObject);
    let ghost head = fwd@;
    let mut i: usize = 0;
    while i < n
        invariant
            i <= n,
            fwd@ == head + slot_sync_plan(i as nat),
        decreases n - i,
    {
        fwd.push(SessionResource::ImageAcquiredSignal);
        fwd.push(SessionResource::RenderCompleteSignal);
        fwd.push(SessionResource::InFlightMarker);
        i += 1;
        proof {
            assert(fwd@ =~= head + slot_sync_plan(i as nat));
        }
    }
    fwd.push(SessionResource::GlobalCommandPool);
    fwd.push(SessionResource::TextureImage);
    fwd.push(SessionResource::TextureView);
    fwd.push(SessionResource::TextureSampler);
    fwd.push(SessionResource::VertexBuffer);
    fwd.push(SessionResource::IndexBuffer);
    fwd.push(SessionResource::SetLayout);
    proof {
        assert(fwd@ =~= session_plan(n as nat, diagnostics));
    }
    let len = fwd.len();
    let mut v: Vec<SessionResource> = Vec::new();
    let mut j: usize = len;
    while j > 0
        invariant
            j <= len,
            len == fwd@.len(),
            fwd@ == session_plan(n as nat, diagnostics),
            v@.len() == len - j,
            forall|m: int| 0 <= m < v@.len() ==> v@[m] == fwd@[len - 1 - m],
        decreases j,
    {
        j -= 1;
        v.push(fwd[j]);
    }
    proof {
        assert(v@ =~= session_plan(n as nat, diagnostics).reverse());
    }
    v
}

/// The owning context of one rendering session.
pub struct Engine {
    /// The per-frame synchronization protocol.
    pub scheduler: FrameScheduler,
    /// The swapchain generation and its resource set.
    pub swapchain: SwapchainManager,
    /// Command stream production.
    pub recorder: CommandRecorder,
    /// The surface has zero extent; no frames are scheduled.
    pub paused: bool,
    /// A nonzero resize was observed and not yet answered by a rebuild.
    pub resized: bool,
    /// A diagnostic messenger is part of the session.
    pub diagnostics: bool,
}

impl Engine {
    /// The components agree: while a generation is usable, the
    /// image-in-flight table and the recorder cover exactly its images.
    pub open spec fn wf(self) -> bool {
        &&& self.scheduler.wf()
        &&& self.swapchain.wf()
        &&& self.recorder.wf()
        &&& (self.swapchain.state == SwapchainState::Ready || self.swapchain.state
            == SwapchainState::Stale) ==> {
            &&& self.scheduler.images_in_flight@.len() == self.swapchain.config.image_count
            &&& self.recorder.secondaries@.len() == self.swapchain.config.image_count
            &&& self.recorder.baked@.len() == self.swapchain.config.image_count
        }
    }

    /// The engine is between frames with a usable generation.
    pub open spec fn ready(self) -> bool {
        &&& self.wf()
        &&& (self.swapchain.state == SwapchainState::Ready || self.swapchain.state
            == SwapchainState::Stale)
    }

    /// How many GPU resources the engine still holds: the current
    /// generation's members plus, until shutdown, the session-lifetime
    /// members.
    pub open spec fn outstanding(self) -> nat {
        self.swapchain.live@.len() + if self.swapchain.state == SwapchainState::Destroyed {
            0
        } else {
            session_plan(self.scheduler.slots@.len(), self.diagnostics).len()
        }
    }

    /// Builds the first swapchain generation and a scheduler over the given
    /// frame slots. On success the returned list names every resource to
    /// create, in creation order; on failure nothing was created.
    pub fn initialize(
        support: &SwapchainSupport,
        hint_w: u32,
        hint_h: u32,
        slots: Vec<FrameSlot>,
        strategy: RecordStrategy,
        diagnostics: bool,
    ) -> (r: Result<(Engine, Vec<ResourceKind>), EngineError>)
        requires
            slots@.len() >= 1,
            distinct_markers(slots@),
            support.capabilities.wf(),
            support.capabilities.min_image_count < u32::MAX,
            6 + 7 * (support.capabilities.min_image_count + 1) <= usize::MAX,
        ensures
            match r {
                Ok(pair) => {
                    &&& pair.0.ready()
                    &&& pair.0.swapchain.state == SwapchainState::Ready
                    &&& pair.0.swapchain.generation == 1
                    &&& pair.0.swapchain.config.planned_from(*support, hint_w, hint_h)
                    &&& pair.0.scheduler.frame == 0
                    &&& pair.0.scheduler.phase == Phase::Idle
                    &&& pair.0.scheduler.slots == slots
                    &&& forall|i: int|
                        0 <= i < pair.0.scheduler.images_in_flight@.len()
                            ==> pair.0.scheduler.images_in_flight@[i] is None
                    &&& pair.0.recorder.strategy == strategy
                    &&& !pair.0.paused
                    &&& !pair.0.resized
                    &&& pair.0.diagnostics == diagnostics
                    &&& pair.1@ == crate::swapchain::resource_plan(
                        pair.0.swapchain.config.image_count as nat,
                    )
                },
                Err(e) => {
                    &&& (support.formats@.len() == 0 || support.present_modes@.len() == 0)
                    &&& e == if support.formats@.len() == 0 {
                        (EngineError::MissingCapability {
                            what: crate::error::Capability::SurfaceFormat,
                        })
                    } else {
                        (EngineError::MissingCapability {
                            what: crate::error::Capability::PresentMode,
                        })
                    }
                },
            },
            r is Ok <==> (support.formats@.len() > 0 && support.present_modes@.len() > 0),
    {
        let mut swapchain = SwapchainManager::absent();
        let plan = match swapchain.create(support, hint_w, hint_h) {
            Ok(p) => p,
            Err(e) => {
                return Err(e);
            },
        };
        let image_count = swapchain.config.image_count as usize;
        let scheduler = FrameScheduler::new(slots, image_count);
        let recorder = CommandRecorder::new(strategy, image_count);
        Ok((
            Engine { scheduler, swapchain, recorder, paused: false, resized: false, diagnostics },
            plan,
        ))
    }

    /// Takes a resize notification. Zero width or height pauses rendering
    /// instead of marking the generation stale, since a zero-extent
    /// swapchain is invalid; a nonzero resize unpauses, raises the resize
    /// flag and marks the generation stale.
    pub fn notify_resized(&mut self, width: u32, height: u32)
        requires
            old(self).ready(),
        ensures
            final(self).ready(),
            final(self).scheduler == old(self).scheduler,
            final(self).recorder == old(self).recorder,
            final(self).diagnostics == old(self).diagnostics,
            if width == 0 || height == 0 {
                &&& final(self).paused
                &&& final(self).resized == old(self).resized
                &&& final(self).swapchain == old(self).swapchain
            } else {
                &&& !final(self).paused
                &&& final(self).resized
                &&& final(self).swapchain.state == SwapchainState::Stale
                &&& final(self).swapchain.generation == old(self).swapchain.generation
                &&& final(self).swapchain.config == old(self).swapchain.config
                &&& final(self).swapchain.live == old(self).swapchain.live
            },
    {
        if width == 0 || height == 0 {
            self.paused = true;
        } else {
            self.paused = false;
            self.resized = true;
            if self.swapchain.state == SwapchainState::Ready {
                self.swapchain.mark_stale();
            }
        }
    }

    /// Starts a frame unless rendering is paused. While paused, nothing is
    /// scheduled and the engine is left untouched: no acquire, submit or
    /// present call is issued until a nonzero resize arrives. Otherwise the
    /// caller must wait on the returned fence, the current slot's in-flight
    /// marker.
    pub fn begin_frame(&mut self) -> (r: Option<u64>)
        requires
            old(self).ready(),
            old(self).scheduler.phase == Phase::Idle,
        ensures
            final(self).ready(),
            final(self).diagnostics == old(self).diagnostics,
            old(self).paused ==> r is None && *final(self) == *old(self),
            !old(self).paused ==> {
                &&& r matches Some(f) && f == old(self).slot_marker()
                &&& final(self).scheduler.phase == Phase::SlotWaited
                &&& final(self).scheduler.frame == old(self).scheduler.frame
                &&& final(self).scheduler.slots == old(self).scheduler.slots
                &&& final(self).scheduler.images_in_flight == old(self).scheduler.images_in_flight
                &&& final(self).scheduler.trace@ == old(self).scheduler.trace@.push(
                    SyncEvent::Wait { fence: old(self).slot_marker() as nat },
                )
                &&& final(self).swapchain == old(self).swapchain
                &&& final(self).recorder == old(self).recorder
                &&& final(self).paused == old(self).paused
                &&& final(self).resized == old(self).resized
            },
    {
        if self.paused {
            return None;
        }
        Some(self.scheduler.begin_frame())
    }

    /// The in-flight marker of the current frame slot.
    pub open spec fn slot_marker(self) -> u64 {
        self.scheduler.slots@[self.scheduler.frame as int].in_flight
    }

    /// Takes acquisition's answer. Out-of-date abandons the frame for a
    /// rebuild without advancing the slot cycle; an acquired image (also a
    /// suboptimal one) is claimed for the current slot, and the caller must
    /// first wait on the returned marker when an older slot still holds the
    /// image. An image index beyond the current generation is a fatal
    /// device error.
    pub fn on_acquired(&mut self, outcome: AcquireOutcome) -> (r: Result<
        AcquireAction,
        EngineError,
    >)
        requires
            old(self).ready(),
            old(self).scheduler.phase == Phase::SlotWaited,
        ensures
            final(self).ready(),
            final(self).swapchain == old(self).swapchain,
            final(self).recorder == old(self).recorder,
            final(self).paused == old(self).paused,
            final(self).resized == old(self).resized,
            final(self).diagnostics == old(self).diagnostics,
            final(self).scheduler.frame == old(self).scheduler.frame,
            final(self).scheduler.slots == old(self).scheduler.slots,
            match r {
                Ok(act) => {
                    match outcome {
                        AcquireOutcome::OutOfDate => {
                            &&& act == AcquireAction::RebuildFirst
                            &&& final(self).scheduler.phase == Phase::NeedsRebuild
                            &&& final(self).scheduler.trace@ == old(self).scheduler.trace@
                            &&& final(self).scheduler.images_in_flight == old(self).scheduler.images_in_flight
                        },
                        AcquireOutcome::Acquired { image } => {
                            &&& image < old(self).scheduler.images_in_flight@.len()
                            &&& act == (AcquireAction::Proceed {
                                wait: old(self).scheduler.images_in_flight@[image as int],
                            })
                            &&& final(self).scheduler.phase == (Phase::ImageClaimed { image })
                            &&& final(self).scheduler.images_in_flight@ == old(
                                self,
                            ).scheduler.images_in_flight@.update(
                                image as int,
                                Some(old(self).slot_marker()),
                            )
                        },
                        AcquireOutcome::Suboptimal { image } => {
                            &&& image < old(self).scheduler.images_in_flight@.len()
                            &&& act == (AcquireAction::Proceed {
                                wait: old(self).scheduler.images_in_flight@[image as int],
                            })
                            &&& final(self).scheduler.phase == (Phase::ImageClaimed { image })
                            &&& final(self).scheduler.images_in_flight@ == old(
                                self,
                            ).scheduler.images_in_flight@.update(
                                image as int,
                                Some(old(self).slot_marker()),
                            )
                        },
                    }
                },
                Err(e) => {
                    &&& e == EngineError::DeviceLost
                    &&& outcome matches AcquireOutcome::Acquired { image } ==> image >= old(self).scheduler.images_in_flight@.len()
                    &&& outcome matches AcquireOutcome::Suboptimal { image } ==> image >= old(self).scheduler.images_in_flight@.len()
                    &&& !(outcome is OutOfDate)
                    &&& *final(self) == *old(self)
                },
            },
    {
        let image = match outcome {
            AcquireOutcome::OutOfDate => {
                self.scheduler.abort_acquire();
                return Ok(AcquireAction::RebuildFirst);
            },
            AcquireOutcome::Acquired { image } => image,
            AcquireOutcome::Suboptimal { image } => image,
        };
        if image >= self.scheduler.image_count() {
            return Err(EngineError::DeviceLost);
        }
        let wait = self.scheduler.claim_image(image);
        Ok(AcquireAction::Proceed { wait })
    }

    /// Decides what happens to the claimed image's command stream this
    /// frame. Callable only once the slot wait and the image wait are
    /// behind us, so a pool whose stream might still be executing is never
    /// reset.
    pub fn record_commands(&mut self) -> (act: RecordAction)
        requires
            old(self).ready(),
            old(self).scheduler.phase matches Phase::ImageClaimed { .. },
        ensures
            final(self).ready(),
            final(self).scheduler == old(self).scheduler,
            final(self).swapchain == old(self).swapchain,
            final(self).paused == old(self).paused,
            final(self).resized == old(self).resized,
            final(self).diagnostics == old(self).diagnostics,
            act == match old(self).recorder.strategy {
                RecordStrategy::BakeOnce => {
                    if old(self).recorder.baked@[old(self).scheduler.phase->ImageClaimed_image as int] {
                        RecordAction::Reuse
                    } else {
                        RecordAction::Record
                    }
                },
                RecordStrategy::ReRecordPerFrame => RecordAction::ResetAndRecord,
            },
            final(self).recorder.secondaries == old(self).recorder.secondaries,
            final(self).recorder.allocations == old(self).recorder.allocations,
            final(self).recorder.strategy == old(self).recorder.strategy,
    {
        let image = match self.scheduler.phase {
            Phase::ImageClaimed { image } => image,
            _ => 0,
        };
        self.recorder.prepare(image)
    }

    /// Records that this frame's commands are submitted and says with which
    /// handles: the submission waits the current slot's image-acquired
    /// signal at the color-attachment-output stage, executes the claimed
    /// image's command stream, and signals the slot's render-complete
    /// signal and its in-flight marker. The caller must reset the plan's
    /// fence and submit exactly once as planned; presentation then waits
    /// the plan's render-complete signal and presents the plan's image.
    pub fn submit_frame(&mut self) -> (p: SubmitPlan)
        requires
            old(self).ready(),
            old(self).scheduler.phase matches Phase::ImageClaimed { .. },
        ensures
            final(self).ready(),
            final(self).diagnostics == old(self).diagnostics,
            p.fence == old(self).slot_marker(),
            p.wait_image_acquired == old(self).scheduler.slots@[old(
                self,
            ).scheduler.frame as int].image_acquired,
            p.signal_render_complete == old(self).scheduler.slots@[old(
                self,
            ).scheduler.frame as int].render_complete,
            p.image == old(self).scheduler.phase->ImageClaimed_image,
            final(self).scheduler.phase == (Phase::Submitted {
                image: old(self).scheduler.phase->ImageClaimed_image,
            }),
            final(self).scheduler.frame == old(self).scheduler.frame,
            final(self).scheduler.slots == old(self).scheduler.slots,
            final(self).scheduler.images_in_flight == old(self).scheduler.images_in_flight,
            final(self).scheduler.trace@ == old(self).scheduler.trace@.push(
                SyncEvent::Submit { fence: old(self).slot_marker() as nat },
            ),
            final(self).swapchain == old(self).swapchain,
            final(self).recorder == old(self).recorder,
            final(self).paused == old(self).paused,
            final(self).resized == old(self).resized,
    {
        self.scheduler.mark_submitted()
    }

    /// Takes presentation's answer and ends the frame: continue, rebuild
    /// (when presentation reported the generation stale or a resize is
    /// outstanding — the resize flag is cleared on that path), or fail
    /// fatally. The slot cycle advances unless the outcome was fatal.
    pub fn present_result(&mut self, outcome: PresentOutcome) -> (act: FrameEnd)
        requires
            old(self).ready(),
            old(self).scheduler.phase matches Phase::Submitted { .. },
        ensures
            final(self).ready(),
            act == spec_frame_end(outcome, old(self).resized),
            final(self).scheduler.phase == if act == FrameEnd::NeedRebuild {
                Phase::NeedsRebuild
            } else {
                Phase::Idle
            },
            final(self).scheduler.frame == if act == FrameEnd::Fatal {
                old(self).scheduler.frame as int
            } else {
                ((old(self).scheduler.frame + 1) % old(self).scheduler.slots@.len() as int)
            },
            final(self).scheduler.trace@ == old(self).scheduler.trace@,
            final(self).scheduler.slots == old(self).scheduler.slots,
            final(self).scheduler.images_in_flight == old(self).scheduler.images_in_flight,
            final(self).diagnostics == old(self).diagnostics,
            final(self).resized == (act != FrameEnd::NeedRebuild && old(self).resized),
            final(self).swapchain.generation == old(self).swapchain.generation,
            final(self).swapchain.config == old(self).swapchain.config,
            final(self).swapchain.live == old(self).swapchain.live,
            final(self).recorder == old(self).recorder,
            final(self).paused == old(self).paused,
    {
        let act = self.scheduler.end_frame(outcome, self.resized);
        if act == FrameEnd::NeedRebuild {
            self.resized = false;
            if self.swapchain.state == SwapchainState::Ready {
                self.swapchain.mark_stale();
            }
        }
        act
    }

    /// Rebuilds the swapchain for the current surface extent: tears the old
    /// generation down in reverse creation order, builds the next one,
    /// resets the image-in-flight table to the new image count with every
    /// entry unheld, and starts the recorder over. The caller must have
    /// waited for the device to go idle, and performs the returned teardown
    /// and build lists in order.
    pub fn rebuild(&mut self, support: &SwapchainSupport, hint_w: u32, hint_h: u32) -> (r: Result<
        (Vec<ResourceKind>, Vec<ResourceKind>),
        EngineError,
    >)
        requires
            old(self).ready(),
            old(self).scheduler.phase == Phase::NeedsRebuild || old(self).scheduler.phase
                == Phase::Idle,
            old(self).swapchain.generation < u64::MAX,
            support.capabilities.wf(),
            support.capabilities.min_image_count < u32::MAX,
            6 + 7 * (support.capabilities.min_image_count + 1) <= usize::MAX,
        ensures
            final(self).ready(),
            final(self).diagnostics == old(self).diagnostics,
            match r {
                Ok(td_bd) => {
                    &&& final(self).swapchain.state == SwapchainState::Ready
                    &&& final(self).swapchain.generation == old(self).swapchain.generation + 1
                    &&& final(self).swapchain.config.planned_from(*support, hint_w, hint_h)
                    &&& final(self).scheduler.phase == Phase::Idle
                    &&& final(self).scheduler.frame == old(self).scheduler.frame
                    &&& final(self).scheduler.slots == old(self).scheduler.slots
                    &&& final(self).scheduler.images_in_flight@.len() == final(self).swapchain.config.image_count
                    &&& forall|i: int|
                        0 <= i < final(self).scheduler.images_in_flight@.len()
                            ==> final(self).scheduler.images_in_flight@[i] is None
                    &&& td_bd.0@.len() == old(self).swapchain.live@.len()
                    &&& forall|j: int|
                        0 <= j < td_bd.0@.len() ==> td_bd.0@[j] == old(self).swapchain.live@[old(self).swapchain.live@.len() - 1 - j]
                    &&& td_bd.1@ == crate::swapchain::resource_plan(
                        final(self).swapchain.config.image_count as nat,
                    )
                    &&& final(self).recorder.allocations == old(self).recorder.allocations
                    &&& final(self).scheduler.trace@ == old(self).scheduler.trace@.push(
                        SyncEvent::IdleWait,
                    ).push(
                        SyncEvent::Rebuild {
                            count: final(self).swapchain.config.image_count as nat,
                        },
                    )
                    &&& !final(self).resized
                    &&& final(self).paused == old(self).paused
                },
                Err(e) => {
                    &&& *final(self) == *old(self)
                    &&& (support.formats@.len() == 0 || support.present_modes@.len() == 0)
                    &&& e == if support.formats@.len() == 0 {
                        (EngineError::MissingCapability {
                            what: crate::error::Capability::SurfaceFormat,
                        })
                    } else {
                        (EngineError::MissingCapability {
                            what: crate::error::Capability::PresentMode,
                        })
                    }
                },
            },
            r is Ok <==> (support.formats@.len() > 0 && support.present_modes@.len() > 0),
    {
        let td_bd = match self.swapchain.rebuild(support, hint_w, hint_h) {
            Ok(p) => p,
            Err(e) => {
                return Err(e);
            },
        };
        let image_count = self.swapchain.config.image_count as usize;
        self.scheduler.on_rebuilt(image_count);
        self.recorder.reset_images(image_count);
        self.resized = false;
        Ok(td_bd)
    }

    /// Tears the whole session down. The blocking device-idle wait is
    /// recorded first — after it no fence is in flight, so releasing is
    /// safe — and the caller must perform that wait, then destroy what the
    /// two returned lists name, in order: first the current generation's
    /// members, then the session-lifetime members, each list the strict
    /// reverse of its creation order. Afterwards every construction is
    /// balanced by a destruction and no GPU resource is outstanding.
    pub fn shutdown(&mut self) -> (td: (Vec<ResourceKind>, Vec<SessionResource>))
        requires
            old(self).ready(),
            old(self).scheduler.phase == Phase::Idle || old(self).scheduler.phase
                == Phase::NeedsRebuild,
        ensures
            final(self).wf(),
            final(self).swapchain.state == SwapchainState::Destroyed,
            final(self).scheduler.trace@ == old(self).scheduler.trace@.push(SyncEvent::IdleWait),
            final(self).scheduler.pending@ == Set::<nat>::empty(),
            td.0@ == crate::swapchain::resource_plan(
                old(self).swapchain.config.image_count as nat,
            ).reverse(),
            td.1@ == session_plan(
                old(self).scheduler.slots@.len(),
                old(self).diagnostics,
            ).reverse(),
            final(self).swapchain.live@.len() == 0,
            final(self).swapchain.created@ == final(self).swapchain.destroyed@,
            final(self).outstanding() == 0,
            final(self).diagnostics == old(self).diagnostics,
    {
        self.scheduler.record_shutdown_wait();
        let ghost old_plan = crate::swapchain::resource_plan(
            self.swapchain.config.image_count as nat,
        );
        let generation = self.swapchain.destroy();
        let session = build_session_teardown(self.scheduler.slot_count(), self.diagnostics);
        proof {
            assert(generation@ =~= old_plan.reverse());
        }
        (generation, session)
    }
}

/// Full shutdown leaves zero outstanding GPU resources: once the state is
/// destroyed, the generation ledger balances and no session member remains
/// counted.
pub proof fn lemma_shutdown_leaves_nothing(e: Engine)
    requires
        e.wf(),
        e.swapchain.state == SwapchainState::Destroyed,
    ensures
        e.outstanding() == 0,
        e.swapchain.created@ == e.swapchain.destroyed@,
{
}

} // verus!
