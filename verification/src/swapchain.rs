//! The swapchain lifecycle: a state machine over generations of the
//! surface-resolution-dependent resource set.
//!
//! A generation is never mutated: it is destroyed and replaced, its members
//! torn down in strict reverse-dependency order, and the ledger of live
//! resources proves that every construction is balanced by exactly one
//! destruction.

use vstd::prelude::*;

use crate::error::EngineError;
use crate::surface::{SwapchainConfig, SwapchainSupport, plan_swapchain};

verus! {

/// Where the swapchain stands in its lifecycle.
#[derive(Clone, Copy, Debug, PartialEq, Eq, Structural)]
pub enum SwapchainState {
    /// No generation exists yet.
    Absent,
    /// The current generation is usable.
    Ready,
    /// Presentation reported the generation unusable; it must be rebuilt.
    Stale,
    /// Torn down for good.
    Destroyed,
}

/// One member of the surface-resolution-dependent resource set.
#[derive(Clone, Copy, Debug, PartialEq, Eq, Structural)]
pub enum ResourceKind {
    /// The swapchain object owning the presentable images.
    SwapchainObject,
    /// A view onto one presentable image.
    ImageView,
    /// The render-target description the pipeline draws into.
    RenderTargetDesc,
    /// The draw pipeline.
    Pipeline,
    /// The multisampled color attachment.
    ColorAttachment,
    /// The depth attachment.
    DepthAttachment,
    /// One per-image render-target binding.
    Framebuffer,
    /// One per-image uniform buffer.
    UniformBuffer,
    /// The pool the per-image descriptor bindings come from.
    DescriptorPool,
    /// One per-image descriptor binding.
    DescriptorBinding,
    /// One per-image, per-frame-resettable command pool.
    CommandPool,
    /// One per-image primary command stream.
    CommandStream,
}

/// `k` copies of one resource kind.
pub open spec fn repeat_kind(kind: ResourceKind, k: nat) -> Seq<ResourceKind> {
    Seq::new(k, |i: int| kind)
}

/// The members of one generation with `k` presentable images, in creation
/// order; destruction walks this backwards.
pub open spec fn resource_plan(k: nat) -> Seq<ResourceKind> {
    seq![ResourceKind::SwapchainObject] + repeat_kind(ResourceKind::ImageView, k) + seq![
        ResourceKind::RenderTargetDesc,
        ResourceKind::Pipeline,
        ResourceKind::ColorAttachment,
        ResourceKind::DepthAttachment,
    ] + repeat_kind(ResourceKind::Framebuffer, k) + repeat_kind(ResourceKind::UniformBuffer, k)
        + seq![ResourceKind::DescriptorPool] + repeat_kind(ResourceKind::DescriptorBinding, k)
        + repeat_kind(ResourceKind::CommandPool, k) + repeat_kind(ResourceKind::CommandStream, k)
}

/// Appends `k` copies of `kind`.
fn push_repeat(v: &mut Vec<ResourceKind>, kind: ResourceKind, k: u32)
    requires
        old(v)@.len() + k <= usize::MAX,
    ensures
        final(v)@ == old(v)@ + repeat_kind(kind, k as nat),
{
    proof {
        assert(v@ =~= old(v)@ + repeat_kind(kind, 0));
    }
    let mut i: u32 = 0;
    while i < k
        invariant
            i <= k,
            old(v)@.len() + k <= usize::MAX,
            v@ == old(v)@ + repeat_kind(kind, i as nat),
        decreases k - i,
    {
        v.push(kind);
        i += 1;
        proof {
            assert(v@ =~= old(v)@ + repeat_kind(kind, i as nat));
        }
    }
}

/// Builds the creation-order list of one generation's members.
fn build_plan(k: u32) -> (v: Vec<ResourceKind>)
    requires
        6 + 7 * (k as int) <= usize::MAX,
    ensures
        v@ == resource_plan(k as nat),
{
    let mut v: Vec<ResourceKind> = Vec::new();
    v.push(ResourceKind::SwapchainObject);
    push_repeat(&mut v, ResourceKind::ImageView, k);
    v.push(ResourceKind::RenderTargetDesc);
    v.push(ResourceKind::Pipeline);
    v.push(ResourceKind::ColorAttachment);
    v.push(ResourceKind::DepthAttachment);
    push_repeat(&mut v, ResourceKind::Framebuffer, k);
    push_repeat(&mut v, ResourceKind::UniformBuffer, k);
    v.push(ResourceKind::DescriptorPool);
    push_repeat(&mut v, ResourceKind::DescriptorBinding, k);
    push_repeat(&mut v, ResourceKind::CommandPool, k);
    push_repeat(&mut v, ResourceKind::CommandStream, k);
    proof {
        assert(v@ =~= resource_plan(k as nat));
    }
    v
}

/// Empties `v`, returning its contents in reverse order: the destruction
/// order of a resource set is the strict reverse of its creation order.
pub(crate) fn drain_reversed(v: &mut Vec<ResourceKind>) -> (td: Vec<ResourceKind>)
    ensures
        final(v)@.len() == 0,
        td@.len() == old(v)@.len(),
        forall|j: int|
            0 <= j < td@.len() ==> td@[j] == old(v)@[old(v)@.len() - 1 - j],
{
    let n = v.len();
    let mut td: Vec<ResourceKind> = Vec::new();
    let mut i: usize = n;
    while i > 0
        invariant
            i <= n,
            n == v@.len(),
            v@ == old(v)@,
            td@.len() == n - i,
            forall|j: int| 0 <= j < td@.len() ==> td@[j] == v@[n - 1 - j],
        decreases i,
    {
        i -= 1;
        td.push(v[i]);
    }
    *v = Vec::new();
    td
}

/// Owns the current swapchain generation and its resource set, and rebuilds
/// it atomically when the surface changes.
pub struct SwapchainManager {
    /// Lifecycle state.
    pub state: SwapchainState,
    /// Generation number; increases by one with every build, never reused.
    pub generation: u64,
    /// The parameters the current generation was built with.
    pub config: SwapchainConfig,
    /// The current generation's members, in creation order.
    pub live: Vec<ResourceKind>,
    /// Every resource construction so far, over all generations.
    pub created: Ghost<nat>,
    /// Every resource destruction so far, over all generations.
    pub destroyed: Ghost<nat>,
}

impl SwapchainManager {
    /// The ledger balances: what was created and not yet destroyed is
    /// exactly what is live, and a usable generation holds exactly the
    /// planned resource set.
    pub open spec fn wf(self) -> bool {
        &&& self.created@ == self.destroyed@ + self.live@.len()
        &&& match self.state {
            SwapchainState::Absent => self.live@.len() == 0 && self.generation == 0,
            SwapchainState::Ready => {
                &&& self.live@ == resource_plan(self.config.image_count as nat)
                &&& self.config.image_count >= 1
                &&& self.generation >= 1
            },
            SwapchainState::Stale => {
                &&& self.live@ == resource_plan(self.config.image_count as nat)
                &&& self.config.image_count >= 1
                &&& self.generation >= 1
            },
            SwapchainState::Destroyed => self.live@.len() == 0,
        }
    }

    /// A manager with no generation yet.
    pub fn absent() -> (m: Self)
        ensures
            m.wf(),
            m.state == SwapchainState::Absent,
            m.generation == 0,
            m.created@ == 0,
            m.destroyed@ == 0,
    {
        SwapchainManager {
            state: SwapchainState::Absent,
            generation: 0,
            config: SwapchainConfig {
                format: crate::surface::SurfaceFormat { format: 0, color_space: 0 },
                present_mode: crate::surface::PresentMode::Fifo,
                image_count: 0,
                width: 0,
                height: 0,
            },
            live: Vec::new(),
            created: Ghost(0),
            destroyed: Ghost(0),
        }
    }

    /// Builds the first generation from the surface's support set. On
    /// success the returned list names every member to create, in order;
    /// on failure (an empty support set) nothing was created.
    pub fn create(&mut self, support: &SwapchainSupport, hint_w: u32, hint_h: u32) -> (r: Result<
        Vec<ResourceKind>,
        EngineError,
    >)
        requires
            old(self).wf(),
            old(self).state == SwapchainState::Absent,
            support.capabilities.wf(),
            support.capabilities.min_image_count < u32::MAX,
            6 + 7 * (support.capabilities.min_image_count + 1) <= usize::MAX,
        ensures
            final(self).wf(),
            match r {
                Ok(plan) => {
                    &&& final(self).state == SwapchainState::Ready
                    &&& final(self).generation == 1
                    &&& final(self).config.planned_from(*support, hint_w, hint_h)
                    &&& plan@ == resource_plan(final(self).config.image_count as nat)
                    &&& final(self).live@ == plan@
                    &&& final(self).created@ == old(self).created@ + plan@.len()
                    &&& final(self).destroyed@ == old(self).destroyed@
                },
                Err(e) => {
                    &&& *final(self) == *old(self)
                    &&& (support.formats@.len() == 0 || support.present_modes@.len() == 0)
                    &&& e == if support.formats@.len() == 0 {
                        (EngineError::MissingCapability { what: crate::error::Capability::SurfaceFormat })
                    } else {
                        (EngineError::MissingCapability { what: crate::error::Capability::PresentMode })
                    }
                },
            },
            r is Ok <==> (support.formats@.len() > 0 && support.present_modes@.len() > 0),
    {
        let config = match plan_swapchain(support, hint_w, hint_h) {
            Ok(c) => c,
            Err(e) => {
                return Err(e);
            },
        };
        let plan = build_plan(config.image_count);
        let mut mirror = build_plan(config.image_count);
        self.state = SwapchainState::Ready;
        self.generation = 1;
        self.config = config;
        self.live = mirror;
        self.created = Ghost(self.created@ + plan@.len());
        Ok(plan)
    }

    /// Marks the current generation unusable; called when presentation
    /// reports it out of date or suboptimal, or a nonzero resize was seen.
    pub fn mark_stale(&mut self)
        requires
            old(self).wf(),
            old(self).state == SwapchainState::Ready,
        ensures
            final(self).wf(),
            final(self).state == SwapchainState::Stale,
            final(self).generation == old(self).generation,
            final(self).config == old(self).config,
            final(self).live == old(self).live,
            final(self).created@ == old(self).created@,
            final(self).destroyed@ == old(self).destroyed@,
    {
        self.state = SwapchainState::Stale;
    }

    /// Replaces the current generation: tears the old resource set down in
    /// reverse creation order and builds the next one for the new extent.
    /// The caller must have waited for the device to go idle first. On
    /// success returns the teardown list and the build list; on failure the
    /// old generation is left untouched.
    pub fn rebuild(&mut self, support: &SwapchainSupport, hint_w: u32, hint_h: u32) -> (r: Result<
        (Vec<ResourceKind>, Vec<ResourceKind>),
        EngineError,
    >)
        requires
            old(self).wf(),
            old(self).state == SwapchainState::Ready || old(self).state == SwapchainState::Stale,
            old(self).generation < u64::MAX,
            support.capabilities.wf(),
            support.capabilities.min_image_count < u32::MAX,
            6 + 7 * (support.capabilities.min_image_count + 1) <= usize::MAX,
        ensures
            final(self).wf(),
            match r {
                Ok(td_bd) => {
                    &&& final(self).state == SwapchainState::Ready
                    &&& final(self).generation == old(self).generation + 1
                    &&& final(self).config.planned_from(*support, hint_w, hint_h)
                    &&& td_bd.0@.len() == old(self).live@.len()
                    &&& forall|j: int|
                        0 <= j < td_bd.0@.len() ==> td_bd.0@[j] == old(self).live@[old(
                            self,
                        ).live@.len() - 1 - j]
                    &&& td_bd.1@ == resource_plan(final(self).config.image_count as nat)
                    &&& final(self).live@ == td_bd.1@
                    &&& final(self).destroyed@ == old(self).destroyed@ + old(self).live@.len()
                    &&& final(self).created@ == old(self).created@ + td_bd.1@.len()
                },
                Err(e) => {
                    &&& *final(self) == *old(self)
                    &&& e == if support.formats@.len() == 0 {
                        (EngineError::MissingCapability { what: crate::error::Capability::SurfaceFormat })
                    } else {
                        (EngineError::MissingCapability { what: crate::error::Capability::PresentMode })
                    }
                },
            },
            r is Ok <==> (support.formats@.len() > 0 && support.present_modes@.len() > 0),
    {
        let config = match plan_swapchain(support, hint_w, hint_h) {
            Ok(c) => c,
            Err(e) => {
                return Err(e);
            },
        };
        let teardown = drain_reversed(&mut self.live);
        self.destroyed = Ghost(self.destroyed@ + teardown@.len());
        let build = build_plan(config.image_count);
        let mirror = build_plan(config.image_count);
        self.live = mirror;
        self.created = Ghost(self.created@ + build@.len());
        self.generation = self.generation + 1;
        self.config = config;
        self.state = SwapchainState::Ready;
        Ok((teardown, build))
    }

    /// Tears the current generation down for good, in reverse creation
    /// order; afterwards every construction is balanced by a destruction.
    pub fn destroy(&mut self) -> (td: Vec<ResourceKind>)
        requires
            old(self).wf(),
            old(self).state == SwapchainState::Ready || old(self).state == SwapchainState::Stale,
        ensures
            final(self).wf(),
            final(self).state == SwapchainState::Destroyed,
            final(self).generation == old(self).generation,
            td@.len() == old(self).live@.len(),
            forall|j: int|
                0 <= j < td@.len() ==> td@[j] == old(self).live@[old(self).live@.len() - 1 - j],
            final(self).live@.len() == 0,
            final(self).created@ == final(self).destroyed@,
            final(self).created@ == old(self).created@,
    {
        let td = drain_reversed(&mut self.live);
        self.destroyed = Ghost(self.destroyed@ + td@.len());
        self.state = SwapchainState::Destroyed;
        td
    }

    /// How many members of the current generation are outstanding.
    pub fn outstanding(&self) -> (r: usize)
        ensures
            r == self.live@.len(),
    {
        self.live.len()
    }
}

/// Resource construction and destruction balance: at every point in a
/// manager's life, the constructions not yet matched by a destruction are
/// exactly the live members of the current generation; once destroyed,
/// nothing is outstanding.
pub proof fn lemma_resource_balance(m: SwapchainManager)
    requires
        m.wf(),
    ensures
        m.created@ == m.destroyed@ + m.live@.len(),
        m.state == SwapchainState::Destroyed ==> m.created@ == m.destroyed@,
{
}

} // verus!
