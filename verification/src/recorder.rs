//! Command recording: the bake-once and re-record-per-frame strategies, and
//! the per-image arena of secondary command streams, grown lazily by object
//! and never shrunk within a generation.

use vstd::prelude::*;

verus! {

/// How command streams are produced, chosen once at initialization.
#[derive(Clone, Copy, Debug, PartialEq, Eq, Structural)]
pub enum RecordStrategy {
    /// Record each image's commands exactly once and reuse them unmodified;
    /// valid only when draw parameters never change per frame.
    BakeOnce,
    /// Reset the image's command pool and re-record every time the image is
    /// used.
    ReRecordPerFrame,
}

/// What the caller must do to an image's command stream this frame.
#[derive(Clone, Copy, Debug, PartialEq, Eq, Structural)]
pub enum RecordAction {
    /// The stream recorded earlier is reused unmodified.
    Reuse,
    /// Record the stream for the first time.
    Record,
    /// Reset the image's command pool, then re-record the stream.
    ResetAndRecord,
}

/// Total number of cached secondary streams over all images.
pub open spec fn total_cached(s: Seq<Seq<u64>>) -> nat
    decreases s.len(),
{
    if s.len() == 0 {
        0
    } else {
        total_cached(s.drop_last()) + s.last().len()
    }
}

/// Produces and caches command streams for each presentable image.
pub struct CommandRecorder {
    /// The recording strategy in force.
    pub strategy: RecordStrategy,
    /// Per image: whether its primary stream has been recorded already.
    pub baked: Vec<bool>,
    /// Per image: the cached secondary stream handles, indexed by drawable
    /// object; grown lazily, one entry per allocation, never removed within
    /// a generation.
    pub secondaries: Vec<Vec<u64>>,
    /// How many secondary streams were ever allocated.
    pub allocations: u64,
    /// Cached entries discarded by generation resets.
    pub discarded: Ghost<nat>,
}

impl CommandRecorder {
    /// One arena and one baked flag per image, and every allocation either
    /// still cached or discarded by a reset.
    pub open spec fn wf(self) -> bool {
        &&& self.baked@.len() == self.secondaries@.len()
        &&& self.allocations == total_cached(self.secondaries@.map_values(|v: Vec<u64>| v@))
            + self.discarded@
    }

    /// A fresh recorder for `image_count` images: nothing recorded, nothing
    /// cached.
    pub fn new(strategy: RecordStrategy, image_count: usize) -> (r: Self)
        ensures
            r.wf(),
            r.strategy == strategy,
            r.baked@.len() == image_count,
            r.secondaries@.len() == image_count,
            forall|i: int| 0 <= i < image_count ==> !r.baked@[i],
            forall|i: int| 0 <= i < image_count ==> r.secondaries@[i]@.len() == 0,
            r.allocations == 0,
    {
        let (baked, secondaries) = empty_tables(image_count);
        let r = CommandRecorder {
            strategy,
            baked,
            secondaries,
            allocations: 0,
            discarded: Ghost(0),
        };
        proof {
            lemma_total_cached_empty(r.secondaries@.map_values(|v: Vec<u64>| v@));
        }
        r
    }

    /// Decides what happens to `image`'s command stream this frame: under
    /// bake-once the stream is recorded on first use and reused afterwards;
    /// under re-record-per-frame the pool is reset and re-recorded every
    /// use. The caller must only invoke this after the frame's waits for
    /// `image` have completed, so that no stream still executing is reset.
    pub fn prepare(&mut self, image: usize) -> (act: RecordAction)
        requires
            old(self).wf(),
            image < old(self).baked@.len(),
        ensures
            final(self).wf(),
            act == match old(self).strategy {
                RecordStrategy::BakeOnce => {
                    if old(self).baked@[image as int] {
                        RecordAction::Reuse
                    } else {
                        RecordAction::Record
                    }
                },
                RecordStrategy::ReRecordPerFrame => RecordAction::ResetAndRecord,
            },
            final(self).strategy == old(self).strategy,
            final(self).baked@ == old(self).baked@.update(image as int, true),
            final(self).secondaries == old(self).secondaries,
            final(self).allocations == old(self).allocations,
    {
        let act = match self.strategy {
            RecordStrategy::BakeOnce => {
                if self.baked[image] {
                    RecordAction::Reuse
                } else {
                    RecordAction::Record
                }
            },
            RecordStrategy::ReRecordPerFrame => RecordAction::ResetAndRecord,
        };
        self.baked.set(image, true);
        act
    }

    /// The cached secondary stream of `object` on `image`, or `None` when
    /// none has been allocated yet: the arena is consulted before any
    /// allocation, so a cached stream is never allocated twice.
    pub fn secondary_for(&self, image: usize, object: usize) -> (r: Option<u64>)
        requires
            image < self.secondaries@.len(),
        ensures
            r is Some <==> object < self.secondaries@[image as int]@.len(),
            r matches Some(h) ==> h == self.secondaries@[image as int]@[object as int],
    {
        let arena = &self.secondaries[image];
        if object < arena.len() {
            Some(arena[object])
        } else {
            None
        }
    }

    /// Caches a newly allocated secondary stream as the next object entry
    /// of `image`; counts as one allocation.
    pub fn install_secondary(&mut self, image: usize, handle: u64) -> (object: usize)
        requires
            old(self).wf(),
            image < old(self).secondaries@.len(),
            old(self).allocations < u64::MAX,
            old(self).secondaries@[image as int]@.len() < usize::MAX,
        ensures
            final(self).wf(),
            object == old(self).secondaries@[image as int]@.len(),
            final(self).secondaries@.len() == old(self).secondaries@.len(),
            final(self).secondaries@[image as int]@ == old(self).secondaries@[image as int]@.push(
                handle,
            ),
            forall|i: int|
                0 <= i < final(self).secondaries@.len() && i != image
                    ==> final(self).secondaries@[i] == old(self).secondaries@[i],
            final(self).allocations == old(self).allocations + 1,
            final(self).strategy == old(self).strategy,
            final(self).baked == old(self).baked,
    {
        let ghost before = self.secondaries@.map_values(|v: Vec<u64>| v@);
        let arena = vec_entry(&mut self.secondaries, image);
        let object = arena.len();
        arena.push(handle);
        self.allocations = self.allocations + 1;
        proof {
            let after = self.secondaries@.map_values(|v: Vec<u64>| v@);
            assert(after =~= before.update(image as int, before[image as int].push(handle)));
            lemma_total_cached_grow(before, image as int, handle);
        }
        object
    }

    /// Starts a new generation of `image_count` images: every cached stream
    /// belonged to the old generation's pools and is discarded with them.
    pub fn reset_images(&mut self, image_count: usize)
        requires
            old(self).wf(),
        ensures
            final(self).wf(),
            final(self).strategy == old(self).strategy,
            final(self).baked@.len() == image_count,
            final(self).secondaries@.len() == image_count,
            forall|i: int| 0 <= i < image_count ==> !final(self).baked@[i],
            forall|i: int| 0 <= i < image_count ==> final(self).secondaries@[i]@.len() == 0,
            final(self).allocations == old(self).allocations,
    {
        let ghost before = self.secondaries@.map_values(|v: Vec<u64>| v@);
        let (baked, secondaries) = empty_tables(image_count);
        self.baked = baked;
        self.secondaries = secondaries;
        self.discarded = Ghost(self.discarded@ + total_cached(before));
        proof {
            lemma_total_cached_empty(self.secondaries@.map_values(|v: Vec<u64>| v@));
        }
    }

    /// How many secondary streams have ever been allocated.
    pub fn allocation_count(&self) -> (r: u64)
        ensures
            r == self.allocations,
    {
        self.allocations
    }

    /// How many secondary streams `image` has cached.
    pub fn cached_count(&self, image: usize) -> (r: usize)
        requires
            image < self.secondaries@.len(),
        ensures
            r == self.secondaries@[image as int]@.len(),
    {
        self.secondaries[image].len()
    }
}

/// One operation of a recorded command stream.
#[derive(Clone, Copy, Debug, PartialEq, Eq, Structural)]
pub enum StreamOp {
    /// Open the command buffer.
    Begin,
    /// Open the render pass on the image's render target, clearing it.
    BeginPass,
    /// Run the cached secondary stream of `object`.
    ExecuteSecondary { object: usize },
    /// Close the render pass.
    EndPass,
    /// Close the command buffer.
    End,
    /// Bind the draw pipeline.
    BindPipeline,
    /// Bind the vertex buffer.
    BindVertexBuffer,
    /// Bind the index buffer.
    BindIndexBuffer,
    /// Bind the image's descriptor binding.
    BindDescriptors,
    /// Push `object`'s model transform as inline constants.
    PushTransform { object: usize },
    /// Push `object`'s opacity as an inline constant.
    PushOpacity { object: usize },
    /// Draw `indices` indexed vertices.
    DrawIndexed { indices: usize },
}

/// The shape of an image's primary stream over `objects` drawable objects:
/// one render pass that runs each object's secondary stream once, in
/// object order.
pub open spec fn spec_primary_stream(objects: nat) -> Seq<StreamOp> {
    seq![StreamOp::Begin, StreamOp::BeginPass] + Seq::new(
        objects,
        |i: int| StreamOp::ExecuteSecondary { object: i as usize },
    ) + seq![StreamOp::EndPass, StreamOp::End]
}

/// Plans an image's primary command stream for `objects` drawable objects.
pub fn primary_stream(objects: usize) -> (v: Vec<StreamOp>)
    requires
        objects + 4 <= usize::MAX,
    ensures
        v@ == spec_primary_stream(objects as nat),
{
    let mut v: Vec<StreamOp> = Vec::new();
    v.push(StreamOp::Begin);
    v.push(StreamOp::BeginPass);
    let mut i: usize = 0;
    while i < objects
        invariant
            i <= objects,
            v@.len() == i + 2,
            v@ == seq![StreamOp::Begin, StreamOp::BeginPass] + Seq::new(
                i as nat,
                |j: int| StreamOp::ExecuteSecondary { object: j as usize },
            ),
        decreases objects - i,
    {
        v.push(StreamOp::ExecuteSecondary { object: i });
        i += 1;
        proof {
            assert(v@ =~= seq![StreamOp::Begin, StreamOp::BeginPass] + Seq::new(
                i as nat,
                |j: int| StreamOp::ExecuteSecondary { object: j as usize },
            ));
        }
    }
    v.push(StreamOp::EndPass);
    v.push(StreamOp::End);
    proof {
        assert(v@ =~= spec_primary_stream(objects as nat));
    }
    v
}

/// The shape of one object's secondary stream: bind everything, push the
/// object's inline constants, and issue one indexed draw of `indices`
/// vertices.
pub open spec fn spec_secondary_stream(object: usize, indices: usize) -> Seq<StreamOp> {
    seq![
        StreamOp::Begin,
        StreamOp::BindPipeline,
        StreamOp::BindVertexBuffer,
        StreamOp::BindIndexBuffer,
        StreamOp::BindDescriptors,
        StreamOp::PushTransform { object },
        StreamOp::PushOpacity { object },
        StreamOp::DrawIndexed { indices },
        StreamOp::End,
    ]
}

/// Plans the secondary command stream of one drawable object.
pub fn secondary_stream(object: usize, indices: usize) -> (v: Vec<StreamOp>)
    ensures
        v@ == spec_secondary_stream(object, indices),
{
    let mut v: Vec<StreamOp> = Vec::new();
    v.push(StreamOp::Begin);
    v.push(StreamOp::BindPipeline);
    v.push(StreamOp::BindVertexBuffer);
    v.push(StreamOp::BindIndexBuffer);
    v.push(StreamOp::BindDescriptors);
    v.push(StreamOp::PushTransform { object });
    v.push(StreamOp::PushOpacity { object });
    v.push(StreamOp::DrawIndexed { indices });
    v.push(StreamOp::End);
    proof {
        assert(v@ =~= spec_secondary_stream(object, indices));
    }
    v
}

/// A mutable borrow of entry `i`.
fn vec_entry(v: &mut Vec<Vec<u64>>, i: usize) -> (e: &mut Vec<u64>)
    requires
        i < old(v)@.len(),
    ensures
        *e == old(v)@[i as int],
        final(v)@ == old(v)@.update(i as int, *final(e)),
{
    &mut v[i]
}

/// Fresh per-image tables: nothing baked, nothing cached.
fn empty_tables(image_count: usize) -> (r: (Vec<bool>, Vec<Vec<u64>>))
    ensures
        r.0@.len() == image_count,
        r.1@.len() == image_count,
        forall|i: int| 0 <= i < image_count ==> !r.0@[i],
        forall|i: int| 0 <= i < image_count ==> r.1@[i]@.len() == 0,
{
    let mut baked: Vec<bool> = Vec::new();
    let mut secondaries: Vec<Vec<u64>> = Vec::new();
    let mut i: usize = 0;
    while i < image_count
        invariant
            i <= image_count,
            baked@.len() == i,
            secondaries@.len() == i,
            forall|j: int| 0 <= j < i ==> !baked@[j],
            forall|j: int| 0 <= j < i ==> secondaries@[j]@.len() == 0,
        decreases image_count - i,
    {
        baked.push(false);
        secondaries.push(Vec::new());
        i += 1;
    }
    (baked, secondaries)
}

/// A table of empty arenas caches nothing.
proof fn lemma_total_cached_empty(s: Seq<Seq<u64>>)
    requires
        forall|i: int| 0 <= i < s.len() ==> s[i].len() == 0,
    ensures
        total_cached(s) == 0,
    decreases s.len(),
{
    if s.len() > 0 {
        lemma_total_cached_empty(s.drop_last());
    }
}

/// Pushing one entry onto one arena grows the total by one.
proof fn lemma_total_cached_grow(s: Seq<Seq<u64>>, i: int, handle: u64)
    requires
        0 <= i < s.len(),
    ensures
        total_cached(s.update(i, s[i].push(handle))) == total_cached(s) + 1,
    decreases s.len(),
{
    let s2 = s.update(i, s[i].push(handle));
    if i == s.len() - 1 {
        assert(s2.drop_last() =~= s.drop_last());
        assert(s2.last() == s.last().push(handle));
    } else {
        assert(s2.drop_last() =~= s.drop_last().update(i, s[i].push(handle)));
        assert(s2.last() == s.last());
        lemma_total_cached_grow(s.drop_last(), i, handle);
    }
}

} // verus!
