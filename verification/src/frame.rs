//! Per-frame pass planning.
//!
//! Once per frame and view, the node walks the pipeline: one SDF
//! rasterization pass, one ray-march pass per cascade level over the
//! two ping-pong merge buffers, one mipmap downsample of the final
//! merge buffer, and one composite pass. This module computes that pass
//! sequence as data; the host issues the GPU work in the planned order.
//!
//! Each cascade pass both ray-marches its level and folds the previous
//! level's result into it, so the hierarchical merge needs no passes of
//! its own; levels run from coarsest to finest.
//!
//! The ping-pong buffers swap roles through an explicit current and
//! previous pair, never by indexing. The first cascade pass writes the
//! second merge buffer, so after `n` passes the buffer holding the
//! final result is the first buffer when `n` is even and the second
//! when `n` is odd; the mipmap pass reads exactly that buffer.
//!
//! If any pipeline or buffer binding is still missing — still
//! compiling, not yet allocated — the whole frame is skipped and
//! planning yields nothing; the scene then renders without
//! illumination for that frame.

use vstd::prelude::*;

verus! {

use crate::config::RadianceConfig;
use crate::targets::MergeBuffer;

/// One GPU pass of a planned frame, in submission order.
#[derive(Clone, Copy, PartialEq, Eq, Structural, Debug)]
pub enum PassDesc {
    /// Rasterizes every shape record into the signed-distance target.
    Sdf,
    /// Ray-marches one cascade level: reads the SDF target and the
    /// previous cascade result, writes the other merge buffer.
    Cascade { read: MergeBuffer, write: MergeBuffer, probe_offset: u32 },
    /// Downsamples the final merge buffer into the light mipmap.
    Mipmap { read: MergeBuffer },
    /// Blends the original scene color with the computed radiance.
    Composite,
}

/// Which GPU resources are available this frame. Pipelines may still
/// be compiling and buffers may not have been written yet; none of
/// that is an error.
#[derive(Clone, Copy, PartialEq, Eq, Structural, Debug)]
pub struct ResourceState {
    pub sdf_pipeline: bool,
    pub cascade_pipeline: bool,
    pub mipmap_pipeline: bool,
    pub composite_pipeline: bool,
    pub config_binding: bool,
    pub probe_binding: bool,
    pub view_binding: bool,
    pub circle_binding: bool,
    pub rect_binding: bool,
}

impl ResourceState {
    pub open spec fn all_ready(self) -> bool {
        &&& self.sdf_pipeline
        &&& self.cascade_pipeline
        &&& self.mipmap_pipeline
        &&& self.composite_pipeline
        &&& self.config_binding
        &&& self.probe_binding
        &&& self.view_binding
        &&& self.circle_binding
        &&& self.rect_binding
    }

    /// True when every pipeline and binding the frame needs exists.
    pub fn ready(&self) -> (r: bool)
        ensures
            r == self.all_ready(),
    {
        self.sdf_pipeline && self.cascade_pipeline && self.mipmap_pipeline
            && self.composite_pipeline && self.config_binding && self.probe_binding
            && self.view_binding && self.circle_binding && self.rect_binding
    }
}

/// The merge buffer cascade iteration `i` (counted from 0) writes:
/// even iterations write the second buffer, odd iterations the first.
pub open spec fn write_buffer_at(i: int) -> MergeBuffer {
    if i % 2 == 0 {
        MergeBuffer::Merge1
    } else {
        MergeBuffer::Merge0
    }
}

/// The buffer holding the fully merged result after `cascade_count`
/// passes; the mipmap pass reads it.
pub open spec fn final_merge(cascade_count: int) -> MergeBuffer {
    if cascade_count % 2 == 0 {
        MergeBuffer::Merge0
    } else {
        MergeBuffer::Merge1
    }
}

/// The cascade pass of iteration `i`: strict ping-pong, reading the
/// buffer the previous iteration wrote, with the probe uniform offset
/// of level `i`.
pub open spec fn cascade_pass_at(offsets: Seq<u32>, i: int) -> PassDesc {
    PassDesc::Cascade {
        read: write_buffer_at(i).spec_other(),
        write: write_buffer_at(i),
        probe_offset: offsets[i],
    }
}

/// The full pass sequence of one frame: SDF, `cascade_count` cascade
/// passes, mipmap, composite.
pub open spec fn frame_plan_spec(cascade_count: int, offsets: Seq<u32>) -> Seq<PassDesc> {
    Seq::new(
        (cascade_count + 3) as nat,
        |i: int|
            if i == 0 {
                PassDesc::Sdf
            } else if i <= cascade_count {
                cascade_pass_at(offsets, i - 1)
            } else if i == cascade_count + 1 {
                PassDesc::Mipmap { read: final_merge(cascade_count) }
            } else {
                PassDesc::Composite
            },
    )
}

/// The ping-pong role pair. The roles are swapped once per cascade
/// iteration; they are never equal.
#[derive(Clone, Copy, PartialEq, Eq, Structural, Debug)]
pub struct PingPong {
    /// Written by the current cascade iteration.
    pub current: MergeBuffer,
    /// Holds the previous iteration's result and is read.
    pub previous: MergeBuffer,
}

impl PingPong {
    pub open spec fn wf(self) -> bool {
        self.current != self.previous
    }

    /// The role pair before the first cascade iteration: the second
    /// buffer is written first.
    pub fn start() -> (r: PingPong)
        ensures
            r.current == MergeBuffer::Merge1,
            r.previous == MergeBuffer::Merge0,
            r.wf(),
    {
        PingPong { current: MergeBuffer::Merge1, previous: MergeBuffer::Merge0 }
    }

    /// Exchanges the read and write roles.
    pub fn swap(&mut self)
        ensures
            final (self).current == old(self).previous,
            final (self).previous == old(self).current,
    {
        let tmp = self.current;
        self.current = self.previous;
        self.previous = tmp;
    }
}

/// Plans the frame's pass sequence, or skips the frame when a pipeline
/// or binding is not ready yet.
pub fn plan_frame(cfg: &RadianceConfig, probe_offsets: &Vec<u32>, resources: &ResourceState)
    -> (r: Option<Vec<PassDesc>>)
    requires
        cfg.wf(),
        probe_offsets@.len() == cfg.cascade_count,
    ensures
        (r is Some) <==> resources.all_ready(),
        r matches Some(plan) ==> plan@ == frame_plan_spec(
            cfg.cascade_count as int,
            probe_offsets@,
        ),
{
    if !resources.ready() {
        return Option::None;
    }
    let n = cfg.cascade_count;
    let ghost plan = frame_plan_spec(n as int, probe_offsets@);
    let mut passes: Vec<PassDesc> = Vec::new();
    passes.push(PassDesc::Sdf);
    proof {
        assert(passes@ =~= plan.take(1));
    }
    let mut pp = PingPong::start();
    let mut i: u32 = 0;
    while i < n
        invariant
            i <= n,
            n == cfg.cascade_count,
            probe_offsets@.len() == n,
            plan == frame_plan_spec(n as int, probe_offsets@),
            passes@ == plan.take(i + 1),
            pp.current == write_buffer_at(i as int),
            pp.previous == write_buffer_at(i as int).spec_other(),
        decreases n - i,
    {
        passes.push(
            PassDesc::Cascade {
                read: pp.previous,
                write: pp.current,
                probe_offset: probe_offsets[i as usize],
            },
        );
        proof {
            assert(plan[i + 1] == cascade_pass_at(probe_offsets@, i as int));
            assert(passes@ =~= plan.take(i + 2));
            assert(write_buffer_at(i + 1) == write_buffer_at(i as int).spec_other());
        }
        pp.swap();
        i = i + 1;
    }
    let read_final = if n % 2 == 0 {
        MergeBuffer::Merge0
    } else {
        MergeBuffer::Merge1
    };
    passes.push(PassDesc::Mipmap { read: read_final });
    proof {
        assert(passes@ =~= plan.take(n + 2));
    }
    passes.push(PassDesc::Composite);
    proof {
        assert(passes@ =~= plan);
    }
    Option::Some(passes)
}

/// Number of cascade passes among the first `k` entries of a plan.
pub open spec fn cascades_in_prefix(s: Seq<PassDesc>, k: int) -> int
    decreases k,
{
    if k <= 0 {
        0
    } else {
        cascades_in_prefix(s, k - 1) + if s[k - 1] is Cascade {
            1int
        } else {
            0int
        }
    }
}

/// Number of cascade passes in a plan.
pub open spec fn count_cascade_passes(s: Seq<PassDesc>) -> int {
    cascades_in_prefix(s, s.len() as int)
}

proof fn lemma_plan_prefix_cascades(cascade_count: int, offsets: Seq<u32>, k: int)
    requires
        1 <= cascade_count,
        offsets.len() == cascade_count,
        0 <= k <= cascade_count + 3,
    ensures
        cascades_in_prefix(frame_plan_spec(cascade_count, offsets), k) == if k <= 1 {
            0int
        } else if k <= cascade_count + 1 {
            k - 1
        } else {
            cascade_count
        },
    decreases k,
{
    if k > 0 {
        lemma_plan_prefix_cascades(cascade_count, offsets, k - 1);
    }
}

/// A planned frame executes exactly `cascade_count` cascade
/// iterations, whatever the probe offsets are.
pub proof fn lemma_cascade_iteration_count(cascade_count: int, offsets: Seq<u32>)
    requires
        1 <= cascade_count,
        offsets.len() == cascade_count,
    ensures
        count_cascade_passes(frame_plan_spec(cascade_count, offsets)) == cascade_count,
{
    lemma_plan_prefix_cascades(cascade_count, offsets, cascade_count + 3);
}

/// The parity rule for the final buffer: the last cascade pass writes
/// the merge buffer matching the parity of the cascade count, and the
/// mipmap pass feeding the composite stage reads that same buffer.
pub proof fn lemma_final_buffer_parity(cascade_count: int, offsets: Seq<u32>)
    requires
        1 <= cascade_count,
        offsets.len() == cascade_count,
    ensures
        frame_plan_spec(cascade_count, offsets)[cascade_count + 1] == (PassDesc::Mipmap {
            read: final_merge(cascade_count),
        }),
        frame_plan_spec(cascade_count, offsets)[cascade_count] matches PassDesc::Cascade {
            write,
            ..
        } && write == final_merge(cascade_count),
        cascade_count % 2 == 0 ==> final_merge(cascade_count) == MergeBuffer::Merge0,
        cascade_count % 2 == 1 ==> final_merge(cascade_count) == MergeBuffer::Merge1,
{
}

/// Strict ping-pong: no cascade pass reads the buffer it writes, and
/// from the second pass on, each cascade pass reads exactly the buffer
/// the previous cascade pass wrote.
pub proof fn lemma_ping_pong_no_alias(cascade_count: int, offsets: Seq<u32>)
    requires
        1 <= cascade_count,
        offsets.len() == cascade_count,
    ensures
        forall|i: int|
            1 <= i <= cascade_count ==> (#[trigger] frame_plan_spec(cascade_count, offsets)[i]
                matches PassDesc::Cascade { read, write, .. } && read != write),
        forall|i: int|
            2 <= i <= cascade_count ==> {
                &&& #[trigger] frame_plan_spec(cascade_count, offsets)[i]
                    matches PassDesc::Cascade { read: r2, .. }
                &&& frame_plan_spec(cascade_count, offsets)[i - 1] matches PassDesc::Cascade {
                    write: w1,
                    ..
                }
                &&& r2 == w1
            },
{
}

} // verus!
