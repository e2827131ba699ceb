//! The per-frame render plan: given the acquired surface texture (or the
//! acquisition failure), update every pooled object's scale and lay out the
//! exact command stream the frame submits — clear, bind the pipeline, then
//! one scale upload, one bind-group binding and one three-vertex draw per
//! object, in pool order, followed by submit and present.

use crate::pool::{scale_pass, ObjectPool};
use vstd::prelude::*;

verus! {

/// Why the surface failed to yield the next presentable texture. Acquisition
/// failures propagate to the caller as one of these; none is swallowed.
#[derive(Clone, Copy, PartialEq, Eq, Structural, Debug)]
pub enum SurfaceError {
    /// The next texture did not arrive in time.
    Timeout,
    /// The surface no longer matches its configuration.
    Outdated,
    /// The surface was lost and must be recreated.
    Lost,
    /// The device is out of memory.
    OutOfMemory,
}

/// The acquired presentable texture, reduced to what the frame plan reads:
/// its size in pixels.
#[derive(Clone, Copy, PartialEq, Eq, Structural, Debug)]
pub struct FrameSurface {
    pub width: u32,
    pub height: u32,
}

/// One step of a frame's command stream.
#[derive(Clone, Copy, PartialEq, Eq, Structural, Debug)]
pub enum DrawCommand {
    /// Begin the render pass, clearing the target to opaque white and
    /// storing the results.
    BeginClearPass,
    /// Bind the shared render pipeline.
    SetPipeline,
    /// Upload the current scale of object `index` to its scale buffer.
    WriteScale { index: usize },
    /// Bind object `index`'s bind group at slot 0.
    SetBindGroup { index: usize },
    /// Issue a draw of `vertices` vertices and `instances` instances; the
    /// shader itself supplies the geometry, no vertex buffer is bound.
    Draw { vertices: u32, instances: u32 },
    /// End the pass and submit the encoded commands to the queue.
    Submit,
    /// Present the acquired texture.
    Present,
}

/// The three commands a frame issues for the object at `index`.
pub open spec fn object_commands(index: int) -> Seq<DrawCommand> {
    seq![
        DrawCommand::WriteScale { index: index as usize },
        DrawCommand::SetBindGroup { index: index as usize },
        DrawCommand::Draw { vertices: 3, instances: 1 },
    ]
}

/// The pass prologue followed by the commands of the first `n` objects.
pub open spec fn pass_commands(n: int) -> Seq<DrawCommand>
    decreases n,
{
    if n <= 0 {
        seq![DrawCommand::BeginClearPass, DrawCommand::SetPipeline]
    } else {
        pass_commands(n - 1) + object_commands(n - 1)
    }
}

/// The whole command stream of a frame over a pool of `n` objects.
pub open spec fn frame_commands(n: int) -> Seq<DrawCommand> {
    pass_commands(n) + seq![DrawCommand::Submit, DrawCommand::Present]
}

/// How many draw calls a command stream issues.
pub open spec fn draw_count(s: Seq<DrawCommand>) -> int
    decreases s.len(),
{
    if s.len() == 0 {
        0
    } else {
        draw_count(s.drop_last()) + if s.last() is Draw {
            1 as int
        } else {
            0 as int
        }
    }
}

proof fn lemma_draw_count_empty()
    ensures
        draw_count(Seq::<DrawCommand>::empty()) == 0,
{
}

proof fn lemma_draw_count_singleton(c: DrawCommand)
    ensures
        draw_count(seq![c]) == if c is Draw {
            1 as int
        } else {
            0 as int
        },
{
    lemma_draw_count_empty();
    assert(seq![c].drop_last() =~= Seq::<DrawCommand>::empty());
    assert(seq![c].last() == c);
}

proof fn lemma_draw_count_append(a: Seq<DrawCommand>, b: Seq<DrawCommand>)
    ensures
        draw_count(a + b) == draw_count(a) + draw_count(b),
    decreases b.len(),
{
    if b.len() == 0 {
        assert(a + b =~= a);
        lemma_draw_count_empty();
    } else {
        lemma_draw_count_append(a, b.drop_last());
        assert((a + b).drop_last() =~= a + b.drop_last());
        assert((a + b).last() == b.last());
    }
}

proof fn lemma_draw_count_pair(a: DrawCommand, b: DrawCommand)
    requires
        !(a is Draw),
        !(b is Draw),
    ensures
        draw_count(seq![a, b]) == 0,
{
    lemma_draw_count_singleton(a);
    lemma_draw_count_singleton(b);
    lemma_draw_count_append(seq![a], seq![b]);
    assert(seq![a, b] =~= seq![a] + seq![b]);
}

proof fn lemma_object_commands_draw_count(i: int)
    ensures
        draw_count(object_commands(i)) == 1,
{
    let w = DrawCommand::WriteScale { index: i as usize };
    let g = DrawCommand::SetBindGroup { index: i as usize };
    let d = DrawCommand::Draw { vertices: 3, instances: 1 };
    lemma_draw_count_pair(w, g);
    lemma_draw_count_singleton(d);
    lemma_draw_count_append(seq![w, g], seq![d]);
    assert(object_commands(i) =~= seq![w, g] + seq![d]);
}

/// Draw calls in the pass prologue plus the first `n` objects: one per
/// object, each of three vertices and one instance.
proof fn lemma_pass_draws(n: int)
    requires
        n >= 0,
    ensures
        draw_count(pass_commands(n)) == n,
        forall|i: int|
            0 <= i < pass_commands(n).len() && #[trigger] pass_commands(n)[i] is Draw
                ==> pass_commands(n)[i] == (DrawCommand::Draw { vertices: 3, instances: 1 }),
    decreases n,
{
    if n == 0 {
        lemma_draw_count_pair(DrawCommand::BeginClearPass, DrawCommand::SetPipeline);
        assert(pass_commands(0) =~= seq![DrawCommand::BeginClearPass, DrawCommand::SetPipeline]);
    } else {
        lemma_pass_draws(n - 1);
        lemma_draw_count_append(pass_commands(n - 1), object_commands(n - 1));
        lemma_object_commands_draw_count(n - 1);
        let pre = pass_commands(n - 1);
        let obj = object_commands(n - 1);
        assert(pass_commands(n) == pre + obj);
        assert forall|i: int|
            0 <= i < pass_commands(n).len() && #[trigger] pass_commands(n)[i] is Draw
                implies pass_commands(n)[i] == (DrawCommand::Draw {
            vertices: 3,
            instances: 1,
        }) by {
            if i < pre.len() {
                assert(pass_commands(n)[i] == pre[i]);
            } else {
                assert(pass_commands(n)[i] == obj[i - pre.len()]);
            }
        }
    }
}

/// Law: a frame's command stream issues exactly one draw call per pooled
/// object, and every draw call draws three vertices and one instance.
pub proof fn lemma_one_draw_per_object(n: int)
    requires
        n >= 0,
    ensures
        draw_count(frame_commands(n)) == n,
        forall|i: int|
            0 <= i < frame_commands(n).len() && #[trigger] frame_commands(n)[i] is Draw
                ==> frame_commands(n)[i] == (DrawCommand::Draw { vertices: 3, instances: 1 }),
{
    lemma_pass_draws(n);
    lemma_draw_count_pair(DrawCommand::Submit, DrawCommand::Present);
    lemma_draw_count_append(pass_commands(n), seq![DrawCommand::Submit, DrawCommand::Present]);
    let pre = pass_commands(n);
    let tail = seq![DrawCommand::Submit, DrawCommand::Present];
    assert forall|i: int|
        0 <= i < frame_commands(n).len() && #[trigger] frame_commands(n)[i] is Draw
            implies frame_commands(n)[i] == (DrawCommand::Draw {
        vertices: 3,
        instances: 1,
    }) by {
        if i < pre.len() {
            assert(frame_commands(n)[i] == pre[i]);
        } else {
            assert(frame_commands(n)[i] == tail[i - pre.len()]);
        }
    }
}

/// Builds the command stream for a pool of `n` objects.
pub fn build_frame_commands(n: usize) -> (r: Vec<DrawCommand>)
    ensures
        r@ == frame_commands(n as int),
{
    let mut cmds: Vec<DrawCommand> = Vec::new();
    cmds.push(DrawCommand::BeginClearPass);
    cmds.push(DrawCommand::SetPipeline);
    proof {
        assert(cmds@ =~= pass_commands(0));
    }
    let mut i: usize = 0;
    while i < n
        invariant
            0 <= i <= n,
            cmds@ == pass_commands(i as int),
        decreases n - i,
    {
        cmds.push(DrawCommand::WriteScale { index: i });
        cmds.push(DrawCommand::SetBindGroup { index: i });
        cmds.push(DrawCommand::Draw { vertices: 3, instances: 1 });
        proof {
            assert(cmds@ =~= pass_commands(i as int) + object_commands(i as int));
        }
        i = i + 1;
    }
    cmds.push(DrawCommand::Submit);
    cmds.push(DrawCommand::Present);
    proof {
        assert(cmds@ =~= frame_commands(n as int));
    }
    cmds
}

/// Renders one frame against an already-acquired surface texture.
///
/// An acquisition failure propagates unchanged as the distinguishable error
/// variant the surface reported, and the pool is untouched. On success the
/// pool undergoes one scale pass — every horizontal scale divided, via the
/// caller's `div` operation on bit images, by the frame's aspect value, the
/// truncating integer quotient of texture width by height — and the result
/// is the frame's exact command stream.
pub fn render_frame<F: Fn(u32, u32) -> u32>(
    pool: &mut ObjectPool,
    acquired: Result<FrameSurface, SurfaceError>,
    div: F,
) -> (r: Result<Vec<DrawCommand>, SurfaceError>)
    requires
        forall|s: u32, a: u32| #[trigger] call_requires(div, (s, a)),
        acquired matches Ok(fs) ==> fs.height > 0,
    ensures
        acquired matches Err(e) ==> r == Err::<Vec<DrawCommand>, SurfaceError>(e) && *final(pool)
            == *old(pool),
        acquired matches Ok(fs) ==> {
            &&& r is Ok
            &&& r->Ok_0@ == frame_commands(old(pool).objects@.len() as int)
            &&& scale_pass(*old(pool), *final(pool), fs.width / fs.height, div)
            &&& old(pool).well_formed() ==> final(pool).well_formed()
        },
{
    match acquired {
        Err(e) => Err(e),
        Ok(fs) => {
            let aspect: u32 = fs.width / fs.height;
            pool.apply_aspect(aspect, div);
            let cmds = build_frame_commands(pool.len());
            Ok(cmds)
        },
    }
}

} // verus!
