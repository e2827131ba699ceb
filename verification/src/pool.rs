//! The renderable object pool: a fixed collection of independently
//! transformable objects, each with an immutable color/offset vector sampled
//! at creation and a mutable two-component scale.
//!
//! The eight color/offset components and the two scale components are carried
//! as the bit images of the 32-bit values the GPU reads. The library stores
//! and moves them without interpreting them as numbers; the per-frame scale
//! arithmetic is supplied by the caller as a function on bit images, and the
//! contracts relate every update to that function.

use crate::bytes::{encode_words_le, word_le_bytes, words_le_bytes};
use vstd::prelude::*;

verus! {

/// One renderable object: an immutable color/offset vector of eight 32-bit
/// components, and a mutable scale with a horizontal and a vertical
/// component. The GPU-side pairing — one static color/offset buffer, one
/// mutable scale buffer, one bind group over both — exists once per object.
pub struct RenderObject {
    pub color_offset: Vec<u32>,
    pub scale_x: u32,
    pub scale_y: u32,
}

impl RenderObject {
    /// The color/offset vector always has exactly eight components: red,
    /// green, blue, alpha, two offsets, and two padding words.
    pub open spec fn well_formed(self) -> bool {
        self.color_offset@.len() == 8
    }

    /// The exact byte image of this object's color/offset uniform buffer.
    pub fn color_offset_bytes(&self) -> (r: Vec<u8>)
        ensures
            r@ == words_le_bytes(self.color_offset@),
    {
        encode_words_le(&self.color_offset)
    }

    /// The exact byte image of this object's scale uniform buffer: the
    /// horizontal component followed by the vertical one.
    pub fn scale_bytes(&self) -> (r: Vec<u8>)
        ensures
            r@ == word_le_bytes(self.scale_x) + word_le_bytes(self.scale_y),
    {
        let mut ws: Vec<u32> = Vec::new();
        ws.push(self.scale_x);
        ws.push(self.scale_y);
        let r = encode_words_le(&ws);
        proof {
            assert(ws@ =~= seq![self.scale_x, self.scale_y]);
            assert(ws@.drop_first() =~= seq![self.scale_y]);
            assert(seq![self.scale_y].drop_first() =~= Seq::<u32>::empty());
            assert(words_le_bytes(Seq::<u32>::empty()) =~= Seq::<u8>::empty());
            assert(seq![self.scale_y][0] == self.scale_y);
            assert(words_le_bytes(seq![self.scale_y]) =~= word_le_bytes(self.scale_y));
            assert(ws@[0] == self.scale_x);
            assert(r@ =~= word_le_bytes(self.scale_x) + word_le_bytes(self.scale_y));
        }
        r
    }
}

/// The creation-time parameters of one object, as sampled by the caller: the
/// eight color/offset components and the uniform scale factor that is applied
/// to both axes.
pub struct ObjectParams {
    pub color_offset: Vec<u32>,
    pub scale: u32,
}

impl ObjectParams {
    pub open spec fn well_formed(self) -> bool {
        self.color_offset@.len() == 8
    }
}

/// The fixed-size pool of renderable objects, in creation order.
pub struct ObjectPool {
    pub objects: Vec<RenderObject>,
}

/// Whether `post` is `pre` after one per-frame scale pass with divisor value
/// `aspect` under the scale operation `div`: same objects in the same order,
/// every color/offset vector and vertical scale untouched, and every
/// horizontal scale related to its prior value by one application of `div`.
pub open spec fn scale_pass<F: Fn(u32, u32) -> u32>(
    pre: ObjectPool,
    post: ObjectPool,
    aspect: u32,
    div: F,
) -> bool {
    &&& post.objects@.len() == pre.objects@.len()
    &&& forall|i: int|
        0 <= i < pre.objects@.len() ==> {
            &&& (#[trigger] post.objects@[i]).color_offset == pre.objects@[i].color_offset
            &&& post.objects@[i].scale_y == pre.objects@[i].scale_y
            &&& call_ensures(div, (pre.objects@[i].scale_x, aspect), post.objects@[i].scale_x)
        }
}

/// Copies a word vector element by element.
fn copy_words(src: &Vec<u32>) -> (r: Vec<u32>)
    ensures
        r@ == src@,
{
    let mut out: Vec<u32> = Vec::new();
    let mut i: usize = 0;
    while i < src.len()
        invariant
            0 <= i <= src@.len(),
            out@ == src@.take(i as int),
        decreases src@.len() - i,
    {
        out.push(src[i]);
        proof {
            assert(out@ =~= src@.take(i + 1));
        }
        i = i + 1;
    }
    proof {
        assert(src@.take(src@.len() as int) =~= src@);
    }
    out
}

impl ObjectPool {
    /// Every object in the pool is well formed.
    pub open spec fn well_formed(self) -> bool {
        forall|i: int| 0 <= i < self.objects@.len() ==> (#[trigger] self.objects@[i]).well_formed()
    }

    /// Whether this pool is exactly what construction from `params` yields:
    /// one object per parameter record, in order, each carrying its record's
    /// color/offset vector and its record's scale on both axes.
    pub open spec fn initialized_from(self, params: Seq<ObjectParams>) -> bool {
        &&& self.objects@.len() == params.len()
        &&& forall|i: int|
            0 <= i < params.len() ==> {
                &&& (#[trigger] self.objects@[i]).color_offset@ == params[i].color_offset@
                &&& self.objects@[i].scale_x == params[i].scale
                &&& self.objects@[i].scale_y == params[i].scale
            }
    }

    /// Builds the pool: exactly one object per parameter record, in order.
    pub fn new(params: &Vec<ObjectParams>) -> (pool: ObjectPool)
        requires
            forall|i: int| 0 <= i < params@.len() ==> (#[trigger] params@[i]).well_formed(),
        ensures
            pool.initialized_from(params@),
            pool.well_formed(),
    {
        let mut objects: Vec<RenderObject> = Vec::new();
        let mut i: usize = 0;
        while i < params.len()
            invariant
                0 <= i <= params@.len(),
                objects@.len() == i,
                forall|j: int| 0 <= j < params@.len() ==> (#[trigger] params@[j]).well_formed(),
                forall|j: int|
                    0 <= j < i ==> {
                        &&& (#[trigger] objects@[j]).color_offset@ == params@[j].color_offset@
                        &&& objects@[j].scale_x == params@[j].scale
                        &&& objects@[j].scale_y == params@[j].scale
                    },
            decreases params@.len() - i,
        {
            let scale = params[i].scale;
            let object = RenderObject {
                color_offset: copy_words(&params[i].color_offset),
                scale_x: scale,
                scale_y: scale,
            };
            objects.push(object);
            i = i + 1;
        }
        ObjectPool { objects }
    }

    /// The number of objects in the pool.
    pub fn len(&self) -> (n: usize)
        ensures
            n == self.objects@.len(),
    {
        self.objects.len()
    }

    /// One per-frame scale pass: every object's horizontal scale is replaced
    /// by `div` of its current value and `aspect`, in pool order; vertical
    /// scales and color/offset vectors are untouched. Repeating the pass
    /// divides again: the update is persistent, not recomputed from a base.
    pub fn apply_aspect<F: Fn(u32, u32) -> u32>(&mut self, aspect: u32, div: F)
        requires
            forall|s: u32| #[trigger] call_requires(div, (s, aspect)),
        ensures
            scale_pass(*old(self), *final(self), aspect, div),
            old(self).well_formed() ==> final(self).well_formed(),
    {
        let n = self.objects.len();
        let mut i: usize = 0;
        while i < n
            invariant
                0 <= i <= n,
                self.objects@.len() == n,
                old(self).objects@.len() == n,
                forall|s: u32| #[trigger] call_requires(div, (s, aspect)),
                forall|j: int| i <= j < n ==> self.objects@[j] == old(self).objects@[j],
                forall|j: int|
                    0 <= j < i ==> {
                        &&& (#[trigger] self.objects@[j]).color_offset == old(
                            self,
                        ).objects@[j].color_offset
                        &&& self.objects@[j].scale_y == old(self).objects@[j].scale_y
                        &&& call_ensures(
                            div,
                            (old(self).objects@[j].scale_x, aspect),
                            self.objects@[j].scale_x,
                        )
                    },
            decreases n - i,
        {
            let s = self.objects[i].scale_x;
            let updated = div(s, aspect);
            self.objects[i].scale_x = updated;
            i = i + 1;
        }
    }
}

} // verus!
