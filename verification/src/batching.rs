//! Splitting a view's sorted phase items into instanced draw batches.
//!
//! Each phase item that is one of our shapes gets one vertex (one instance)
//! in the shared vertex buffer; a run of instances drawn together is a batch.
use vstd::prelude::*;

use crate::asset::{invalid_pair, ShaderPair};

verus! {

/// A phase item of a view, as far as batching reads it.
#[derive(Clone, Copy, Debug, PartialEq, Eq, Structural)]
pub struct PhaseItemRef {
    /// Index into the extracted shapes that the item was queued with.
    pub extracted_index: usize,
    /// The render entity the item draws.
    pub entity: u64,
}

/// An extracted shape, as far as batching reads it.
#[derive(Clone, Copy, Debug, PartialEq, Eq, Structural)]
pub struct ShapeRef {
    /// The render entity of the shape.
    pub render_entity: u64,
    /// Its distance and fill shaders.
    pub shader: ShaderPair,
}

/// One batch: the instances `start..end` of the vertex buffer, drawn with one
/// shader pair, recorded on the phase item at `item_index`.
#[derive(Clone, Copy, Debug, PartialEq, Eq, Structural)]
pub struct ShapeBatch {
    /// The phase item that draws the batch.
    pub item_index: usize,
    /// The shaders of the batch.
    pub shader: ShaderPair,
    /// First instance.
    pub start: u32,
    /// One past the last instance.
    pub end: u32,
}

/// The extracted shape that phase item `i` draws, if it is one of ours: its
/// extracted index must name a shape with the same render entity.
pub open spec fn matched_shape(items: Seq<PhaseItemRef>, shapes: Seq<ShapeRef>, i: int) -> Option<
    int,
> {
    let e = items[i].extracted_index as int;
    if e < shapes.len() && shapes[e].render_entity == items[i].entity {
        Some(e)
    } else {
        None
    }
}

/// Number of the first `n` phase items that are our shapes.
pub open spec fn shapes_before(items: Seq<PhaseItemRef>, shapes: Seq<ShapeRef>, n: int) -> nat
    decreases n,
{
    if n <= 0 {
        0
    } else {
        shapes_before(items, shapes, n - 1) + if matched_shape(items, shapes, n - 1) is Some {
            1nat
        } else {
            0nat
        }
    }
}

/// The extracted shapes whose vertices the first `n` phase items add, in order.
pub open spec fn vertex_sources(items: Seq<PhaseItemRef>, shapes: Seq<ShapeRef>, n: int) -> Seq<
    usize,
>
    decreases n,
{
    if n <= 0 {
        Seq::<usize>::empty()
    } else {
        let prev = vertex_sources(items, shapes, n - 1);
        match matched_shape(items, shapes, n - 1) {
            Some(e) => prev.push(e as usize),
            None => prev,
        }
    }
}

/// The batches made from the first `n` phase items, with instances numbered
/// from `start`. A shape whose shaders differ from "no shaders" opens a batch
/// of its own; a shape without shaders joins the last batch (see [`batchable`]
/// for why there always is one); an item that is not one of our shapes adds
/// nothing.
pub open spec fn planned_batches(
    items: Seq<PhaseItemRef>,
    shapes: Seq<ShapeRef>,
    start: int,
    n: int,
) -> Seq<ShapeBatch>
    decreases n,
{
    if n <= 0 {
        Seq::<ShapeBatch>::empty()
    } else {
        let prev = planned_batches(items, shapes, start, n - 1);
        match matched_shape(items, shapes, n - 1) {
            None => prev,
            Some(e) => {
                let pos = start + shapes_before(items, shapes, n - 1);
                if shapes[e].shader == invalid_pair() {
                    if prev.len() == 0 {
                        prev
                    } else {
                        let last = prev.last();
                        prev.update(
                            prev.len() - 1,
                            ShapeBatch { end: (last.end + 1) as u32, ..last },
                        )
                    }
                } else {
                    prev.push(
                        ShapeBatch {
                            item_index: (n - 1) as usize,
                            shader: shapes[e].shader,
                            start: pos as u32,
                            end: (pos + 1) as u32,
                        },
                    )
                }
            },
        }
    }
}

/// A shape without shaders never comes before the first batch is opened
/// (there would be no batch for it to join).
pub open spec fn batchable(items: Seq<PhaseItemRef>, shapes: Seq<ShapeRef>) -> bool {
    forall|i: int|
        0 <= i < items.len() ==> (#[trigger] matched_shape(items, shapes, i) matches Some(e)
            && shapes[e].shader == invalid_pair() ==> planned_batches(items, shapes, 0, i).len()
            > 0)
}

/// What batching one view gives: its batches, the extracted shapes whose
/// vertices go into the buffer (in order), and the next free instance.
pub struct BatchPlan {
    /// The batches, in the order they were opened.
    pub batches: Vec<ShapeBatch>,
    /// Extracted shape of each new vertex.
    pub vertex_sources: Vec<usize>,
    /// The instance number after the last one used.
    pub next_index: u32,
}

proof fn lemma_batch_count_independent_of_start(
    items: Seq<PhaseItemRef>,
    shapes: Seq<ShapeRef>,
    s1: int,
    s2: int,
    n: int,
)
    ensures
        planned_batches(items, shapes, s1, n).len() == planned_batches(items, shapes, s2, n).len(),
    decreases n,
{
    if n > 0 {
        lemma_batch_count_independent_of_start(items, shapes, s1, s2, n - 1);
    }
}

proof fn lemma_shapes_before_monotone(items: Seq<PhaseItemRef>, shapes: Seq<ShapeRef>, m: int, n: int)
    requires
        m <= n,
    ensures
        shapes_before(items, shapes, m) <= shapes_before(items, shapes, n),
    decreases n - m,
{
    if m < n {
        lemma_shapes_before_monotone(items, shapes, m, n - 1);
    }
}

/// The batches of the first `n` items tile the instances they use: the first
/// starts at `start`, each starts where the one before ends, none is empty,
/// the last ends at `start` plus the number of shapes seen, and there is no
/// batch exactly when no shape was seen.
pub proof fn lemma_batches_tile(items: Seq<PhaseItemRef>, shapes: Seq<ShapeRef>, start: int, n: int)
    requires
        0 <= n <= items.len(),
        batchable(items, shapes),
        0 <= start,
        start + shapes_before(items, shapes, n) <= u32::MAX,
    ensures
        ({
            let b = planned_batches(items, shapes, start, n);
            &&& (b.len() == 0 <==> shapes_before(items, shapes, n) == 0)
            &&& b.len() > 0 ==> b[0].start == start
            &&& b.len() > 0 ==> b.last().end == start + shapes_before(items, shapes, n)
            &&& forall|j: int| 0 <= j < b.len() ==> #[trigger] b[j].start < b[j].end
            &&& forall|j: int| 0 <= j < b.len() - 1 ==> #[trigger] b[j].end == b[j + 1].start
        }),
    decreases n,
{
    if n > 0 {
        lemma_shapes_before_monotone(items, shapes, n - 1, n);
        lemma_batches_tile(items, shapes, start, n - 1);
        let prev = planned_batches(items, shapes, start, n - 1);
        let b = planned_batches(items, shapes, start, n);
        match matched_shape(items, shapes, n - 1) {
            None => {},
            Some(e) => {
                if shapes[e].shader == invalid_pair() {
                    assert(matched_shape(items, shapes, n - 1) matches Some(e) && shapes[e].shader
                        == invalid_pair());
                    lemma_batch_count_independent_of_start(items, shapes, start, 0, n - 1);
                    assert(prev.len() > 0);
                    assert forall|j: int| 0 <= j < b.len() - 1 implies #[trigger] b[j].end == b[j
                        + 1].start by {
                        assert(b[j] == prev[j]);
                        if j + 1 < prev.len() - 1 {
                            assert(b[j + 1] == prev[j + 1]);
                        }
                    }
                } else {
                    assert forall|j: int| 0 <= j < b.len() - 1 implies #[trigger] b[j].end == b[j
                        + 1].start by {
                        assert(b[j] == prev[j]);
                        if j + 1 < prev.len() {
                            assert(b[j + 1] == prev[j + 1]);
                        }
                    }
                }
            },
        }
    }
}

/// Every batch of the first `n` items is recorded on one of our shapes among
/// them that has real shaders, and carries that shape's shaders; batches come
/// in item order; and one vertex is added per shape seen.
pub proof fn lemma_batches_record_their_shapes(
    items: Seq<PhaseItemRef>,
    shapes: Seq<ShapeRef>,
    start: int,
    n: int,
)
    requires
        0 <= n <= items.len(),
        items.len() <= usize::MAX,
    ensures
        ({
            let b = planned_batches(items, shapes, start, n);
            &&& forall|j: int|
                0 <= j < b.len() ==> {
                    &&& 0 <= #[trigger] b[j].item_index < n
                    &&& matched_shape(items, shapes, b[j].item_index as int) matches Some(e)
                        && shapes[e].shader == b[j].shader
                    &&& b[j].shader != invalid_pair()
                }
            &&& forall|j: int| 0 <= j < b.len() - 1 ==> #[trigger] b[j].item_index < b[j + 1].item_index
        }),
        vertex_sources(items, shapes, n).len() == shapes_before(items, shapes, n),
    decreases n,
{
    if n > 0 {
        lemma_batches_record_their_shapes(items, shapes, start, n - 1);
        let prev = planned_batches(items, shapes, start, n - 1);
        let b = planned_batches(items, shapes, start, n);
        match matched_shape(items, shapes, n - 1) {
            None => {
                assert(b == prev);
            },
            Some(e) => {
                if shapes[e].shader == invalid_pair() {
                    assert(b.len() == prev.len());
                    assert(forall|j: int|
                        0 <= j < b.len() ==> #[trigger] b[j].item_index == prev[j].item_index
                            && b[j].shader == prev[j].shader);
                } else {
                    assert(b == prev.push(b.last()));
                    assert(b.last().item_index == n - 1);
                    assert(matched_shape(items, shapes, b.last().item_index as int) == Some(e));
                    assert(forall|j: int| 0 <= j < prev.len() ==> #[trigger] b[j] == prev[j]);
                }
            },
        }
    }
}

/// Whether the items can be batched without a shape that has no shaders
/// coming before any batch was opened.
pub fn is_batchable(items: &Vec<PhaseItemRef>, shapes: &Vec<ShapeRef>) -> (ok: bool)
    ensures
        ok == batchable(items@, shapes@),
{
    let invalid = ShaderPair::invalid();
    let mut opened = false;
    let mut i: usize = 0;
    while i < items.len()
        invariant
            i <= items.len(),
            invalid == invalid_pair(),
            opened == (planned_batches(items@, shapes@, 0, i as int).len() > 0),
            forall|j: int|
                0 <= j < i ==> (#[trigger] matched_shape(items@, shapes@, j) matches Some(e)
                    && shapes@[e].shader == invalid_pair() ==> planned_batches(
                    items@,
                    shapes@,
                    0,
                    j,
                ).len() > 0),
        decreases items.len() - i,
    {
        let item = items[i];
        if item.extracted_index < shapes.len() && shapes[item.extracted_index].render_entity
            == item.entity {
            if shapes[item.extracted_index].shader == invalid {
                if !opened {
                    assert(matched_shape(items@, shapes@, i as int) == Some(
                        item.extracted_index as int,
                    ));
                    return false;
                }
            } else {
                opened = true;
            }
        }
        i = i + 1;
    }
    true
}

/// A batch opens at each shape that has real shaders: for every such shape
/// among the first `n` items there is a batch recorded on it, with its
/// shaders, starting at its own instance.
pub proof fn lemma_batch_opens_at_each_shape(
    items: Seq<PhaseItemRef>,
    shapes: Seq<ShapeRef>,
    start: int,
    n: int,
)
    requires
        0 <= n <= items.len(),
        items.len() <= usize::MAX,
    ensures
        forall|i: int|
            0 <= i < n && (#[trigger] matched_shape(items, shapes, i) matches Some(e)
                && shapes[e].shader != invalid_pair()) ==> exists|j: int|
                0 <= j < planned_batches(items, shapes, start, n).len() && {
                    let b = #[trigger] planned_batches(items, shapes, start, n)[j];
                    &&& b.item_index == i
                    &&& b.shader == shapes[matched_shape(items, shapes, i)->0].shader
                    &&& b.start == (start + shapes_before(items, shapes, i)) as u32
                },
    decreases n,
{
    if n > 0 {
        lemma_batch_opens_at_each_shape(items, shapes, start, n - 1);
        let prev = planned_batches(items, shapes, start, n - 1);
        let b = planned_batches(items, shapes, start, n);
        assert forall|i: int|
            0 <= i < n && (#[trigger] matched_shape(items, shapes, i) matches Some(e)
                && shapes[e].shader != invalid_pair()) implies exists|j: int|
                0 <= j < b.len() && {
                    let c = #[trigger] planned_batches(items, shapes, start, n)[j];
                    &&& c.item_index == i
                    &&& c.shader == shapes[matched_shape(items, shapes, i)->0].shader
                    &&& c.start == (start + shapes_before(items, shapes, i)) as u32
                } by {
            if i < n - 1 {
                let j = choose|j: int|
                    0 <= j < prev.len() && {
                        let c = #[trigger] planned_batches(items, shapes, start, n - 1)[j];
                        &&& c.item_index == i
                        &&& c.shader == shapes[matched_shape(items, shapes, i)->0].shader
                        &&& c.start == (start + shapes_before(items, shapes, i)) as u32
                    };
                assert(b[j].item_index == prev[j].item_index && b[j].shader == prev[j].shader
                    && b[j].start == prev[j].start);
            } else {
                let j = b.len() - 1;
                assert(b[j].item_index == i);
            }
        }
    }
}

/// Splits one view's phase items into batches (every shape opens its own
/// batch unless it has no shaders), numbering instances from `start`.
pub fn plan_batches(items: &Vec<PhaseItemRef>, shapes: &Vec<ShapeRef>, start: u32) -> (plan:
    BatchPlan)
    requires
        batchable(items@, shapes@),
        start + shapes_before(items@, shapes@, items.len() as int) <= u32::MAX,
    ensures
        plan.batches@ == planned_batches(items@, shapes@, start as int, items.len() as int),
        plan.vertex_sources@ == vertex_sources(items@, shapes@, items.len() as int),
        plan.next_index == start + shapes_before(items@, shapes@, items.len() as int),
{
    let mut batches: Vec<ShapeBatch> = Vec::new();
    let mut sources: Vec<usize> = Vec::new();
    let mut index: u32 = start;
    let invalid = ShaderPair::invalid();
    let mut item_index: usize = 0;
    while item_index < items.len()
        invariant
            item_index <= items.len(),
            batchable(items@, shapes@),
            start + shapes_before(items@, shapes@, items.len() as int) <= u32::MAX,
            invalid == invalid_pair(),
            batches@ == planned_batches(items@, shapes@, start as int, item_index as int),
            sources@ == vertex_sources(items@, shapes@, item_index as int),
            index == start + shapes_before(items@, shapes@, item_index as int),
        decreases items.len() - item_index,
    {
        let ghost n = item_index as int;
        let item = items[item_index];
        let matched = item.extracted_index < shapes.len() && shapes[item.extracted_index].render_entity
            == item.entity;
        assert(matched == (matched_shape(items@, shapes@, n) is Some));
        if matched {
            let shape = shapes[item.extracted_index];
            proof {
                lemma_shapes_before_monotone(items@, shapes@, n + 1, items.len() as int);
            }
            if shape.shader == invalid {
                proof {
                    assert(matched_shape(items@, shapes@, n) == Some(item.extracted_index as int));
                    lemma_batch_count_independent_of_start(items@, shapes@, start as int, 0, n);
                }
                let last_pos = batches.len() - 1;
                let last = batches[last_pos];
                proof {
                    lemma_batches_tile(items@, shapes@, start as int, n);
                }
                batches.set(last_pos, ShapeBatch { end: last.end + 1, ..last });
            } else {
                batches.push(
                    ShapeBatch {
                        item_index,
                        shader: shape.shader,
                        start: index,
                        end: index + 1,
                    },
                );
            }
            sources.push(item.extracted_index);
            index = index + 1;
        }
        item_index = item_index + 1;
    }
    BatchPlan { batches, vertex_sources: sources, next_index: index }
}

/// Number of the phase items that are our shapes.
pub fn count_shapes(items: &Vec<PhaseItemRef>, shapes: &Vec<ShapeRef>) -> (count: usize)
    ensures
        count == shapes_before(items@, shapes@, items.len() as int),
{
    let mut count: usize = 0;
    let mut i: usize = 0;
    while i < items.len()
        invariant
            i <= items.len(),
            count == shapes_before(items@, shapes@, i as int),
            count <= i,
        decreases items.len() - i,
    {
        let item = items[i];
        if item.extracted_index < shapes.len() && shapes[item.extracted_index].render_entity
            == item.entity {
            count = count + 1;
        }
        i = i + 1;
    }
    count
}

/// Batches one view's phase items, or `None` where batching them cannot be
/// done: a shape without shaders before any batch, or more instances than a
/// `u32` numbers.
pub fn try_plan_batches(items: &Vec<PhaseItemRef>, shapes: &Vec<ShapeRef>, start: u32) -> (plan:
    Option<BatchPlan>)
    ensures
        plan is Some <==> batchable(items@, shapes@) && start + shapes_before(
            items@,
            shapes@,
            items.len() as int,
        ) <= u32::MAX,
        plan matches Some(p) ==> {
            &&& p.batches@ == planned_batches(items@, shapes@, start as int, items.len() as int)
            &&& p.vertex_sources@ == vertex_sources(items@, shapes@, items.len() as int)
            &&& p.next_index == start + shapes_before(items@, shapes@, items.len() as int)
        },
{
    if !is_batchable(items, shapes) {
        return None;
    }
    let count = count_shapes(items, shapes);
    if count > (u32::MAX - start) as usize {
        return None;
    }
    Some(plan_batches(items, shapes, start))
}

} // verus!
