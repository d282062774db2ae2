//! The rules of the picking backend: which shapes and cameras take part, and
//! which of the shapes under a pointer are reported as hit.
use vstd::prelude::*;

verus! {

/// Runtime settings for shape picking.
#[derive(Clone, Copy, Debug, PartialEq, Eq, Structural)]
pub struct SmudPickingSettings {
    /// When `true`, only cameras marked for picking and entities marked
    /// pickable take part.
    pub require_markers: bool,
}

impl Default for SmudPickingSettings {
    /// Markers are not required by default.
    fn default() -> (settings: Self)
        ensures
            !settings.require_markers,
    {
        SmudPickingSettings { require_markers: false }
    }
}

/// The picking marker of an entity, as far as the rules read it.
#[derive(Clone, Copy, Debug, PartialEq, Eq, Structural)]
pub struct PickableFlags {
    /// Whether the entity hides entities below it from the pointer.
    pub should_block_lower: bool,
    /// Whether the entity can be hovered at all.
    pub is_hoverable: bool,
}

/// Whether a shape takes part in picking: it is visible, its transform is
/// finite, it carries a marker if markers are required, and a marker it
/// carries lets it be hovered.
pub open spec fn shape_takes_part(
    visible: bool,
    transform_is_nan: bool,
    settings: SmudPickingSettings,
    pickable: Option<PickableFlags>,
) -> bool {
    &&& visible
    &&& !transform_is_nan
    &&& !(settings.require_markers && pickable is None)
    &&& !(pickable matches Some(p) && !p.is_hoverable)
}

/// Whether a shape takes part in picking (see [`shape_takes_part`]).
pub fn shape_is_pickable(
    visible: bool,
    transform_is_nan: bool,
    settings: &SmudPickingSettings,
    pickable: Option<PickableFlags>,
) -> (takes_part: bool)
    ensures
        takes_part == shape_takes_part(visible, transform_is_nan, *settings, pickable),
        !visible || transform_is_nan ==> !takes_part,
        settings.require_markers && pickable is None ==> !takes_part,
        pickable matches Some(p) && !p.is_hoverable ==> !takes_part,
        visible && !transform_is_nan && (pickable is None ==> !settings.require_markers) && (
        pickable matches Some(p) ==> p.is_hoverable) ==> takes_part,
{
    if !visible || transform_is_nan {
        return false;
    }
    if settings.require_markers && pickable.is_none() {
        return false;
    }
    if let Some(p) = pickable {
        if !p.is_hoverable {
            return false;
        }
    }
    true
}

/// Whether a camera is used for picking: it is active, and marked for picking
/// if markers are required.
pub fn camera_can_pick(
    is_active: bool,
    has_marker: bool,
    settings: &SmudPickingSettings,
) -> (used: bool)
    ensures
        used == (is_active && (!settings.require_markers || has_marker)),
{
    let marker_requirement = !settings.require_markers || has_marker;
    is_active && marker_requirement
}

/// Whether a shape that is hit hides the shapes behind it: as its marker
/// says, and always when it has none.
pub fn blocks_lower(pickable: Option<PickableFlags>) -> (blocks: bool)
    ensures
        blocks == match pickable {
            Some(p) => p.should_block_lower,
            None => true,
        },
{
    match pickable {
        Some(p) => p.should_block_lower,
        None => true,
    }
}

/// The outcome of testing one shape against a pointer's ray.
#[derive(Clone, Copy, Debug, PartialEq, Eq, Structural)]
pub struct HitTest {
    /// Whether the ray meets the shape's plane inside the shape's bounds.
    pub hit: bool,
    /// Whether the shape, when hit, hides the shapes behind it.
    pub blocks: bool,
}

/// Whether one of the first `n` shapes was hit and hides those behind it.
pub open spec fn blocked_before(tests: Seq<HitTest>, n: int) -> bool
    decreases n,
{
    if n <= 0 {
        false
    } else {
        blocked_before(tests, n - 1) || (tests[n - 1].hit && tests[n - 1].blocks)
    }
}

/// The shapes among the first `n` (front to back) reported as hit: every shape
/// hit up to and including the first hit one that hides those behind it.
pub open spec fn picked_before(tests: Seq<HitTest>, n: int) -> Seq<usize>
    decreases n,
{
    if n <= 0 {
        Seq::<usize>::empty()
    } else {
        let prev = picked_before(tests, n - 1);
        if tests[n - 1].hit && !blocked_before(tests, n - 1) {
            prev.push((n - 1) as usize)
        } else {
            prev
        }
    }
}

proof fn lemma_blocked_stays(tests: Seq<HitTest>, m: int, n: int)
    requires
        0 <= m <= n,
        blocked_before(tests, m),
    ensures
        blocked_before(tests, n),
        picked_before(tests, n) == picked_before(tests, m),
    decreases n - m,
{
    if m < n {
        lemma_blocked_stays(tests, m, n - 1);
    }
}

/// The indices of the shapes reported as hit, front to back: shapes are
/// taken in order until one that is hit hides the rest.
pub fn picked_shapes(tests: &Vec<HitTest>) -> (picked: Vec<usize>)
    ensures
        picked@ == picked_before(tests@, tests.len() as int),
        forall|j: int|
            0 <= j < picked.len() ==> #[trigger] picked@[j] < tests.len() && tests@[picked@[j] as int].hit,
        forall|j: int| 0 <= j < picked.len() - 1 ==> #[trigger] picked@[j] < picked@[j + 1],
        forall|j: int|
            0 <= j < picked.len() && tests@[#[trigger] picked@[j] as int].blocks ==> j == picked.len()
                - 1,
        forall|j: int, k: int|
            0 <= j < picked.len() && 0 <= k < #[trigger] picked@[j] ==> !(#[trigger] tests@[k].hit
                && tests@[k].blocks),
        forall|i: int|
            0 <= i < tests.len() && #[trigger] tests@[i].hit && (forall|k: int|
                0 <= k < i ==> !(#[trigger] tests@[k].hit && tests@[k].blocks)) ==> picked@.contains(
                i as usize,
            ),
{
    let mut picks: Vec<usize> = Vec::new();
    let mut blocked = false;
    let mut i: usize = 0;
    while i < tests.len() && !blocked
        invariant
            i <= tests.len(),
            blocked == blocked_before(tests@, i as int),
            picks@ == picked_before(tests@, i as int),
        decreases tests.len() - i,
    {
        let test = tests[i];
        if test.hit {
            picks.push(i);
            blocked = test.blocks;
        }
        i = i + 1;
    }
    if blocked {
        proof {
            lemma_blocked_stays(tests@, i as int, tests.len() as int);
        }
    }
    proof {
        lemma_picked_are_unblocked_hits(tests@, tests.len() as int);
        lemma_picked_front_to_first_blocker(tests@, tests.len() as int);
    }
    picks
}

/// A shape is blocked from view when, and only when, some shape in front of
/// it was hit and hides those behind it.
pub proof fn lemma_blocked_before(tests: Seq<HitTest>, n: int)
    requires
        0 <= n <= tests.len(),
    ensures
        blocked_before(tests, n) <==> exists|k: int|
            0 <= k < n && #[trigger] tests[k].hit && tests[k].blocks,
    decreases n,
{
    if n > 0 {
        lemma_blocked_before(tests, n - 1);
        if blocked_before(tests, n) && !blocked_before(tests, n - 1) {
            assert(tests[n - 1].hit && tests[n - 1].blocks);
        }
        if exists|k: int| 0 <= k < n && #[trigger] tests[k].hit && tests[k].blocks {
            let k = choose|k: int| 0 <= k < n && #[trigger] tests[k].hit && tests[k].blocks;
            if k < n - 1 {
                assert(blocked_before(tests, n - 1));
            }
        }
    }
}

/// Of the shapes reported as hit, only the last may hide those behind it,
/// and every hit shape with no hiding hit shape in front of it is reported.
pub proof fn lemma_picked_front_to_first_blocker(tests: Seq<HitTest>, n: int)
    requires
        0 <= n <= tests.len(),
        tests.len() <= usize::MAX,
    ensures
        ({
            let p = picked_before(tests, n);
            &&& forall|j: int|
                0 <= j < p.len() && tests[#[trigger] p[j] as int].blocks ==> j == p.len() - 1
            &&& forall|j: int, k: int|
                0 <= j < p.len() && 0 <= k < #[trigger] p[j] ==> !(#[trigger] tests[k].hit
                    && tests[k].blocks)
            &&& forall|i: int|
                0 <= i < n && #[trigger] tests[i].hit && (forall|k: int|
                    0 <= k < i ==> !(#[trigger] tests[k].hit && tests[k].blocks)) ==> p.contains(
                    i as usize,
                )
        }),
    decreases n,
{
    lemma_picked_are_unblocked_hits(tests, n);
    let p = picked_before(tests, n);
    assert forall|j: int, k: int| 0 <= j < p.len() && 0 <= k < #[trigger] p[j] implies !(
    #[trigger] tests[k].hit && tests[k].blocks) by {
        lemma_blocked_before(tests, p[j] as int);
    }
    if n > 0 {
        lemma_picked_front_to_first_blocker(tests, n - 1);
        let prev = picked_before(tests, n - 1);
        if tests[n - 1].hit && !blocked_before(tests, n - 1) {
            assert(p == prev.push((n - 1) as usize));
            lemma_picked_are_unblocked_hits(tests, n - 1);
            lemma_blocked_before(tests, n - 1);
            assert forall|j: int|
                0 <= j < p.len() && tests[#[trigger] p[j] as int].blocks implies j == p.len()
                - 1 by {
                if j < prev.len() {
                    assert(p[j] == prev[j]);
                    assert(tests[prev[j] as int].hit);
                    assert(prev[j] < n - 1);
                    assert(blocked_before(tests, n - 1));
                }
            }
            assert forall|i: int|
                0 <= i < n && #[trigger] tests[i].hit && (forall|k: int|
                    0 <= k < i ==> !(#[trigger] tests[k].hit && tests[k].blocks)) implies p.contains(
                i as usize,
            ) by {
                if i < n - 1 {
                    assert(prev.contains(i as usize));
                    let m = choose|m: int| 0 <= m < prev.len() && prev[m] == i as usize;
                    assert(p[m] == prev[m]);
                } else {
                    assert(p[p.len() - 1] == i as usize);
                }
            }
        } else {
            assert(p == prev);
            assert forall|i: int|
                0 <= i < n && #[trigger] tests[i].hit && (forall|k: int|
                    0 <= k < i ==> !(#[trigger] tests[k].hit && tests[k].blocks)) implies p.contains(
                i as usize,
            ) by {
                if i == n - 1 {
                    lemma_blocked_before(tests, n - 1);
                    assert(!blocked_before(tests, n - 1));
                }
            }
        }
    }
}

/// The picked shapes come in front-to-back order, each was hit, and no
/// picked shape lies behind a hit shape that hides what is behind it.
pub proof fn lemma_picked_are_unblocked_hits(tests: Seq<HitTest>, n: int)
    requires
        0 <= n <= tests.len(),
        tests.len() <= usize::MAX,
    ensures
        ({
            let p = picked_before(tests, n);
            &&& forall|j: int| 0 <= j < p.len() ==> #[trigger] p[j] < n && tests[p[j] as int].hit
                && !blocked_before(tests, p[j] as int)
            &&& forall|j: int| 0 <= j < p.len() - 1 ==> #[trigger] p[j] < p[j + 1]
        }),
    decreases n,
{
    if n > 0 {
        lemma_picked_are_unblocked_hits(tests, n - 1);
        let prev = picked_before(tests, n - 1);
        let p = picked_before(tests, n);
        if tests[n - 1].hit && !blocked_before(tests, n - 1) {
            assert(p == prev.push((n - 1) as usize));
            assert(forall|j: int| 0 <= j < prev.len() ==> #[trigger] p[j] == prev[j]);
        }
    }
}

} // verus!
