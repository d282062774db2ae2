//! The fragment shaders generated so far, one per pair of distance and fill
//! shaders, and which shapes can be queued with them.
use vstd::prelude::*;

use crate::asset::ShaderPair;
use crate::components::BlendMode;
use crate::pipeline_key::{blend_key_bits, shape_key, PipelineKey, BLEND_ADDITIVE};
use crate::pipeline_spec::{
    additive_blending, alpha_blending, specialize, specialized, PipelineSpec, SmudPipelineKey,
};

verus! {

/// The map that a list of entries stands for, later entries winning.
pub open spec fn entries_map<H>(entries: Seq<(ShaderPair, H)>) -> Map<ShaderPair, H>
    decreases entries.len(),
{
    if entries.len() == 0 {
        Map::empty()
    } else {
        entries_map(entries.drop_last()).insert(entries.last().0, entries.last().1)
    }
}

/// No pair occurs twice among the entries.
pub open spec fn distinct_pairs<H>(entries: Seq<(ShaderPair, H)>) -> bool {
    forall|i: int, j: int|
        0 <= i < j < entries.len() ==> #[trigger] entries[i].0 != #[trigger] entries[j].0
}

proof fn lemma_entries_map<H>(entries: Seq<(ShaderPair, H)>)
    requires
        distinct_pairs(entries),
    ensures
        forall|k: ShaderPair|
            #[trigger] entries_map(entries).contains_key(k) <==> exists|i: int|
                0 <= i < entries.len() && entries[i].0 == k,
        forall|i: int|
            0 <= i < entries.len() ==> #[trigger] entries_map(entries)[entries[i].0] == entries[i].1,
    decreases entries.len(),
{
    if entries.len() > 0 {
        let prev = entries.drop_last();
        assert(distinct_pairs(prev)) by {
            assert forall|i: int, j: int| 0 <= i < j < prev.len() implies #[trigger] prev[i].0
                != #[trigger] prev[j].0 by {
                assert(prev[i] == entries[i] && prev[j] == entries[j]);
            }
        }
        lemma_entries_map(prev);
        let last = entries.len() - 1;
        assert(entries_map(entries) == entries_map(prev).insert(entries[last].0, entries[last].1));
        assert forall|k: ShaderPair| #[trigger] entries_map(entries).contains_key(k) <==> exists|
            i: int,
        | 0 <= i < entries.len() && entries[i].0 == k by {
            let in_prev = entries_map(prev).contains_key(k);
            if k == entries[last].0 {
                assert(entries[last].0 == k);
            } else if in_prev {
                let i = choose|i: int| 0 <= i < prev.len() && prev[i].0 == k;
                assert(entries[i] == prev[i]);
            }
            if exists|i: int| 0 <= i < entries.len() && entries[i].0 == k {
                let i = choose|i: int| 0 <= i < entries.len() && entries[i].0 == k;
                if i < prev.len() {
                    assert(prev[i] == entries[i]);
                    assert(in_prev);
                }
            }
        }
        assert forall|i: int| 0 <= i < entries.len() implies #[trigger] entries_map(entries)[entries[i].0]
            == entries[i].1 by {
            if i < prev.len() {
                assert(prev[i] == entries[i]);
                assert(entries[i].0 != entries.last().0);
            }
        }
    }
}

/// The generated fragment shaders, keyed by the shader pair they were made for.
pub struct ShaderTable<H> {
    entries: Vec<(ShaderPair, H)>,
}

impl<H> ShaderTable<H> {
    /// Each pair has at most one entry.
    #[verifier::type_invariant]
    spec fn pairs_distinct(self) -> bool {
        distinct_pairs(self.entries@)
    }

    /// The generated shader of each pair that has one.
    pub closed spec fn map(self) -> Map<ShaderPair, H> {
        entries_map(self.entries@)
    }

    /// A table with no generated shader.
    pub fn new() -> (table: Self)
        ensures
            table.map() == Map::<ShaderPair, H>::empty(),
    {
        ShaderTable { entries: Vec::new() }
    }

    fn position(&self, pair: ShaderPair) -> (pos: Option<usize>)
        ensures
            pos matches Some(i) ==> i < self.entries.len() && self.entries@[i as int].0 == pair,
            pos is None ==> forall|i: int| 0 <= i < self.entries.len() ==> self.entries@[i].0 != pair,
    {
        let mut i: usize = 0;
        while i < self.entries.len()
            invariant
                i <= self.entries.len(),
                forall|j: int| 0 <= j < i ==> self.entries@[j].0 != pair,
            decreases self.entries.len() - i,
        {
            if self.entries[i].0 == pair {
                return Some(i);
            }
            i = i + 1;
        }
        None
    }

    /// Whether a shader was generated for the pair.
    pub fn contains(&self, pair: ShaderPair) -> (found: bool)
        ensures
            found == self.map().contains_key(pair),
    {
        proof {
            use_type_invariant(self);
            lemma_entries_map(self.entries@);
        }
        self.position(pair).is_some()
    }

    /// The shader generated for the pair, if any.
    pub fn get(&self, pair: ShaderPair) -> (shader: Option<&H>)
        ensures
            self.map().contains_key(pair) ==> shader == Some(&self.map()[pair]),
            !self.map().contains_key(pair) ==> shader is None,
    {
        proof {
            use_type_invariant(self);
            lemma_entries_map(self.entries@);
        }
        match self.position(pair) {
            Some(i) => Some(&self.entries[i].1),
            None => None,
        }
    }

    /// Records the shader generated for the pair, replacing any earlier one.
    pub fn insert(&mut self, pair: ShaderPair, shader: H)
        ensures
            final(self).map() == old(self).map().insert(pair, shader),
    {
        proof {
            use_type_invariant(&*self);
            lemma_entries_map(self.entries@);
        }
        let ghost old_entries = self.entries@;
        let ghost old_map = entries_map(old_entries);
        let position = self.position(pair);
        let mut entries: Vec<(ShaderPair, H)> = Vec::new();
        std::mem::swap(&mut entries, &mut self.entries);
        match position {
            Some(i) => {
                let ghost new_entries = old_entries.update(i as int, (pair, shader));
                proof {
                    assert(distinct_pairs(new_entries)) by {
                        assert forall|a: int, b: int| 0 <= a < b < new_entries.len() implies
                            #[trigger] new_entries[a].0 != #[trigger] new_entries[b].0 by {
                            assert(old_entries[a].0 != old_entries[b].0);
                        }
                    }
                    lemma_entries_map(new_entries);
                    assert forall|q: ShaderPair| #[trigger] old_map.insert(pair, shader).contains_key(
                        q,
                    ) == entries_map(new_entries).contains_key(q) by {
                        if q != pair && old_map.contains_key(q) {
                            let a = choose|a: int| 0 <= a < old_entries.len() && old_entries[a].0 == q;
                            assert(new_entries[a].0 == q);
                        }
                        if q != pair && entries_map(new_entries).contains_key(q) {
                            let a = choose|a: int| 0 <= a < new_entries.len() && new_entries[a].0 == q;
                            assert(old_entries[a].0 == q);
                        }
                        if q == pair {
                            assert(new_entries[i as int].0 == q);
                        }
                    }
                    assert forall|q: ShaderPair| #[trigger] old_map.insert(pair, shader).contains_key(q)
                        implies old_map.insert(pair, shader)[q] == entries_map(new_entries)[q] by {
                        if q == pair {
                            assert(entries_map(new_entries)[new_entries[i as int].0]
                                == new_entries[i as int].1);
                        } else {
                            let a = choose|a: int| 0 <= a < old_entries.len() && old_entries[a].0 == q;
                            assert(old_map[old_entries[a].0] == old_entries[a].1);
                            assert(entries_map(new_entries)[new_entries[a].0] == new_entries[a].1);
                        }
                    }
                    assert(entries_map(new_entries) =~= old_map.insert(pair, shader));
                }
                entries.set(i, (pair, shader));
                assert(entries@ == new_entries);
                self.entries = entries;
            },
            None => {
                proof {
                    let new_entries = old_entries.push((pair, shader));
                    assert(new_entries.drop_last() =~= old_entries);
                    assert(distinct_pairs(new_entries)) by {
                        assert forall|a: int, b: int| 0 <= a < b < new_entries.len() implies
                            #[trigger] new_entries[a].0 != #[trigger] new_entries[b].0 by {
                            if b < old_entries.len() {
                                assert(old_entries[a].0 != old_entries[b].0);
                            } else {
                                assert(new_entries[a] == old_entries[a]);
                            }
                        }
                    }
                }
                entries.push((pair, shader));
                assert(entries@.drop_last() =~= old_entries);
                self.entries = entries;
            },
        }
    }
}

/// The shape pipeline: the fragment shaders generated so far, from which each
/// specialised pipeline takes its own.
pub struct SmudPipeline<H> {
    /// The generated fragment shaders, by shader pair.
    pub shaders: ShaderTable<H>,
}

impl<H> SmudPipeline<H> {
    /// A pipeline with no generated shader yet.
    pub fn new() -> (pipeline: Self)
        ensures
            pipeline.shaders.map() == Map::<ShaderPair, H>::empty(),
    {
        SmudPipeline { shaders: ShaderTable::new() }
    }

    /// Specialises the pipeline for a key whose pair has a generated shader:
    /// the pipeline the key calls for, drawn with that generated shader.
    /// Keys are only queued once their pair is generated, so a key without
    /// one is no input here.
    pub fn specialize(&self, key: SmudPipelineKey) -> (pipeline: (PipelineSpec, &H))
        requires
            self.shaders.map().contains_key(key.shader),
        ensures
            specialized(key, pipeline.0),
            *pipeline.1 == self.shaders.map()[key.shader],
            (pipeline.0.blend == BlendMode::Additive) <==> (key.mesh.bits & BLEND_ADDITIVE
                == BLEND_ADDITIVE),
            key.mesh.bits & BLEND_ADDITIVE == BLEND_ADDITIVE ==> pipeline.0.blend_state
                == additive_blending(),
            key.mesh.bits & BLEND_ADDITIVE != BLEND_ADDITIVE ==> pipeline.0.blend_state
                == alpha_blending(),
    {
        let spec = specialize(key);
        let shader = self.shaders.get(key.shader).unwrap();
        (spec, shader)
    }
}

/// The pipeline key a shape is queued with: none while no shader has been
/// generated for its pair (the shape is skipped), else the view's key with
/// the shape's blend mode, its pair and the view's HDR flag.
pub fn queued_pipeline_key<H>(
    generated: &ShaderTable<H>,
    view_key: PipelineKey,
    hdr: bool,
    shader: ShaderPair,
    blend_mode: BlendMode,
) -> (key: Option<SmudPipelineKey>)
    ensures
        !generated.map().contains_key(shader) ==> key is None,
        generated.map().contains_key(shader) ==> key == Some(
            SmudPipelineKey {
                mesh: PipelineKey { bits: view_key.bits | blend_key_bits(blend_mode) },
                shader,
                hdr,
            },
        ),
{
    if generated.contains(shader) {
        Some(SmudPipelineKey { mesh: shape_key(view_key, blend_mode), shader, hdr })
    } else {
        None
    }
}

} // verus!
