//! Matched groups, and how they are batched by namespace for rendering.

use crate::config::MetricsConfig;
use crate::pattern::text_of;
use crate::position::{
    first_position, lemma_first_position, lemma_first_position_in_prefix,
    lemma_first_position_step,
};
use crate::text::str_eq;
use vstd::prelude::*;
use vstd::string::StringExecFns;

verus! {

/// A record that is exported under a name.
pub trait Named {
    /// The name that the record's `name` label carries.
    fn name(&self) -> &str;
}

/// The records that one rule matched, with the rule's metrics settings.
pub struct MatchGroup<T> {
    data: Vec<T>,
    metrics_config: MetricsConfig,
}

impl<T> MatchGroup<T> {
    /// The records of the group in the order of their insertion.
    pub closed spec fn items(&self) -> Seq<T> {
        self.data@
    }

    /// The metrics settings of the group.
    pub closed spec fn config(&self) -> MetricsConfig {
        self.metrics_config
    }

    /// A group of the records given.
    pub fn new(data: Vec<T>, metrics_config: MetricsConfig) -> (r: MatchGroup<T>)
        ensures
            r.items() == data@,
            r.config() == metrics_config,
    {
        MatchGroup { data, metrics_config }
    }

    /// Adds a record behind the others.
    pub fn insert(&mut self, data: T)
        ensures
            final(self).items() == old(self).items().push(data),
            final(self).config() == old(self).config(),
    {
        self.data.push(data);
    }

    /// The records and the metrics settings.
    pub fn into_parts(self) -> (r: (Vec<T>, MetricsConfig))
        ensures
            r.0@ == self.items(),
            r.1 == self.config(),
    {
        (self.data, self.metrics_config)
    }

    /// The number of records.
    pub fn len(&self) -> (r: usize)
        ensures
            r == self.items().len(),
    {
        self.data.len()
    }

    /// The namespace of the group's metrics, where one is set.
    pub fn namespace(&self) -> (r: &Option<String>)
        ensures
            *r == self.config().namespace,
    {
        &self.metrics_config.namespace
    }
}

/// Whether two namespaces are the same.
pub fn same_namespace(a: &Option<String>, b: &Option<String>) -> (r: bool)
    ensures
        r == (text_of(*a) == text_of(*b)),
{
    match (a, b) {
        (Some(a), Some(b)) => str_eq(a.as_str(), b.as_str()),
        (None, None) => true,
        _ => false,
    }
}

/// The characters of each namespace of a list.
pub open spec fn namespace_views(namespaces: Seq<Option<String>>) -> Seq<Option<Seq<char>>> {
    namespaces.map_values(|namespace: Option<String>| text_of(namespace))
}

/// The namespaces that have a serializer once a group of a namespace was
/// rendered: a group without records changes nothing, and a namespace that
/// is new gets a serializer behind the others.
pub open spec fn namespaces_after(
    namespaces: Seq<Option<Seq<char>>>,
    namespace: Option<Seq<char>>,
    records: nat,
) -> Seq<Option<Seq<char>>> {
    if records == 0 || first_position(namespaces, namespace) is Some {
        namespaces
    } else {
        namespaces.push(namespace)
    }
}

/// A namespace keeps its serializer: whatever is rendered later, the
/// serializer that a namespace has stays at its place, so that everything of
/// one namespace is written by one serializer.
pub proof fn lemma_serializer_is_kept(
    namespaces: Seq<Option<Seq<char>>>,
    namespace: Option<Seq<char>>,
    later: Option<Seq<char>>,
    records: nat,
)
    ensures
        first_position(namespaces, namespace) is Some ==> first_position(
            namespaces_after(namespaces, later, records),
            namespace,
        ) == first_position(namespaces, namespace),
        records > 0 ==> first_position(namespaces_after(namespaces, later, records), later)
            is Some,
        namespaces.no_duplicates() ==> namespaces_after(namespaces, later, records).no_duplicates(),
{
    lemma_first_position(namespaces, namespace);
    lemma_first_position(namespaces, later);
    let after = namespaces_after(namespaces, later, records);
    if after != namespaces {
        assert(after.drop_last() =~= namespaces);
        lemma_first_position(after, later);
        assert(after[namespaces.len() as int] == later);
    }
}

/// One record on its way into a serializer: the serializer's place, the
/// name of the label that carries the record's name, and the record.
pub struct RenderStep<T> {
    /// The place of the serializer among the renderer's namespaces.
    pub serializer: usize,
    /// The name under which the record's name is exported.
    pub label_name: String,
    /// The record.
    pub metric: T,
}

impl<T: Named> RenderStep<T> {
    /// The label that says which group the record stands for: under the
    /// label's name, the name that the record gives itself.
    pub fn label(&self) -> (r: (String, String))
        ensures
            r.0@ == self.label_name@,
    {
        (self.label_name.clone(), String::from_str(self.metric.name()))
    }
}

/// Sorts matched groups by namespace, so that everything of one namespace is
/// written by one serializer, in one block of the output.
///
/// The renderer holds, for each serializer, the namespace that it writes
/// for. The first serializer writes for no namespace.
pub struct MetricsRenderer {
    common_labels: Vec<(String, String)>,
    namespaces: Vec<Option<String>>,
}

impl MetricsRenderer {
    /// The namespaces that have a serializer, in the order of the
    /// serializers.
    pub closed spec fn serializers(&self) -> Seq<Option<Seq<char>>> {
        namespace_views(self.namespaces@)
    }

    /// The labels that every sample carries.
    pub closed spec fn labels(&self) -> Seq<(String, String)> {
        self.common_labels@
    }

    #[verifier::type_invariant]
    spec fn well_formed(self) -> bool {
        self.serializers().no_duplicates()
    }

    /// A renderer with the one serializer for no namespace.
    pub fn new(common_labels: Vec<(String, String)>) -> (r: MetricsRenderer)
        ensures
            r.serializers() == seq![None::<Seq<char>>],
            r.labels() == common_labels@,
    {
        let mut namespaces: Vec<Option<String>> = Vec::new();
        namespaces.push(None);
        proof {
            assert(namespace_views(namespaces@) =~= seq![None::<Seq<char>>]);
        }
        MetricsRenderer { common_labels, namespaces }
    }

    /// The labels that every sample carries.
    pub fn common_labels(&self) -> (r: &Vec<(String, String)>)
        ensures
            r@ == self.labels(),
    {
        &self.common_labels
    }

    /// The number of serializers.
    pub fn serializer_count(&self) -> (r: usize)
        ensures
            r == self.serializers().len(),
    {
        self.namespaces.len()
    }

    /// The namespace that each serializer writes for.
    pub fn namespaces(&self) -> (r: &Vec<Option<String>>)
        ensures
            namespace_views(r@) == self.serializers(),
    {
        &self.namespaces
    }

    /// The place of the serializer of a namespace.
    fn position(&self, namespace: &Option<String>) -> (r: Option<usize>)
        ensures
            match r {
                Some(at) => first_position(self.serializers(), text_of(*namespace)) == Some(
                    at as int,
                ),
                None => first_position(self.serializers(), text_of(*namespace)) is None,
            },
    {
        let ghost all = namespace_views(self.namespaces@);
        let mut i: usize = 0;
        proof {
            assert(all.subrange(0, 0) =~= Seq::<Option<Seq<char>>>::empty());
        }
        while i < self.namespaces.len()
            invariant
                i <= self.namespaces.len(),
                all == namespace_views(self.namespaces@),
                first_position(all.subrange(0, i as int), text_of(*namespace)) is None,
            decreases self.namespaces.len() - i,
        {
            proof {
                lemma_first_position_step(all, text_of(*namespace), i as int);
            }
            if same_namespace(&self.namespaces[i], namespace) {
                proof {
                    lemma_first_position_in_prefix(all, text_of(*namespace), i + 1, i as int);
                }
                return Some(i);
            }
            i = i + 1;
        }
        proof {
            assert(all.subrange(0, i as int) =~= all);
        }
        None
    }

    /// Sends the records of a group to the serializer of the group's
    /// namespace, in their order. Every record goes to the same serializer:
    /// the one that the namespace has already, or a new one behind the
    /// others. Each record carries its name under the label that the group's
    /// label map gives for `name`. No two serializers write for the same
    /// namespace.
    pub fn render<T>(&mut self, match_group: MatchGroup<T>) -> (r: Vec<RenderStep<T>>)
        ensures
            final(self).serializers() == namespaces_after(
                old(self).serializers(),
                text_of(match_group.config().namespace),
                match_group.items().len(),
            ),
            final(self).serializers().no_duplicates(),
            final(self).labels() == old(self).labels(),
            r@.len() == match_group.items().len(),
            forall|i: int|
                0 <= i < r@.len() ==> {
                    let step = #[trigger] r@[i];
                    &&& first_position(
                        final(self).serializers(),
                        text_of(match_group.config().namespace),
                    ) == Some(step.serializer as int)
                    &&& step.label_name@ == match_group.config().spec_name_label()
                    &&& step.metric == match_group.items()[i]
                },
    {
        proof {
            use_type_invariant(&*self);
            lemma_first_position(self.serializers(), text_of(match_group.config().namespace));
        }
        let ghost before = self.serializers();
        let ghost namespace = text_of(match_group.config().namespace);
        let (data, metrics_config) = match_group.into_parts();
        let mut steps: Vec<RenderStep<T>> = Vec::new();
        if data.len() == 0 {
            return steps;
        }
        let serializer = match self.position(&metrics_config.namespace) {
            Some(at) => at,
            None => {
                let at = self.namespaces.len();
                let mut namespaces: Vec<Option<String>> = Vec::new();
                std::mem::swap(&mut namespaces, &mut self.namespaces);
                namespaces.push(
                    match &metrics_config.namespace {
                        Some(namespace) => Some(namespace.clone()),
                        None => None,
                    },
                );
                proof {
                    assert(namespace_views(namespaces@) =~= before.push(namespace));
                    assert(before.push(namespace).drop_last() =~= before);
                }
                self.namespaces = namespaces;
                at
            },
        };
        let label_name = metrics_config.name_label();
        for metric in it: data
            invariant
                it.seq() == data@,
                steps@.len() == it.index(),
                label_name@ == metrics_config.spec_name_label(),
                forall|i: int|
                    0 <= i < steps@.len() ==> {
                        let step = #[trigger] steps@[i];
                        &&& step.serializer == serializer
                        &&& step.label_name@ == metrics_config.spec_name_label()
                        &&& step.metric == data@[i]
                    },
        {
            steps.push(RenderStep { serializer, label_name: label_name.clone(), metric });
        }
        proof {
            use_type_invariant(&*self);
        }
        steps
    }

    /// Ends the rendering: the blocks that the serializers wrote, in the
    /// order of the serializers, become one text, a line feed behind each.
    pub fn finish(self, blocks: &Vec<Vec<u8>>) -> (r: Vec<u8>)
        ensures
            r@ == joined_blocks(block_views(blocks@)),
    {
        join_blocks(blocks)
    }
}

/// The blocks of the serializers in one text: each block with a line feed
/// behind it.
pub open spec fn joined_blocks(blocks: Seq<Seq<u8>>) -> Seq<u8>
    decreases blocks.len(),
{
    if blocks.len() == 0 {
        Seq::empty()
    } else {
        joined_blocks(blocks.drop_last()) + blocks.last() + seq![10u8]
    }
}

/// The bytes of each block.
pub open spec fn block_views(blocks: Seq<Vec<u8>>) -> Seq<Seq<u8>> {
    blocks.map_values(|block: Vec<u8>| block@)
}

/// Puts the blocks that the serializers wrote into one text, a line feed
/// behind each.
pub fn join_blocks(blocks: &Vec<Vec<u8>>) -> (r: Vec<u8>)
    ensures
        r@ == joined_blocks(block_views(blocks@)),
{
    let mut text: Vec<u8> = Vec::new();
    let mut i: usize = 0;
    proof {
        assert(block_views(blocks@).subrange(0, 0) =~= Seq::<Seq<u8>>::empty());
    }
    while i < blocks.len()
        invariant
            i <= blocks.len(),
            text@ == joined_blocks(block_views(blocks@).subrange(0, i as int)),
        decreases blocks.len() - i,
    {
        let ghost before = text@;
        proof {
            let longer = block_views(blocks@).subrange(0, i + 1);
            assert(longer.drop_last() =~= block_views(blocks@).subrange(0, i as int));
            assert(longer.last() == blocks@[i as int]@);
        }
        text.extend_from_slice(blocks[i].as_slice());
        text.push(10u8);
        proof {
            assert(text@ =~= before + blocks@[i as int]@ + seq![10u8]);
        }
        i = i + 1;
    }
    proof {
        assert(block_views(blocks@).subrange(0, i as int) =~= block_views(blocks@));
    }
    text
}

} // verus!
