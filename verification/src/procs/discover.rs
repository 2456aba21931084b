//! Which rules accept a process, and the groups that the accepted processes
//! form.

use crate::config::{namespace_or, MetricsConfig, MetricsConfigView, NamePattern};
use crate::matcher::{MatchableProcessConfig, NameMatcher};
use crate::pattern::{
    bind_captures, glob_accepts, regex_captures, regex_group_names, text_of, with_named_captures,
};
use crate::position::{
    first_position, lemma_first_position, lemma_first_position_in_prefix,
    lemma_first_position_step,
};
use crate::procs::metrics::{aggregate, proc_views, ProcessMetrics};
use crate::procs::{selected_value, Proc, ProcView};
use crate::render::MatchGroup;
use crate::string_map::StringMap;
use crate::template::{render, rendered};
use crate::text::{decimal, decimal_string, str_eq};
use vstd::prelude::*;
use vstd::string::StringExecFns;

verus! {

/// The namespace of process metrics whose rule names none.
pub const NAMESPACE: &'static str = "process";

/// The variables that every process brings to the template of a group's
/// name: its id, the path of its executable and its command name.
pub open spec fn process_variables(process: ProcView) -> Map<Seq<char>, Seq<char>> {
    Map::<Seq<char>, Seq<char>>::empty().insert("pid"@, decimal(process.pid as int)).insert(
        "exe"@,
        process.exe,
    ).insert("comm"@, process.stat.comm)
}

/// The name of the group that a process falls into by a rule, if the rule
/// accepts it. A glob that matches gives the template as it is written. A
/// regular expression that matches gives the template filled with the
/// process's variables and the named captures.
pub open spec fn group_name_for(
    matcher: NamePattern,
    value: Seq<char>,
    template: Seq<char>,
    process: ProcView,
) -> Option<Seq<char>> {
    match matcher {
        NamePattern::Glob(glob) => if glob_accepts(glob, value) {
            Some(template)
        } else {
            None
        },
        NamePattern::Regex(regex) => match regex_captures(regex, value) {
            Some(groups) => Some(
                rendered(
                    template,
                    with_named_captures(
                        process_variables(process),
                        regex_group_names(regex),
                        groups,
                    ),
                ),
            ),
            None => None,
        },
    }
}

/// The variables that a process brings to a template.
pub fn init_variables_from_process(process: &Proc) -> (r: StringMap)
    ensures
        r@ == process_variables(process@),
{
    let mut variables = StringMap::new();
    variables.insert(String::from_str("pid"), decimal_string(process.pid() as i64));
    variables.insert(String::from_str("exe"), process.exe().to_owned());
    variables.insert(String::from_str("comm"), process.comm().to_owned());
    variables
}

impl NameMatcher {
    /// The name of the group that `process` falls into when this matcher is
    /// held against `proc_value`, or `None` where it does not match.
    pub fn matching_group_name(&self, proc_value: &str, group_name: &str, process: &Proc) -> (r:
        Option<String>)
        ensures
            text_of(r) == group_name_for(self@, proc_value@, group_name@, process@),
    {
        match self {
            NameMatcher::Glob(pattern) => {
                if pattern.matches(proc_value) {
                    Some(String::from_str(group_name))
                } else {
                    None
                }
            },
            NameMatcher::Regex(regex) => {
                match regex.captures(proc_value) {
                    Some(groups) => {
                        let mut variables = init_variables_from_process(process);
                        let names = regex.capture_names();
                        bind_captures(&mut variables, &names, &groups);
                        Some(render(group_name, &variables))
                    },
                    None => None,
                }
            },
        }
    }
}

/// The name of the group that a process falls into by a rule, if the rule
/// accepts it.
pub open spec fn rule_group_name(rule: MatchableProcessConfig, process: ProcView) -> Option<
    Seq<char>,
> {
    group_name_for(
        rule.match_by.spec_matcher()@,
        selected_value(rule.match_by.selector(), process),
        rule.match_by.spec_name(),
        process,
    )
}

/// A rule that accepted a process: its place among the rules, the name of
/// the group that the process falls into by it, and the rule's metrics
/// settings.
#[derive(Debug, Clone, PartialEq, Eq)]
pub struct GroupMatch {
    pub rule: usize,
    pub name: String,
    pub metrics: MetricsConfig,
}

/// An accepting rule by its contents.
pub struct Accepted {
    pub rule: int,
    pub name: Seq<char>,
    pub metrics: MetricsConfigView,
}

impl View for GroupMatch {
    type V = Accepted;

    open spec fn view(&self) -> Accepted {
        Accepted { rule: self.rule as int, name: self.name@, metrics: self.metrics@ }
    }
}

/// The views of a list of matches.
pub open spec fn match_views(matches: Seq<GroupMatch>) -> Seq<Accepted> {
    matches.map_values(|m: GroupMatch| m@)
}

/// The rules among the first `count` that accept a process, in their order.
pub open spec fn accepted_among(
    rules: Seq<MatchableProcessConfig>,
    process: ProcView,
    count: nat,
) -> Seq<Accepted>
    decreases count,
{
    if count == 0 {
        Seq::empty()
    } else {
        let earlier = accepted_among(rules, process, (count - 1) as nat);
        match rule_group_name(rules[count - 1], process) {
            Some(name) => earlier.push(
                Accepted { rule: count - 1, name, metrics: rules[count - 1].metrics@ },
            ),
            None => earlier,
        }
    }
}

/// The rules that accept a process, in their order.
pub open spec fn accepted_by(rules: Seq<MatchableProcessConfig>, process: ProcView) -> Seq<
    Accepted,
> {
    accepted_among(rules, process, rules.len())
}

/// The number of rules among the first `count` that accept a process.
pub open spec fn accepting_rules(
    rules: Seq<MatchableProcessConfig>,
    process: ProcView,
    count: nat,
) -> nat
    decreases count,
{
    if count == 0 {
        0
    } else if rule_group_name(rules[count - 1], process) is Some {
        accepting_rules(rules, process, (count - 1) as nat) + 1
    } else {
        accepting_rules(rules, process, (count - 1) as nat)
    }
}

/// A process that K rules accept has K matches: one for each accepting
/// rule, none for another.
pub proof fn lemma_one_match_per_accepting_rule(
    rules: Seq<MatchableProcessConfig>,
    process: ProcView,
    count: nat,
)
    requires
        count <= rules.len(),
    ensures
        accepted_among(rules, process, count).len() == accepting_rules(rules, process, count),
        forall|j: int|
            0 <= j < accepted_among(rules, process, count).len() ==> {
                let found = #[trigger] accepted_among(rules, process, count)[j];
                &&& 0 <= found.rule < count
                &&& rule_group_name(rules[found.rule], process) == Some(found.name)
                &&& found.metrics == rules[found.rule].metrics@
            },
        forall|i: int, j: int|
            0 <= i < j < accepted_among(rules, process, count).len() ==> accepted_among(
                rules,
                process,
                count,
            )[i].rule < accepted_among(rules, process, count)[j].rule,
    decreases count,
{
    if count > 0 {
        lemma_one_match_per_accepting_rule(rules, process, (count - 1) as nat);
    }
}

/// Holds a process against every rule. A process may be accepted by several
/// rules: it then falls into the group of each of them.
pub fn matching_groups(process: &Proc, configs: &Vec<MatchableProcessConfig>) -> (r: Vec<
    GroupMatch,
>)
    ensures
        match_views(r@) == accepted_by(configs@, process@),
        r@.len() == accepting_rules(configs@, process@, configs@.len()),
{
    let mut matches: Vec<GroupMatch> = Vec::new();
    let mut i: usize = 0;
    proof {
        assert(match_views(matches@) =~= accepted_among(configs@, process@, 0));
    }
    while i < configs.len()
        invariant
            i <= configs.len(),
            match_views(matches@) == accepted_among(configs@, process@, i as nat),
        decreases configs.len() - i,
    {
        let config = &configs[i];
        let proc_value = process.value_for_matcher(&config.match_by);
        let group_name = config.match_by.name();
        let ghost before = matches@;
        match config.match_by.matcher().matching_group_name(proc_value, group_name, process) {
            Some(name) => {
                let found = GroupMatch { rule: i, name, metrics: config.metrics.clone() };
                matches.push(found);
                proof {
                    assert(match_views(matches@) =~= match_views(before).push(found@));
                }
            },
            None => {},
        }
        i = i + 1;
    }
    proof {
        lemma_one_match_per_accepting_rule(configs@, process@, configs@.len());
    }
    matches
}

/// A group of processes by its contents.
pub struct GroupView {
    pub name: Seq<char>,
    pub members: Seq<ProcView>,
    pub metrics: MetricsConfigView,
}

/// The names of the groups, in the order of the groups.
pub open spec fn group_names(groups: Seq<GroupView>) -> Seq<Seq<char>> {
    groups.map_values(|group: GroupView| group.name)
}

/// The place of the group of a name, if there is one.
pub open spec fn group_position(groups: Seq<GroupView>, name: Seq<char>) -> Option<int> {
    first_position(group_names(groups), name)
}

/// The groups after a process fell into the group of a name: it is added
/// behind the members of that group, or, where there is no such group yet,
/// it is the first member of a new group at the end, with the metrics
/// settings given and the default namespace where they name none.
pub open spec fn with_member(
    groups: Seq<GroupView>,
    name: Seq<char>,
    process: ProcView,
    metrics: MetricsConfigView,
) -> Seq<GroupView> {
    match group_position(groups, name) {
        Some(at) => groups.update(
            at,
            GroupView { members: groups[at].members.push(process), ..groups[at] },
        ),
        None => groups.push(
            GroupView { name, members: seq![process], metrics: namespace_or(metrics, NAMESPACE@) },
        ),
    }
}

/// The groups after a process fell into the groups of its first `count`
/// matches.
pub open spec fn with_matches(
    groups: Seq<GroupView>,
    process: ProcView,
    matches: Seq<Accepted>,
    count: nat,
) -> Seq<GroupView>
    decreases count,
{
    if count == 0 {
        groups
    } else {
        let found = matches[count - 1];
        with_member(
            with_matches(groups, process, matches, (count - 1) as nat),
            found.name,
            process,
            found.metrics,
        )
    }
}

/// The number of members of all groups together.
pub open spec fn total_members(groups: Seq<GroupView>) -> nat
    decreases groups.len(),
{
    if groups.len() == 0 {
        0
    } else {
        total_members(groups.drop_last()) + groups.last().members.len()
    }
}

/// Whether every group has a namespace.
pub open spec fn namespaces_set(groups: Seq<GroupView>) -> bool {
    forall|i: int| 0 <= i < groups.len() ==> (#[trigger] groups[i]).metrics.namespace is Some
}

/// Whether no two groups have the same name.
pub open spec fn names_distinct(groups: Seq<GroupView>) -> bool {
    forall|i: int, j: int|
        0 <= i < j < groups.len() ==> (#[trigger] groups[i]).name != (#[trigger] groups[j]).name
}

/// Where a position is found, the group there has the name, and no group
/// before it; where none is found, no group has the name.
pub proof fn lemma_group_position(groups: Seq<GroupView>, name: Seq<char>)
    ensures
        match group_position(groups, name) {
            Some(at) => 0 <= at < groups.len() && groups[at].name == name && forall|j: int|
                0 <= j < at ==> (#[trigger] groups[j]).name != name,
            None => forall|j: int| 0 <= j < groups.len() ==> (#[trigger] groups[j]).name != name,
        },
{
    lemma_first_position(group_names(groups), name);
    assert forall|j: int| 0 <= j < groups.len() implies group_names(groups)[j]
        == (#[trigger] groups[j]).name by {}
}

/// Changing the members of one group changes the total by as much.
proof fn lemma_total_members_update(groups: Seq<GroupView>, at: int, changed: GroupView)
    requires
        0 <= at < groups.len(),
    ensures
        total_members(groups.update(at, changed)) == total_members(groups)
            - groups[at].members.len() + changed.members.len(),
    decreases groups.len(),
{
    let updated = groups.update(at, changed);
    if at == groups.len() - 1 {
        assert(updated.drop_last() =~= groups.drop_last());
    } else {
        assert(updated.drop_last() =~= groups.drop_last().update(at, changed));
        lemma_total_members_update(groups.drop_last(), at, changed);
    }
}

/// A process that falls into a group is one more member, in one group, and
/// the groups keep their namespaces and their distinct names.
pub proof fn lemma_with_member(
    groups: Seq<GroupView>,
    name: Seq<char>,
    process: ProcView,
    metrics: MetricsConfigView,
)
    ensures
        total_members(with_member(groups, name, process, metrics)) == total_members(groups) + 1,
        namespaces_set(groups) ==> namespaces_set(with_member(groups, name, process, metrics)),
        names_distinct(groups) ==> names_distinct(with_member(groups, name, process, metrics)),
{
    lemma_group_position(groups, name);
    let after = with_member(groups, name, process, metrics);
    match group_position(groups, name) {
        Some(at) => {
            lemma_total_members_update(
                groups,
                at,
                GroupView { members: groups[at].members.push(process), ..groups[at] },
            );
        },
        None => {
            assert(after.drop_last() =~= groups);
        },
    }
}

/// A process that K rules accept becomes K members: one in the group of
/// each rule that accepts it.
pub proof fn lemma_with_matches(
    groups: Seq<GroupView>,
    process: ProcView,
    matches: Seq<Accepted>,
    count: nat,
)
    requires
        count <= matches.len(),
    ensures
        total_members(with_matches(groups, process, matches, count)) == total_members(groups)
            + count,
        namespaces_set(groups) ==> namespaces_set(with_matches(groups, process, matches, count)),
        names_distinct(groups) ==> names_distinct(with_matches(groups, process, matches, count)),
    decreases count,
{
    if count > 0 {
        lemma_with_matches(groups, process, matches, (count - 1) as nat);
        let found = matches[count - 1];
        lemma_with_member(
            with_matches(groups, process, matches, (count - 1) as nat),
            found.name,
            process,
            found.metrics,
        );
    }
}

/// The contents of a list of named groups.
pub open spec fn group_views(groups: Seq<(String, MatchGroup<Proc>)>) -> Seq<GroupView> {
    Seq::new(
        groups.len(),
        |i: int|
            GroupView {
                name: groups[i].0@,
                members: proc_views(groups[i].1.items()),
                metrics: groups[i].1.config()@,
            },
    )
}

/// The groups that the accepted processes of one scrape form, in the order
/// in which the groups came up.
pub struct ProcessGroups {
    groups: Vec<(String, MatchGroup<Proc>)>,
}

impl View for ProcessGroups {
    type V = Seq<GroupView>;

    closed spec fn view(&self) -> Seq<GroupView> {
        group_views(self.groups@)
    }
}

impl ProcessGroups {
    #[verifier::type_invariant]
    spec fn well_formed(self) -> bool {
        namespaces_set(self@) && names_distinct(self@)
    }

    /// No groups.
    pub fn new() -> (r: ProcessGroups)
        ensures
            r@ == Seq::<GroupView>::empty(),
    {
        let r = ProcessGroups { groups: Vec::new() };
        assert(r@ =~= Seq::<GroupView>::empty());
        r
    }

    /// The number of groups.
    pub fn len(&self) -> (r: usize)
        ensures
            r == self@.len(),
    {
        self.groups.len()
    }

    /// The place of the group of a name, if there is one.
    fn position(&self, name: &str) -> (r: Option<usize>)
        ensures
            match r {
                Some(at) => group_position(self@, name@) == Some(at as int),
                None => group_position(self@, name@) is None,
            },
    {
        let ghost names = group_names(self@);
        let mut i: usize = 0;
        proof {
            assert(names.subrange(0, 0) =~= Seq::<Seq<char>>::empty());
        }
        while i < self.groups.len()
            invariant
                i <= self.groups.len(),
                names == group_names(self@),
                first_position(names.subrange(0, i as int), name@) is None,
            decreases self.groups.len() - i,
        {
            proof {
                lemma_first_position_step(names, name@, i as int);
                assert(names[i as int] == self.groups@[i as int].0@);
            }
            if str_eq(self.groups[i].0.as_str(), name) {
                proof {
                    lemma_first_position_in_prefix(names, name@, i + 1, i as int);
                }
                return Some(i);
            }
            i = i + 1;
        }
        proof {
            assert(names.subrange(0, i as int) =~= names);
        }
        None
    }

    /// Puts a process into the group of each of its matches, in the order of
    /// the matches. A process with K matches becomes K members.
    pub fn insert_matches(&mut self, process: &Proc, matches: Vec<GroupMatch>)
        ensures
            final(self)@ == with_matches(
                old(self)@,
                process@,
                match_views(matches@),
                matches@.len(),
            ),
            total_members(final(self)@) == total_members(old(self)@) + matches@.len(),
            namespaces_set(final(self)@),
            names_distinct(final(self)@),
    {
        let ghost before = self@;
        let ghost all = match_views(matches@);
        for found in it: matches
            invariant
                it.seq() == matches@,
                all == match_views(matches@),
                self@ == with_matches(before, process@, all, it.index() as nat),
        {
            let GroupMatch { rule: _, name, metrics } = found;
            self.insert_member(name, process.clone(), metrics);
        }
        proof {
            use_type_invariant(&*self);
            lemma_with_matches(before, process@, all, matches@.len());
        }
    }

    /// The metrics of every group: one record for each group, under the
    /// group's name, made of all its members, with the group's metrics
    /// settings. Every group that comes out has a namespace.
    pub fn into_metrics(self) -> (r: Vec<MatchGroup<ProcessMetrics>>)
        ensures
            r@.len() == self@.len(),
            forall|i: int|
                0 <= i < r@.len() ==> {
                    let group = #[trigger] r@[i];
                    &&& group.items().len() == 1
                    &&& group.items()[0]@ == aggregate(self@[i].members, self@[i].name)
                    &&& group.config()@ == self@[i].metrics
                    &&& group.config()@.namespace is Some
                },
    {
        proof {
            use_type_invariant(&self);
        }
        let ghost before = self@;
        let ProcessGroups { groups } = self;
        let mut all: Vec<MatchGroup<ProcessMetrics>> = Vec::new();
        for named in it: groups
            invariant
                it.seq() == groups@,
                before == group_views(groups@),
                namespaces_set(before),
                all@.len() == it.index(),
                forall|i: int|
                    0 <= i < all@.len() ==> {
                        let group = #[trigger] all@[i];
                        &&& group.items().len() == 1
                        &&& group.items()[0]@ == aggregate(before[i].members, before[i].name)
                        &&& group.config()@ == before[i].metrics
                        &&& group.config()@.namespace is Some
                    },
        {
            let (name, group) = named;
            let (data, config) = group.into_parts();
            let metrics = ProcessMetrics::from_processes(&data, name.as_str());
            let mut records: Vec<ProcessMetrics> = Vec::new();
            records.push(metrics);
            proof {
                assert(before[it.index() as int].metrics.namespace is Some);
            }
            all.push(MatchGroup::new(records, config));
        }
        all
    }

    /// Puts a process into the group of a name; see [`with_member`].
    fn insert_member(&mut self, name: String, process: Proc, metrics: MetricsConfig)
        ensures
            final(self)@ == with_member(old(self)@, name@, process@, metrics@),
    {
        proof {
            use_type_invariant(&*self);
            lemma_with_member(self@, name@, process@, metrics@);
            lemma_group_position(self@, name@);
        }
        let ghost before = self@;
        let found = self.position(name.as_str());
        let mut groups: Vec<(String, MatchGroup<Proc>)> = Vec::new();
        std::mem::swap(&mut groups, &mut self.groups);
        match found {
            Some(at) => {
                groups[at].1.insert(process);
                proof {
                    assert(proc_views(groups@[at as int].1.items()) =~= before[at as int].members.push(
                        process@,
                    ));
                }
            },
            None => {
                let metrics = metrics.with_default_namespace(NAMESPACE);
                let mut members: Vec<Proc> = Vec::new();
                members.push(process);
                let group = MatchGroup::new(members, metrics);
                proof {
                    assert(proc_views(group.items()) =~= seq![process@]);
                }
                groups.push((name, group));
            },
        }
        proof {
            assert(group_views(groups@) =~= with_member(before, name@, process@, metrics@));
        }
        self.groups = groups;
    }
}

} // verus!
