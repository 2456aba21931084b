//! The name that a matched cgroup is exported under, and the group that the
//! cgroups of one rule form.

use crate::config::{
    namespace_or, MetricsConfig, NamePattern, RewriteCgroupName, ShellCommandStream, Templated,
};
use crate::matcher::{CgroupMatcher, NameMatcher};
use crate::pattern::{
    bind_captures, glob_accepts, regex_captures, regex_group_names, with_named_captures,
};
use crate::render::MatchGroup;
use crate::shell::{Error, Evaluator};
use crate::string_map::StringMap;
use crate::template::{render, rendered};
use crate::text::{remove_prefix, without_prefix};
use vstd::prelude::*;
use vstd::string::StringExecFns;

verus! {

/// The namespace of cgroup metrics whose rule names none.
pub const NAMESPACE: &'static str = "cgroup";

/// How many rules are worked on at a time where nothing else is asked for.
pub const DEFAULT_CONCURRENCY: usize = 4;

/// How many rules are worked on at a time: what the setting says where it
/// is a number, and four otherwise.
pub fn concurrency(setting: Option<usize>) -> (r: usize)
    ensures
        r == match setting {
            Some(limit) => limit,
            None => DEFAULT_CONCURRENCY,
        },
{
    match setting {
        Some(limit) => limit,
        None => DEFAULT_CONCURRENCY,
    }
}

/// The variables that a path gives to a template where a pattern accepts
/// it: the named captures of a regular expression, and none for a glob.
pub open spec fn captured_variables(pattern: NamePattern, candidate: Seq<char>) -> Option<
    Map<Seq<char>, Seq<char>>,
> {
    match pattern {
        NamePattern::Glob(glob) => if glob_accepts(glob, candidate) {
            Some(Map::empty())
        } else {
            None
        },
        NamePattern::Regex(regex) => match regex_captures(regex, candidate) {
            Some(groups) => Some(
                with_named_captures(Map::empty(), regex_group_names(regex), groups),
            ),
            None => None,
        },
    }
}

impl NameMatcher {
    /// Holds the matcher against a candidate. Where it accepts, the named
    /// captures come back; a glob captures nothing.
    pub fn captures(&self, candidate: &str) -> (r: Option<StringMap>)
        ensures
            match captured_variables(self@, candidate@) {
                Some(variables) => r matches Some(found) && found@ == variables,
                None => r is None,
            },
    {
        match self {
            NameMatcher::Glob(pattern) => {
                if pattern.matches(candidate) {
                    Some(StringMap::new())
                } else {
                    None
                }
            },
            NameMatcher::Regex(regex) => {
                match regex.captures(candidate) {
                    Some(groups) => {
                        let mut variables = StringMap::new();
                        let names = regex.capture_names();
                        bind_captures(&mut variables, &names, &groups);
                        Some(variables)
                    },
                    None => None,
                }
            },
        }
    }
}

/// What gives the name of a matched cgroup: the name itself, or a shell
/// command that is still to be evaluated.
pub enum Rewritten {
    Name(String),
    Shell { command_tpl: String, variables: StringMap, output: ShellCommandStream },
}

/// What gives a name, by its contents.
pub enum RewrittenView {
    Name(Seq<char>),
    Shell { command_tpl: Seq<char>, variables: Map<Seq<char>, Seq<char>>, output: ShellCommandStream },
}

impl View for Rewritten {
    type V = RewrittenView;

    open spec fn view(&self) -> RewrittenView {
        match self {
            Rewritten::Name(name) => RewrittenView::Name(name@),
            Rewritten::Shell { command_tpl, variables, output } => RewrittenView::Shell {
                command_tpl: command_tpl@,
                variables: variables@,
                output: *output,
            },
        }
    }
}

/// What gives the name of a cgroup whose path was accepted with the
/// variables given. Without a rewrite the path is the name. A prefix is
/// removed where the path begins with it. A template is filled with the
/// variables. A shell command is left to be evaluated, from its template and
/// the variables.
pub open spec fn rewritten(
    rewrite: Option<RewriteCgroupName>,
    path: Seq<char>,
    variables: Map<Seq<char>, Seq<char>>,
) -> RewrittenView {
    match rewrite {
        None => RewrittenView::Name(path),
        Some(RewriteCgroupName::RemovePrefix { remove_prefix }) => RewrittenView::Name(
            without_prefix(path, remove_prefix@),
        ),
        Some(RewriteCgroupName::Template { name: Templated::Name(template) }) => RewrittenView::Name(
            rendered(template@, variables),
        ),
        Some(
            RewriteCgroupName::Template { name: Templated::Shell { shell, output } },
        ) => RewrittenView::Shell { command_tpl: shell@, variables, output },
    }
}

/// What gives the name of the cgroup at a path, if the rule accepts the
/// path.
pub open spec fn rewrite_of(matcher: CgroupMatcher, path: Seq<char>) -> Option<RewrittenView> {
    match captured_variables(matcher.path@, path) {
        Some(variables) => Some(rewritten(matcher.rewrite, path, variables)),
        None => None,
    }
}

impl CgroupMatcher {
    /// Holds the rule against the path of a cgroup and says what gives the
    /// cgroup's name, or `None` where the rule does not accept the path.
    pub fn rewrite(&self, path: &str) -> (r: Option<Rewritten>)
        ensures
            match rewrite_of(*self, path@) {
                Some(source) => r matches Some(found) && found@ == source,
                None => r is None,
            },
    {
        let variables = match self.path.captures(path) {
            Some(variables) => variables,
            None => {
                return None;
            },
        };
        let found = match &self.rewrite {
            None => Rewritten::Name(String::from_str(path)),
            Some(RewriteCgroupName::RemovePrefix { remove_prefix: prefix }) => Rewritten::Name(
                remove_prefix(path, prefix.as_str()),
            ),
            Some(RewriteCgroupName::Template { name: Templated::Name(template) }) => Rewritten::Name(
                render(template.as_str(), &variables),
            ),
            Some(
                RewriteCgroupName::Template { name: Templated::Shell { shell, output } },
            ) => Rewritten::Shell { command_tpl: shell.clone(), variables, output: *output },
        };
        Some(found)
    }

    /// The name that the cgroup at a path is exported under: `Ok(None)`
    /// where the rule does not accept the path, the name where the rule
    /// gives it, and otherwise whatever the evaluator makes of the rule's
    /// shell command, its error included.
    pub fn display_name<E: Evaluator>(&self, path: &str, evaluator: &E) -> (r: Result<
        Option<String>,
        Error,
    >)
        ensures
            match rewrite_of(*self, path@) {
                None => r matches Ok(None),
                Some(RewrittenView::Name(name)) => r matches Ok(Some(found)) && found@ == name,
                Some(RewrittenView::Shell { .. }) => r matches Ok(Some(_)) || r is Err,
            },
    {
        match self.rewrite(path) {
            None => Ok(None),
            Some(Rewritten::Name(name)) => Ok(Some(name)),
            Some(Rewritten::Shell { command_tpl, variables, output }) => {
                match evaluator.evaluate_blocking(command_tpl.as_str(), variables, output) {
                    Ok(name) => Ok(Some(name)),
                    Err(error) => Err(error),
                }
            },
        }
    }
}

/// The group that the records of one cgroup rule form: the records with the
/// rule's metrics settings, and `cgroup` as the namespace where the rule
/// names none.
pub fn cgroup_match_group<T>(records: Vec<T>, metrics: MetricsConfig) -> (r: MatchGroup<T>)
    ensures
        r.items() == records@,
        r.config()@ == namespace_or(metrics@, NAMESPACE@),
        r.config()@.namespace is Some,
{
    MatchGroup::new(records, metrics.with_default_namespace(NAMESPACE))
}

/// The values of the results that are no errors, in their order.
pub open spec fn successes<T, E>(results: Seq<Result<T, E>>) -> Seq<T>
    decreases results.len(),
{
    if results.len() == 0 {
        Seq::empty()
    } else {
        match results.last() {
            Ok(value) => successes(results.drop_last()).push(value),
            Err(_) => successes(results.drop_last()),
        }
    }
}

/// Drops the failures: one cgroup that cannot be read, or one rule that
/// cannot be followed, leaves the others as they are.
pub fn keep_successes<T, E>(results: Vec<Result<T, E>>) -> (r: Vec<T>)
    ensures
        r@ == successes(results@),
{
    let mut kept: Vec<T> = Vec::new();
    let ghost mut seen: Seq<Result<T, E>> = Seq::empty();
    for result in it: results
        invariant
            it.seq() == results@,
            seen == results@.subrange(0, it.index() as int),
            kept@ == successes(seen),
    {
        proof {
            let longer = results@.subrange(0, it.index() + 1);
            assert(longer.drop_last() =~= seen);
            assert(longer.last() == result);
            seen = longer;
        }
        match result {
            Ok(value) => kept.push(value),
            Err(_) => {},
        }
    }
    proof {
        assert(seen =~= results@);
    }
    kept
}

} // verus!
