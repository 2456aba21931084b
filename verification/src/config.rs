//! The configuration as it is written down: rules for cgroups and for
//! processes, each with the way its metrics are labelled.

use crate::string_map::StringMap;
use vstd::prelude::*;
use vstd::string::StringExecFns;

verus! {

/// The label under which a group's name is exported unless a rule renames it.
pub const NAME_LABEL: &'static str = "name";

/// The cache capacity that a configuration gets when it names none.
pub const DEFAULT_CACHE_SIZE: usize = 100;

/// Which output of a shell command gives the name.
#[derive(Debug, Clone, Copy, PartialEq, Eq, Structural)]
pub enum ShellCommandStream {
    Stdout,
    Stderr,
}

impl Default for ShellCommandStream {
    fn default() -> (r: ShellCommandStream)
        ensures
            r == ShellCommandStream::Stdout,
    {
        ShellCommandStream::Stdout
    }
}

/// A pattern for names, as text: a glob or a regular expression.
#[derive(Debug, Clone, PartialEq, Eq)]
pub enum NameMatch {
    /// A glob pattern or a plain string.
    Glob(String),
    /// A regular expression.
    Regex { regex: String },
}

/// A pattern for names by its characters.
pub enum NamePattern {
    Glob(Seq<char>),
    Regex(Seq<char>),
}

impl View for NameMatch {
    type V = NamePattern;

    open spec fn view(&self) -> NamePattern {
        match self {
            NameMatch::Glob(glob) => NamePattern::Glob(glob@),
            NameMatch::Regex { regex } => NamePattern::Regex(regex@),
        }
    }
}

/// A name that is a template, expanded from what a regular expression
/// captured, or the output of a shell command made from such a template.
#[derive(Debug, Clone, PartialEq, Eq)]
pub enum Templated {
    /// A template for the name itself.
    Name(String),
    /// A template for a shell command whose output is the name.
    Shell { shell: String, output: ShellCommandStream },
}

/// How the path of a matched cgroup becomes the name it is exported under.
#[derive(Debug, Clone, PartialEq, Eq)]
pub enum RewriteCgroupName {
    /// Drop this prefix from the path.
    RemovePrefix { remove_prefix: String },
    /// Make the name from a template.
    Template { name: Templated },
}

impl RewriteCgroupName {
    /// Whether the name comes from a shell command.
    pub open spec fn runs_shell(&self) -> bool {
        self matches RewriteCgroupName::Template { name: Templated::Shell { .. } }
    }

    /// Whether the name comes from a shell command.
    pub fn uses_shell(&self) -> (r: bool)
        ensures
            r == self.runs_shell(),
    {
        match self {
            RewriteCgroupName::Template { name: Templated::Shell { .. } } => true,
            _ => false,
        }
    }
}

/// Which cgroups a rule takes, and how it names them.
#[derive(Debug, Clone, PartialEq, Eq)]
pub struct CgroupMatch {
    pub path: NameMatch,
    pub rewrite: Option<RewriteCgroupName>,
}

/// Which processes a rule takes: by the executable's path, by its file name,
/// by the command name or by the whole command line; and the template of the
/// group's name.
#[derive(Debug, Clone, PartialEq, Eq)]
pub enum ProcessMatch {
    Exe { exe: NameMatch, name: String },
    ExeBase { exe_base: NameMatch, name: String },
    Comm { comm: NameMatch, name: String },
    Cmdline { cmdline: NameMatch, name: String },
}

/// How the metrics of a rule's groups are labelled and prefixed.
#[derive(Debug, PartialEq, Eq)]
pub struct MetricsConfig {
    /// New names for labels: the label `name` is exported under the name that
    /// it is bound to here.
    pub label_map: StringMap,
    /// The prefix of the metric names, where the rule sets one.
    pub namespace: Option<String>,
}

/// A metrics configuration by its contents.
pub struct MetricsConfigView {
    pub label_map: Map<Seq<char>, Seq<char>>,
    pub namespace: Option<Seq<char>>,
}

impl View for MetricsConfig {
    type V = MetricsConfigView;

    open spec fn view(&self) -> MetricsConfigView {
        MetricsConfigView {
            label_map: self.label_map@,
            namespace: match self.namespace {
                Some(namespace) => Some(namespace@),
                None => None,
            },
        }
    }
}

/// The metrics settings with `fallback` as the namespace where they name
/// none.
pub open spec fn namespace_or(metrics: MetricsConfigView, fallback: Seq<char>) -> MetricsConfigView {
    MetricsConfigView {
        label_map: metrics.label_map,
        namespace: match metrics.namespace {
            Some(namespace) => Some(namespace),
            None => Some(fallback),
        },
    }
}

impl Clone for MetricsConfig {
    fn clone(&self) -> (r: MetricsConfig)
        ensures
            r@ == self@,
    {
        let namespace = match &self.namespace {
            Some(namespace) => Some(namespace.clone()),
            None => None,
        };
        MetricsConfig { label_map: self.label_map.clone(), namespace }
    }
}

impl Default for MetricsConfig {
    /// The settings of a rule that gives none: the label `name` keeps its
    /// name, and no namespace is set.
    fn default() -> (r: MetricsConfig)
        ensures
            r@.label_map == Map::<Seq<char>, Seq<char>>::empty().insert(NAME_LABEL@, NAME_LABEL@),
            r@.namespace is None,
    {
        MetricsConfig { label_map: default_label_map(), namespace: None }
    }
}

impl MetricsConfig {
    /// The name under which the label `name` is exported: what the label map
    /// binds it to, and `name` itself where the map does not bind it.
    pub open spec fn spec_name_label(&self) -> Seq<char> {
        if self@.label_map.contains_key(NAME_LABEL@) {
            self@.label_map[NAME_LABEL@]
        } else {
            NAME_LABEL@
        }
    }

    /// The name under which the label `name` is exported.
    pub fn name_label(&self) -> (r: String)
        ensures
            r@ == self.spec_name_label(),
    {
        match self.label_map.get(NAME_LABEL) {
            Some(renamed) => renamed.clone(),
            None => String::from_str(NAME_LABEL),
        }
    }

    /// Sets the namespace to `fallback` where none is set. Afterwards a
    /// namespace is always set.
    pub fn with_default_namespace(self, fallback: &str) -> (r: MetricsConfig)
        ensures
            r@ == namespace_or(self@, fallback@),
            r@.namespace is Some,
            r.namespace is Some,
    {
        let MetricsConfig { label_map, namespace } = self;
        let namespace = match namespace {
            Some(namespace) => Some(namespace),
            None => Some(String::from_str(fallback)),
        };
        MetricsConfig { label_map, namespace }
    }
}

/// A rule for cgroups.
#[derive(Debug, Clone, PartialEq, Eq)]
pub struct CgroupConfig {
    pub match_by: CgroupMatch,
    pub metrics: MetricsConfig,
}

/// A rule for processes.
#[derive(Debug, Clone, PartialEq, Eq)]
pub struct ProcessConfig {
    pub match_by: ProcessMatch,
    pub metrics: MetricsConfig,
}

/// Settings of the evaluator of shell commands.
#[derive(Debug, Clone, Copy, PartialEq, Eq, Structural)]
pub struct ShellCommandsConfig {
    /// How many results of shell commands are remembered.
    pub cache_size: usize,
}

impl Default for ShellCommandsConfig {
    fn default() -> (r: ShellCommandsConfig)
        ensures
            r.cache_size == DEFAULT_CACHE_SIZE,
    {
        ShellCommandsConfig { cache_size: DEFAULT_CACHE_SIZE }
    }
}

/// The whole configuration.
#[derive(Debug, Clone, PartialEq, Eq)]
pub struct Config {
    pub cgroups: Vec<CgroupConfig>,
    pub processes: Vec<ProcessConfig>,
    pub shell_commands: ShellCommandsConfig,
}

/// The label map of a rule that names none: `name` stays `name`.
pub fn default_label_map() -> (r: StringMap)
    ensures
        r@ == Map::<Seq<char>, Seq<char>>::empty().insert(NAME_LABEL@, NAME_LABEL@),
{
    let mut map = StringMap::new();
    map.insert(String::from_str(NAME_LABEL), String::from_str(NAME_LABEL));
    map
}

/// The capacity of the cache of a configuration that names none.
pub fn default_cache_size() -> (r: usize)
    ensures
        r == DEFAULT_CACHE_SIZE,
{
    DEFAULT_CACHE_SIZE
}

} // verus!
