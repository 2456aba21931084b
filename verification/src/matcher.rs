//! Rules ready for matching: the configuration with every pattern compiled.

use crate::config::{
    CgroupConfig, CgroupMatch, Config, MetricsConfig, NameMatch, NamePattern, ProcessConfig,
    ProcessMatch, RewriteCgroupName, ShellCommandsConfig,
};
use crate::pattern::{glob_compiles, regex_compiles, CompiledGlob, CompiledRegex};
use crate::text::{concat, decimal, index_string};
use vstd::prelude::*;
use vstd::string::StringExecFns;

verus! {

/// Why a matcher was refused.
#[derive(Debug, Clone, PartialEq, Eq)]
pub enum MatcherError {
    /// The glob does not compile.
    InvalidGlob { pattern: String, reason: String },
    /// The regular expression does not compile.
    InvalidRegex { pattern: String, reason: String },
    /// A cgroup rule that matches by a glob names its groups by a shell
    /// command, which needs the captures of a regular expression.
    ShellRewriteWithGlob,
}

/// Why a matcher was refused, without the compiler's words.
pub enum MatcherFault {
    InvalidGlob(Seq<char>),
    InvalidRegex(Seq<char>),
    ShellRewriteWithGlob,
}

impl View for MatcherError {
    type V = MatcherFault;

    open spec fn view(&self) -> MatcherFault {
        match self {
            MatcherError::InvalidGlob { pattern, .. } => MatcherFault::InvalidGlob(pattern@),
            MatcherError::InvalidRegex { pattern, .. } => MatcherFault::InvalidRegex(pattern@),
            MatcherError::ShellRewriteWithGlob => MatcherFault::ShellRewriteWithGlob,
        }
    }
}

impl MatcherError {
    /// The error in words.
    pub open spec fn spec_message(&self) -> Seq<char> {
        match self {
            MatcherError::InvalidGlob { pattern, reason } => "Invalid glob pattern "@ + pattern@
                + ": "@ + reason@,
            MatcherError::InvalidRegex { pattern, reason } => "Invalid regex "@ + pattern@ + ": "@
                + reason@,
            MatcherError::ShellRewriteWithGlob =>
                "Cgroup matcher with glob path cannot use shell command rewrite for the name"@,
        }
    }

    /// The error in words.
    pub fn message(&self) -> (r: String)
        ensures
            r@ == self.spec_message(),
    {
        match self {
            MatcherError::InvalidGlob { pattern, reason } => {
                let head = concat("Invalid glob pattern ", pattern.as_str());
                let head = concat(head.as_str(), ": ");
                concat(head.as_str(), reason.as_str())
            },
            MatcherError::InvalidRegex { pattern, reason } => {
                let head = concat("Invalid regex ", pattern.as_str());
                let head = concat(head.as_str(), ": ");
                concat(head.as_str(), reason.as_str())
            },
            MatcherError::ShellRewriteWithGlob => String::from_str(
                "Cgroup matcher with glob path cannot use shell command rewrite for the name",
            ),
        }
    }
}

/// A compiled pattern for names.
#[derive(Debug)]
pub enum NameMatcher {
    Glob(CompiledGlob),
    Regex(CompiledRegex),
}

impl View for NameMatcher {
    type V = NamePattern;

    /// The pattern that the matcher was compiled from.
    open spec fn view(&self) -> NamePattern {
        match self {
            NameMatcher::Glob(glob) => NamePattern::Glob(glob@),
            NameMatcher::Regex(regex) => NamePattern::Regex(regex@),
        }
    }
}

impl Clone for NameMatcher {
    fn clone(&self) -> (r: NameMatcher)
        ensures
            r@ == self@,
    {
        match self {
            NameMatcher::Glob(glob) => NameMatcher::Glob(glob.clone()),
            NameMatcher::Regex(regex) => NameMatcher::Regex(regex.clone()),
        }
    }
}

/// What is wrong with a pattern, if anything: it does not compile.
pub open spec fn pattern_fault(pattern: NamePattern) -> Option<MatcherFault> {
    match pattern {
        NamePattern::Glob(glob) => if glob_compiles(glob) {
            None
        } else {
            Some(MatcherFault::InvalidGlob(glob))
        },
        NamePattern::Regex(regex) => if regex_compiles(regex) {
            None
        } else {
            Some(MatcherFault::InvalidRegex(regex))
        },
    }
}

impl NameMatcher {
    /// Compiles a pattern. It is refused exactly when the glob or the regular
    /// expression does not compile.
    pub fn try_from(value: NameMatch) -> (r: Result<NameMatcher, MatcherError>)
        ensures
            r is Ok <==> pattern_fault(value@) is None,
            r matches Ok(matcher) ==> matcher@ == value@,
            r matches Err(error) ==> Some(error@) == pattern_fault(value@),
    {
        match value {
            NameMatch::Glob(glob) => match CompiledGlob::new(glob.as_str()) {
                Ok(compiled) => Ok(NameMatcher::Glob(compiled)),
                Err(reason) => Err(MatcherError::InvalidGlob { pattern: glob, reason }),
            },
            NameMatch::Regex { regex } => match CompiledRegex::new(regex.as_str()) {
                Ok(compiled) => Ok(NameMatcher::Regex(compiled)),
                Err(reason) => Err(MatcherError::InvalidRegex { pattern: regex, reason }),
            },
        }
    }

    /// The matcher as `Glob(..)` or `Regex(..)` around its pattern.
    pub open spec fn spec_to_string(&self) -> Seq<char> {
        match self@ {
            NamePattern::Glob(glob) => "Glob("@ + glob + ")"@,
            NamePattern::Regex(regex) => "Regex("@ + regex + ")"@,
        }
    }

    /// The matcher as `Glob(..)` or `Regex(..)` around its pattern.
    pub fn to_string(&self) -> (r: String)
        ensures
            r@ == self.spec_to_string(),
    {
        match self {
            NameMatcher::Glob(glob) => {
                let head = concat("Glob(", glob.as_str());
                concat(head.as_str(), ")")
            },
            NameMatcher::Regex(regex) => {
                let head = concat("Regex(", regex.as_str());
                concat(head.as_str(), ")")
            },
        }
    }
}

/// A cgroup rule's matcher: the compiled pattern for the path, and how a
/// matched path is renamed.
#[derive(Debug, Clone)]
pub struct CgroupMatcher {
    pub path: NameMatcher,
    pub rewrite: Option<RewriteCgroupName>,
}

/// Whether a rewrite names the group by a shell command.
pub open spec fn rewrite_runs_shell(rewrite: Option<RewriteCgroupName>) -> bool {
    rewrite matches Some(rewrite) && rewrite.runs_shell()
}

/// What is wrong with a cgroup rule's matcher, if anything: its pattern does
/// not compile, or it is a glob beside a shell command.
pub open spec fn cgroup_match_fault(value: CgroupMatch) -> Option<MatcherFault> {
    if pattern_fault(value.path@) is Some {
        pattern_fault(value.path@)
    } else if value.path is Glob && rewrite_runs_shell(value.rewrite) {
        Some(MatcherFault::ShellRewriteWithGlob)
    } else {
        None
    }
}

impl CgroupMatcher {
    /// Compiles a cgroup rule's matcher. It is refused when the pattern does
    /// not compile, and when a glob stands beside a rewrite by a shell
    /// command.
    pub fn try_from(value: CgroupMatch) -> (r: Result<CgroupMatcher, MatcherError>)
        ensures
            r is Ok <==> cgroup_match_fault(value) is None,
            r matches Ok(matcher) ==> matcher.path@ == value.path@ && matcher.rewrite
                == value.rewrite,
            r matches Err(error) ==> Some(error@) == cgroup_match_fault(value),
    {
        let CgroupMatch { path, rewrite } = value;
        let path = match NameMatcher::try_from(path) {
            Ok(path) => path,
            Err(error) => {
                return Err(error);
            },
        };
        let by_glob = match &path {
            NameMatcher::Glob(_) => true,
            NameMatcher::Regex(_) => false,
        };
        let by_shell = match &rewrite {
            Some(rewrite) => rewrite.uses_shell(),
            None => false,
        };
        if by_glob && by_shell {
            return Err(MatcherError::ShellRewriteWithGlob);
        }
        Ok(CgroupMatcher { path, rewrite })
    }
}

/// What of a process a rule looks at.
#[derive(Debug, Clone, Copy, PartialEq, Eq, Structural)]
pub enum Selector {
    /// The full path of the executable.
    Exe,
    /// The file name of the executable.
    ExeBase,
    /// The command name.
    Comm,
    /// The whole command line.
    Cmdline,
}

/// A process rule's matcher: what of the process is matched, the compiled
/// pattern, and the template of the group's name.
#[derive(Debug, Clone)]
pub enum ProcessMatcher {
    Exe { exe: NameMatcher, name: String },
    ExeBase { exe_base: NameMatcher, name: String },
    Comm { comm: NameMatcher, name: String },
    Cmdline { cmdline: NameMatcher, name: String },
}

impl ProcessMatch {
    /// What of a process the rule looks at.
    pub open spec fn selector(&self) -> Selector {
        match self {
            ProcessMatch::Exe { .. } => Selector::Exe,
            ProcessMatch::ExeBase { .. } => Selector::ExeBase,
            ProcessMatch::Comm { .. } => Selector::Comm,
            ProcessMatch::Cmdline { .. } => Selector::Cmdline,
        }
    }

    /// The rule's pattern.
    pub open spec fn pattern(&self) -> NamePattern {
        match self {
            ProcessMatch::Exe { exe, .. } => exe@,
            ProcessMatch::ExeBase { exe_base, .. } => exe_base@,
            ProcessMatch::Comm { comm, .. } => comm@,
            ProcessMatch::Cmdline { cmdline, .. } => cmdline@,
        }
    }

    /// The template of the group's name.
    pub open spec fn name_template(&self) -> Seq<char> {
        match self {
            ProcessMatch::Exe { name, .. } => name@,
            ProcessMatch::ExeBase { name, .. } => name@,
            ProcessMatch::Comm { name, .. } => name@,
            ProcessMatch::Cmdline { name, .. } => name@,
        }
    }
}

impl ProcessMatcher {
    /// What of a process the rule looks at.
    pub open spec fn selector(&self) -> Selector {
        match self {
            ProcessMatcher::Exe { .. } => Selector::Exe,
            ProcessMatcher::ExeBase { .. } => Selector::ExeBase,
            ProcessMatcher::Comm { .. } => Selector::Comm,
            ProcessMatcher::Cmdline { .. } => Selector::Cmdline,
        }
    }

    /// The rule's compiled pattern.
    pub open spec fn spec_matcher(&self) -> NameMatcher {
        match self {
            ProcessMatcher::Exe { exe, .. } => *exe,
            ProcessMatcher::ExeBase { exe_base, .. } => *exe_base,
            ProcessMatcher::Comm { comm, .. } => *comm,
            ProcessMatcher::Cmdline { cmdline, .. } => *cmdline,
        }
    }

    /// The template of the group's name.
    pub open spec fn spec_name(&self) -> Seq<char> {
        match self {
            ProcessMatcher::Exe { name, .. } => name@,
            ProcessMatcher::ExeBase { name, .. } => name@,
            ProcessMatcher::Comm { name, .. } => name@,
            ProcessMatcher::Cmdline { name, .. } => name@,
        }
    }

    /// Whether this matcher is `source` with its pattern compiled.
    pub open spec fn compiled_from(&self, source: ProcessMatch) -> bool {
        &&& self.selector() == source.selector()
        &&& self.spec_matcher()@ == source.pattern()
        &&& self.spec_name() == source.name_template()
    }

    /// Compiles a process rule's matcher. It is refused exactly when the
    /// pattern does not compile.
    pub fn try_from(value: ProcessMatch) -> (r: Result<ProcessMatcher, MatcherError>)
        ensures
            r is Ok <==> pattern_fault(value.pattern()) is None,
            r matches Ok(matcher) ==> matcher.compiled_from(value),
            r matches Err(error) ==> Some(error@) == pattern_fault(value.pattern()),
    {
        match value {
            ProcessMatch::Exe { exe, name } => match NameMatcher::try_from(exe) {
                Ok(exe) => Ok(ProcessMatcher::Exe { exe, name }),
                Err(error) => Err(error),
            },
            ProcessMatch::ExeBase { exe_base, name } => match NameMatcher::try_from(exe_base) {
                Ok(exe_base) => Ok(ProcessMatcher::ExeBase { exe_base, name }),
                Err(error) => Err(error),
            },
            ProcessMatch::Comm { comm, name } => match NameMatcher::try_from(comm) {
                Ok(comm) => Ok(ProcessMatcher::Comm { comm, name }),
                Err(error) => Err(error),
            },
            ProcessMatch::Cmdline { cmdline, name } => match NameMatcher::try_from(cmdline) {
                Ok(cmdline) => Ok(ProcessMatcher::Cmdline { cmdline, name }),
                Err(error) => Err(error),
            },
        }
    }

    /// The template of the group's name, as the rule gives it.
    #[must_use]
    pub fn name(&self) -> (r: &str)
        ensures
            r@ == self.spec_name(),
    {
        match self {
            ProcessMatcher::Cmdline { name, .. } => name.as_str(),
            ProcessMatcher::Comm { name, .. } => name.as_str(),
            ProcessMatcher::Exe { name, .. } => name.as_str(),
            ProcessMatcher::ExeBase { name, .. } => name.as_str(),
        }
    }

    /// The rule's compiled pattern.
    #[must_use]
    pub fn matcher(&self) -> (r: &NameMatcher)
        ensures
            *r == self.spec_matcher(),
    {
        match self {
            ProcessMatcher::Exe { exe, .. } => exe,
            ProcessMatcher::ExeBase { exe_base, .. } => exe_base,
            ProcessMatcher::Comm { comm, .. } => comm,
            ProcessMatcher::Cmdline { cmdline, .. } => cmdline,
        }
    }
}

/// A cgroup rule with its matcher compiled.
#[derive(Debug, Clone)]
pub struct MatchableCgroupConfig {
    pub match_by: CgroupMatcher,
    pub metrics: MetricsConfig,
}

/// A process rule with its matcher compiled.
#[derive(Debug, Clone)]
pub struct MatchableProcessConfig {
    pub match_by: ProcessMatcher,
    pub metrics: MetricsConfig,
}

impl MatchableCgroupConfig {
    /// Whether this rule is `source` with its pattern compiled.
    pub open spec fn compiled_from(&self, source: CgroupConfig) -> bool {
        &&& self.match_by.path@ == source.match_by.path@
        &&& self.match_by.rewrite == source.match_by.rewrite
        &&& self.metrics == source.metrics
    }

    /// Compiles a cgroup rule; see [`CgroupMatcher::try_from`].
    pub fn try_from(value: CgroupConfig) -> (r: Result<MatchableCgroupConfig, MatcherError>)
        ensures
            r is Ok <==> cgroup_match_fault(value.match_by) is None,
            r matches Ok(rule) ==> rule.compiled_from(value),
            r matches Err(error) ==> Some(error@) == cgroup_match_fault(value.match_by),
    {
        let CgroupConfig { match_by, metrics } = value;
        match CgroupMatcher::try_from(match_by) {
            Ok(match_by) => Ok(MatchableCgroupConfig { match_by, metrics }),
            Err(error) => Err(error),
        }
    }
}

impl MatchableProcessConfig {
    /// Whether this rule is `source` with its pattern compiled.
    pub open spec fn compiled_from(&self, source: ProcessConfig) -> bool {
        &&& self.match_by.compiled_from(source.match_by)
        &&& self.metrics == source.metrics
    }

    /// Compiles a process rule; see [`ProcessMatcher::try_from`].
    pub fn try_from(value: ProcessConfig) -> (r: Result<MatchableProcessConfig, MatcherError>)
        ensures
            r is Ok <==> pattern_fault(value.match_by.pattern()) is None,
            r matches Ok(rule) ==> rule.compiled_from(value),
            r matches Err(error) ==> Some(error@) == pattern_fault(value.match_by.pattern()),
    {
        let ProcessConfig { match_by, metrics } = value;
        match ProcessMatcher::try_from(match_by) {
            Ok(match_by) => Ok(MatchableProcessConfig { match_by, metrics }),
            Err(error) => Err(error),
        }
    }
}

/// The kind of a rule.
#[derive(Debug, Clone, Copy, PartialEq, Eq, Structural)]
pub enum RuleKind {
    Cgroup,
    Process,
}

/// Why a configuration was refused: the first rule whose matcher is refused,
/// by its kind and its place among the rules of that kind, and the reason.
#[derive(Debug, Clone, PartialEq, Eq)]
pub struct CompileError {
    pub kind: RuleKind,
    pub index: usize,
    pub cause: MatcherError,
}

impl CompileError {
    /// The error in words: the rule, then the reason.
    pub open spec fn spec_message(&self) -> Seq<char> {
        (match self.kind {
            RuleKind::Cgroup => "cgroup rule "@,
            RuleKind::Process => "process rule "@,
        }) + decimal(self.index as int) + ": "@ + self.cause.spec_message()
    }

    /// The error in words: the rule, then the reason.
    pub fn message(&self) -> (r: String)
        ensures
            r@ == self.spec_message(),
    {
        let head = match self.kind {
            RuleKind::Cgroup => "cgroup rule ",
            RuleKind::Process => "process rule ",
        };
        let place = index_string(self.index);
        let head = concat(head, place.as_str());
        let head = concat(head.as_str(), ": ");
        let cause = self.cause.message();
        concat(head.as_str(), cause.as_str())
    }
}

/// The configuration with every pattern compiled.
#[derive(Debug, Clone)]
pub struct MatchableConfig {
    pub cgroups: Vec<MatchableCgroupConfig>,
    pub processes: Vec<MatchableProcessConfig>,
    pub shell_commands: ShellCommandsConfig,
}

/// What is wrong with a process rule, if anything.
pub open spec fn process_rule_fault(rule: ProcessConfig) -> Option<MatcherFault> {
    pattern_fault(rule.match_by.pattern())
}

/// What is wrong with a cgroup rule, if anything.
pub open spec fn cgroup_rule_fault(rule: CgroupConfig) -> Option<MatcherFault> {
    cgroup_match_fault(rule.match_by)
}

/// Whether every rule of a configuration compiles.
pub open spec fn config_compiles(config: Config) -> bool {
    &&& forall|i: int|
        0 <= i < config.cgroups.len() ==> cgroup_rule_fault(#[trigger] config.cgroups[i]) is None
    &&& forall|i: int|
        0 <= i < config.processes.len() ==> process_rule_fault(#[trigger] config.processes[i])
            is None
}

/// Whether `error` names the first rule of `config` that does not compile,
/// the cgroup rules taken before the process rules, and its fault.
pub open spec fn names_first_fault(error: CompileError, config: Config) -> bool {
    match error.kind {
        RuleKind::Cgroup => {
            &&& error.index < config.cgroups.len()
            &&& cgroup_rule_fault(config.cgroups[error.index as int]) == Some(error.cause@)
            &&& forall|i: int|
                0 <= i < error.index ==> cgroup_rule_fault(#[trigger] config.cgroups[i]) is None
        },
        RuleKind::Process => {
            &&& forall|i: int|
                0 <= i < config.cgroups.len() ==> cgroup_rule_fault(#[trigger] config.cgroups[i])
                    is None
            &&& error.index < config.processes.len()
            &&& process_rule_fault(config.processes[error.index as int]) == Some(error.cause@)
            &&& forall|i: int|
                0 <= i < error.index ==> process_rule_fault(#[trigger] config.processes[i])
                    is None
        },
    }
}

impl MatchableConfig {
    /// Whether this is `source` with every pattern compiled: the same rules
    /// in the same order, each with the pattern, the rewrite, the name
    /// template and the metrics settings of its source.
    pub open spec fn compiled_from(&self, source: Config) -> bool {
        &&& self.cgroups.len() == source.cgroups.len()
        &&& forall|i: int|
            0 <= i < self.cgroups.len() ==> (#[trigger] self.cgroups[i]).compiled_from(
                source.cgroups[i],
            )
        &&& self.processes.len() == source.processes.len()
        &&& forall|i: int|
            0 <= i < self.processes.len() ==> (#[trigger] self.processes[i]).compiled_from(
                source.processes[i],
            )
        &&& self.shell_commands == source.shell_commands
    }

    /// Compiles a configuration. Either every rule compiles and the result
    /// holds them all, or the configuration is refused as a whole, with the
    /// first rule that does not compile.
    pub fn try_from(value: Config) -> (r: Result<MatchableConfig, CompileError>)
        ensures
            r is Ok <==> config_compiles(value),
            r matches Ok(compiled) ==> compiled.compiled_from(value),
            r matches Err(error) ==> names_first_fault(error, value),
    {
        let Config { cgroups: cgroup_rules, processes: process_rules, shell_commands } = value;
        let mut cgroups: Vec<MatchableCgroupConfig> = Vec::new();
        for rule in it: cgroup_rules
            invariant
                it.seq() == value.cgroups@,
                cgroups.len() == it.index(),
                forall|i: int|
                    0 <= i < cgroups.len() ==> (#[trigger] cgroups[i]).compiled_from(
                        value.cgroups[i],
                    ),
                forall|i: int|
                    0 <= i < it.index() ==> cgroup_rule_fault(#[trigger] value.cgroups[i]) is None,
        {
            let index = cgroups.len();
            match MatchableCgroupConfig::try_from(rule) {
                Ok(rule) => cgroups.push(rule),
                Err(cause) => {
                    return Err(CompileError { kind: RuleKind::Cgroup, index, cause });
                },
            }
        }
        let mut processes: Vec<MatchableProcessConfig> = Vec::new();
        for rule in it: process_rules
            invariant
                it.seq() == value.processes@,
                processes.len() == it.index(),
                cgroups.len() == value.cgroups.len(),
                forall|i: int|
                    0 <= i < value.cgroups.len() ==> cgroup_rule_fault(#[trigger] value.cgroups[i])
                        is None,
                forall|i: int|
                    0 <= i < processes.len() ==> (#[trigger] processes[i]).compiled_from(
                        value.processes[i],
                    ),
                forall|i: int|
                    0 <= i < it.index() ==> process_rule_fault(#[trigger] value.processes[i])
                        is None,
        {
            let index = processes.len();
            match MatchableProcessConfig::try_from(rule) {
                Ok(rule) => processes.push(rule),
                Err(cause) => {
                    return Err(CompileError { kind: RuleKind::Process, index, cause });
                },
            }
        }
        Ok(MatchableConfig { cgroups, processes, shell_commands })
    }
}

} // verus!
