use cgroups_exporter::config::{
    CgroupConfig, CgroupMatch, Config, MetricsConfig, NameMatch, ProcessConfig, ProcessMatch,
    RewriteCgroupName, ShellCommandStream, ShellCommandsConfig, Templated,
};
use cgroups_exporter::matcher::{
    CgroupMatcher, CompileError, MatchableConfig, MatcherError, NameMatcher, ProcessMatcher,
    RuleKind,
};
use cgroups_exporter::pattern::{CompiledGlob, CompiledRegex};
use cgroups_exporter::string_map::StringMap;

fn by_glob(pattern: &str) -> NameMatch {
    NameMatch::Glob(pattern.to_string())
}

fn by_regex(pattern: &str) -> NameMatch {
    NameMatch::Regex { regex: pattern.to_string() }
}

fn shell_rewrite(command: &str) -> Option<RewriteCgroupName> {
    Some(RewriteCgroupName::Template {
        name: Templated::Shell { shell: command.to_string(), output: ShellCommandStream::Stdout },
    })
}

fn label_map(name: &str) -> StringMap {
    let mut map = StringMap::new();
    map.insert("name".to_string(), name.to_string());
    map
}

fn cgroup_rule(path: NameMatch, rewrite: Option<RewriteCgroupName>) -> CgroupConfig {
    CgroupConfig { match_by: CgroupMatch { path, rewrite }, metrics: MetricsConfig::default() }
}

fn comm_rule(comm: NameMatch, name: &str) -> ProcessConfig {
    ProcessConfig {
        match_by: ProcessMatch::Comm { comm, name: name.to_string() },
        metrics: MetricsConfig::default(),
    }
}

#[test]
fn compiled_glob_matches_like_a_shell_pattern() {
    let pattern = CompiledGlob::new("services.scope/*").unwrap();
    assert_eq!(pattern.as_str(), "services.scope/*");
    assert!(pattern.matches("services.scope/foo"));
    assert!(!pattern.matches("system.slice/foo"));
    assert!(CompiledGlob::new("c?t").unwrap().matches("cat"));
    assert!(!CompiledGlob::new("c?t").unwrap().matches("coat"));
    assert_eq!(pattern.compiled().as_str(), "services.scope/*");
    assert!(pattern.clone().matches("services.scope/bar"));
}

#[test]
fn compiled_glob_refuses_bad_patterns() {
    assert!(CompiledGlob::new("a**b").is_err());
    assert!(CompiledGlob::new("[unclosed").is_err());
    assert!(!CompiledGlob::new("a**b").unwrap_err().is_empty());
}

#[test]
fn compiled_regex_reports_groups_by_position() {
    let regex = CompiledRegex::new("^(?<first>a+)(b)?(?<last>c*)$").unwrap();
    assert_eq!(regex.as_str(), "^(?<first>a+)(b)?(?<last>c*)$");
    assert_eq!(
        regex.capture_names(),
        vec![None, Some("first".to_string()), None, Some("last".to_string())]
    );
    assert_eq!(
        regex.captures("aac"),
        Some(vec![
            Some("aac".to_string()),
            Some("aa".to_string()),
            None,
            Some("c".to_string())
        ])
    );
    assert_eq!(regex.captures("xyz"), None);
    assert_eq!(regex.compiled().as_str(), regex.as_str());
    assert_eq!(regex.clone().captures("xyz"), None);
}

#[test]
fn compiled_regex_refuses_bad_patterns() {
    assert!(CompiledRegex::new("foo(bar").is_err());
    assert!(!CompiledRegex::new("foo(bar").unwrap_err().is_empty());
}

#[test]
fn name_matcher_compiles_globs_and_regexes() {
    assert!(matches!(NameMatcher::try_from(by_glob("firefox")), Ok(NameMatcher::Glob(_))));
    assert!(matches!(NameMatcher::try_from(by_regex("^fire")), Ok(NameMatcher::Regex(_))));
}

#[test]
fn name_matcher_names_the_pattern_that_does_not_compile() {
    match NameMatcher::try_from(by_glob("a**b")) {
        Err(MatcherError::InvalidGlob { pattern, reason }) => {
            assert_eq!(pattern, "a**b");
            assert!(!reason.is_empty());
        }
        other => panic!("unexpected: {:?}", other),
    }
    match NameMatcher::try_from(by_regex("(")) {
        Err(MatcherError::InvalidRegex { pattern, .. }) => assert_eq!(pattern, "("),
        other => panic!("unexpected: {:?}", other),
    }
}

#[test]
fn name_matcher_to_string_shows_kind_and_pattern() {
    assert_eq!(NameMatcher::try_from(by_glob("services.scope/*")).unwrap().to_string(), "Glob(services.scope/*)");
    assert_eq!(NameMatcher::try_from(by_regex("^a.c$")).unwrap().to_string(), "Regex(^a.c$)");
}

#[test]
fn glob_cgroup_rule_with_shell_rewrite_is_rejected() {
    let result = CgroupMatcher::try_from(CgroupMatch {
        path: by_glob("system.slice/*"),
        rewrite: shell_rewrite("echo {containerId}"),
    });
    assert!(matches!(result, Err(MatcherError::ShellRewriteWithGlob)));
    assert_eq!(
        MatcherError::ShellRewriteWithGlob.message(),
        "Cgroup matcher with glob path cannot use shell command rewrite for the name"
    );
}

#[test]
fn regex_cgroup_rule_with_shell_rewrite_is_accepted() {
    let result = CgroupMatcher::try_from(CgroupMatch {
        path: by_regex("^system.slice/docker-(?<containerId>\\w+)\\.scope$"),
        rewrite: shell_rewrite("echo {containerId}"),
    });
    let matcher = result.unwrap();
    assert_eq!(matcher.rewrite, shell_rewrite("echo {containerId}"));
    assert!(matches!(matcher.path, NameMatcher::Regex(_)));
}

#[test]
fn glob_cgroup_rule_with_other_rewrites_is_accepted() {
    let prefix = Some(RewriteCgroupName::RemovePrefix { remove_prefix: "services.scope/".to_string() });
    assert!(CgroupMatcher::try_from(CgroupMatch { path: by_glob("services.scope/*"), rewrite: prefix }).is_ok());
    let name = Some(RewriteCgroupName::Template { name: Templated::Name("{x}".to_string()) });
    assert!(CgroupMatcher::try_from(CgroupMatch { path: by_glob("services.scope/*"), rewrite: name }).is_ok());
    assert!(CgroupMatcher::try_from(CgroupMatch { path: by_glob("services.scope/*"), rewrite: None }).is_ok());
}

#[test]
fn invalid_pattern_is_reported_before_the_shell_rewrite() {
    let result = CgroupMatcher::try_from(CgroupMatch {
        path: by_glob("a**b"),
        rewrite: shell_rewrite("echo"),
    });
    assert!(matches!(result, Err(MatcherError::InvalidGlob { .. })));
}

#[test]
fn process_matcher_keeps_selector_name_and_pattern() {
    let exe = ProcessMatcher::try_from(ProcessMatch::Exe { exe: by_glob("/usr/bin/*"), name: "bin".to_string() }).unwrap();
    assert!(matches!(exe, ProcessMatcher::Exe { .. }));
    assert_eq!(exe.name(), "bin");
    assert_eq!(exe.matcher().to_string(), "Glob(/usr/bin/*)");
    let base = ProcessMatcher::try_from(ProcessMatch::ExeBase { exe_base: by_regex("^fire"), name: "{comm}".to_string() }).unwrap();
    assert!(matches!(base, ProcessMatcher::ExeBase { .. }));
    assert_eq!(base.name(), "{comm}");
    assert_eq!(base.matcher().to_string(), "Regex(^fire)");
    let comm = ProcessMatcher::try_from(ProcessMatch::Comm { comm: by_glob("a"), name: "n".to_string() }).unwrap();
    assert!(matches!(comm, ProcessMatcher::Comm { .. }));
    let cmdline = ProcessMatcher::try_from(ProcessMatch::Cmdline { cmdline: by_glob("b"), name: "m".to_string() }).unwrap();
    assert!(matches!(cmdline, ProcessMatcher::Cmdline { .. }));
    assert_eq!(cmdline.name(), "m");
}

#[test]
fn process_matcher_refuses_bad_patterns() {
    let result = ProcessMatcher::try_from(ProcessMatch::Cmdline { cmdline: by_regex("("), name: "n".to_string() });
    assert!(matches!(result, Err(MatcherError::InvalidRegex { .. })));
}

#[test]
fn empty_configuration_compiles() {
    let compiled = MatchableConfig::try_from(Config {
        cgroups: vec![],
        processes: vec![],
        shell_commands: ShellCommandsConfig::default(),
    })
    .unwrap();
    assert!(compiled.cgroups.is_empty());
    assert!(compiled.processes.is_empty());
    assert_eq!(compiled.shell_commands.cache_size, 100);
}

#[test]
fn configuration_compiles_rule_by_rule_in_order() {
    let config = Config {
        cgroups: vec![
            CgroupConfig {
                match_by: CgroupMatch {
                    path: by_glob("services.scope/*"),
                    rewrite: Some(RewriteCgroupName::RemovePrefix {
                        remove_prefix: "services.scope/".to_string(),
                    }),
                },
                metrics: MetricsConfig {
                    label_map: label_map("name"),
                    namespace: Some("my_services".to_string()),
                },
            },
            CgroupConfig {
                match_by: CgroupMatch {
                    path: by_regex("^system.slice/docker-(?<containerId>\\w+)\\.scope$"),
                    rewrite: shell_rewrite(
                        "docker ps --filter \"id={containerId}\" --format \"{{.Names}}\"",
                    ),
                },
                metrics: MetricsConfig {
                    label_map: label_map("name"),
                    namespace: Some("container".to_string()),
                },
            },
            CgroupConfig {
                match_by: CgroupMatch {
                    path: by_regex("^system.slice/docker-(?<containerId>\\w+)\\.scope$"),
                    rewrite: Some(RewriteCgroupName::Template {
                        name: Templated::Name("{containerId}".to_string()),
                    }),
                },
                metrics: MetricsConfig {
                    label_map: label_map("id"),
                    namespace: Some("container".to_string()),
                },
            },
        ],
        processes: vec![ProcessConfig {
            match_by: ProcessMatch::Comm { comm: by_glob("firefox"), name: "firefox".to_string() },
            metrics: MetricsConfig {
                label_map: label_map("name"),
                namespace: Some("my_services".to_string()),
            },
        }],
        shell_commands: ShellCommandsConfig { cache_size: 1024 },
    };
    let compiled = MatchableConfig::try_from(config.clone()).unwrap();
    assert_eq!(3, compiled.cgroups.len());
    assert_eq!(1, compiled.processes.len());
    assert_eq!(compiled.shell_commands, config.shell_commands);
    for (rule, source) in compiled.cgroups.iter().zip(config.cgroups.iter()) {
        assert_eq!(rule.metrics, source.metrics);
        assert_eq!(rule.match_by.rewrite, source.match_by.rewrite);
        match (&rule.match_by.path, &source.match_by.path) {
            (NameMatcher::Glob(compiled), NameMatch::Glob(text)) => {
                assert_eq!(compiled.as_str(), text)
            }
            (NameMatcher::Regex(compiled), NameMatch::Regex { regex }) => {
                assert_eq!(compiled.as_str(), regex)
            }
            _ => panic!("the kind of the pattern changed"),
        }
    }
    assert_eq!(compiled.processes[0].metrics, config.processes[0].metrics);
    assert_eq!(compiled.processes[0].match_by.name(), "firefox");
    assert_eq!(compiled.processes[0].match_by.matcher().to_string(), "Glob(firefox)");
}

#[test]
fn configuration_is_refused_with_the_first_bad_cgroup_rule() {
    let config = Config {
        cgroups: vec![
            cgroup_rule(by_glob("fine/*"), None),
            cgroup_rule(by_glob("system.slice/*"), shell_rewrite("echo")),
            cgroup_rule(by_regex("("), None),
        ],
        processes: vec![comm_rule(by_regex("("), "x")],
        shell_commands: ShellCommandsConfig::default(),
    };
    let error = MatchableConfig::try_from(config).unwrap_err();
    assert_eq!(
        error,
        CompileError { kind: RuleKind::Cgroup, index: 1, cause: MatcherError::ShellRewriteWithGlob }
    );
    assert_eq!(
        error.message(),
        "cgroup rule 1: Cgroup matcher with glob path cannot use shell command rewrite for the name"
    );
}

#[test]
fn configuration_is_refused_with_the_first_bad_process_rule() {
    let config = Config {
        cgroups: vec![cgroup_rule(by_glob("fine/*"), None)],
        processes: vec![comm_rule(by_glob("ok"), "x"), comm_rule(by_glob("fine"), "y"), comm_rule(by_regex("("), "z")],
        shell_commands: ShellCommandsConfig::default(),
    };
    let error = MatchableConfig::try_from(config).unwrap_err();
    assert_eq!(error.kind, RuleKind::Process);
    assert_eq!(error.index, 2);
    assert!(matches!(error.cause, MatcherError::InvalidRegex { .. }));
    assert!(error.message().starts_with("process rule 2: Invalid regex (: "));
}
