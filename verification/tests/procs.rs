use cgroups_exporter::config::{MetricsConfig, NameMatch, ProcessConfig, ProcessMatch};
use cgroups_exporter::matcher::{MatchableProcessConfig, NameMatcher, ProcessMatcher};
use cgroups_exporter::procs::discover::{
    init_variables_from_process, matching_groups, GroupMatch, ProcessGroups, NAMESPACE,
};
use cgroups_exporter::procs::metrics::ProcessMetrics;
use cgroups_exporter::procs::{file_name, join_words, Proc, ProcIo, ProcStat};
use cgroups_exporter::render::Named;
use cgroups_exporter::string_map::StringMap;

fn stat(comm: &str) -> ProcStat {
    ProcStat { comm: comm.to_string(), utime: 10, stime: 3, num_threads: 2, vsize: 4096, rss: 7 }
}

fn io(read_bytes: u64, write_bytes: u64) -> ProcIo {
    ProcIo {
        rchar: 0,
        wchar: 0,
        syscr: 0,
        syscw: 0,
        read_bytes,
        write_bytes,
        cancelled_write_bytes: 0,
    }
}

fn process(pid: i32, exe: &str, comm: &str) -> Proc {
    Proc::new(pid, exe.to_string(), format!("{} --flag", exe), stat(comm), None, None)
}

fn rule(match_by: ProcessMatch, namespace: Option<&str>) -> MatchableProcessConfig {
    MatchableProcessConfig::try_from(ProcessConfig {
        match_by,
        metrics: MetricsConfig {
            label_map: StringMap::new(),
            namespace: namespace.map(|n| n.to_string()),
        },
    })
    .unwrap()
}

fn comm_regex(pattern: &str, name: &str) -> ProcessMatch {
    ProcessMatch::Comm {
        comm: NameMatch::Regex { regex: pattern.to_string() },
        name: name.to_string(),
    }
}

fn comm_glob(pattern: &str, name: &str) -> ProcessMatch {
    ProcessMatch::Comm { comm: NameMatch::Glob(pattern.to_string()), name: name.to_string() }
}

#[test]
fn file_name_is_what_follows_the_last_slash() {
    assert_eq!(file_name("/usr/bin/firefox"), "firefox");
    assert_eq!(file_name("firefox"), "firefox");
    assert_eq!(file_name("/usr/bin/"), "");
    assert_eq!(file_name(""), "");
    assert_eq!(file_name("/"), "");
    assert_eq!(file_name("a/b"), "b");
}

#[test]
fn join_words_puts_one_space_between_words() {
    assert_eq!(join_words(&vec![]), "");
    assert_eq!(join_words(&vec!["firefox".to_string()]), "firefox");
    assert_eq!(
        join_words(&vec!["firefox".to_string(), "--new".to_string(), "tab".to_string()]),
        "firefox --new tab"
    );
    assert_eq!(join_words(&vec!["".to_string(), "x".to_string()]), " x");
}

#[test]
fn proc_new_derives_the_file_name() {
    let p = Proc::new(42, "/usr/bin/firefox".to_string(), "firefox -P".to_string(), stat("firefox"), Some(io(1, 2)), Some(9));
    assert_eq!(p.pid(), 42);
    assert_eq!(p.exe(), "/usr/bin/firefox");
    assert_eq!(p.exe_base(), "firefox");
    assert_eq!(p.cmdline(), "firefox -P");
    assert_eq!(p.comm(), "firefox");
    assert_eq!(p.stat(), &stat("firefox"));
    assert_eq!(p.io(), Some(io(1, 2)));
    assert_eq!(p.fd_count(), Some(9));
    assert_eq!(p.clone(), p);
}

#[test]
fn proc_from_parts_joins_arguments_and_defers_details() {
    let mut p = Proc::from_parts(
        7,
        "/opt/app/run".to_string(),
        "run".to_string(),
        &vec!["run".to_string(), "-v".to_string()],
        stat("run"),
    );
    assert_eq!(p.cmdline(), "run -v");
    assert_eq!(p.exe_base(), "run");
    assert_eq!(p.io(), None);
    assert_eq!(p.fd_count(), None);
    p.gather_remaining_info(io(5, 6), 11);
    assert_eq!(p.io(), Some(io(5, 6)));
    assert_eq!(p.fd_count(), Some(11));
    assert_eq!(p.pid(), 7);
    assert_eq!(p.cmdline(), "run -v");
}

#[test]
fn value_for_matcher_follows_the_selector() {
    let p = Proc::new(1, "/usr/bin/firefox".to_string(), "firefox -P x".to_string(), stat("ff"), None, None);
    let pattern = || NameMatcher::try_from(NameMatch::Glob("*".to_string())).unwrap();
    assert_eq!(p.value_for_matcher(&ProcessMatcher::Exe { exe: pattern(), name: String::new() }), "/usr/bin/firefox");
    assert_eq!(p.value_for_matcher(&ProcessMatcher::ExeBase { exe_base: pattern(), name: String::new() }), "firefox");
    assert_eq!(p.value_for_matcher(&ProcessMatcher::Comm { comm: pattern(), name: String::new() }), "ff");
    assert_eq!(p.value_for_matcher(&ProcessMatcher::Cmdline { cmdline: pattern(), name: String::new() }), "firefox -P x");
}

#[test]
fn process_variables_are_pid_exe_and_comm() {
    let variables = init_variables_from_process(&process(-3, "/bin/sh", "sh"));
    assert_eq!(variables.get("pid"), Some(&"-3".to_string()));
    assert_eq!(variables.get("exe"), Some(&"/bin/sh".to_string()));
    assert_eq!(variables.get("comm"), Some(&"sh".to_string()));
    assert_eq!(variables.get("cmdline"), None);
}

#[test]
fn glob_match_gives_the_template_unexpanded() {
    let matcher = NameMatcher::try_from(NameMatch::Glob("fire*".to_string())).unwrap();
    let p = process(1, "/usr/bin/firefox", "firefox");
    assert_eq!(matcher.matching_group_name("firefox", "browser-{comm}", &p), Some("browser-{comm}".to_string()));
    assert_eq!(matcher.matching_group_name("chrome", "browser-{comm}", &p), None);
}

#[test]
fn regex_match_expands_variables_and_named_captures() {
    let matcher = NameMatcher::try_from(NameMatch::Regex {
        regex: "^(?<family>fire|chrom)(?<rest>\\w+)$".to_string(),
    })
    .unwrap();
    let p = process(42, "/usr/bin/firefox", "firefox");
    assert_eq!(
        matcher.matching_group_name("firefox", "{family}-{rest}-{comm}-{pid}-{exe}", &p),
        Some("fire-fox-firefox-42-/usr/bin/firefox".to_string())
    );
    assert_eq!(matcher.matching_group_name("safari", "{family}", &p), None);
}

#[test]
fn regex_without_named_captures_leaves_unknown_placeholders() {
    let matcher = NameMatcher::try_from(NameMatch::Regex { regex: "^(fire)(fox)$".to_string() }).unwrap();
    let p = process(42, "/usr/bin/firefox", "firefox");
    assert_eq!(matcher.matching_group_name("firefox", "{X}", &p), Some("{X}".to_string()));
    assert_eq!(matcher.matching_group_name("firefox", "{X}-{comm}", &p), Some("{X}-firefox".to_string()));
}

#[test]
fn named_capture_that_took_no_part_stays_unbound() {
    let matcher = NameMatcher::try_from(NameMatch::Regex {
        regex: "^(?:(?<digits>[0-9]+)|(?<letters>[a-z]+))$".to_string(),
    })
    .unwrap();
    let p = process(1, "/bin/x", "x");
    assert_eq!(matcher.matching_group_name("abc", "{digits}/{letters}", &p), Some("{digits}/abc".to_string()));
}

#[test]
fn named_capture_shadows_a_process_variable() {
    let matcher = NameMatcher::try_from(NameMatch::Regex { regex: "^(?<comm>f)".to_string() }).unwrap();
    let p = process(1, "/bin/firefox", "firefox");
    assert_eq!(matcher.matching_group_name("firefox", "{comm}", &p), Some("f".to_string()));
}

#[test]
fn process_matching_k_rules_has_k_matches() {
    let rules = vec![
        rule(comm_regex("^(firefox|chrome)$", "{comm}"), None),
        rule(comm_glob("safari", "safari"), None),
        rule(ProcessMatch::ExeBase { exe_base: NameMatch::Glob("fire*".to_string()), name: "fire".to_string() }, Some("custom")),
        rule(ProcessMatch::Cmdline { cmdline: NameMatch::Regex { regex: "--flag$".to_string() }, name: "flagged".to_string() }, None),
    ];
    let firefox = process(1, "/usr/bin/firefox", "firefox");
    let matches = matching_groups(&firefox, &rules);
    assert_eq!(matches.len(), 3);
    assert_eq!(matches.iter().map(|m| m.rule).collect::<Vec<_>>(), vec![0, 2, 3]);
    assert_eq!(
        matches.iter().map(|m| m.name.as_str()).collect::<Vec<_>>(),
        vec!["firefox", "fire", "flagged"]
    );
    assert_eq!(matches[1].metrics.namespace, Some("custom".to_string()));
    assert_eq!(matches[0].metrics.namespace, None);

    let idle = Proc::new(2, "/bin/idle".to_string(), "idle".to_string(), stat("idle"), None, None);
    assert_eq!(matching_groups(&idle, &rules), Vec::<GroupMatch>::new());
    assert_eq!(matching_groups(&firefox, &vec![]).len(), 0);
}

#[test]
fn processes_are_grouped_by_rendered_name() {
    let rules = vec![rule(comm_regex("^(firefox|chrome)$", "{comm}"), None)];
    let mut groups = ProcessGroups::new();
    assert_eq!(groups.len(), 0);
    let comms = ["firefox", "chrome", "firefox", "bash", "chrome", "firefox"];
    for (pid, comm) in comms.iter().enumerate() {
        let mut p = process(pid as i32, &format!("/usr/bin/{}", comm), comm);
        let matches = matching_groups(&p, &rules);
        if !matches.is_empty() {
            p.gather_remaining_info(io(100, 10), 4);
        }
        groups.insert_matches(&p, matches);
    }
    assert_eq!(groups.len(), 2);
    let metrics = groups.into_metrics();
    assert_eq!(metrics.len(), 2);
    let mut seen = Vec::new();
    for group in metrics {
        assert_eq!(group.namespace(), &Some(NAMESPACE.to_string()));
        let (records, config) = group.into_parts();
        assert_eq!(config.namespace, Some("process".to_string()));
        assert_eq!(records.len(), 1);
        seen.push((records[0].name().to_string(), records[0].num_procs));
        assert_eq!(records[0].io_read_bytes, 100 * records[0].num_procs);
        assert_eq!(records[0].open_fds, 4 * records[0].num_procs);
    }
    assert_eq!(seen, vec![("firefox".to_string(), 3), ("chrome".to_string(), 2)]);
}

#[test]
fn process_in_two_rules_of_one_name_is_counted_twice() {
    let rules = vec![
        rule(comm_glob("firefox", "browsers"), Some("first")),
        rule(comm_glob("fire*", "browsers"), Some("second")),
    ];
    let p = process(1, "/usr/bin/firefox", "firefox");
    let mut groups = ProcessGroups::new();
    groups.insert_matches(&p, matching_groups(&p, &rules));
    assert_eq!(groups.len(), 1);
    let metrics = groups.into_metrics();
    let (records, config) = metrics.into_iter().next().unwrap().into_parts();
    assert_eq!(records[0].num_procs, 2);
    assert_eq!(config.namespace, Some("first".to_string()));
}

#[test]
fn process_metrics_add_up_the_counters() {
    let a = Proc::new(1, "/a".to_string(), "a".to_string(), ProcStat { comm: "a".to_string(), utime: 10, stime: 1, num_threads: 2, vsize: 1000, rss: 5 }, Some(io(7, 8)), Some(3));
    let b = Proc::new(2, "/b".to_string(), "b".to_string(), ProcStat { comm: "b".to_string(), utime: 20, stime: 2, num_threads: -1, vsize: 2000, rss: 6 }, None, None);
    let c = Proc::new(3, "/c".to_string(), "c".to_string(), ProcStat { comm: "c".to_string(), utime: 30, stime: 3, num_threads: 4, vsize: 3000, rss: 7 }, Some(io(1, 2)), Some(1));
    let metrics = ProcessMetrics::from_processes(&vec![a, b, c], "group");
    assert_eq!(
        metrics,
        ProcessMetrics {
            name: "group".to_string(),
            num_procs: 3,
            num_threads: 6,
            cpu_user_ticks: 60,
            cpu_system_ticks: 6,
            memory_resident_pages: 18,
            memory_virtual_bytes: 6000,
            io_read_bytes: 8,
            io_write_bytes: 10,
            open_fds: 4,
        }
    );
    assert_eq!(metrics.name(), "group");
}

#[test]
fn process_metrics_of_no_process_are_zero() {
    let metrics = ProcessMetrics::from_processes(&vec![], "empty");
    assert_eq!(metrics.num_procs, 0);
    assert_eq!(metrics.cpu_user_ticks, 0);
    assert_eq!(metrics.open_fds, 0);
    assert_eq!(metrics.name, "empty");
}

#[test]
fn process_metrics_stop_at_the_largest_value() {
    let big = |pid: i32| Proc::new(pid, "/a".to_string(), "a".to_string(), ProcStat { comm: "a".to_string(), utime: u64::MAX - 1, stime: 1, num_threads: 1, vsize: u64::MAX, rss: 0 }, None, None);
    let metrics = ProcessMetrics::from_processes(&vec![big(1), big(2)], "big");
    assert_eq!(metrics.cpu_user_ticks, u64::MAX);
    assert_eq!(metrics.memory_virtual_bytes, u64::MAX);
    assert_eq!(metrics.cpu_system_ticks, 2);
    assert_eq!(metrics.memory_resident_pages, 0);
}
