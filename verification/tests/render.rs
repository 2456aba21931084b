use cgroups_exporter::config::MetricsConfig;
use cgroups_exporter::render::{
    join_blocks, same_namespace, MatchGroup, MetricsRenderer, Named,
};
use cgroups_exporter::string_map::StringMap;

#[derive(Debug, PartialEq)]
struct Record {
    name: String,
    value: u64,
}

impl Named for Record {
    fn name(&self) -> &str {
        &self.name
    }
}

fn record(name: &str, value: u64) -> Record {
    Record { name: name.to_string(), value }
}

fn metrics(namespace: Option<&str>, name_label: Option<&str>) -> MetricsConfig {
    let mut label_map = StringMap::new();
    if let Some(label) = name_label {
        label_map.insert("name".to_string(), label.to_string());
    }
    MetricsConfig { label_map, namespace: namespace.map(|n| n.to_string()) }
}

#[test]
fn match_group_keeps_records_in_order() {
    let mut group = MatchGroup::new(vec![record("a", 1)], metrics(Some("ns"), None));
    group.insert(record("b", 2));
    group.insert(record("c", 3));
    assert_eq!(group.len(), 3);
    assert_eq!(group.namespace(), &Some("ns".to_string()));
    let (data, config) = group.into_parts();
    assert_eq!(data, vec![record("a", 1), record("b", 2), record("c", 3)]);
    assert_eq!(config, metrics(Some("ns"), None));
}

#[test]
fn same_namespace_compares_text() {
    assert!(same_namespace(&None, &None));
    assert!(same_namespace(&Some("a".to_string()), &Some("a".to_string())));
    assert!(!same_namespace(&Some("a".to_string()), &Some("b".to_string())));
    assert!(!same_namespace(&Some("a".to_string()), &None));
    assert!(!same_namespace(&None, &Some(String::new())));
}

#[test]
fn renderer_starts_with_the_serializer_for_no_namespace() {
    let renderer = MetricsRenderer::new(vec![("host".to_string(), "a".to_string())]);
    assert_eq!(renderer.serializer_count(), 1);
    assert_eq!(renderer.namespaces(), &vec![None]);
    assert_eq!(renderer.common_labels(), &vec![("host".to_string(), "a".to_string())]);
}

#[test]
fn renderer_sends_a_namespace_to_one_serializer() {
    let mut renderer = MetricsRenderer::new(vec![]);
    let first = renderer.render(MatchGroup::new(vec![record("a", 1), record("b", 2)], metrics(Some("cgroup"), None)));
    let second = renderer.render(MatchGroup::new(vec![record("p", 3)], metrics(Some("process"), None)));
    let third = renderer.render(MatchGroup::new(vec![record("c", 4)], metrics(Some("cgroup"), None)));
    assert_eq!(
        renderer.namespaces(),
        &vec![None, Some("cgroup".to_string()), Some("process".to_string())]
    );
    assert_eq!(first.iter().map(|s| s.serializer).collect::<Vec<_>>(), vec![1, 1]);
    assert_eq!(second.iter().map(|s| s.serializer).collect::<Vec<_>>(), vec![2]);
    assert_eq!(third.iter().map(|s| s.serializer).collect::<Vec<_>>(), vec![1]);
    assert_eq!(first[0].metric, record("a", 1));
    assert_eq!(first[1].metric, record("b", 2));
    assert_eq!(first[1].label(), ("name".to_string(), "b".to_string()));
    assert_eq!(third[0].label_name, "name");
}

#[test]
fn renderer_uses_the_first_serializer_for_groups_without_namespace() {
    let mut renderer = MetricsRenderer::new(vec![]);
    let steps = renderer.render(MatchGroup::new(vec![record("a", 1)], metrics(None, None)));
    assert_eq!(steps[0].serializer, 0);
    assert_eq!(renderer.serializer_count(), 1);
}

#[test]
fn renderer_makes_no_serializer_for_an_empty_group() {
    let mut renderer = MetricsRenderer::new(vec![]);
    let steps = renderer.render(MatchGroup::new(Vec::<Record>::new(), metrics(Some("cgroup"), None)));
    assert!(steps.is_empty());
    assert_eq!(renderer.serializer_count(), 1);
}

#[test]
fn renderer_renames_the_name_label() {
    let mut renderer = MetricsRenderer::new(vec![]);
    let steps = renderer.render(MatchGroup::new(vec![record("web", 1)], metrics(Some("container"), Some("container"))));
    assert_eq!(steps[0].label_name, "container");
    assert_eq!(steps[0].label(), ("container".to_string(), "web".to_string()));
    let plain = renderer.render(MatchGroup::new(vec![record("db", 1)], metrics(Some("container"), Some("name"))));
    assert_eq!(plain[0].label_name, "name");
    assert_eq!(plain[0].serializer, steps[0].serializer);
}

#[test]
fn join_blocks_ends_every_block_with_a_line_feed() {
    assert_eq!(join_blocks(&vec![]), Vec::<u8>::new());
    assert_eq!(join_blocks(&vec![vec![]]), b"\n".to_vec());
    assert_eq!(
        join_blocks(&vec![b"".to_vec(), b"# TYPE a counter\na 1\n".to_vec(), b"b 2\n".to_vec()]),
        b"\n# TYPE a counter\na 1\n\nb 2\n\n".to_vec()
    );
}
