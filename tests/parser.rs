use gen_orb_mcp::error::ParseError;
use gen_orb_mcp::parser::{EntryFile, Layout, OrbParser};
use gen_orb_mcp::schema::OrbDefinition;

const ROOT: &str = r#"
version: "2.1"
description: "Test orb"
orbs:
  node: circleci/node@5
"#;

const GREET: &str = r#"
description: "Greet someone"
parameters:
  name:
    type: string
    default: "World"
    description: "Name to greet"
steps:
  - run: echo "Hello, << parameters.name >>!"
"#;

const BUILD: &str = r#"
description: "Build the project"
executor: default
parameters:
  release:
    type: boolean
    default: false
steps:
  - checkout
  - run: cargo build
"#;

const DEFAULT_EXECUTOR: &str = r#"
description: "Default Rust executor"
docker:
  - image: rust:1.75
resource_class: medium
"#;

fn file(name: &str, content: &str) -> EntryFile {
    EntryFile { name: name.to_string(), path: format!("dir/{}.yml", name), content: content.to_string() }
}

fn has<T>(v: &[(String, T)], name: &str) -> bool {
    v.iter().any(|(k, _)| k == name)
}

fn get<'a, T>(v: &'a [(String, T)], name: &str) -> &'a T {
    &v.iter().find(|(k, _)| k == name).unwrap().1
}

fn unpacked() -> OrbDefinition {
    OrbParser::parse_unpacked_parts(
        ROOT,
        "dir/@orb.yml",
        Some(vec![file("greet", GREET)]),
        Some(vec![file("build", BUILD)]),
        Some(vec![file("default", DEFAULT_EXECUTOR)]),
    )
    .ok()
    .unwrap()
}

#[test]
fn test_parse_unpacked_orb() {
    let orb = unpacked();

    assert_eq!(orb.version, "2.1");
    assert_eq!(orb.description, Some("Test orb".to_string()));
    assert!(has(&orb.orbs, "node"));

    assert!(has(&orb.commands, "greet"));
    let greet = get(&orb.commands, "greet");
    assert!(has(&greet.parameters, "name"));
    assert_eq!(greet.steps.len(), 1);

    assert!(has(&orb.jobs, "build"));
    let build = get(&orb.jobs, "build");
    assert!(has(&build.parameters, "release"));

    assert!(has(&orb.executors, "default"));
    let default_exec = get(&orb.executors, "default");
    assert!(default_exec.config.docker.is_some());
}

#[test]
fn test_parse_via_orb_yml_path() {
    let dir = match OrbParser::detect_layout("some/dir/@orb.yml", false) {
        Layout::MultiFile { dir } => dir,
        Layout::SingleDocument => panic!("expected a multi-file layout"),
    };
    assert_eq!(dir, "some/dir");
    let orb = OrbParser::parse_unpacked_parts(ROOT, "some/dir/@orb.yml", Some(vec![file("greet", GREET)]), None, None)
        .ok()
        .unwrap();
    assert_eq!(orb.version, "2.1");
    assert!(has(&orb.commands, "greet"));
}

#[test]
fn layout_is_decided_by_the_path_alone() {
    assert!(matches!(OrbParser::detect_layout("x/my-orb.yml", false), Layout::SingleDocument));
    assert!(matches!(OrbParser::detect_layout("x/src", true), Layout::MultiFile { dir } if dir == "x/src"));
    assert!(matches!(OrbParser::detect_layout("@orb.yml", false), Layout::MultiFile { dir } if dir.is_empty()));
}

#[test]
fn test_parse_packed_orb() {
    let packed_yaml = r#"
version: "2.1"
description: "Packed test orb"

commands:
  test:
    description: "Run tests"
    steps:
      - run: cargo test

jobs:
  ci:
    docker:
      - image: rust:1.75
    steps:
      - checkout
      - test

executors:
  rust:
    docker:
      - image: rust:1.75
"#;
    let orb = OrbParser::parse_packed_content(packed_yaml, "orb.yml").ok().unwrap();

    assert_eq!(orb.version, "2.1");
    assert!(has(&orb.commands, "test"));
    assert!(has(&orb.jobs, "ci"));
    assert!(has(&orb.executors, "rust"));
}

#[test]
fn test_parse_auto_detect_packed() {
    let packed_yaml = r#"
version: "2.1"
commands:
  hello:
    steps:
      - run: echo hello
"#;
    assert!(matches!(OrbParser::detect_layout("tmp/my-orb.yml", false), Layout::SingleDocument));
    let orb = OrbParser::parse_packed_content(packed_yaml, "tmp/my-orb.yml").ok().unwrap();
    assert!(has(&orb.commands, "hello"));
}

#[test]
fn test_parse_invalid_yaml() {
    let result = OrbParser::parse_packed_content("{ invalid yaml [[[", "bad.yml");
    assert!(matches!(result, Err(ParseError::YamlParse { .. })));
}

#[test]
fn shape_errors_name_the_file() {
    match OrbParser::parse_packed_content("commands: [a, b]", "bad.yml") {
        Err(ParseError::YamlParse { path, .. }) => assert_eq!(path, "bad.yml"),
        _ => panic!("expected a parse error"),
    }
    let r = OrbParser::parse_unpacked_parts(ROOT, "d/@orb.yml", Some(vec![file("greet", GREET), file("bad", "steps: 3")]), None, None);
    match r {
        Err(ParseError::YamlParse { path, .. }) => assert_eq!(path, "dir/bad.yml"),
        _ => panic!("expected a parse error"),
    }
}

#[test]
fn test_parse_empty_directories() {
    let orb = OrbParser::parse_unpacked_parts(r#"version: "2.1""#, "d/@orb.yml", Some(vec![]), Some(vec![]), Some(vec![]))
        .ok()
        .unwrap();
    assert!(orb.commands.is_empty());
    assert!(orb.jobs.is_empty());
    assert!(orb.executors.is_empty());
}

#[test]
fn test_parse_skips_non_yaml_files() {
    let listing = [("valid.yml", false, r#"steps: [checkout]"#), ("readme.md", false, "# Readme"), ("script.sh", false, "#!/bin/bash"), ("nested", true, "")];
    let mut files = Vec::new();
    for (name, is_dir, content) in listing {
        if let Some(stem) = OrbParser::entry_name(name, is_dir) {
            files.push(EntryFile { name: stem, path: name.to_string(), content: content.to_string() });
        }
    }
    let orb = OrbParser::parse_unpacked_parts(r#"version: "2.1""#, "d/@orb.yml", Some(files), None, None).ok().unwrap();
    assert_eq!(orb.commands.len(), 1);
    assert!(has(&orb.commands, "valid"));
}

#[test]
fn entry_names_take_yml_and_yaml_files() {
    assert_eq!(OrbParser::entry_name("a.yml", false), Some("a".to_string()));
    assert_eq!(OrbParser::entry_name("b.yaml", false), Some("b".to_string()));
    assert_eq!(OrbParser::entry_name("c.yml", true), None);
    assert_eq!(OrbParser::entry_name("d.json", false), None);
    assert_eq!(OrbParser::entry_name("noext", false), None);
}

#[test]
fn directory_replaces_inline_commands() {
    let root = "version: \"2.1\"\ncommands:\n  inline:\n    steps: [checkout]\n  greet:\n    steps: []\n";
    let inline_only = OrbParser::parse_unpacked_parts(root, "d/@orb.yml", None, None, None).ok().unwrap();
    assert_eq!(inline_only.commands.len(), 2);
    let orb = OrbParser::parse_unpacked_parts(root, "d/@orb.yml", Some(vec![file("greet", GREET)]), None, None).ok().unwrap();
    assert_eq!(orb.commands.len(), 1);
    assert!(has(&orb.commands, "greet"));
    assert!(!has(&orb.commands, "inline"));
    assert_eq!(get(&orb.commands, "greet").steps.len(), 1);
    let emptied = OrbParser::parse_unpacked_parts(root, "d/@orb.yml", Some(vec![]), None, None).ok().unwrap();
    assert!(emptied.commands.is_empty());
}

#[test]
fn same_name_twice_keeps_one_entry() {
    let files = vec![file("greet", "steps: [a]"), file("greet", "steps: [a, b]")];
    let orb = OrbParser::parse_unpacked_parts(r#"version: "2.1""#, "d/@orb.yml", Some(files), None, None).ok().unwrap();
    assert_eq!(orb.commands.len(), 1);
    assert_eq!(orb.commands[0].1.steps.len(), 2);
}

#[test]
fn test_orb_definition_empty() {
    let yaml = r#"
version: "2.1"
"#;
    let orb = OrbParser::parse_packed_content(yaml, "orb.yml").ok().unwrap();
    assert_eq!(orb.version, "2.1");
    assert!(orb.commands.is_empty());
    assert!(orb.jobs.is_empty());
    assert!(orb.executors.is_empty());
}

#[test]
fn unquoted_version_number_is_read_as_text() {
    let orb = OrbParser::parse_packed_content("version: 2.1\n", "orb.yml").ok().unwrap();
    assert_eq!(orb.version, "2.1");
    let orb = OrbParser::parse_packed_content("", "orb.yml").ok().unwrap();
    assert_eq!(orb.version, "");
}

#[test]
fn job_fields_are_read() {
    let yaml = r#"
jobs:
  ci:
    executor:
      name: rust
      tag: "1.75"
    parallelism: 4
    circleci_ip_ranges: true
    machine:
      image: ubuntu-2204:current
    environment:
      A: "1"
    steps: [checkout]
"#;
    let orb = OrbParser::parse_packed_content(yaml, "orb.yml").ok().unwrap();
    let ci = get(&orb.jobs, "ci");
    assert_eq!(ci.parallelism, Some(4));
    assert_eq!(ci.circleci_ip_ranges, Some(true));
    assert!(ci.config.machine.is_some());
    assert_eq!(ci.config.environment, vec![("A".to_string(), "1".to_string())]);
    assert!(OrbParser::parse_packed_content("jobs:\n  ci:\n    parallelism: -1\n", "o.yml").is_err());
    assert!(OrbParser::parse_packed_content("jobs:\n  ci:\n    parallelism: 4294967296\n", "o.yml").is_err());
    let max = OrbParser::parse_packed_content("jobs:\n  ci:\n    parallelism: 4294967295\n", "o.yml").ok().unwrap();
    assert_eq!(get(&max.jobs, "ci").parallelism, Some(u32::MAX));
}

#[test]
fn test_parse_missing_orb_yml() {
    let result: Result<OrbDefinition, ParseError> = Err(OrbParser::root_read_error("d/@orb.yml", true, "not found"));
    assert!(matches!(result, Err(ParseError::MissingFile { .. })));
}

#[test]
fn other_root_read_failures_are_read_errors() {
    match OrbParser::root_read_error("d/@orb.yml", false, "denied") {
        ParseError::FileRead { path, message } => {
            assert_eq!(path, "d/@orb.yml");
            assert_eq!(message, "denied");
        }
        _ => panic!("expected FileRead"),
    }
}
