use gen_orb_mcp::definition::{read_command, read_definition};
use gen_orb_mcp::records::read_docker_image;
use gen_orb_mcp::schema::{DockerImage, ExecutorRef, ParameterType, RunStep, Step, StructuredStep};
use gen_orb_mcp::steps::{parse_param_type, read_executor_ref, read_step, STEP_DEPTH};
use gen_orb_mcp::yaml::{parse_yaml, Yaml};

fn param_type_of(text: &str) -> ParameterType {
    match parse_yaml(text).unwrap() {
        Yaml::Str(s) => parse_param_type(&s).unwrap(),
        _ => panic!("expected a string"),
    }
}

fn step_of(text: &str) -> Step {
    read_step(&parse_yaml(text).unwrap(), STEP_DEPTH).unwrap()
}

#[test]
fn test_parameter_type_deserialize() {
    assert_eq!(param_type_of(r#"string"#), ParameterType::String);
    assert_eq!(param_type_of(r#"boolean"#), ParameterType::Boolean);
    assert_eq!(param_type_of(r#"env_var_name"#), ParameterType::EnvVarName);
}

#[test]
fn unknown_parameter_type_is_refused() {
    assert_eq!(parse_param_type("float"), None);
    assert_eq!(parse_param_type("steps"), Some(ParameterType::Steps));
    assert_eq!(parse_param_type("executor"), Some(ParameterType::Executor));
}

#[test]
fn test_simple_command_deserialize() {
    let yaml = r#"
description: "Run tests"
parameters:
  coverage:
    type: boolean
    default: false
    description: "Enable coverage"
steps:
  - checkout
  - run: cargo test
"#;
    let cmd = read_command(&parse_yaml(yaml).unwrap()).unwrap();
    assert_eq!(cmd.description, Some("Run tests".to_string()));
    assert!(cmd.parameters.iter().any(|(k, _)| k == "coverage"));
    assert_eq!(cmd.steps.len(), 2);
}

#[test]
fn test_docker_image_simple() {
    let img = read_docker_image(&parse_yaml(r#""rust:1.75""#).unwrap()).unwrap();
    assert!(matches!(img, DockerImage::Simple(s) if s == "rust:1.75"));
}

#[test]
fn test_docker_image_full() {
    let yaml = r#"
image: rust:1.75
auth:
  username: $DOCKER_USER
  password: $DOCKER_PASS
"#;
    let img = read_docker_image(&parse_yaml(yaml).unwrap()).unwrap();
    match img {
        DockerImage::Full(full) => {
            assert_eq!(full.image, "rust:1.75");
            assert!(full.auth.is_some());
        }
        _ => panic!("Expected Full variant"),
    }
}

#[test]
fn docker_image_with_incomplete_auth_is_refused() {
    let yaml = "image: rust:1.75\nauth:\n  username: me\n";
    assert!(read_docker_image(&parse_yaml(yaml).unwrap()).is_none());
    assert!(read_docker_image(&parse_yaml("[a]").unwrap()).is_none());
}

#[test]
fn test_executor_ref_simple() {
    let exec = read_executor_ref(&parse_yaml(r#""default""#).unwrap()).unwrap();
    assert!(matches!(exec, ExecutorRef::Name(s) if s == "default"));
}

#[test]
fn executor_ref_with_parameters_keeps_the_other_keys() {
    let exec = read_executor_ref(&parse_yaml("name: rust\ntag: \"1.75\"\nsize: large\n").unwrap()).unwrap();
    match exec {
        ExecutorRef::WithParams { name, parameters } => {
            assert_eq!(name, "rust");
            let keys: Vec<&str> = parameters.iter().map(|(k, _)| k.as_str()).collect();
            assert_eq!(keys, vec!["tag", "size"]);
        }
        _ => panic!("expected WithParams"),
    }
    assert!(read_executor_ref(&parse_yaml("tag: x\n").unwrap()).is_none());
}

#[test]
fn test_step_simple() {
    let step = step_of(r#""checkout""#);
    assert!(matches!(step, Step::Simple(s) if s == "checkout"));
}

#[test]
fn test_run_step_simple() {
    let yaml = r#"
run: echo hello
"#;
    match step_of(yaml) {
        Step::Structured(StructuredStep::Run(RunStep::Simple(cmd))) => {
            assert_eq!(cmd, "echo hello");
        }
        _ => panic!("Expected Run with Simple variant"),
    }
}

#[test]
fn test_run_step_full() {
    let yaml = r#"
run:
  name: Run tests
  command: cargo test
  working_directory: ~/project
"#;
    match step_of(yaml) {
        Step::Structured(StructuredStep::Run(RunStep::Full { command, name, .. })) => {
            assert_eq!(command, "cargo test");
            assert_eq!(name, Some("Run tests".to_string()));
        }
        _ => panic!("Expected Run with Full variant"),
    }
}

#[test]
fn unknown_single_key_is_an_invocation() {
    match step_of("my-orb/install:\n  version: \"2\"\n") {
        Step::Structured(StructuredStep::CommandInvocation(args)) => {
            assert_eq!(args.len(), 1);
            assert_eq!(args[0].0, "my-orb/install");
        }
        _ => panic!("expected an invocation"),
    }
}

#[test]
fn known_key_with_wrong_shape_falls_back_to_invocation() {
    match step_of("save_cache:\n  paths: [a]\n") {
        Step::Structured(StructuredStep::CommandInvocation(args)) => assert_eq!(args[0].0, "save_cache"),
        _ => panic!("expected an invocation"),
    }
    match step_of("run: [1, 2]\n") {
        Step::Structured(StructuredStep::CommandInvocation(_)) => {}
        _ => panic!("expected an invocation"),
    }
}

#[test]
fn several_keys_make_an_invocation() {
    match step_of("run: x\nname: y\n") {
        Step::Structured(StructuredStep::CommandInvocation(args)) => assert_eq!(args.len(), 2),
        _ => panic!("expected an invocation"),
    }
}

#[test]
fn structured_steps_of_each_kind() {
    assert!(matches!(step_of("checkout:\n  path: src\n"), Step::Structured(StructuredStep::Checkout(c)) if c.path == Some("src".to_string())));
    assert!(matches!(step_of("checkout:\n"), Step::Structured(StructuredStep::Checkout(c)) if c.path.is_none()));
    assert!(matches!(step_of("restore_cache:\n  keys: [a, b]\n"), Step::Structured(StructuredStep::RestoreCache(c)) if c.keys == Some(vec!["a".to_string(), "b".to_string()])));
    assert!(matches!(step_of("save_cache:\n  key: k\n  paths: [p]\n"), Step::Structured(StructuredStep::SaveCache(c)) if c.key == "k" && c.paths == vec!["p".to_string()]));
    assert!(matches!(step_of("persist_to_workspace:\n  root: .\n  paths: [x]\n"), Step::Structured(StructuredStep::PersistToWorkspace(w)) if w.root == "."));
    assert!(matches!(step_of("attach_workspace:\n  at: /tmp\n"), Step::Structured(StructuredStep::AttachWorkspace(a)) if a.at == "/tmp"));
    assert!(matches!(step_of("store_test_results:\n  path: r\n"), Step::Structured(StructuredStep::StoreTestResults(s)) if s.path == "r"));
    assert!(matches!(step_of("store_artifacts:\n  path: a\n  destination: d\n"), Step::Structured(StructuredStep::StoreArtifacts(s)) if s.destination == Some("d".to_string())));
    assert!(matches!(step_of("add_ssh_keys:\n  fingerprints: [f]\n"), Step::Structured(StructuredStep::AddSshKeys(s)) if s.fingerprints.len() == 1));
    assert!(matches!(step_of("setup_remote_docker:\n  docker_layer_caching: true\n"), Step::Structured(StructuredStep::SetupRemoteDocker(s)) if s.docker_layer_caching == Some(true)));
}

#[test]
fn conditional_steps_nest() {
    let yaml = "when:\n  condition: << parameters.x >>\n  steps:\n    - checkout\n    - unless:\n        condition: true\n        steps: [build]\n";
    match step_of(yaml) {
        Step::Structured(StructuredStep::When(c)) => {
            assert_eq!(c.steps.len(), 2);
            assert!(matches!(&c.steps[1], Step::Structured(StructuredStep::Unless(u)) if u.steps.len() == 1));
        }
        _ => panic!("expected a conditional"),
    }
    assert!(matches!(step_of("when:\n  steps: [a]\n"), Step::Structured(StructuredStep::CommandInvocation(_))));
}

#[test]
fn scalars_other_than_strings_are_no_steps() {
    assert!(read_step(&parse_yaml("42").unwrap(), STEP_DEPTH).is_none());
    assert!(read_step(&parse_yaml("~").unwrap(), STEP_DEPTH).is_none());
    assert!(read_step(&parse_yaml("[a]").unwrap(), STEP_DEPTH).is_none());
}

#[test]
fn parse_yaml_reads_scalars_and_collections() {
    assert!(matches!(parse_yaml("true").unwrap(), Yaml::Bool(true)));
    assert!(matches!(parse_yaml("1.5").unwrap(), Yaml::Number(t) if t == "1.5"));
    assert!(matches!(parse_yaml("").unwrap(), Yaml::Null));
    assert!(matches!(parse_yaml("[1, a]").unwrap(), Yaml::List(v) if v.len() == 2));
    assert!(matches!(parse_yaml("a: 1").unwrap(), Yaml::Mapping(m) if m.len() == 1));
    assert!(parse_yaml("{ invalid yaml [[[").is_err());
}

#[test]
fn repeated_names_are_refused() {
    let entry = |k: &str| (Yaml::Str(k.to_string()), Yaml::Mapping(vec![]));
    let commands = Yaml::Mapping(vec![entry("a"), entry("b"), entry("a")]);
    let doc = Yaml::Mapping(vec![(Yaml::Str("commands".to_string()), commands)]);
    assert!(read_definition(&doc).is_none());
    let orbs = Yaml::Mapping(vec![
        (Yaml::Str("x".to_string()), Yaml::Str("a/b@1".to_string())),
        (Yaml::Str("x".to_string()), Yaml::Str("a/c@1".to_string())),
    ]);
    let doc = Yaml::Mapping(vec![(Yaml::Str("orbs".to_string()), orbs)]);
    assert!(read_definition(&doc).is_none());
    let ok = Yaml::Mapping(vec![(Yaml::Str("commands".to_string()), Yaml::Mapping(vec![entry("a"), entry("b")]))]);
    assert_eq!(read_definition(&ok).unwrap().commands.len(), 2);
}

#[test]
fn tagged_values_are_read_as_what_they_tag() {
    assert!(matches!(parse_yaml("!custom hello").unwrap(), Yaml::Str(s) if s == "hello"));
    assert!(matches!(parse_yaml("!seq [1, 2]").unwrap(), Yaml::List(v) if v.len() == 2));
}
