use gen_orb_mcp::context::{extract_docker_images, param_type_to_str, GeneratorContext, ParameterContext};
use gen_orb_mcp::parser::OrbParser;
use gen_orb_mcp::schema::{Command, OrbDefinition, Parameter, ParameterType};
use gen_orb_mcp::yaml::Yaml;

fn greet_orb() -> OrbDefinition {
    let mut orb = OrbDefinition::empty();
    orb.version = "2.1".to_string();
    orb.description = Some("Test orb".to_string());
    let params = vec![(
        "name".to_string(),
        Parameter {
            param_type: ParameterType::String,
            description: Some("Name param".to_string()),
            default: Some(Yaml::Str("World".to_string())),
            enum_values: None,
        },
    )];
    orb.commands.push((
        "greet".to_string(),
        Command { description: Some("Greet command".to_string()), parameters: params, steps: vec![] },
    ));
    orb
}

#[test]
fn test_generator_context_from_orb() {
    let orb = greet_orb();
    let ctx = GeneratorContext::from_orb(&orb, "my-toolkit", "1.5.0");

    assert_eq!(ctx.orb_name, "my-toolkit");
    assert_eq!(ctx.crate_name, "my_toolkit_mcp");
    assert_eq!(ctx.struct_name, "MyToolkitMcp");
    assert_eq!(ctx.version, "1.5.0");
    assert_eq!(ctx.description, Some("Test orb".to_string()));
    assert_eq!(ctx.commands.len(), 1);
    assert!(ctx.has_resources);

    let cmd = &ctx.commands[0];
    assert_eq!(cmd.name, "greet");
    assert_eq!(cmd.uri, "orb://commands/greet");
}

#[test]
fn test_parameter_context() {
    let param = Parameter {
        param_type: ParameterType::Boolean,
        description: Some("Enable feature".to_string()),
        default: None,
        enum_values: None,
    };

    let ctx = ParameterContext::from_parameter("enabled", &param);

    assert_eq!(ctx.name, "enabled");
    assert_eq!(ctx.param_type, "boolean");
    assert!(ctx.required);
    assert!(ctx.default.is_none());
}

#[test]
fn test_explicit_version() {
    let orb = OrbDefinition::empty();
    let ctx = GeneratorContext::from_orb(&orb, "empty-orb", "2.0.0");

    assert_eq!(ctx.version, "2.0.0");
    assert!(!ctx.has_resources);
}

#[test]
fn parameter_with_default_is_optional_and_rendered_as_json() {
    let mk = |default: Option<Yaml>| Parameter { param_type: ParameterType::Integer, description: None, default, enum_values: None };
    let c = ParameterContext::from_parameter("n", &mk(Some(Yaml::Number("3".to_string()))));
    assert!(!c.required);
    assert_eq!(c.default, Some("3".to_string()));
    let c = ParameterContext::from_parameter("n", &mk(Some(Yaml::Bool(false))));
    assert_eq!(c.default, Some("false".to_string()));
    assert!(!c.required);
    let c = ParameterContext::from_parameter("n", &mk(Some(Yaml::List(vec![Yaml::Str("a\"b".to_string())]))));
    assert_eq!(c.default, Some("[\"a\\\"b\"]".to_string()));
    let c = ParameterContext::from_parameter("n", &mk(Some(Yaml::Mapping(vec![(Yaml::Null, Yaml::Null)]))));
    assert_eq!(c.default, Some("null".to_string()));
    let c = ParameterContext::from_parameter("n", &mk(None));
    assert!(c.required && c.default.is_none());
}

#[test]
fn parameter_kinds_have_names() {
    assert_eq!(param_type_to_str(&ParameterType::String), "string");
    assert_eq!(param_type_to_str(&ParameterType::Integer), "integer");
    assert_eq!(param_type_to_str(&ParameterType::Enum), "enum");
    assert_eq!(param_type_to_str(&ParameterType::EnvVarName), "env_var_name");
    assert_eq!(param_type_to_str(&ParameterType::Steps), "steps");
    assert_eq!(param_type_to_str(&ParameterType::Executor), "executor");
}

#[test]
fn scenario_from_document_to_context() {
    let yaml = r#"{version: "2.1", commands: {greet: {parameters: {name: {type: string, default: "World"}}, steps: ["run: echo hi"]}}}"#;
    let orb = OrbParser::parse_packed_content(yaml, "orb.yml").ok().unwrap();
    let ctx = GeneratorContext::from_orb(&orb, "my-toolkit", "1.5.0");
    assert_eq!(ctx.crate_name, "my_toolkit_mcp");
    assert_eq!(ctx.struct_name, "MyToolkitMcp");
    assert_eq!(ctx.commands.len(), 1);
    assert_eq!(ctx.commands[0].name, "greet");
    assert_eq!(ctx.commands[0].uri, "orb://commands/greet");
    let p = &ctx.commands[0].parameters[0];
    assert_eq!(p.name, "name");
    assert!(!p.required);
    assert_eq!(p.default, Some("\"World\"".to_string()));
    assert!(ctx.commands[0].json_content.contains("\"steps_count\": 1"));
}

#[test]
fn resource_addresses_are_distinct_across_categories() {
    let yaml = "commands:\n  a: {}\n  b: {}\njobs:\n  a: {}\nexecutors:\n  a: {}\n  c: {}\n";
    let orb = OrbParser::parse_packed_content(yaml, "orb.yml").ok().unwrap();
    let ctx = GeneratorContext::from_orb(&orb, "x", "1.0.0");
    let mut uris: Vec<String> = Vec::new();
    uris.extend(ctx.commands.iter().map(|c| c.uri.clone()));
    uris.extend(ctx.jobs.iter().map(|c| c.uri.clone()));
    uris.extend(ctx.executors.iter().map(|c| c.uri.clone()));
    assert_eq!(uris.len(), 5);
    let mut sorted = uris.clone();
    sorted.sort();
    sorted.dedup();
    assert_eq!(sorted.len(), 5);
    assert!(uris.contains(&"orb://jobs/a".to_string()));
    assert!(uris.contains(&"orb://executors/c".to_string()));
}

#[test]
fn images_and_settings_are_flattened() {
    let yaml = "executors:\n  e:\n    docker:\n      - rust:1.75\n      - image: postgres:16\n        user: me\n    resource_class: large\n    working_directory: /w\n    shell: bash\n    environment:\n      B: \"2\"\n      A: \"1\"\n";
    let orb = OrbParser::parse_packed_content(yaml, "orb.yml").ok().unwrap();
    let e = &orb.executors[0].1;
    assert_eq!(extract_docker_images(&e.config), vec!["rust:1.75".to_string(), "postgres:16".to_string()]);
    let ctx = GeneratorContext::from_orb(&orb, "x", "1.0.0");
    let c = &ctx.executors[0].config;
    assert_eq!(c.resource_class, Some("large".to_string()));
    assert_eq!(c.working_directory, Some("/w".to_string()));
    assert_eq!(c.shell, Some("bash".to_string()));
    assert_eq!(c.environment, vec![("B".to_string(), "2".to_string()), ("A".to_string(), "1".to_string())]);
    assert!(ctx.executors[0].json_content.contains("postgres:16"));
    assert_eq!(ctx.executors[0].uri, "orb://executors/e");
}

#[test]
fn job_executor_name_is_taken_from_either_shape() {
    let yaml = "jobs:\n  a:\n    executor: rust\n  b:\n    executor:\n      name: node\n      tag: lts\n";
    let orb = OrbParser::parse_packed_content(yaml, "orb.yml").ok().unwrap();
    let ctx = GeneratorContext::from_orb(&orb, "x", "1.0.0");
    assert_eq!(ctx.jobs[0].executor, Some("rust".to_string()));
    assert_eq!(ctx.jobs[1].executor, Some("node".to_string()));
    assert!(ctx.jobs[1].json_content.contains("\"executor\": \"node\""));
}

#[test]
fn snapshot_fields_keep_their_order() {
    let orb = greet_orb();
    let ctx = GeneratorContext::from_orb(&orb, "x", "1.0.0");
    let text = &ctx.commands[0].json_content;
    let name = text.find("\"name\"").unwrap();
    let description = text.find("\"description\"").unwrap();
    let parameters = text.find("\"parameters\"").unwrap();
    let steps = text.find("\"steps_count\"").unwrap();
    assert!(name < description && description < parameters && parameters < steps);
    assert!(text.contains("\"default\": \"World\""));
    assert!(text.contains("\"required\": false"));
}
