use gen_orb_mcp::error::GeneratorError;
use gen_orb_mcp::generator::{length_of, length_text, CodeGenerator, SizeArg};
use gen_orb_mcp::schema::{Command, OrbDefinition, Parameter, ParameterType};
use gen_orb_mcp::yaml::Yaml;

fn create_test_orb() -> OrbDefinition {
    let mut orb = OrbDefinition::empty();
    orb.version = "2.1".to_string();
    orb.description = Some("Test orb for unit tests".to_string());
    let params = vec![(
        "name".to_string(),
        Parameter {
            param_type: ParameterType::String,
            description: Some("Name to greet".to_string()),
            default: Some(Yaml::Str("World".to_string())),
            enum_values: None,
        },
    )];
    orb.commands.push((
        "greet".to_string(),
        Command { description: Some("Greet someone".to_string()), parameters: params, steps: vec![] },
    ));
    orb
}

fn generator() -> CodeGenerator {
    match CodeGenerator::new() {
        Ok(g) => g,
        Err(_) => panic!("templates must compile"),
    }
}

#[test]
fn test_code_generator_new() {
    let generator = CodeGenerator::new();
    assert!(generator.is_ok());
}

#[test]
fn test_generate_produces_files() {
    let orb = create_test_orb();
    let server = generator().generate(&orb, "test-orb", "1.0.0").ok().unwrap();

    assert!(server.has_file("src/main.rs"));
    assert!(server.has_file("src/lib.rs"));
    assert!(server.has_file("Cargo.toml"));
    assert_eq!(server.crate_name, "test_orb_mcp");
    assert_eq!(server.orb_name, "test-orb");
}

#[test]
fn test_generated_main_contains_tokio() {
    let orb = create_test_orb();
    let server = generator().generate(&orb, "test-orb", "1.0.0").ok().unwrap();
    let main_rs = server.file("src/main.rs").unwrap();

    assert!(main_rs.contains("#[tokio::main]"));
    assert!(main_rs.contains("test_orb_mcp::create_server"));
}

#[test]
fn test_generated_lib_contains_resources() {
    let orb = create_test_orb();
    let server = generator().generate(&orb, "test-orb", "1.0.0").ok().unwrap();
    let lib_rs = server.file("src/lib.rs").unwrap();

    assert!(lib_rs.contains("ResourceCollection"));
    assert!(lib_rs.contains("StaticResource"));
    assert!(lib_rs.contains("orb://commands/greet"));
    assert!(lib_rs.contains("orb://overview"));
}

#[test]
fn test_generated_cargo_toml() {
    let orb = create_test_orb();
    let server = generator().generate(&orb, "test-orb", "2.5.0").ok().unwrap();
    let cargo = server.file("Cargo.toml").unwrap();

    assert!(cargo.contains("name = \"test_orb_mcp\""));
    assert!(cargo.contains("version = \"2.5.0\""));
    assert!(cargo.contains("pmcp = "));
    assert!(cargo.contains("tokio = "));
}

#[test]
fn test_empty_orb_generates_valid_code() {
    let orb = OrbDefinition::empty();
    let server = generator().generate(&orb, "empty-orb", "0.1.0").ok().unwrap();

    assert!(server.has_file("src/main.rs"));
    assert!(server.has_file("src/lib.rs"));
    assert!(server.has_file("Cargo.toml"));
    let lib_rs = server.file("src/lib.rs").unwrap();
    assert_eq!(lib_rs.matches("StaticResource::new_text").count(), 1);
    assert!(lib_rs.contains("orb://overview"));
    assert!(lib_rs.contains("Commands: 0"));
}

#[test]
fn generated_text_is_not_escaped() {
    let mut orb = create_test_orb();
    orb.description = Some("<b> & \"quotes\"".to_string());
    let server = generator().generate(&orb, "test-orb", "1.0.0").ok().unwrap();
    let lib_rs = server.file("src/lib.rs").unwrap();
    assert!(lib_rs.contains("<b> & \"quotes\""));
    assert!(lib_rs.contains("Commands: 1"));
    assert!(lib_rs.contains("pub struct TestOrbMcp;"));
}

#[test]
fn invalid_name_stops_generation() {
    let orb = create_test_orb();
    match generator().generate(&orb, "my.orb", "1.0.0") {
        Err(GeneratorError::InvalidOrbName { name, .. }) => assert_eq!(name, "my.orb"),
        _ => panic!("expected InvalidOrbName"),
    }
}

#[test]
fn source_files_are_the_rust_ones() {
    let server = generator().generate(&create_test_orb(), "test-orb", "1.0.0").ok().unwrap();
    assert_eq!(server.source_files(), vec!["src/main.rs".to_string(), "src/lib.rs".to_string()]);
    assert!(server.file("README.md").is_none());
}

#[test]
fn length_text_is_decimal() {
    assert_eq!(length_text(0), "0");
    assert_eq!(length_text(7), "7");
    assert_eq!(length_text(10), "10");
    assert_eq!(length_text(1234), "1234");
}

#[test]
fn length_of_each_kind_of_argument() {
    assert_eq!(length_of(&SizeArg::Array(3)), Some("3".to_string()));
    assert_eq!(length_of(&SizeArg::Object(12)), Some("12".to_string()));
    assert_eq!(length_of(&SizeArg::Str(5)), Some("5".to_string()));
    assert_eq!(length_of(&SizeArg::Other), Some("0".to_string()));
    assert_eq!(length_of(&SizeArg::Missing), None);
}
