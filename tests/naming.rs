use gen_orb_mcp::cli::{derive_orb_name, resolve_version, Cli, VersionError, DEFAULT_VERSION};
use gen_orb_mcp::error::GeneratorError;
use gen_orb_mcp::naming::{
    crate_name, replace_hyphens, struct_name, to_pascal_case, to_snake_case, validate_orb_name,
};

#[test]
fn test_to_snake_case() {
    assert_eq!(to_snake_case("my-orb"), "my_orb");
    assert_eq!(to_snake_case("MyOrb"), "my_orb");
    assert_eq!(to_snake_case("myOrb"), "my_orb");
    assert_eq!(to_snake_case("my_orb"), "my_orb");
    assert_eq!(to_snake_case("my orb"), "my_orb");
}

#[test]
fn test_to_pascal_case() {
    assert_eq!(to_pascal_case("my-orb"), "MyOrb");
    assert_eq!(to_pascal_case("my_orb"), "MyOrb");
    assert_eq!(to_pascal_case("my orb"), "MyOrb");
    assert_eq!(to_pascal_case("myOrb"), "MyOrb");
}

#[test]
fn test_validate_orb_name() {
    assert!(validate_orb_name("my-orb").is_ok());
    assert!(validate_orb_name("my_orb").is_ok());
    assert!(validate_orb_name("myOrb").is_ok());
    assert!(validate_orb_name("myOrb123").is_ok());

    assert!(validate_orb_name("").is_err());
    assert!(validate_orb_name("123orb").is_err());
    assert!(validate_orb_name("my orb").is_err());
    assert!(validate_orb_name("my.orb").is_err());
}

#[test]
fn validate_orb_name_gives_each_reason() {
    let reason = |n: &str| match validate_orb_name(n) {
        Err(GeneratorError::InvalidOrbName { name, reason }) => {
            assert_eq!(name, n);
            reason
        }
        _ => panic!("expected a refusal"),
    };
    assert_eq!(reason(""), "name cannot be empty");
    assert_eq!(
        reason("my.orb"),
        "name can only contain alphanumeric characters, hyphens, and underscores"
    );
    assert_eq!(reason("123orb"), "name must start with a letter");
    assert_eq!(reason("-orb"), "name must start with a letter");
}

#[test]
fn test_derive_orb_name_from_orb_yml() {
    assert_eq!(derive_orb_name("/path/to/my-toolkit/src/@orb.yml"), "src");
    assert_eq!(derive_orb_name("my-orb/@orb.yml"), "my-orb");
}

#[test]
fn test_derive_orb_name_from_packed() {
    assert_eq!(derive_orb_name("/path/to/my-toolkit.yml"), "my-toolkit");
    assert_eq!(derive_orb_name("orb.yml"), "orb");
}

#[test]
fn derive_orb_name_without_a_name_falls_back() {
    assert_eq!(derive_orb_name("@orb.yml"), "orb");
    assert_eq!(derive_orb_name("/"), "orb");
}

#[test]
fn server_name_prefers_the_given_one() {
    assert_eq!(Cli::server_name(&Some("given".to_string()), "x/my-orb.yml"), "given");
    assert_eq!(Cli::server_name(&None, "x/my-orb.yml"), "my-orb");
}

#[test]
fn derived_identifiers_of_a_declared_name() {
    assert_eq!(crate_name("my-toolkit"), "my_toolkit_mcp");
    assert_eq!(struct_name("my-toolkit"), "MyToolkitMcp");
    assert_eq!(crate_name("MyToolkit"), "my_toolkit_mcp");
    assert_eq!(struct_name("my_toolkit"), "MyToolkitMcp");
    assert_eq!(replace_hyphens("a-b-c"), "a_b_c");
}

#[test]
fn snake_case_keeps_lowercase_words_and_is_stable() {
    assert_eq!(to_snake_case("already_lower_case"), "already_lower_case");
    assert_eq!(to_snake_case("abc123"), "abc123");
    assert_eq!(to_snake_case("HTTPServer"), "httpserver");
    assert_eq!(to_snake_case("My-Orb"), "my_orb");
    assert_eq!(to_snake_case("MyOrb"), to_snake_case("MyOrb"));
    assert_eq!(to_pascal_case("a-b"), to_pascal_case("a-b"));
    assert_eq!(to_snake_case(""), "");
    assert_eq!(to_pascal_case(""), "");
}

#[test]
fn test_resolve_version_fresh_with_explicit() {
    let result = resolve_version("out", false, Some("2.0.0"), false);
    assert!(result.is_ok());
    assert_eq!(result.ok().unwrap(), "2.0.0");
}

#[test]
fn test_resolve_version_fresh_with_default() {
    let result = resolve_version("out", false, None, false);
    assert!(result.is_ok());
    assert_eq!(result.ok().unwrap(), DEFAULT_VERSION);
}

#[test]
fn test_resolve_version_existing_without_version_fails() {
    let result = resolve_version("out", true, None, false);
    assert!(result.is_err());
    let err = result.err().unwrap().message();
    assert!(err.contains("already exists"));
    assert!(err.contains("--version"));
}

#[test]
fn test_resolve_version_existing_with_version_no_force_fails() {
    let result = resolve_version("out", true, Some("1.5.0"), false);
    assert!(result.is_err());
    let err = result.err().unwrap().message();
    assert!(err.contains("--force"));
}

#[test]
fn test_resolve_version_existing_with_version_and_force_succeeds() {
    let result = resolve_version("out", true, Some("1.5.0"), true);
    assert!(result.is_ok());
    assert_eq!(result.ok().unwrap(), "1.5.0");
}

#[test]
fn resolve_version_errors_name_the_output() {
    match resolve_version("dist/x", true, None, true) {
        Err(VersionError::NeedsVersion { output }) => assert_eq!(output, "dist/x"),
        _ => panic!("expected NeedsVersion"),
    }
    match resolve_version("dist/x", true, Some("1.0.0"), false) {
        Err(VersionError::NeedsForce { output }) => assert_eq!(output, "dist/x"),
        _ => panic!("expected NeedsForce"),
    }
}

#[test]
fn snake_case_turns_separators_into_underscores() {
    assert_eq!(to_snake_case("my-orb tool_kit"), "my_orb_tool_kit");
    assert_eq!(to_snake_case("a--b"), "a__b");
}
