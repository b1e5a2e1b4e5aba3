//! The fixed templates of a generated server: entry point, library module
//! and package manifest.

use vstd::prelude::*;

verus! {

/// Template of the entry point.
pub const MAIN_RS: &'static str = r###"//! MCP server for the {{orb_name}} orb.

use anyhow::Result;

#[tokio::main]
async fn main() -> Result<()> {
    let server = {{crate_name}}::create_server()?;
    server.run_stdio().await?;
    Ok(())
}
"###;

/// Template of the library module: one resource per command, job and
/// executor, plus an overview.
pub const LIB_RS: &'static str = r###"//! Resources of the {{orb_name}} orb{{#if description}}: {{description}}{{/if}}

use pmcp::server::simple_resources::{ResourceCollection, StaticResource};
use pmcp::{Server, ServerCapabilities};

/// Overview of the orb.
const OVERVIEW: &str = r##"# {{orb_name}}

{{#if description}}{{description}}

{{/if}}Commands: {{length commands}}
Jobs: {{length jobs}}
Executors: {{length executors}}
"##;

/// Marker type of the {{orb_name}} server.
pub struct {{struct_name}};

/// Every resource of the orb.
pub fn resources() -> ResourceCollection {
    ResourceCollection::new()
        .add_resource(
            StaticResource::new_text("orb://overview", OVERVIEW)
                .with_name("overview")
                .with_mime_type("text/markdown"),
        )
{{#if has_resources}}{{#each commands}}        .add_resource(
            StaticResource::new_text("{{uri}}", r##"{{json_content}}"##)
                .with_name("command: {{name}}")
                .with_mime_type("application/json"),
        )
{{/each}}{{#each jobs}}        .add_resource(
            StaticResource::new_text("{{uri}}", r##"{{json_content}}"##)
                .with_name("job: {{name}}")
                .with_mime_type("application/json"),
        )
{{/each}}{{#each executors}}        .add_resource(
            StaticResource::new_text("{{uri}}", r##"{{json_content}}"##)
                .with_name("executor: {{name}}")
                .with_mime_type("application/json"),
        )
{{/each}}{{/if}}}

/// Builds the server.
pub fn create_server() -> pmcp::Result<Server> {
    Server::builder()
        .name("{{crate_name}}")
        .version("{{version}}")
        .capabilities(ServerCapabilities::resources_only())
        .resources(resources())
        .build()
}
"###;

/// Template of the package manifest.
pub const CARGO_TOML: &'static str = r###"[package]
name = "{{crate_name}}"
version = "{{version}}"
edition = "2021"
description = "MCP server for the {{orb_name}} orb"

[dependencies]
pmcp = "1"
tokio = { version = "1", features = ["full"] }
anyhow = "1"
"###;

} // verus!
