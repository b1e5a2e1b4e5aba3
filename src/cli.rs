//! Decisions taken before generation: the default server name read off the
//! definition's path, and the version to stamp on the generated package.

use vstd::prelude::*;
use crate::paths::{file_name_of, file_stem_of, parent_of, path_file_name, path_file_stem, path_parent};
use crate::parser::ROOT_DOCUMENT;
use crate::text::{join2, owned, text_eq};

verus! {

/// Version given to a freshly generated package when none is asked for.
pub const DEFAULT_VERSION: &'static str = "0.1.0";

/// A parsed command line.
pub struct Cli {
    /// What to do.
    pub command: CliCommand,
}

/// The actions of the command line.
pub enum CliCommand {
    /// Generate a server from a definition.
    Generate {
        /// Path of the definition (a single document, a root document, or a directory).
        orb_path: String,
        /// Directory to write the server to.
        output: String,
        /// How to emit it.
        format: OutputFormat,
        /// Name of the server; derived from the path when absent.
        name: Option<String>,
        /// Version of the generated package.
        version: Option<String>,
        /// Whether an existing output may be overwritten.
        force: bool,
    },
    /// Check that a definition parses.
    Validate {
        /// Path of the definition.
        orb_path: String,
    },
}

impl Cli {
    /// The server name to generate under: the one given, or the one the
    /// definition's path implies.
    pub fn server_name(given: &Option<String>, orb_path: &str) -> (r: String)
        ensures
            r@ == match given {
                Some(n) => n@,
                None => derived_orb_name(orb_path@),
            },
    {
        match given {
            Some(n) => n.clone(),
            None => derive_orb_name(orb_path),
        }
    }
}

/// How the server should be emitted.
#[derive(Clone, Copy, Debug, PartialEq, Eq, Structural)]
pub enum OutputFormat {
    /// Compile to a native binary.
    Binary,
    /// Emit source code only.
    Source,
}

/// The server name implied by a definition's path: the directory holding
/// the root document of a multi-file layout, or else the file's stem; `orb`
/// where the path gives no name.
pub open spec fn derived_orb_name(p: Seq<char>) -> Seq<char> {
    let fname = match path_file_name(p) {
        Some(f) => f,
        None => "orb"@,
    };
    if fname == ROOT_DOCUMENT@ {
        match path_parent(p) {
            Some(q) => match path_file_name(q) {
                Some(n) => n,
                None => "orb"@,
            },
            None => "orb"@,
        }
    } else {
        match path_file_stem(p) {
            Some(s) => s,
            None => "orb"@,
        }
    }
}

/// Derives a server name from the path of a definition.
pub fn derive_orb_name(path: &str) -> (r: String)
    ensures
        r@ == derived_orb_name(path@),
{
    let fname = match file_name_of(path) {
        Some(f) => f,
        None => owned("orb"),
    };
    if text_eq(fname.as_str(), ROOT_DOCUMENT) {
        match parent_of(path) {
            Some(q) => match file_name_of(q.as_str()) {
                Some(n) => n,
                None => owned("orb"),
            },
            None => owned("orb"),
        }
    } else {
        match file_stem_of(path) {
            Some(s) => s,
            None => owned("orb"),
        }
    }
}

/// Why no version could be chosen for the output.
pub enum VersionError {
    /// The output already holds a package and no version was given.
    NeedsVersion { output: String },
    /// The output already holds a package and overwriting was not confirmed.
    NeedsForce { output: String },
}

/// The message shown when an existing output needs an explicit version.
pub open spec fn needs_version_text(output: Seq<char>) -> Seq<char> {
    "Output directory '"@ + output
        + "' already exists.\nTo regenerate, you must specify the version explicitly:\n\n    gen-orb-mcp generate --orb-path <PATH> --output "@
        + output
        + " --version <VERSION> --force\n\nFor CI release workflows, use the orb release version (e.g., --version 1.6.0)."@
}

/// The message shown when overwriting an existing output was not confirmed.
pub open spec fn needs_force_text(output: Seq<char>) -> Seq<char> {
    "Output directory '"@ + output + "' already exists. Use --force to overwrite."@
}

impl VersionError {
    /// The message shown to the user.
    pub fn message(&self) -> (r: String)
        ensures
            match self {
                VersionError::NeedsVersion { output } => r@ == needs_version_text(output@),
                VersionError::NeedsForce { output } => r@ == needs_force_text(output@),
            },
    {
        match self {
            VersionError::NeedsVersion { output } => {
                let a = join2("Output directory '", output.as_str());
                let b = join2(
                    a.as_str(),
                    "' already exists.\nTo regenerate, you must specify the version explicitly:\n\n    gen-orb-mcp generate --orb-path <PATH> --output ",
                );
                let c = join2(b.as_str(), output.as_str());
                join2(
                    c.as_str(),
                    " --version <VERSION> --force\n\nFor CI release workflows, use the orb release version (e.g., --version 1.6.0).",
                )
            },
            VersionError::NeedsForce { output } => {
                let a = join2("Output directory '", output.as_str());
                join2(a.as_str(), "' already exists. Use --force to overwrite.")
            },
        }
    }
}

/// Chooses the version of the generated package. `manifest_exists` says
/// whether the output directory already holds a package manifest.
pub fn resolve_version(output: &str, manifest_exists: bool, version: Option<&str>, force: bool) -> (r:
    Result<String, VersionError>)
    ensures
        !manifest_exists ==> (r matches Ok(v) && v@ == match version {
            Some(x) => x@,
            None => DEFAULT_VERSION@,
        }),
        manifest_exists && version is Some && force ==> (r matches Ok(v) && v@ == version->0@),
        manifest_exists && version is Some && !force ==> (r matches Err(
            VersionError::NeedsForce { output: o },
        ) && o@ == output@),
        manifest_exists && version is None ==> (r matches Err(
            VersionError::NeedsVersion { output: o },
        ) && o@ == output@),
{
    match version {
        Some(v) => {
            if manifest_exists && !force {
                Err(VersionError::NeedsForce { output: owned(output) })
            } else {
                Ok(owned(v))
            }
        },
        None => {
            if manifest_exists {
                Err(VersionError::NeedsVersion { output: owned(output) })
            } else {
                Ok(owned(DEFAULT_VERSION))
            }
        },
    }
}

} // verus!
