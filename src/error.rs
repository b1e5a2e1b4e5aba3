//! Error kinds of parsing and generation. Each carries the path or name it
//! concerns and a message; none is ever swallowed.

use vstd::prelude::*;

verus! {

/// Why a definition could not be parsed.
pub enum ParseError {
    /// A file could not be read.
    FileRead { path: String, message: String },
    /// A document is not well-formed, or does not have the shape the schema asks for.
    YamlParse { path: String, message: String },
    /// The root document of a multi-file layout is missing.
    MissingFile { path: String },
    /// A derived invariant does not hold (an entry name that is no usable key).
    InvalidStructure { message: String },
    /// A directory could not be listed.
    DirectoryRead { path: String, message: String },
}

/// Why a server could not be generated or written.
pub enum GeneratorError {
    /// A template referred to something the context does not hold.
    TemplateRender { name: String, message: String },
    /// A fixed template did not compile.
    TemplateRegister { name: String, message: String },
    /// A helper could not be registered.
    HelperRegister { message: String },
    /// The context could not be serialized.
    Serialization { message: String },
    /// An output file could not be written.
    FileWrite { path: String, message: String },
    /// An output directory could not be created.
    DirectoryCreate { path: String, message: String },
    /// The source formatter could not be started.
    RustfmtFailed { message: String },
    /// The lint fixer could not be started.
    ClippyFailed { message: String },
    /// The declared name cannot seed identifiers.
    InvalidOrbName { name: String, reason: String },
}

} // verus!
