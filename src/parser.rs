//! Entry points of the parser: which layout a path names, which directory
//! entries hold entities, and the assembly of a definition from a single
//! document or from a root document plus one file per entity. The caller
//! reads the files; this module decides and decodes.

use vstd::prelude::*;
use crate::definition::{
    command_of, command_ok, definition_from_yaml, definition_of, definition_ok, executor_of,
    executor_ok, job_of, job_ok, read_command, read_executor, read_job,
};
use crate::error::ParseError;
use crate::paths::{
    extension_of, file_name_of, file_stem_of, parent_of, path_extension, path_file_name,
    path_file_stem, path_parent,
};
use crate::schema::{Command, Executor, Job, OrbDefinition};
use crate::text::{has_name, owned, text_eq, unique_names};
use crate::yaml::{content, document_tree, parse_yaml, Yaml};

verus! {

/// The file name of the root document of a multi-file layout.
pub const ROOT_DOCUMENT: &'static str = "@orb.yml";

/// How a definition is laid out on disk.
#[derive(Debug)]
pub enum Layout {
    /// A root document in `dir`, with entity files under `commands/`,
    /// `jobs/` and `executors/`.
    MultiFile { dir: String },
    /// One document holding everything.
    SingleDocument,
}

/// The layout a path names: a directory, or a file named like the root
/// document, is a multi-file layout; anything else is a single document.
/// Only the path's shape decides, never the file's content.
pub open spec fn layout_dir(p: Seq<char>, is_dir: bool) -> Option<Seq<char>> {
    if is_dir {
        Some(p)
    } else if path_file_name(p) == Some(ROOT_DOCUMENT@) {
        match path_parent(p) {
            Some(q) => Some(q),
            None => Some(p),
        }
    } else {
        None
    }
}

/// Whether `d` is the definition read from `text`: the text is one
/// document, and `d` is read from its tree.
pub open spec fn definition_read(text: Seq<char>, d: OrbDefinition) -> bool {
    exists|y: Yaml| document_tree(text) == Some(content(y)) && #[trigger] definition_of(y, d)
}

/// Whether `text` holds no definition: it is no document (or one nested
/// too deeply), or its tree does not have the shape of a definition.
pub open spec fn definition_fails(text: Seq<char>) -> bool {
    document_tree(text) is None || exists|y: Yaml|
        document_tree(text) == Some(content(y)) && !#[trigger] definition_ok(y)
}

/// A file that the caller has read, offered as an entity.
pub struct EntryFile {
    /// Entity name: the file name without its extension.
    pub name: String,
    /// Where the file was read from.
    pub path: String,
    /// The file's text.
    pub content: String,
}

/// Parser of definitions.
#[derive(Debug)]
pub struct OrbParser;

/// The entity name a directory entry stands for: only files whose extension
/// is `yml` or `yaml` count, under their file stem.
pub open spec fn entry_name_of(file_name: Seq<char>, is_dir: bool) -> Option<Seq<char>> {
    if is_dir {
        None
    } else if path_extension(file_name) == Some("yml"@) || path_extension(file_name) == Some(
        "yaml"@,
    ) {
        path_file_stem(file_name)
    } else {
        None
    }
}

impl OrbParser {
    /// A parser.
    pub fn new() -> (r: OrbParser) {
        OrbParser
    }

    /// The error for a root document that could not be read: a missing one
    /// is told apart from other read failures.
    pub fn root_read_error(path: &str, not_found: bool, message: &str) -> (r: ParseError)
        ensures
            not_found ==> (r matches ParseError::MissingFile { path: p } && p@ == path@),
            !not_found ==> (r matches ParseError::FileRead { path: p, message: m } && p@ == path@
                && m@ == message@),
    {
        if not_found {
            ParseError::MissingFile { path: owned(path) }
        } else {
            ParseError::FileRead { path: owned(path), message: owned(message) }
        }
    }

    /// Classifies a path by its shape.
    pub fn detect_layout(path: &str, is_dir: bool) -> (r: Layout)
        ensures
            match r {
                Layout::MultiFile { dir } => layout_dir(path@, is_dir) == Some(dir@),
                Layout::SingleDocument => layout_dir(path@, is_dir) is None,
            },
    {
        if is_dir {
            return Layout::MultiFile { dir: owned(path) };
        }
        let is_root = match file_name_of(path) {
            Some(f) => text_eq(f.as_str(), ROOT_DOCUMENT),
            None => false,
        };
        if is_root {
            match parent_of(path) {
                Some(q) => Layout::MultiFile { dir: q },
                None => Layout::MultiFile { dir: owned(path) },
            }
        } else {
            Layout::SingleDocument
        }
    }

    /// The entity name a directory entry stands for, if it is one.
    pub fn entry_name(file_name: &str, is_dir: bool) -> (r: Option<String>)
        ensures
            match r {
                Some(n) => entry_name_of(file_name@, is_dir) == Some(n@),
                None => entry_name_of(file_name@, is_dir) is None,
            },
    {
        if is_dir {
            return None;
        }
        let counts = match extension_of(file_name) {
            Some(e) => text_eq(e.as_str(), "yml") || text_eq(e.as_str(), "yaml"),
            None => false,
        };
        if counts {
            file_stem_of(file_name)
        } else {
            None
        }
    }

    /// Parses a single-document definition from its text.
    pub fn parse_packed_content(content: &str, source_path: &str) -> (r: Result<
        OrbDefinition,
        ParseError,
    >)
        ensures
            r matches Ok(d) ==> definition_read(content@, d),
            r matches Ok(d) ==> unique_names(d.orbs@) && unique_names(d.commands@) && unique_names(
                d.jobs@,
            ) && unique_names(d.executors@),
            document_tree(content@) is None ==> r is Err,
            r is Err ==> definition_fails(content@),
            r matches Err(e) ==> (e matches ParseError::YamlParse { path, .. } && path@
                == source_path@),
    {
        match parse_yaml(content) {
            Ok(y) => definition_from_yaml(&y, source_path),
            Err(message) => Err(ParseError::YamlParse { path: owned(source_path), message }),
        }
    }
}

/// Inserts a named entry, replacing one of the same name.
pub fn insert_named<T>(v: &mut Vec<(String, T)>, name: String, value: T)
    requires
        unique_names(old(v)@),
    ensures
        unique_names(final(v)@),
        exists|i: int| 0 <= i < final(v)@.len() && final(v)@[i].0 == name && final(v)@[i].1 == value,
        forall|i: int|
            0 <= i < old(v)@.len() && old(v)@[i].0@ != name@ ==> exists|j: int|
                0 <= j < final(v)@.len() && final(v)@[j] == old(v)@[i],
        forall|j: int|
            0 <= j < final(v)@.len() ==> ((#[trigger] final(v)@[j]).0 == name && final(v)@[j].1
                == value) || exists|i: int| 0 <= i < old(v)@.len() && final(v)@[j] == old(v)@[i],
{
    let ghost nm = name;
    let ghost val = value;
    let mut i: usize = 0;
    while i < v.len()
        invariant
            v@ == old(v)@,
            unique_names(v@),
            nm == name,
            val == value,
            0 <= i <= v.len(),
            forall|j: int| 0 <= j < i ==> v@[j].0@ != name@,
        decreases v.len() - i,
    {
        if text_eq(v[i].0.as_str(), name.as_str()) {
            let ghost before = v@;
            assert(nm@ == before[i as int].0@);
            v.set(i, (name, value));
            proof {
                assert(v@[i as int].0 == nm && v@[i as int].1 == val);
                assert forall|a: int, b: int|
                    0 <= a < v@.len() && 0 <= b < v@.len() && a != b implies v@[a].0@ != v@[b].0@ by {
                    assert(before[a].0@ != before[b].0@);
                }
                assert forall|k: int|
                    0 <= k < before.len() && before[k].0@ != nm@ implies exists|j: int|
                        0 <= j < v@.len() && v@[j] == before[k] by {
                    assert(v@[k] == before[k]);
                }
                assert forall|j: int| 0 <= j < v@.len() implies ((#[trigger] v@[j]).0 == nm
                    && v@[j].1 == val) || exists|k: int| 0 <= k < before.len() && v@[j] == before[k] by {
                    if j != i {
                        assert(v@[j] == before[j]);
                    }
                }
            }
            return;
        }
        i = i + 1;
    }
    let ghost before = v@;
    v.push((name, value));
    proof {
        assert(v@[before.len() as int].0 == nm);
        assert forall|k: int|
            0 <= k < before.len() && before[k].0@ != nm@ implies exists|j: int|
                0 <= j < v@.len() && v@[j] == before[k] by {
            assert(v@[k] == before[k]);
        }
        assert forall|j: int| 0 <= j < v@.len() implies ((#[trigger] v@[j]).0 == nm && v@[j].1
            == val) || exists|k: int| 0 <= k < before.len() && v@[j] == before[k] by {
            if j < before.len() {
                assert(v@[j] == before[j]);
            }
        }
    }
}



proof fn lemma_insert_keeps_names<T>(before: Seq<(String, T)>, after: Seq<(String, T)>, name: Seq<char>, n: Seq<char>)
    requires
        has_name(before, n),
        exists|i: int| 0 <= i < after.len() && after[i].0@ == name,
        forall|i: int|
            0 <= i < before.len() && before[i].0@ != name ==> exists|j: int|
                0 <= j < after.len() && after[j] == before[i],
    ensures
        has_name(after, n),
{
    let j0 = choose|j: int| 0 <= j < before.len() && before[j].0@ == n;
    if before[j0].0@ != name {
        let j1 = choose|j: int| 0 <= j < after.len() && after[j] == before[j0];
        assert(after[j1].0@ == n);
    } else {
        let j1 = choose|j: int| 0 <= j < after.len() && after[j].0@ == name;
        assert(after[j1].0@ == n);
    }
}

/// Reads one entity file of a category; the error names the file.
fn decode_file(f: &EntryFile) -> (r: Result<Yaml, ParseError>)
    ensures
        r is Ok <==> document_tree(f.content@) is Some,
        r matches Ok(y) ==> document_tree(f.content@) == Some(content(y)),
        r matches Err(e) ==> (e matches ParseError::YamlParse { path, .. } && path@ == f.path@),
{
    match parse_yaml(f.content.as_str()) {
        Ok(y) => Ok(y),
        Err(message) => Err(ParseError::YamlParse { path: f.path.clone(), message }),
    }
}

/// The error for a file whose document does not have the entity's shape.
fn shape_error(f: &EntryFile) -> (r: ParseError)
    ensures
        r matches ParseError::YamlParse { path, .. } && path@ == f.path@,
{
    ParseError::YamlParse { path: f.path.clone(), message: owned("document does not have the shape of this entity") }
}

/// Whether `c` is the command read from file `f`.
pub open spec fn command_from(f: EntryFile, c: Command) -> bool {
    exists|y: Yaml| document_tree(f.content@) == Some(content(y)) && #[trigger] command_of(y, c)
}

/// Whether file `f` holds no command.
pub open spec fn command_file_fails(f: EntryFile) -> bool {
    document_tree(f.content@) is None || exists|y: Yaml|
        document_tree(f.content@) == Some(content(y)) && !#[trigger] command_ok(y)
}

/// Whether entry `e` holds the command read from one of the first `n` files,
/// under that file's name.
pub open spec fn command_entry_from(files: Seq<EntryFile>, n: int, e: (String, Command)) -> bool {
    exists|k: int| 0 <= k < n && files[k].name == e.0 && command_from(files[k], e.1)
}

/// Decodes the command files of a directory; the first file that fails aborts
/// the whole read and is named in the error. On success every file's name
/// is a key, no key repeats, and each entry holds the command read from a file
/// of that name (the last one, where two share a name).
pub fn parse_command_files(files: &Vec<EntryFile>) -> (r: Result<Vec<(String, Command)>, ParseError>)
    ensures
        r matches Ok(v) ==> (unique_names(v@) && (forall|i: int|
            0 <= i < files@.len() ==> has_name(v@, (#[trigger] files@[i]).name@)) && forall|j: int|
            0 <= j < v@.len() ==> command_entry_from(files@, files@.len() as int, #[trigger] v@[j])),
        r matches Err(e) ==> (e matches ParseError::YamlParse { path, .. } && exists|i: int|
            0 <= i < files@.len() && path@ == files@[i].path@ && command_file_fails(files@[i])),
{
    let mut out: Vec<(String, Command)> = Vec::new();
    let mut i: usize = 0;
    while i < files.len()
        invariant
            0 <= i <= files.len(),
            unique_names(out@),
            forall|k: int| 0 <= k < i ==> has_name(out@, (#[trigger] files@[k]).name@),
            forall|j: int| 0 <= j < out@.len() ==> command_entry_from(files@, i as int, #[trigger] out@[j]),
        decreases files.len() - i,
    {
        let f = &files[i];
        let y = match decode_file(f) {
            Ok(y) => y,
            Err(e) => {
                assert(command_file_fails(files@[i as int]));
                return Err(e);
            },
        };
        let c = match read_command(&y) {
            Some(c) => c,
            None => {
                assert(command_file_fails(files@[i as int]));
                return Err(shape_error(f));
            },
        };
        assert(command_from(files@[i as int], c));
        let ghost before = out@;
        let ghost cg = c;
        let nm = f.name.clone();
        insert_named(&mut out, nm, c);
        proof {
            assert forall|k: int| 0 <= k < i + 1 implies has_name(out@, (#[trigger] files@[k]).name@) by {
                if k < i {
                    lemma_insert_keeps_names(before, out@, files@[i as int].name@, files@[k].name@);
                } else {
                    let j1 = choose|j: int| 0 <= j < out@.len() && out@[j].0 == files@[i as int].name && out@[j].1 == cg;
                    assert(out@[j1].0@ == files@[k].name@);
                }
            }
            assert forall|j: int| 0 <= j < out@.len() implies command_entry_from(files@, i + 1, #[trigger] out@[j]) by {
                if out@[j].0 == files@[i as int].name && out@[j].1 == cg {
                    assert(files@[i as int].name == out@[j].0 && command_from(files@[i as int], out@[j].1));
                } else {
                    let k = choose|k: int| 0 <= k < before.len() && out@[j] == before[k];
                    assert(command_entry_from(files@, i as int, before[k]));
                }
            }
        }
        i = i + 1;
    }
    Ok(out)
}

/// Whether `c` is the job read from file `f`.
pub open spec fn job_from(f: EntryFile, c: Job) -> bool {
    exists|y: Yaml| document_tree(f.content@) == Some(content(y)) && #[trigger] job_of(y, c)
}

/// Whether file `f` holds no job.
pub open spec fn job_file_fails(f: EntryFile) -> bool {
    document_tree(f.content@) is None || exists|y: Yaml|
        document_tree(f.content@) == Some(content(y)) && !#[trigger] job_ok(y)
}

/// Whether entry `e` holds the job read from one of the first `n` files,
/// under that file's name.
pub open spec fn job_entry_from(files: Seq<EntryFile>, n: int, e: (String, Job)) -> bool {
    exists|k: int| 0 <= k < n && files[k].name == e.0 && job_from(files[k], e.1)
}

/// Decodes the job files of a directory; the first file that fails aborts
/// the whole read and is named in the error. On success every file's name
/// is a key, no key repeats, and each entry holds the job read from a file
/// of that name (the last one, where two share a name).
pub fn parse_job_files(files: &Vec<EntryFile>) -> (r: Result<Vec<(String, Job)>, ParseError>)
    ensures
        r matches Ok(v) ==> (unique_names(v@) && (forall|i: int|
            0 <= i < files@.len() ==> has_name(v@, (#[trigger] files@[i]).name@)) && forall|j: int|
            0 <= j < v@.len() ==> job_entry_from(files@, files@.len() as int, #[trigger] v@[j])),
        r matches Err(e) ==> (e matches ParseError::YamlParse { path, .. } && exists|i: int|
            0 <= i < files@.len() && path@ == files@[i].path@ && job_file_fails(files@[i])),
{
    let mut out: Vec<(String, Job)> = Vec::new();
    let mut i: usize = 0;
    while i < files.len()
        invariant
            0 <= i <= files.len(),
            unique_names(out@),
            forall|k: int| 0 <= k < i ==> has_name(out@, (#[trigger] files@[k]).name@),
            forall|j: int| 0 <= j < out@.len() ==> job_entry_from(files@, i as int, #[trigger] out@[j]),
        decreases files.len() - i,
    {
        let f = &files[i];
        let y = match decode_file(f) {
            Ok(y) => y,
            Err(e) => {
                assert(job_file_fails(files@[i as int]));
                return Err(e);
            },
        };
        let c = match read_job(&y) {
            Some(c) => c,
            None => {
                assert(job_file_fails(files@[i as int]));
                return Err(shape_error(f));
            },
        };
        assert(job_from(files@[i as int], c));
        let ghost before = out@;
        let ghost cg = c;
        let nm = f.name.clone();
        insert_named(&mut out, nm, c);
        proof {
            assert forall|k: int| 0 <= k < i + 1 implies has_name(out@, (#[trigger] files@[k]).name@) by {
                if k < i {
                    lemma_insert_keeps_names(before, out@, files@[i as int].name@, files@[k].name@);
                } else {
                    let j1 = choose|j: int| 0 <= j < out@.len() && out@[j].0 == files@[i as int].name && out@[j].1 == cg;
                    assert(out@[j1].0@ == files@[k].name@);
                }
            }
            assert forall|j: int| 0 <= j < out@.len() implies job_entry_from(files@, i + 1, #[trigger] out@[j]) by {
                if out@[j].0 == files@[i as int].name && out@[j].1 == cg {
                    assert(files@[i as int].name == out@[j].0 && job_from(files@[i as int], out@[j].1));
                } else {
                    let k = choose|k: int| 0 <= k < before.len() && out@[j] == before[k];
                    assert(job_entry_from(files@, i as int, before[k]));
                }
            }
        }
        i = i + 1;
    }
    Ok(out)
}

/// Whether `c` is the executor read from file `f`.
pub open spec fn executor_from(f: EntryFile, c: Executor) -> bool {
    exists|y: Yaml| document_tree(f.content@) == Some(content(y)) && #[trigger] executor_of(y, c)
}

/// Whether file `f` holds no executor.
pub open spec fn executor_file_fails(f: EntryFile) -> bool {
    document_tree(f.content@) is None || exists|y: Yaml|
        document_tree(f.content@) == Some(content(y)) && !#[trigger] executor_ok(y)
}

/// Whether entry `e` holds the executor read from one of the first `n` files,
/// under that file's name.
pub open spec fn executor_entry_from(files: Seq<EntryFile>, n: int, e: (String, Executor)) -> bool {
    exists|k: int| 0 <= k < n && files[k].name == e.0 && executor_from(files[k], e.1)
}

/// Decodes the executor files of a directory; the first file that fails aborts
/// the whole read and is named in the error. On success every file's name
/// is a key, no key repeats, and each entry holds the executor read from a file
/// of that name (the last one, where two share a name).
pub fn parse_executor_files(files: &Vec<EntryFile>) -> (r: Result<Vec<(String, Executor)>, ParseError>)
    ensures
        r matches Ok(v) ==> (unique_names(v@) && (forall|i: int|
            0 <= i < files@.len() ==> has_name(v@, (#[trigger] files@[i]).name@)) && forall|j: int|
            0 <= j < v@.len() ==> executor_entry_from(files@, files@.len() as int, #[trigger] v@[j])),
        r matches Err(e) ==> (e matches ParseError::YamlParse { path, .. } && exists|i: int|
            0 <= i < files@.len() && path@ == files@[i].path@ && executor_file_fails(files@[i])),
{
    let mut out: Vec<(String, Executor)> = Vec::new();
    let mut i: usize = 0;
    while i < files.len()
        invariant
            0 <= i <= files.len(),
            unique_names(out@),
            forall|k: int| 0 <= k < i ==> has_name(out@, (#[trigger] files@[k]).name@),
            forall|j: int| 0 <= j < out@.len() ==> executor_entry_from(files@, i as int, #[trigger] out@[j]),
        decreases files.len() - i,
    {
        let f = &files[i];
        let y = match decode_file(f) {
            Ok(y) => y,
            Err(e) => {
                assert(executor_file_fails(files@[i as int]));
                return Err(e);
            },
        };
        let c = match read_executor(&y) {
            Some(c) => c,
            None => {
                assert(executor_file_fails(files@[i as int]));
                return Err(shape_error(f));
            },
        };
        assert(executor_from(files@[i as int], c));
        let ghost before = out@;
        let ghost cg = c;
        let nm = f.name.clone();
        insert_named(&mut out, nm, c);
        proof {
            assert forall|k: int| 0 <= k < i + 1 implies has_name(out@, (#[trigger] files@[k]).name@) by {
                if k < i {
                    lemma_insert_keeps_names(before, out@, files@[i as int].name@, files@[k].name@);
                } else {
                    let j1 = choose|j: int| 0 <= j < out@.len() && out@[j].0 == files@[i as int].name && out@[j].1 == cg;
                    assert(out@[j1].0@ == files@[k].name@);
                }
            }
            assert forall|j: int| 0 <= j < out@.len() implies executor_entry_from(files@, i + 1, #[trigger] out@[j]) by {
                if out@[j].0 == files@[i as int].name && out@[j].1 == cg {
                    assert(files@[i as int].name == out@[j].0 && executor_from(files@[i as int], out@[j].1));
                } else {
                    let k = choose|k: int| 0 <= k < before.len() && out@[j] == before[k];
                    assert(executor_entry_from(files@, i as int, before[k]));
                }
            }
        }
        i = i + 1;
    }
    Ok(out)
}

/// The definition of a multi-file layout: the root document's content,
/// where each category that has a directory takes that directory's
/// entities in place of the root document's map.
pub open spec fn with_directories(
    root: OrbDefinition,
    commands: Option<Vec<(String, Command)>>,
    jobs: Option<Vec<(String, Job)>>,
    executors: Option<Vec<(String, Executor)>>,
) -> OrbDefinition {
    OrbDefinition {
        version: root.version,
        description: root.description,
        display: root.display,
        orbs: root.orbs,
        commands: match commands {
            Some(v) => v,
            None => root.commands,
        },
        jobs: match jobs {
            Some(v) => v,
            None => root.jobs,
        },
        executors: match executors {
            Some(v) => v,
            None => root.executors,
        },
    }
}

/// Puts a multi-file definition together from its root and directories.
pub fn assemble_unpacked(
    root: OrbDefinition,
    commands: Option<Vec<(String, Command)>>,
    jobs: Option<Vec<(String, Job)>>,
    executors: Option<Vec<(String, Executor)>>,
) -> (r: OrbDefinition)
    ensures
        r == with_directories(root, commands, jobs, executors),
{
    let mut d = root;
    if let Some(v) = commands {
        d.commands = v;
    }
    if let Some(v) = jobs {
        d.jobs = v;
    }
    if let Some(v) = executors {
        d.executors = v;
    }
    d
}

/// Law: a category's directory replaces the root document's map for that
/// category entirely; nothing of the inline map is kept, whatever it held.
pub proof fn lemma_directory_replaces_inline(
    root: OrbDefinition,
    commands: Vec<(String, Command)>,
    jobs: Option<Vec<(String, Job)>>,
    executors: Option<Vec<(String, Executor)>>,
)
    ensures
        with_directories(root, Some(commands), jobs, executors).commands == commands,
        jobs matches Some(v) ==> with_directories(root, Some(commands), jobs, executors).jobs == v,
        executors matches Some(v) ==> with_directories(root, Some(commands), jobs, executors).executors
            == v,
        jobs is None ==> with_directories(root, Some(commands), jobs, executors).jobs == root.jobs,
{
}

/// Whether `v` holds exactly what the command files `fs` read as: every file's
/// name is a key, no key repeats, and each entry is read from a file of
/// its name.
pub open spec fn command_files_read(fs: Seq<EntryFile>, v: Seq<(String, Command)>) -> bool {
    &&& unique_names(v)
    &&& forall|i: int| 0 <= i < fs.len() ==> has_name(v, (#[trigger] fs[i]).name@)
    &&& forall|j: int| 0 <= j < v.len() ==> command_entry_from(fs, fs.len() as int, #[trigger] v[j])
}

/// Whether one of the command files `fs` holds no command.
pub open spec fn command_files_fail(fs: Seq<EntryFile>) -> bool {
    exists|i: int| 0 <= i < fs.len() && command_file_fails(#[trigger] fs[i])
}

/// Whether `v` holds exactly what the job files `fs` read as: every file's
/// name is a key, no key repeats, and each entry is read from a file of
/// its name.
pub open spec fn job_files_read(fs: Seq<EntryFile>, v: Seq<(String, Job)>) -> bool {
    &&& unique_names(v)
    &&& forall|i: int| 0 <= i < fs.len() ==> has_name(v, (#[trigger] fs[i]).name@)
    &&& forall|j: int| 0 <= j < v.len() ==> job_entry_from(fs, fs.len() as int, #[trigger] v[j])
}

/// Whether one of the job files `fs` holds no job.
pub open spec fn job_files_fail(fs: Seq<EntryFile>) -> bool {
    exists|i: int| 0 <= i < fs.len() && job_file_fails(#[trigger] fs[i])
}

/// Whether `v` holds exactly what the executor files `fs` read as: every file's
/// name is a key, no key repeats, and each entry is read from a file of
/// its name.
pub open spec fn executor_files_read(fs: Seq<EntryFile>, v: Seq<(String, Executor)>) -> bool {
    &&& unique_names(v)
    &&& forall|i: int| 0 <= i < fs.len() ==> has_name(v, (#[trigger] fs[i]).name@)
    &&& forall|j: int| 0 <= j < v.len() ==> executor_entry_from(fs, fs.len() as int, #[trigger] v[j])
}

/// Whether one of the executor files `fs` holds no executor.
pub open spec fn executor_files_fail(fs: Seq<EntryFile>) -> bool {
    exists|i: int| 0 <= i < fs.len() && executor_file_fails(#[trigger] fs[i])
}

/// Whether `p` is the path of one of the files, when there are files.
pub open spec fn file_path_of(files: Option<Vec<EntryFile>>, p: Seq<char>) -> bool {
    files matches Some(fs) && exists|i: int| 0 <= i < fs@.len() && (#[trigger] fs@[i]).path@ == p
}

impl OrbParser {
    /// Parses a multi-file definition from the texts the caller read: the
    /// root document, and for each category whose directory exists, its
    /// entity files. Any failure aborts the whole parse and names the file.
    /// A category with a directory takes exactly that directory's entities,
    /// an empty directory giving none; one without keeps the root's map.
    pub fn parse_unpacked_parts(
        root_content: &str,
        root_path: &str,
        commands: Option<Vec<EntryFile>>,
        jobs: Option<Vec<EntryFile>>,
        executors: Option<Vec<EntryFile>>,
    ) -> (r: Result<OrbDefinition, ParseError>)
        ensures
            r matches Ok(d) ==> exists|root: OrbDefinition|
                #[trigger] definition_read(root_content@, root) && {
                    &&& d.version == root.version
                    &&& d.description == root.description
                    &&& d.display == root.display
                    &&& d.orbs == root.orbs
                    &&& match commands {
                        Some(fs) => command_files_read(fs@, d.commands@),
                        None => d.commands == root.commands,
                    }
                    &&& match jobs {
                        Some(fs) => job_files_read(fs@, d.jobs@),
                        None => d.jobs == root.jobs,
                    }
                    &&& match executors {
                        Some(fs) => executor_files_read(fs@, d.executors@),
                        None => d.executors == root.executors,
                    }
                },
            r is Err ==> definition_fails(root_content@) || (commands matches Some(fs)
                && command_files_fail(fs@)) || (jobs matches Some(fs) && job_files_fail(fs@)) || (
            executors matches Some(fs) && executor_files_fail(fs@)),
            r matches Err(e) ==> (e matches ParseError::YamlParse { .. }),
            r matches Err(ParseError::YamlParse { path, .. }) ==> path@ == root_path@ || file_path_of(
                commands,
                path@,
            ) || file_path_of(jobs, path@) || file_path_of(executors, path@),
    {
        let root = OrbParser::parse_packed_content(root_content, root_path)?;
        let ghost root_spec = root;
        let c = match commands {
            Some(fs) => match parse_command_files(&fs) {
                Ok(v) => Some(v),
                Err(e) => return Err(e),
            },
            None => None,
        };
        let j = match jobs {
            Some(fs) => match parse_job_files(&fs) {
                Ok(v) => Some(v),
                Err(e) => return Err(e),
            },
            None => None,
        };
        let e = match executors {
            Some(fs) => match parse_executor_files(&fs) {
                Ok(v) => Some(v),
                Err(e) => return Err(e),
            },
            None => None,
        };
        let d = assemble_unpacked(root, c, j, e);
        assert(definition_read(root_content@, root_spec));
        Ok(d)
    }
}

} // verus!
