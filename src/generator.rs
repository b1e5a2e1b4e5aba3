//! Rendering a definition into the files of a server project.

use vstd::prelude::*;
use handlebars::{Context, Handlebars, Helper, HelperResult, Output, RenderContext, RenderErrorReason};
use serde_json::Value;
use crate::context::GeneratorContext;
use crate::error::GeneratorError;
use crate::naming::{crate_name_of, name_problem, validate_orb_name};
use crate::paths::{extension_of, path_extension};
use crate::schema::OrbDefinition;
use crate::templates::{CARGO_TOML, LIB_RS, MAIN_RS};
use crate::json::{Json, JsonV};
use crate::context::context_of;
use crate::context::context_json;
use crate::text::{join2, owned, text_eq};

verus! {

#[verifier::external_type_specification]
#[verifier::external_body]
pub struct ExHandlebars<'a>(handlebars::Handlebars<'a>);

/// The template registry of this library.
pub type Registry = handlebars::Handlebars<'static>;

/// Whether handlebars compiles this template text.
pub uninterp spec fn compiles(text: Seq<char>) -> bool;

/// What handlebars renders for the template named `name` of a registry
/// holding the templates `ts` (each also usable as a partial), against a
/// JSON context, with escaping off and the `length` helper registered;
/// `None` when rendering fails.
pub uninterp spec fn rendered(ts: Map<Seq<char>, Seq<char>>, name: Seq<char>, ctx: JsonV) -> Option<Seq<char>>;

/// The templates a registry holds, by name, as their texts.
pub uninterp spec fn templates_of(h: Registry) -> Map<Seq<char>, Seq<char>>;

/// Whether a registry writes rendered values without escaping.
pub uninterp spec fn raw_output(h: Registry) -> bool;

/// Whether a registry has the `length` helper of this library.
pub uninterp spec fn has_length(h: Registry) -> bool;

/// No templates at all.
pub open spec fn no_templates() -> Map<Seq<char>, Seq<char>> {
    Map::empty()
}

/// Relies on `Handlebars::new`: a registry without templates.
#[verifier::external_body]
fn registry_new() -> (r: Registry)
    ensures
        templates_of(r) == no_templates(),
{
    handlebars::Handlebars::new()
}

/// Relies on `Handlebars::register_escape_fn` with `no_escape`: output is
/// written as rendered, since it is source code and not markup.
#[verifier::external_body]
fn registry_disable_escaping(h: &mut Registry)
    ensures
        raw_output(*final(h)),
        has_length(*final(h)) == has_length(*old(h)),
        templates_of(*final(h)) == templates_of(*old(h)),
{
    h.register_escape_fn(handlebars::no_escape)
}

/// Relies on `Handlebars::register_helper`: registers `length`, which
/// writes the number of items of an array or object, or of bytes of a
/// string, and 0 for other values.
#[verifier::external_body]
fn registry_add_length(h: &mut Registry)
    ensures
        has_length(*final(h)),
        raw_output(*final(h)) == raw_output(*old(h)),
        templates_of(*final(h)) == templates_of(*old(h)),
{
    h.register_helper("length", Box::new(|hp: &Helper, _: &Handlebars, _: &Context, _: &mut RenderContext, out: &mut dyn Output| -> HelperResult {
        let arg = match hp.param(0).map(|p| p.value()) {
            None => SizeArg::Missing,
            Some(Value::Array(a)) => SizeArg::Array(a.len()),
            Some(Value::Object(o)) => SizeArg::Object(o.len()),
            Some(Value::String(s)) => SizeArg::Str(s.len()),
            Some(_) => SizeArg::Other,
        };
        let text = length_of(&arg).ok_or(RenderErrorReason::ParamNotFoundForIndex("length", 0))?;
        out.write(&text)?;
        Ok(())
    }))
}

/// The argument of the `length` helper, as far as its length goes.
pub enum SizeArg {
    /// No argument was given.
    Missing,
    /// An array of this many items.
    Array(usize),
    /// An object of this many fields.
    Object(usize),
    /// A string of this many bytes.
    Str(usize),
    /// Any other value.
    Other,
}

/// What the `length` helper writes: the item, field or byte count in
/// decimal, `0` for any other value, and nothing (an error) without an
/// argument.
pub open spec fn length_output(a: SizeArg) -> Option<Seq<char>> {
    match a {
        SizeArg::Missing => None,
        SizeArg::Array(n) => Some(decimal_text(n as nat)),
        SizeArg::Object(n) => Some(decimal_text(n as nat)),
        SizeArg::Str(n) => Some(decimal_text(n as nat)),
        SizeArg::Other => Some("0"@),
    }
}

/// Decides what the `length` helper writes.
pub fn length_of(a: &SizeArg) -> (r: Option<String>)
    ensures
        match r {
            Some(t) => length_output(*a) == Some(t@),
            None => length_output(*a) is None,
        },
{
    match a {
        SizeArg::Missing => None,
        SizeArg::Array(n) => Some(length_text(*n)),
        SizeArg::Object(n) => Some(length_text(*n)),
        SizeArg::Str(n) => Some(length_text(*n)),
        SizeArg::Other => Some(owned("0")),
    }
}

/// Relies on `Handlebars::register_template_string`: compiles a template
/// under a name (nothing is registered when it does not compile), or gives
/// the compile error's message.
#[verifier::external_body]
fn registry_add(h: &mut Registry, name: &str, text: &str) -> (r: Result<(), String>)
    ensures
        r is Ok <==> compiles(text@),
        r is Ok ==> templates_of(*final(h)) == templates_of(*old(h)).insert(name@, text@),
        r is Err ==> templates_of(*final(h)) == templates_of(*old(h)),
        raw_output(*final(h)) == raw_output(*old(h)),
        has_length(*final(h)) == has_length(*old(h)),
{
    h.register_template_string(name, text).map_err(|e| e.to_string())
}

/// Relies on `Handlebars::render`: renders a registered template against a
/// JSON context, or gives the render error's message.
#[verifier::external_body]
fn registry_render(h: &Registry, name: &str, ctx: &Json) -> (r: Result<String, String>)
    ensures
        raw_output(*h) && has_length(*h) && templates_of(*h).contains_key(name@) ==> {
            &&& (r is Err <==> rendered(templates_of(*h), name@, ctx@) is None)
            &&& (r matches Ok(t) ==> rendered(templates_of(*h), name@, ctx@) == Some(t@))
        },
{
    h.render(name, &ctx.value).map_err(|e| e.to_string())
}

/// A decimal digit.
pub open spec fn digit_char(d: nat) -> char {
    if d == 0 { '0' } else if d == 1 { '1' } else if d == 2 { '2' } else if d == 3 { '3' } else if d == 4 { '4' }
    else if d == 5 { '5' } else if d == 6 { '6' } else if d == 7 { '7' } else if d == 8 { '8' } else { '9' }
}

/// The decimal text of a number.
pub open spec fn decimal_text(n: nat) -> Seq<char>
    decreases n,
{
    if n < 10 {
        seq![digit_char(n)]
    } else {
        decimal_text(n / 10).push(digit_char(n % 10))
    }
}

/// The decimal text of a length, as the `length` helper writes it.
pub fn length_text(n: usize) -> (r: String)
    ensures
        r@ == decimal_text(n as nat),
    decreases n,
{
    let d = n % 10;
    let c: char = if d == 0 { '0' } else if d == 1 { '1' } else if d == 2 { '2' } else if d == 3 { '3' }
        else if d == 4 { '4' } else if d == 5 { '5' } else if d == 6 { '6' } else if d == 7 { '7' }
        else if d == 8 { '8' } else { '9' };
    let mut one: Vec<char> = Vec::new();
    one.push(c);
    let last = crate::text::string_of(&one);
    if n < 10 {
        assert(one@ =~= seq![digit_char(n as nat)]);
        last
    } else {
        let rest = length_text(n / 10);
        let r = join2(rest.as_str(), last.as_str());
        assert(r@ =~= decimal_text(n as nat));
        r
    }
}

/// The files of a generated server.
pub struct GeneratedServer {
    /// Relative path and text of each file.
    pub files: Vec<(String, String)>,
    /// Package identifier of the server.
    pub crate_name: String,
    /// Declared name it was generated under.
    pub orb_name: String,
}

impl GeneratedServer {
    /// The text of the file at `path`, if there is one.
    pub fn file(&self, path: &str) -> (r: Option<&String>)
        ensures
            r is Some <==> exists|i: int| 0 <= i < self.files@.len() && self.files@[i].0@ == path@,
            r matches Some(t) ==> exists|i: int|
                0 <= i < self.files@.len() && self.files@[i].0@ == path@ && self.files@[i].1 == *t,
    {
        let mut i: usize = 0;
        while i < self.files.len()
            invariant
                0 <= i <= self.files.len(),
                forall|j: int| 0 <= j < i ==> self.files@[j].0@ != path@,
            decreases self.files.len() - i,
        {
            if text_eq(self.files[i].0.as_str(), path) {
                return Some(&self.files[i].1);
            }
            i = i + 1;
        }
        None
    }

    /// Whether there is a file at `path`.
    pub fn has_file(&self, path: &str) -> (r: bool)
        ensures
            r <==> exists|i: int| 0 <= i < self.files@.len() && self.files@[i].0@ == path@,
    {
        self.file(path).is_some()
    }

    /// The paths of the generated source files (those with extension `rs`), in order.
    pub fn source_files(&self) -> (r: Vec<String>)
        ensures
            r@ == source_paths(self.files@),
    {
        let mut out: Vec<String> = Vec::new();
        let mut i: usize = 0;
        while i < self.files.len()
            invariant
                0 <= i <= self.files.len(),
                out@ == source_paths(self.files@.take(i as int)),
            decreases self.files.len() - i,
        {
            assert(self.files@.take(i + 1).drop_last() =~= self.files@.take(i as int));
            let is_source = match extension_of(self.files[i].0.as_str()) {
                Some(e) => text_eq(e.as_str(), "rs"),
                None => false,
            };
            if is_source {
                out.push(self.files[i].0.clone());
            }
            i = i + 1;
        }
        assert(self.files@.take(self.files.len() as int) =~= self.files@);
        out
    }
}

/// The paths among `files` whose extension is `rs`, in order.
pub open spec fn source_paths(files: Seq<(String, String)>) -> Seq<String>
    decreases files.len(),
{
    if files.len() == 0 {
        Seq::empty()
    } else {
        let rest = source_paths(files.drop_last());
        if path_extension(files.last().0@) == Some("rs"@) {
            rest.push(files.last().0)
        } else {
            rest
        }
    }
}

/// Whether `p` is the path of one of the files.
pub open spec fn is_file_path(files: Seq<(String, String)>, p: String) -> bool {
    exists|j: int| 0 <= j < files.len() && files[j].0 == p
}

/// Renders definitions with the fixed templates.
pub struct CodeGenerator {
    handlebars: Registry,
}

/// The fixed templates, by name.
pub open spec fn fixed_templates() -> Map<Seq<char>, Seq<char>> {
    map!["main.rs"@ => MAIN_RS@, "lib.rs"@ => LIB_RS@, "Cargo.toml"@ => CARGO_TOML@]
}

/// Whether `n` names one of the fixed templates.
pub open spec fn template_name(n: Seq<char>) -> bool {
    n == "main.rs"@ || n == "lib.rs"@ || n == "Cargo.toml"@
}

/// The three files rendered from a context model, when all three render.
pub open spec fn renders_all(ctx: JsonV) -> bool {
    &&& rendered(fixed_templates(), "main.rs"@, ctx) is Some
    &&& rendered(fixed_templates(), "lib.rs"@, ctx) is Some
    &&& rendered(fixed_templates(), "Cargo.toml"@, ctx) is Some
}

proof fn lemma_fixed_templates()
    ensures
        fixed_templates().contains_key("main.rs"@) && fixed_templates()["main.rs"@] == MAIN_RS@,
        fixed_templates().contains_key("lib.rs"@) && fixed_templates()["lib.rs"@] == LIB_RS@,
        fixed_templates().contains_key("Cargo.toml"@) && fixed_templates()["Cargo.toml"@] == CARGO_TOML@,
{
    reveal_strlit("main.rs");
    reveal_strlit("lib.rs");
    reveal_strlit("Cargo.toml");
    assert("main.rs"@.len() == 7);
    assert("lib.rs"@.len() == 6);
    assert("Cargo.toml"@.len() == 10);
}

impl CodeGenerator {
    /// The registry holds exactly the fixed templates, writes without
    /// escaping, and has the `length` helper.
    #[verifier::type_invariant]
    spec fn ready(&self) -> bool {
        &&& raw_output(self.handlebars)
        &&& has_length(self.handlebars)
        &&& templates_of(self.handlebars) == fixed_templates()
    }

    /// A generator with the fixed templates compiled, escaping off and the
    /// `length` helper registered. It fails exactly when a fixed template
    /// does not compile, naming the first that does not.
    pub fn new() -> (r: Result<CodeGenerator, GeneratorError>)
        ensures
            r is Ok <==> compiles(MAIN_RS@) && compiles(LIB_RS@) && compiles(CARGO_TOML@),
            r matches Err(e) ==> (e matches GeneratorError::TemplateRegister { name, .. }
                && template_name(name@)),
    {
        let mut h = registry_new();
        registry_disable_escaping(&mut h);
        registry_add_length(&mut h);
        if let Err(message) = registry_add(&mut h, "main.rs", MAIN_RS) {
            return Err(GeneratorError::TemplateRegister { name: owned("main.rs"), message });
        }
        if let Err(message) = registry_add(&mut h, "lib.rs", LIB_RS) {
            return Err(GeneratorError::TemplateRegister { name: owned("lib.rs"), message });
        }
        if let Err(message) = registry_add(&mut h, "Cargo.toml", CARGO_TOML) {
            return Err(GeneratorError::TemplateRegister { name: owned("Cargo.toml"), message });
        }
        assert(templates_of(h) =~= fixed_templates());
        Ok(CodeGenerator { handlebars: h })
    }

    fn render(&self, name: &str, ctx: &Json) -> (r: Result<String, GeneratorError>)
        requires
            fixed_templates().contains_key(name@),
        ensures
            r is Err <==> rendered(fixed_templates(), name@, ctx@) is None,
            r matches Ok(t) ==> rendered(fixed_templates(), name@, ctx@) == Some(t@),
            r matches Err(e) ==> (e matches GeneratorError::TemplateRender { name: n, .. } && n@
                == name@),
    {
        proof {
            use_type_invariant(self);
        }
        match registry_render(&self.handlebars, name, ctx) {
            Ok(text) => Ok(text),
            Err(message) => Err(GeneratorError::TemplateRender { name: owned(name), message }),
        }
    }

    /// Generates the files of the server for `orb` under the declared name
    /// `orb_name` and package version `version`. The name is checked first;
    /// then each file is its template rendered against the context of the
    /// definition, and generation succeeds exactly when all three render.
    pub fn generate(&self, orb: &OrbDefinition, orb_name: &str, version: &str) -> (r: Result<
        GeneratedServer,
        GeneratorError,
    >)
        ensures
            (r matches Err(GeneratorError::InvalidOrbName { .. })) <==> name_problem(orb_name@) is Some,
            r matches Err(GeneratorError::InvalidOrbName { name, reason }) ==> name@ == orb_name@
                && Some(reason@) == name_problem(orb_name@),
            r matches Err(e) ==> (e matches GeneratorError::InvalidOrbName { .. }
                || e matches GeneratorError::TemplateRender { .. }),
            r matches Err(GeneratorError::TemplateRender { .. }) ==> exists|ctx: GeneratorContext|
                #[trigger] context_of(*orb, orb_name@, version@, ctx) && !renders_all(context_json(ctx)),
            r matches Ok(s) ==> exists|ctx: GeneratorContext| #[trigger] context_of(*orb, orb_name@, version@, ctx) && {
                let m = context_json(ctx);
                &&& renders_all(m)
                &&& s.files@.len() == 3
                &&& s.files@[0].0@ == "src/main.rs"@
                &&& s.files@[0].1@ == rendered(fixed_templates(), "main.rs"@, m)->0
                &&& s.files@[1].0@ == "src/lib.rs"@
                &&& s.files@[1].1@ == rendered(fixed_templates(), "lib.rs"@, m)->0
                &&& s.files@[2].0@ == "Cargo.toml"@
                &&& s.files@[2].1@ == rendered(fixed_templates(), "Cargo.toml"@, m)->0
                &&& s.crate_name@ == crate_name_of(orb_name@)
                &&& s.orb_name@ == orb_name@
            },
    {
        validate_orb_name(orb_name)?;
        let context = GeneratorContext::from_orb(orb, orb_name, version);
        let ctx = context.to_json();
        let ghost m = ctx@;
        let ghost cg = context;
        proof {
            lemma_fixed_templates();
        }
        let main_rs = self.render("main.rs", &ctx);
        let main_rs = match main_rs {
            Ok(t) => t,
            Err(e) => {
                assert(context_of(*orb, orb_name@, version@, cg));
                return Err(e);
            },
        };
        let lib_rs = match self.render("lib.rs", &ctx) {
            Ok(t) => t,
            Err(e) => {
                assert(context_of(*orb, orb_name@, version@, cg));
                return Err(e);
            },
        };
        let cargo_toml = match self.render("Cargo.toml", &ctx) {
            Ok(t) => t,
            Err(e) => {
                assert(context_of(*orb, orb_name@, version@, cg));
                return Err(e);
            },
        };
        let mut files: Vec<(String, String)> = Vec::new();
        files.push((owned("src/main.rs"), main_rs));
        files.push((owned("src/lib.rs"), lib_rs));
        files.push((owned("Cargo.toml"), cargo_toml));
        assert(context_of(*orb, orb_name@, version@, cg));
        Ok(GeneratedServer { files, crate_name: context.crate_name, orb_name: owned(orb_name) })
    }
}

} // verus!
