//! The template context: a flat projection of a definition with derived
//! names, resource addresses and embeddable snapshots.

use vstd::prelude::*;
use crate::fields::opt_view;
use crate::json::{
    field_models, json_array, json_bool, json_count, json_null, json_object, json_opt_string,
    json_pretty, json_pretty_of, json_string, json_strings, models, opt_str_json, strs_json,
    yaml_json, yaml_json_text, yaml_json_text_of, yaml_to_json, Json, JsonV,
};
use crate::yaml::content;
use crate::naming::{crate_name, crate_name_of, struct_name, struct_name_of};
use crate::schema::{
    Command, DockerImage, Executor, ExecutorConfig, ExecutorRef, Job, OrbDefinition, Parameter,
    ParameterType,
};
use crate::text::{join2, owned, unique_names};

verus! {

/// A parameter, lowered for templates.
pub struct ParameterContext {
    pub name: String,
    pub param_type: String,
    pub description: Option<String>,
    /// The default as JSON text.
    pub default: Option<String>,
    /// Set exactly when there is no default.
    pub required: bool,
    pub enum_values: Option<Vec<String>>,
}

/// Execution settings, flattened.
pub struct ExecutorConfigContext {
    /// The image reference of each container image.
    pub docker_images: Vec<String>,
    pub resource_class: Option<String>,
    pub working_directory: Option<String>,
    /// Environment variables in document order.
    pub environment: Vec<(String, String)>,
    pub shell: Option<String>,
}

/// A command, lowered for templates.
pub struct CommandContext {
    pub name: String,
    pub description: Option<String>,
    pub parameters: Vec<ParameterContext>,
    /// Resource address.
    pub uri: String,
    /// Pretty-printed snapshot to embed.
    pub json_content: String,
}

/// A job, lowered for templates.
pub struct JobContext {
    pub name: String,
    pub description: Option<String>,
    pub parameters: Vec<ParameterContext>,
    /// Name of the executor the job runs on.
    pub executor: Option<String>,
    pub config: ExecutorConfigContext,
    pub uri: String,
    pub json_content: String,
}

/// An executor, lowered for templates.
pub struct ExecutorContext {
    pub name: String,
    pub description: Option<String>,
    pub parameters: Vec<ParameterContext>,
    pub config: ExecutorConfigContext,
    pub uri: String,
    pub json_content: String,
}

/// Everything the templates are rendered from.
pub struct GeneratorContext {
    pub orb_name: String,
    /// Package identifier (`my_toolkit_mcp`).
    pub crate_name: String,
    /// Type identifier (`MyToolkitMcp`).
    pub struct_name: String,
    pub version: String,
    pub description: Option<String>,
    pub commands: Vec<CommandContext>,
    pub jobs: Vec<JobContext>,
    pub executors: Vec<ExecutorContext>,
    /// Whether there is at least one command, job or executor.
    pub has_resources: bool,
}

/// The name of a parameter kind.
pub open spec fn kind_name(t: ParameterType) -> Seq<char> {
    match t {
        ParameterType::String => "string"@,
        ParameterType::Boolean => "boolean"@,
        ParameterType::Integer => "integer"@,
        ParameterType::Enum => "enum"@,
        ParameterType::EnvVarName => "env_var_name"@,
        ParameterType::Steps => "steps"@,
        ParameterType::Executor => "executor"@,
    }
}

/// The name of a parameter kind.
pub fn param_type_to_str(pt: &ParameterType) -> (r: &'static str)
    ensures
        r@ == kind_name(*pt),
{
    match pt {
        ParameterType::String => "string",
        ParameterType::Boolean => "boolean",
        ParameterType::Integer => "integer",
        ParameterType::Enum => "enum",
        ParameterType::EnvVarName => "env_var_name",
        ParameterType::Steps => "steps",
        ParameterType::Executor => "executor",
    }
}

/// The resource address of a command.
pub open spec fn command_uri(name: Seq<char>) -> Seq<char> {
    "orb://commands/"@ + name
}

/// The resource address of a job.
pub open spec fn job_uri(name: Seq<char>) -> Seq<char> {
    "orb://jobs/"@ + name
}

/// The resource address of an executor.
pub open spec fn executor_uri(name: Seq<char>) -> Seq<char> {
    "orb://executors/"@ + name
}

/// The image reference of a container image: the bare string, or the full
/// record's `image` field.
pub open spec fn image_name(d: DockerImage) -> String {
    match d {
        DockerImage::Simple(s) => s,
        DockerImage::Full(b) => b.image,
    }
}

/// The image references of execution settings, in order; none without images.
pub open spec fn docker_images_of(c: ExecutorConfig) -> Seq<String> {
    match c.docker {
        Some(v) => Seq::new(v@.len(), |i: int| image_name(v@[i])),
        None => Seq::empty(),
    }
}

/// The name an executor reference refers to.
pub open spec fn executor_name(e: ExecutorRef) -> String {
    match e {
        ExecutorRef::Name(n) => n,
        ExecutorRef::WithParams { name, .. } => name,
    }
}

/// Whether `c` is the lowered form of parameter `p` named `name`.
pub open spec fn param_ctx_of(name: Seq<char>, p: Parameter, c: ParameterContext) -> bool {
    &&& c.name@ == name
    &&& c.param_type@ == kind_name(p.param_type)
    &&& c.description == p.description
    &&& c.default.is_some() == p.default.is_some()
    &&& (p.default matches Some(d) ==> c.default matches Some(t) && t@ == yaml_json_text_of(
        content(d),
    ))
    &&& c.required == c.default.is_none()
    &&& opt_view(c.enum_values) == opt_view(p.enum_values)
}

/// Whether `v` lowers the parameters `ps`, one for one and in order.
pub open spec fn params_ctx_of(ps: Seq<(String, Parameter)>, v: Seq<ParameterContext>) -> bool {
    v.len() == ps.len() && forall|i: int|
        0 <= i < ps.len() ==> param_ctx_of(ps[i].0@, ps[i].1, #[trigger] v[i])
}

/// Whether `x` is the flattened form of `c`.
pub open spec fn config_ctx_of(c: ExecutorConfig, x: ExecutorConfigContext) -> bool {
    &&& x.docker_images@ == docker_images_of(c)
    &&& x.resource_class == c.resource_class
    &&& x.working_directory == c.working_directory
    &&& x.environment@ == c.environment@
    &&& x.shell == c.shell
}

pub open spec fn command_ctx_of(name: String, c: Command, x: CommandContext) -> bool {
    &&& x.name == name
    &&& x.description == c.description
    &&& params_ctx_of(c.parameters@, x.parameters@)
    &&& x.uri@ == command_uri(name@)
    &&& x.json_content@ == snapshot_text(command_snapshot(name@, c))
}

pub open spec fn job_ctx_of(name: String, j: Job, x: JobContext) -> bool {
    &&& x.name == name
    &&& x.description == j.description
    &&& params_ctx_of(j.parameters@, x.parameters@)
    &&& x.executor == match j.executor {
        Some(e) => Some(executor_name(e)),
        None => None,
    }
    &&& config_ctx_of(j.config, x.config)
    &&& x.uri@ == job_uri(name@)
    &&& x.json_content@ == snapshot_text(job_snapshot(name@, j))
}

pub open spec fn executor_ctx_of(name: String, e: Executor, x: ExecutorContext) -> bool {
    &&& x.name == name
    &&& x.description == e.description
    &&& params_ctx_of(e.parameters@, x.parameters@)
    &&& config_ctx_of(e.config, x.config)
    &&& x.uri@ == executor_uri(name@)
    &&& x.json_content@ == snapshot_text(executor_snapshot(name@, e))
}

/// Whether `ctx` is the context of `orb` under `orb_name` and `version`.
pub open spec fn context_of(orb: OrbDefinition, orb_name: Seq<char>, version: Seq<char>, ctx: GeneratorContext) -> bool {
    &&& ctx.orb_name@ == orb_name
    &&& ctx.crate_name@ == crate_name_of(orb_name)
    &&& ctx.struct_name@ == struct_name_of(orb_name)
    &&& ctx.version@ == version
    &&& ctx.description == orb.description
    &&& ctx.commands@.len() == orb.commands@.len()
    &&& (forall|i: int| 0 <= i < orb.commands@.len() ==> command_ctx_of(
        orb.commands@[i].0,
        orb.commands@[i].1,
        #[trigger] ctx.commands@[i],
    ))
    &&& ctx.jobs@.len() == orb.jobs@.len()
    &&& (forall|i: int| 0 <= i < orb.jobs@.len() ==> job_ctx_of(
        orb.jobs@[i].0,
        orb.jobs@[i].1,
        #[trigger] ctx.jobs@[i],
    ))
    &&& ctx.executors@.len() == orb.executors@.len()
    &&& (forall|i: int| 0 <= i < orb.executors@.len() ==> executor_ctx_of(
        orb.executors@[i].0,
        orb.executors@[i].1,
        #[trigger] ctx.executors@[i],
    ))
    &&& ctx.has_resources == (orb.commands@.len() > 0 || orb.jobs@.len() > 0
        || orb.executors@.len() > 0)
}

fn clone_text(o: &Option<String>) -> (r: Option<String>)
    ensures
        r == *o,
{
    match o {
        Some(s) => Some(s.clone()),
        None => None,
    }
}

fn clone_texts(v: &Vec<String>) -> (r: Vec<String>)
    ensures
        r@ == v@,
{
    let mut out: Vec<String> = Vec::new();
    let mut i: usize = 0;
    while i < v.len()
        invariant
            0 <= i <= v.len(),
            out@ == v@.take(i as int),
        decreases v.len() - i,
    {
        out.push(v[i].clone());
        i = i + 1;
        assert(out@ =~= v@.take(i as int));
    }
    assert(v@.take(v.len() as int) =~= v@);
    out
}

fn clone_opt_texts(o: &Option<Vec<String>>) -> (r: Option<Vec<String>>)
    ensures
        opt_view(r) == opt_view(*o),
{
    match o {
        Some(v) => Some(clone_texts(v)),
        None => None,
    }
}

/// The image reference of each container image of the settings.
pub fn extract_docker_images(config: &ExecutorConfig) -> (r: Vec<String>)
    ensures
        r@ == docker_images_of(*config),
{
    let mut out: Vec<String> = Vec::new();
    match &config.docker {
        None => {
            assert(out@ =~= docker_images_of(*config));
        },
        Some(images) => {
            let mut i: usize = 0;
            while i < images.len()
                invariant
                    0 <= i <= images.len(),
                    config.docker == Some(*images),
                    out@.len() == i,
                    forall|j: int| 0 <= j < i ==> out@[j] == image_name(#[trigger] images@[j]),
                decreases images.len() - i,
            {
                let name = match &images[i] {
                    DockerImage::Simple(s) => s.clone(),
                    DockerImage::Full(f) => f.image.clone(),
                };
                out.push(name);
                i = i + 1;
            }
            assert(out@ =~= docker_images_of(*config));
        },
    }
    out
}

/// The JSON tree of an optional list of texts (null when absent).
pub open spec fn opt_strs_json(v: Option<Vec<String>>) -> JsonV {
    match v {
        Some(x) => strs_json(x@),
        None => JsonV::Null,
    }
}

/// A lowered parameter as the templates see it.
pub open spec fn param_json(c: ParameterContext) -> JsonV {
    JsonV::Object(
        seq![
            ("name"@, JsonV::Str(c.name@)),
            ("param_type"@, JsonV::Str(c.param_type@)),
            ("description"@, opt_str_json(c.description)),
            ("default"@, opt_str_json(c.default)),
            ("required"@, JsonV::Bool(c.required)),
            ("enum_values"@, opt_strs_json(c.enum_values)),
        ],
    )
}

/// The lowered parameters as the templates see them.
pub open spec fn params_json_of(v: Seq<ParameterContext>) -> JsonV {
    JsonV::Array(Seq::new(v.len(), |i: int| param_json(v[i])))
}

/// Flattened settings as the templates see them.
pub open spec fn config_json(x: ExecutorConfigContext) -> JsonV {
    JsonV::Object(
        seq![
            ("docker_images"@, strs_json(x.docker_images@)),
            ("resource_class"@, opt_str_json(x.resource_class)),
            ("working_directory"@, opt_str_json(x.working_directory)),
            ("environment"@, JsonV::Array(Seq::new(x.environment@.len(), |i: int| JsonV::Array(seq![JsonV::Str(x.environment@[i].0@), JsonV::Str(x.environment@[i].1@)])))),
            ("shell"@, opt_str_json(x.shell)),
        ],
    )
}

/// A lowered command as the templates see it.
pub open spec fn command_json(c: CommandContext) -> JsonV {
    JsonV::Object(
        seq![
            ("name"@, JsonV::Str(c.name@)),
            ("description"@, opt_str_json(c.description)),
            ("parameters"@, params_json_of(c.parameters@)),
            ("uri"@, JsonV::Str(c.uri@)),
            ("json_content"@, JsonV::Str(c.json_content@)),
        ],
    )
}

/// A lowered job as the templates see it.
pub open spec fn job_json(c: JobContext) -> JsonV {
    JsonV::Object(
        seq![
            ("name"@, JsonV::Str(c.name@)),
            ("description"@, opt_str_json(c.description)),
            ("parameters"@, params_json_of(c.parameters@)),
            ("executor"@, opt_str_json(c.executor)),
            ("config"@, config_json(c.config)),
            ("uri"@, JsonV::Str(c.uri@)),
            ("json_content"@, JsonV::Str(c.json_content@)),
        ],
    )
}

/// A lowered executor as the templates see it.
pub open spec fn executor_json(c: ExecutorContext) -> JsonV {
    JsonV::Object(
        seq![
            ("name"@, JsonV::Str(c.name@)),
            ("description"@, opt_str_json(c.description)),
            ("parameters"@, params_json_of(c.parameters@)),
            ("config"@, config_json(c.config)),
            ("uri"@, JsonV::Str(c.uri@)),
            ("json_content"@, JsonV::Str(c.json_content@)),
        ],
    )
}

/// The whole context as the templates see it.
pub open spec fn context_json(c: GeneratorContext) -> JsonV {
    JsonV::Object(
        seq![
            ("orb_name"@, JsonV::Str(c.orb_name@)),
            ("crate_name"@, JsonV::Str(c.crate_name@)),
            ("struct_name"@, JsonV::Str(c.struct_name@)),
            ("version"@, JsonV::Str(c.version@)),
            ("description"@, opt_str_json(c.description)),
            ("commands"@, JsonV::Array(Seq::new(c.commands@.len(), |i: int| command_json(c.commands@[i])))),
            ("jobs"@, JsonV::Array(Seq::new(c.jobs@.len(), |i: int| job_json(c.jobs@[i])))),
            ("executors"@, JsonV::Array(Seq::new(c.executors@.len(), |i: int| executor_json(c.executors@[i])))),
            ("has_resources"@, JsonV::Bool(c.has_resources)),
        ],
    )
}

/// The snapshot of one parameter: name, kind, description, default as
/// JSON, whether required, and the allowed values when given; `None` when
/// the default has no JSON form.
pub open spec fn param_snapshot(name: Seq<char>, p: Parameter) -> Option<JsonV> {
    let default = match p.default {
        Some(d) => yaml_json(content(d)),
        None => Some(JsonV::Null),
    };
    let base = seq![
        ("name"@, JsonV::Str(name)),
        ("type"@, JsonV::Str(kind_name(p.param_type))),
        ("description"@, opt_str_json(p.description)),
    ];
    match default {
        Some(dj) => {
            let fs = base + seq![("default"@, dj), ("required"@, JsonV::Bool(p.default is None))];
            Some(JsonV::Object(match p.enum_values {
                Some(v) => fs.push(("enum_values"@, strs_json(v@))),
                None => fs,
            }))
        },
        None => None,
    }
}

/// The snapshots of parameters, in order; `None` when one has none.
pub open spec fn params_snapshot(ps: Seq<(String, Parameter)>) -> Option<Seq<JsonV>> {
    if forall|i: int| 0 <= i < ps.len() ==> (#[trigger] param_snapshot(ps[i].0@, ps[i].1)) is Some {
        Some(Seq::new(ps.len(), |i: int| param_snapshot(ps[i].0@, ps[i].1)->0))
    } else {
        None
    }
}

/// The snapshot of a command.
pub open spec fn command_snapshot(name: Seq<char>, c: Command) -> Option<JsonV> {
    match params_snapshot(c.parameters@) {
        Some(ps) => Some(JsonV::Object(seq![
            ("name"@, JsonV::Str(name)),
            ("description"@, opt_str_json(c.description)),
            ("parameters"@, JsonV::Array(ps)),
            ("steps_count"@, JsonV::Count(c.steps@.len())),
        ])),
        None => None,
    }
}

/// The executor name of a job as JSON.
pub open spec fn job_executor_json(j: Job) -> JsonV {
    match j.executor {
        Some(e) => JsonV::Str(executor_name(e)@),
        None => JsonV::Null,
    }
}

/// The snapshot of a job.
pub open spec fn job_snapshot(name: Seq<char>, j: Job) -> Option<JsonV> {
    match params_snapshot(j.parameters@) {
        Some(ps) => Some(JsonV::Object(seq![
            ("name"@, JsonV::Str(name)),
            ("description"@, opt_str_json(j.description)),
            ("executor"@, job_executor_json(j)),
            ("parameters"@, JsonV::Array(ps)),
            ("steps_count"@, JsonV::Count(j.steps@.len())),
            ("docker_images"@, strs_json(docker_images_of(j.config))),
            ("resource_class"@, opt_str_json(j.config.resource_class)),
        ])),
        None => None,
    }
}

/// The snapshot of an executor.
pub open spec fn executor_snapshot(name: Seq<char>, e: Executor) -> Option<JsonV> {
    match params_snapshot(e.parameters@) {
        Some(ps) => Some(JsonV::Object(seq![
            ("name"@, JsonV::Str(name)),
            ("description"@, opt_str_json(e.description)),
            ("parameters"@, JsonV::Array(ps)),
            ("docker_images"@, strs_json(docker_images_of(e.config))),
            ("resource_class"@, opt_str_json(e.config.resource_class)),
            ("working_directory"@, opt_str_json(e.config.working_directory)),
        ])),
        None => None,
    }
}

/// The embedded text of a snapshot: pretty JSON, or `{}` when it has none.
pub open spec fn snapshot_text(o: Option<JsonV>) -> Seq<char> {
    match o {
        Some(j) => json_pretty_of(j),
        None => "{}"@,
    }
}

impl ParameterContext {
    /// Lowers a parameter; its default is rendered as JSON text.
    pub fn from_parameter(name: &str, param: &Parameter) -> (r: ParameterContext)
        ensures
            param_ctx_of(name@, *param, r),
    {
        let default = match &param.default {
            Some(v) => Some(yaml_json_text(v)),
            None => None,
        };
        let required = default.is_none();
        ParameterContext {
            name: owned(name),
            param_type: owned(param_type_to_str(&param.param_type)),
            description: clone_text(&param.description),
            default,
            required,
            enum_values: clone_opt_texts(&param.enum_values),
        }
    }

    /// The parameter as a JSON object for the templates.
    pub fn to_json(&self) -> (r: Json)
        ensures
            r@ == param_json(*self),
    {
        let mut f: Vec<(String, Json)> = Vec::new();
        f.push((owned("name"), json_string(self.name.clone())));
        f.push((owned("param_type"), json_string(self.param_type.clone())));
        f.push((owned("description"), json_opt_string(&self.description)));
        f.push((owned("default"), json_opt_string(&self.default)));
        f.push((owned("required"), json_bool(self.required)));
        let ev = match &self.enum_values {
            Some(v) => json_strings(v),
            None => json_null(),
        };
        f.push((owned("enum_values"), ev));
        let r = json_object(f);
        assert(field_models(f@) =~= param_json(*self)->Object_0);
        r
    }
}

fn params_ctx(params: &Vec<(String, Parameter)>) -> (r: Vec<ParameterContext>)
    ensures
        params_ctx_of(params@, r@),
{
    let mut out: Vec<ParameterContext> = Vec::new();
    let mut i: usize = 0;
    while i < params.len()
        invariant
            0 <= i <= params.len(),
            out@.len() == i,
            forall|j: int|
                0 <= j < i ==> param_ctx_of(params@[j].0@, params@[j].1, #[trigger] out@[j]),
        decreases params.len() - i,
    {
        out.push(ParameterContext::from_parameter(params[i].0.as_str(), &params[i].1));
        i = i + 1;
    }
    out
}

fn clone_env(v: &Vec<(String, String)>) -> (r: Vec<(String, String)>)
    ensures
        r@ == v@,
{
    let mut out: Vec<(String, String)> = Vec::new();
    let mut i: usize = 0;
    while i < v.len()
        invariant
            0 <= i <= v.len(),
            out@ == v@.take(i as int),
        decreases v.len() - i,
    {
        out.push((v[i].0.clone(), v[i].1.clone()));
        i = i + 1;
        assert(out@ =~= v@.take(i as int));
    }
    assert(v@.take(v.len() as int) =~= v@);
    out
}

impl ExecutorConfigContext {
    /// Flattens execution settings.
    pub fn from_config(config: &ExecutorConfig) -> (r: ExecutorConfigContext)
        ensures
            config_ctx_of(*config, r),
    {
        ExecutorConfigContext {
            docker_images: extract_docker_images(config),
            resource_class: clone_text(&config.resource_class),
            working_directory: clone_text(&config.working_directory),
            environment: clone_env(&config.environment),
            shell: clone_text(&config.shell),
        }
    }

    /// The settings as a JSON object for the templates.
    pub fn to_json(&self) -> (r: Json)
        ensures
            r@ == config_json(*self),
    {
        let mut env: Vec<Json> = Vec::new();
        let mut i: usize = 0;
        while i < self.environment.len()
            invariant
                0 <= i <= self.environment.len(),
                env@.len() == i,
                forall|j: int| 0 <= j < i ==> (#[trigger] env@[j])@ == JsonV::Array(seq![JsonV::Str(self.environment@[j].0@), JsonV::Str(self.environment@[j].1@)]),
            decreases self.environment.len() - i,
        {
            let mut pair: Vec<Json> = Vec::new();
            pair.push(json_string(self.environment[i].0.clone()));
            pair.push(json_string(self.environment[i].1.clone()));
            assert(models(pair@) =~= seq![JsonV::Str(self.environment@[i as int].0@), JsonV::Str(self.environment@[i as int].1@)]);
            let pj = json_array(pair);
            assert(pj@ == JsonV::Array(seq![JsonV::Str(self.environment@[i as int].0@), JsonV::Str(self.environment@[i as int].1@)]));
            let ghost before = env@;
            env.push(pj);
            assert(env@ == before.push(pj));
            i = i + 1;
        }
        assert(models(env@) =~= Seq::new(self.environment@.len(), |j: int| JsonV::Array(seq![JsonV::Str(self.environment@[j].0@), JsonV::Str(self.environment@[j].1@)])));
        let mut f: Vec<(String, Json)> = Vec::new();
        f.push((owned("docker_images"), json_strings(&self.docker_images)));
        f.push((owned("resource_class"), json_opt_string(&self.resource_class)));
        f.push((owned("working_directory"), json_opt_string(&self.working_directory)));
        f.push((owned("environment"), json_array(env)));
        f.push((owned("shell"), json_opt_string(&self.shell)));
        let r = json_object(f);
        assert(field_models(f@) =~= config_json(*self)->Object_0);
        r
    }
}

/// The parameter snapshots, or `None` when a default has no JSON form.
fn params_to_json(params: &Vec<(String, Parameter)>) -> (r: Option<Vec<Json>>)
    ensures
        match r {
            Some(v) => params_snapshot(params@) == Some(models(v@)),
            None => params_snapshot(params@) is None,
        },
{
    let mut out: Vec<Json> = Vec::new();
    let mut i: usize = 0;
    while i < params.len()
        invariant
            0 <= i <= params.len(),
            out@.len() == i,
            forall|j: int| 0 <= j < i ==> #[trigger] param_snapshot(params@[j].0@, params@[j].1) == Some(out@[j]@),
        decreases params.len() - i,
    {
        let p = &params[i].1;
        let mut f: Vec<(String, Json)> = Vec::new();
        f.push((owned("name"), json_string(params[i].0.clone())));
        f.push((owned("type"), json_string(owned(param_type_to_str(&p.param_type)))));
        f.push((owned("description"), json_opt_string(&p.description)));
        let default = match &p.default {
            Some(v) => match yaml_to_json(v) {
                Some(j) => j,
                None => {
                    assert(param_snapshot(params@[i as int].0@, params@[i as int].1) is None);
                    return None;
                },
            },
            None => json_null(),
        };
        f.push((owned("default"), default));
        f.push((owned("required"), json_bool(p.default.is_none())));
        if let Some(ev) = &p.enum_values {
            f.push((owned("enum_values"), json_strings(ev)));
        }
        let o = json_object(f);
        assert(field_models(f@) =~= param_snapshot(params@[i as int].0@, params@[i as int].1)->0->Object_0);
        assert(param_snapshot(params@[i as int].0@, params@[i as int].1) == Some(o@));
        let ghost before = out@;
        out.push(o);
        assert(out@ == before.push(o));
        i = i + 1;
    }
    assert(forall|j: int| 0 <= j < params@.len() ==> (#[trigger] param_snapshot(params@[j].0@, params@[j].1)) is Some);
    assert(models(out@) =~= Seq::new(params@.len(), |j: int| param_snapshot(params@[j].0@, params@[j].1)->0));
    Some(out)
}

/// The pretty text of a snapshot, or `{}` when it has none.
fn snapshot_out(v: Option<Json>) -> (r: String)
    ensures
        r@ == snapshot_text(match v {
            Some(j) => Some(j@),
            None => None,
        }),
{
    match v {
        Some(v) => json_pretty(&v),
        None => owned("{}"),
    }
}

fn count_json(n: usize) -> (r: Json)
    ensures
        r@ == JsonV::Count(n as nat),
{
    json_count(n as u64)
}

/// A snapshot of a command: name, description, parameters and step count.
pub fn create_command_json(name: &str, cmd: &Command) -> (r: String)
    ensures
        r@ == snapshot_text(command_snapshot(name@, *cmd)),
{
    let params = match params_to_json(&cmd.parameters) {
        Some(p) => p,
        None => return snapshot_out(None),
    };
    let mut f: Vec<(String, Json)> = Vec::new();
    f.push((owned("name"), json_string(owned(name))));
    f.push((owned("description"), json_opt_string(&cmd.description)));
    f.push((owned("parameters"), json_array(params)));
    f.push((owned("steps_count"), count_json(cmd.steps.len())));
    let o = json_object(f);
    assert(field_models(f@) =~= command_snapshot(name@, *cmd)->0->Object_0);
    snapshot_out(Some(o))
}

/// A snapshot of a job: also its executor, images and resource class.
pub fn create_job_json(name: &str, job: &Job) -> (r: String)
    ensures
        r@ == snapshot_text(job_snapshot(name@, *job)),
{
    let params = match params_to_json(&job.parameters) {
        Some(p) => p,
        None => return snapshot_out(None),
    };
    let executor = match &job.executor {
        Some(ExecutorRef::Name(n)) => Some(n.clone()),
        Some(ExecutorRef::WithParams { name, .. }) => Some(name.clone()),
        None => None,
    };
    let mut f: Vec<(String, Json)> = Vec::new();
    f.push((owned("name"), json_string(owned(name))));
    f.push((owned("description"), json_opt_string(&job.description)));
    f.push((owned("executor"), json_opt_string(&executor)));
    f.push((owned("parameters"), json_array(params)));
    f.push((owned("steps_count"), count_json(job.steps.len())));
    f.push((owned("docker_images"), json_strings(&extract_docker_images(&job.config))));
    f.push((owned("resource_class"), json_opt_string(&job.config.resource_class)));
    let o = json_object(f);
    assert(field_models(f@) =~= job_snapshot(name@, *job)->0->Object_0);
    snapshot_out(Some(o))
}

/// A snapshot of an executor: also its images, resource class and working
/// directory.
pub fn create_executor_json(name: &str, exec: &Executor) -> (r: String)
    ensures
        r@ == snapshot_text(executor_snapshot(name@, *exec)),
{
    let params = match params_to_json(&exec.parameters) {
        Some(p) => p,
        None => return snapshot_out(None),
    };
    let mut f: Vec<(String, Json)> = Vec::new();
    f.push((owned("name"), json_string(owned(name))));
    f.push((owned("description"), json_opt_string(&exec.description)));
    f.push((owned("parameters"), json_array(params)));
    f.push((owned("docker_images"), json_strings(&extract_docker_images(&exec.config))));
    f.push((owned("resource_class"), json_opt_string(&exec.config.resource_class)));
    f.push((owned("working_directory"), json_opt_string(&exec.config.working_directory)));
    let o = json_object(f);
    assert(field_models(f@) =~= executor_snapshot(name@, *exec)->0->Object_0);
    snapshot_out(Some(o))
}

fn params_json(v: &Vec<ParameterContext>) -> (r: Json)
    ensures
        r@ == params_json_of(v@),
{
    let mut out: Vec<Json> = Vec::new();
    let mut i: usize = 0;
    while i < v.len()
        invariant
            0 <= i <= v.len(),
            out@.len() == i,
            forall|j: int| 0 <= j < i ==> (#[trigger] out@[j])@ == param_json(v@[j]),
        decreases v.len() - i,
    {
        let x = v[i].to_json();
        assert(x@ == param_json(v@[i as int]));
        let ghost before = out@;
        out.push(x);
        assert(out@ == before.push(x));
        i = i + 1;
    }
    assert(models(out@) =~= Seq::new(v@.len(), |j: int| param_json(v@[j])));
    json_array(out)
}

impl CommandContext {
    /// Lowers a command.
    pub fn from_command(name: &String, cmd: &Command) -> (r: CommandContext)
        ensures
            command_ctx_of(*name, *cmd, r),
    {
        CommandContext {
            name: name.clone(),
            description: clone_text(&cmd.description),
            parameters: params_ctx(&cmd.parameters),
            uri: join2("orb://commands/", name.as_str()),
            json_content: create_command_json(name.as_str(), cmd),
        }
    }

    /// The command as a JSON object for the templates.
    pub fn to_json(&self) -> (r: Json)
        ensures
            r@ == command_json(*self),
    {
        let mut f: Vec<(String, Json)> = Vec::new();
        f.push((owned("name"), json_string(self.name.clone())));
        f.push((owned("description"), json_opt_string(&self.description)));
        f.push((owned("parameters"), params_json(&self.parameters)));
        f.push((owned("uri"), json_string(self.uri.clone())));
        f.push((owned("json_content"), json_string(self.json_content.clone())));
        let r = json_object(f);
        assert(field_models(f@) =~= command_json(*self)->Object_0);
        r
    }
}

impl JobContext {
    /// Lowers a job.
    pub fn from_job(name: &String, job: &Job) -> (r: JobContext)
        ensures
            job_ctx_of(*name, *job, r),
    {
        let executor = match &job.executor {
            Some(ExecutorRef::Name(n)) => Some(n.clone()),
            Some(ExecutorRef::WithParams { name, .. }) => Some(name.clone()),
            None => None,
        };
        JobContext {
            name: name.clone(),
            description: clone_text(&job.description),
            parameters: params_ctx(&job.parameters),
            executor,
            config: ExecutorConfigContext::from_config(&job.config),
            uri: join2("orb://jobs/", name.as_str()),
            json_content: create_job_json(name.as_str(), job),
        }
    }

    /// The job as a JSON object for the templates.
    pub fn to_json(&self) -> (r: Json)
        ensures
            r@ == job_json(*self),
    {
        let mut f: Vec<(String, Json)> = Vec::new();
        f.push((owned("name"), json_string(self.name.clone())));
        f.push((owned("description"), json_opt_string(&self.description)));
        f.push((owned("parameters"), params_json(&self.parameters)));
        f.push((owned("executor"), json_opt_string(&self.executor)));
        f.push((owned("config"), self.config.to_json()));
        f.push((owned("uri"), json_string(self.uri.clone())));
        f.push((owned("json_content"), json_string(self.json_content.clone())));
        let r = json_object(f);
        assert(field_models(f@) =~= job_json(*self)->Object_0);
        r
    }
}

impl ExecutorContext {
    /// Lowers an executor.
    pub fn from_executor(name: &String, exec: &Executor) -> (r: ExecutorContext)
        ensures
            executor_ctx_of(*name, *exec, r),
    {
        ExecutorContext {
            name: name.clone(),
            description: clone_text(&exec.description),
            parameters: params_ctx(&exec.parameters),
            config: ExecutorConfigContext::from_config(&exec.config),
            uri: join2("orb://executors/", name.as_str()),
            json_content: create_executor_json(name.as_str(), exec),
        }
    }

    /// The executor as a JSON object for the templates.
    pub fn to_json(&self) -> (r: Json)
        ensures
            r@ == executor_json(*self),
    {
        let mut f: Vec<(String, Json)> = Vec::new();
        f.push((owned("name"), json_string(self.name.clone())));
        f.push((owned("description"), json_opt_string(&self.description)));
        f.push((owned("parameters"), params_json(&self.parameters)));
        f.push((owned("config"), self.config.to_json()));
        f.push((owned("uri"), json_string(self.uri.clone())));
        f.push((owned("json_content"), json_string(self.json_content.clone())));
        let r = json_object(f);
        assert(field_models(f@) =~= executor_json(*self)->Object_0);
        r
    }
}

impl GeneratorContext {
    /// Builds the context of `orb` for a server named `orb_name` at `version`.
    pub fn from_orb(orb: &OrbDefinition, orb_name: &str, version: &str) -> (r: GeneratorContext)
        ensures
            context_of(*orb, orb_name@, version@, r),
    {
        let mut commands: Vec<CommandContext> = Vec::new();
        let mut i: usize = 0;
        while i < orb.commands.len()
            invariant
                0 <= i <= orb.commands.len(),
                commands@.len() == i,
                forall|j: int| 0 <= j < i ==> command_ctx_of(
                    orb.commands@[j].0,
                    orb.commands@[j].1,
                    #[trigger] commands@[j],
                ),
            decreases orb.commands.len() - i,
        {
            commands.push(CommandContext::from_command(&orb.commands[i].0, &orb.commands[i].1));
            i = i + 1;
        }
        let mut jobs: Vec<JobContext> = Vec::new();
        let mut i: usize = 0;
        while i < orb.jobs.len()
            invariant
                0 <= i <= orb.jobs.len(),
                jobs@.len() == i,
                forall|j: int| 0 <= j < i ==> job_ctx_of(
                    orb.jobs@[j].0,
                    orb.jobs@[j].1,
                    #[trigger] jobs@[j],
                ),
            decreases orb.jobs.len() - i,
        {
            jobs.push(JobContext::from_job(&orb.jobs[i].0, &orb.jobs[i].1));
            i = i + 1;
        }
        let mut executors: Vec<ExecutorContext> = Vec::new();
        let mut i: usize = 0;
        while i < orb.executors.len()
            invariant
                0 <= i <= orb.executors.len(),
                executors@.len() == i,
                forall|j: int| 0 <= j < i ==> executor_ctx_of(
                    orb.executors@[j].0,
                    orb.executors@[j].1,
                    #[trigger] executors@[j],
                ),
            decreases orb.executors.len() - i,
        {
            executors.push(ExecutorContext::from_executor(&orb.executors[i].0, &orb.executors[i].1));
            i = i + 1;
        }
        let has_resources = commands.len() > 0 || jobs.len() > 0 || executors.len() > 0;
        GeneratorContext {
            orb_name: owned(orb_name),
            crate_name: crate_name(orb_name),
            struct_name: struct_name(orb_name),
            version: owned(version),
            description: clone_text(&orb.description),
            commands,
            jobs,
            executors,
            has_resources,
        }
    }

    /// The context as a JSON object for the templates.
    pub fn to_json(&self) -> (r: Json)
        ensures
            r@ == context_json(*self),
    {
        let mut cs: Vec<Json> = Vec::new();
        let mut i: usize = 0;
        while i < self.commands.len()
            invariant
                0 <= i <= self.commands.len(),
                cs@.len() == i,
                forall|j: int| 0 <= j < i ==> (#[trigger] cs@[j])@ == command_json(self.commands@[j]),
            decreases self.commands.len() - i,
        {
            let x = self.commands[i].to_json();
            assert(x@ == command_json(self.commands@[i as int]));
            let ghost before = cs@;
            cs.push(x);
            assert(cs@ == before.push(x));
            i = i + 1;
        }
        let mut js: Vec<Json> = Vec::new();
        let mut i: usize = 0;
        while i < self.jobs.len()
            invariant
                0 <= i <= self.jobs.len(),
                js@.len() == i,
                forall|j: int| 0 <= j < i ==> (#[trigger] js@[j])@ == job_json(self.jobs@[j]),
            decreases self.jobs.len() - i,
        {
            let x = self.jobs[i].to_json();
            assert(x@ == job_json(self.jobs@[i as int]));
            let ghost before = js@;
            js.push(x);
            assert(js@ == before.push(x));
            i = i + 1;
        }
        let mut es: Vec<Json> = Vec::new();
        let mut i: usize = 0;
        while i < self.executors.len()
            invariant
                0 <= i <= self.executors.len(),
                es@.len() == i,
                forall|j: int| 0 <= j < i ==> (#[trigger] es@[j])@ == executor_json(self.executors@[j]),
            decreases self.executors.len() - i,
        {
            let x = self.executors[i].to_json();
            assert(x@ == executor_json(self.executors@[i as int]));
            let ghost before = es@;
            es.push(x);
            assert(es@ == before.push(x));
            i = i + 1;
        }
        assert(models(cs@) =~= Seq::new(self.commands@.len(), |j: int| command_json(self.commands@[j])));
        assert(models(js@) =~= Seq::new(self.jobs@.len(), |j: int| job_json(self.jobs@[j])));
        assert(models(es@) =~= Seq::new(self.executors@.len(), |j: int| executor_json(self.executors@[j])));
        let mut f: Vec<(String, Json)> = Vec::new();
        f.push((owned("orb_name"), json_string(self.orb_name.clone())));
        f.push((owned("crate_name"), json_string(self.crate_name.clone())));
        f.push((owned("struct_name"), json_string(self.struct_name.clone())));
        f.push((owned("version"), json_string(self.version.clone())));
        f.push((owned("description"), json_opt_string(&self.description)));
        f.push((owned("commands"), json_array(cs)));
        f.push((owned("jobs"), json_array(js)));
        f.push((owned("executors"), json_array(es)));
        f.push((owned("has_resources"), json_bool(self.has_resources)));
        let r = json_object(f);
        assert(field_models(f@) =~= context_json(*self)->Object_0);
        r
    }
}

/// The resource addresses of a context, in order: commands, jobs, executors.
pub open spec fn resource_uris(ctx: GeneratorContext) -> Seq<Seq<char>> {
    Seq::new(ctx.commands@.len(), |i: int| ctx.commands@[i].uri@) + Seq::new(
        ctx.jobs@.len(),
        |i: int| ctx.jobs@[i].uri@,
    ) + Seq::new(ctx.executors@.len(), |i: int| ctx.executors@[i].uri@)
}

/// Law: a lowered parameter is required exactly when it has no default,
/// which is exactly when the parameter has none.
pub proof fn lemma_required_iff_no_default(name: Seq<char>, p: Parameter, c: ParameterContext)
    requires
        param_ctx_of(name, p, c),
    ensures
        c.required == c.default.is_none(),
        c.required == p.default.is_none(),
{
}

proof fn lemma_prefix_cancels(p: Seq<char>, x: Seq<char>, y: Seq<char>)
    requires
        p + x == p + y,
    ensures
        x == y,
{
    assert((p + x).subrange(p.len() as int, (p + x).len() as int) =~= x);
    assert((p + y).subrange(p.len() as int, (p + y).len() as int) =~= y);
}

proof fn lemma_category_marks(x: Seq<char>)
    ensures
        command_uri(x)[6] == 'c',
        job_uri(x)[6] == 'j',
        executor_uri(x)[6] == 'e',
{
    reveal_strlit("orb://commands/");
    reveal_strlit("orb://jobs/");
    reveal_strlit("orb://executors/");
}

/// Law: when the names within each category are distinct, the context
/// holds one resource address per command, job and executor, and no two
/// are equal.
pub proof fn lemma_resource_addresses_distinct(
    orb: OrbDefinition,
    orb_name: Seq<char>,
    version: Seq<char>,
    ctx: GeneratorContext,
)
    requires
        context_of(orb, orb_name, version, ctx),
        unique_names(orb.commands@),
        unique_names(orb.jobs@),
        unique_names(orb.executors@),
    ensures
        resource_uris(ctx).len() == orb.commands@.len() + orb.jobs@.len() + orb.executors@.len(),
        forall|a: int, b: int|
            0 <= a < b < resource_uris(ctx).len() ==> resource_uris(ctx)[a] != resource_uris(ctx)[b],
{
    let n = orb.commands@.len() as int;
    let m = orb.jobs@.len() as int;
    let u = resource_uris(ctx);
    assert forall|a: int, b: int| 0 <= a < b < u.len() implies u[a] != u[b] by {
        // the address at position i, with its category and name
        let na = if a < n { orb.commands@[a].0@ } else if a < n + m { orb.jobs@[a - n].0@ } else {
            orb.executors@[a - n - m].0@ };
        let nb = if b < n { orb.commands@[b].0@ } else if b < n + m { orb.jobs@[b - n].0@ } else {
            orb.executors@[b - n - m].0@ };
        if a < n {
            assert(command_ctx_of(orb.commands@[a].0, orb.commands@[a].1, ctx.commands@[a]));
            assert(u[a] == command_uri(na));
        } else if a < n + m {
            assert(job_ctx_of(orb.jobs@[a - n].0, orb.jobs@[a - n].1, ctx.jobs@[a - n]));
            assert(u[a] == job_uri(na));
        } else {
            assert(executor_ctx_of(
                orb.executors@[a - n - m].0,
                orb.executors@[a - n - m].1,
                ctx.executors@[a - n - m],
            ));
            assert(u[a] == executor_uri(na));
        }
        if b < n {
            assert(command_ctx_of(orb.commands@[b].0, orb.commands@[b].1, ctx.commands@[b]));
            assert(u[b] == command_uri(nb));
        } else if b < n + m {
            assert(job_ctx_of(orb.jobs@[b - n].0, orb.jobs@[b - n].1, ctx.jobs@[b - n]));
            assert(u[b] == job_uri(nb));
        } else {
            assert(executor_ctx_of(
                orb.executors@[b - n - m].0,
                orb.executors@[b - n - m].1,
                ctx.executors@[b - n - m],
            ));
            assert(u[b] == executor_uri(nb));
        }
        lemma_category_marks(na);
        lemma_category_marks(nb);
        if u[a] == u[b] {
            if b < n {
                lemma_prefix_cancels("orb://commands/"@, na, nb);
            } else if a >= n && b < n + m {
                lemma_prefix_cancels("orb://jobs/"@, na, nb);
            } else if a >= n + m {
                lemma_prefix_cancels("orb://executors/"@, na, nb);
            }
        }
    }
}

/// Law: a definition without commands, jobs or executors gives a context
/// without resources, and without any resource address.
pub proof fn lemma_empty_definition_has_no_resources(
    orb: OrbDefinition,
    orb_name: Seq<char>,
    version: Seq<char>,
    ctx: GeneratorContext,
)
    requires
        context_of(orb, orb_name, version, ctx),
        orb.commands@.len() == 0,
        orb.jobs@.len() == 0,
        orb.executors@.len() == 0,
    ensures
        !ctx.has_resources,
        resource_uris(ctx).len() == 0,
{
}

/// Law: a snapshot's parameter summaries are one per parameter, in order;
/// each names its parameter, gives its default as JSON (null when there is
/// none), and is marked required exactly when there is no default.
pub proof fn lemma_snapshot_parameters(ps: Seq<(String, Parameter)>, v: Seq<JsonV>)
    requires
        params_snapshot(ps) == Some(v),
    ensures
        v.len() == ps.len(),
        forall|i: int| 0 <= i < ps.len() ==> {
            &&& (#[trigger] v[i]) matches JsonV::Object(fs)
            &&& fs.len() >= 5
            &&& fs[0] == ("name"@, JsonV::Str(ps[i].0@))
            &&& fs[3].0 == "default"@
            &&& fs[4] == ("required"@, JsonV::Bool(ps[i].1.default is None))
            &&& match ps[i].1.default {
                Some(d) => yaml_json(content(d)) == Some(fs[3].1),
                None => fs[3].1 == JsonV::Null,
            }
        },
{
    assert forall|i: int| 0 <= i < ps.len() implies {
        &&& (#[trigger] v[i]) matches JsonV::Object(fs)
        &&& fs.len() >= 5
        &&& fs[0] == ("name"@, JsonV::Str(ps[i].0@))
        &&& fs[3].0 == "default"@
        &&& fs[4] == ("required"@, JsonV::Bool(ps[i].1.default is None))
        &&& match ps[i].1.default {
            Some(d) => yaml_json(content(d)) == Some(fs[3].1),
            None => fs[3].1 == JsonV::Null,
        }
    } by {
        assert(param_snapshot(ps[i].0@, ps[i].1) is Some);
        assert(v[i] == param_snapshot(ps[i].0@, ps[i].1)->0);
    }
}

} // verus!
