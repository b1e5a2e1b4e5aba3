//! Decoding of steps, executor references and parameters, where one value
//! may take several shapes. Shapes are tried in a fixed order and the first
//! that fits is taken; only the structure of the value decides.

use vstd::prelude::*;
use crate::fields::{
    as_entries, as_items, get_opt_text, get_opt_text_list, get_req_text, opt_text, opt_text_list,
    opt_view, req_text,
};
use crate::records::{
    artifacts_of, artifacts_ok, attach_of, attach_ok, cache_of, cache_ok, checkout_of,
    checkout_ok, read_artifacts, read_attach, read_cache, read_checkout, read_remote_docker,
    read_run, read_save_cache, read_ssh_keys, read_test_results, read_workspace, remote_docker_of,
    remote_docker_ok, run_of, run_ok, save_cache_of, save_cache_ok, ssh_keys_of, ssh_keys_ok,
    test_results_of, test_results_ok, workspace_of, workspace_ok,
};
use crate::schema::{ConditionalStep, ExecutorRef, Parameter, ParameterType, Step, StructuredStep};
use crate::text::text_eq;
use crate::yaml::{content, find, key_is, lookup, string_keys, Yaml, YamlV};

verus! {

/// How deeply conditional steps may nest.
pub const STEP_DEPTH: usize = 64;

/// The key of a mapping with exactly one entry, when that key is a string.
pub open spec fn single_key(m: Seq<(Yaml, Yaml)>) -> Option<Seq<char>> {
    if m.len() == 1 && m[0].0 is Str {
        Some(m[0].0->Str_0@)
    } else {
        None
    }
}

/// Whether a payload read where a record is expected satisfies `ok`.
pub open spec fn record_ok(p: Yaml, ok: spec_fn(Seq<(Yaml, Yaml)>) -> bool) -> bool {
    as_entries(p) matches Some(e) && ok(e)
}

/// Whether `v` is the record read from payload `p`.
pub open spec fn record_of<T>(p: Yaml, v: T, of: spec_fn(Seq<(Yaml, Yaml)>, T) -> bool) -> bool {
    as_entries(p) matches Some(e) && of(e, v)
}

/// The arguments of an invocation: the mapping's entries under their string
/// keys, values as they stand.
pub open spec fn args_match(m: Seq<(Yaml, Yaml)>, v: Seq<(String, Yaml)>) -> bool {
    v.len() == m.len() && forall|i: int|
        0 <= i < m.len() ==> (#[trigger] m[i]).0 == Yaml::Str(v[i].0) && content(v[i].1)
            == content(m[i].1)
}

/// A step: a bare string is the shorthand; a mapping is a structured step,
/// tagged if it fits one, else an invocation; nothing else is a step.
pub open spec fn step_ok(y: Yaml, d: nat) -> bool
    decreases d, 2nat,
{
    match y {
        Yaml::Str(_) => true,
        Yaml::Mapping(m) => tagged_ok(m@, d) || string_keys(m@),
        _ => false,
    }
}

/// A one-entry mapping whose key names a structured step and whose value
/// has that step's shape.
pub open spec fn tagged_ok(m: Seq<(Yaml, Yaml)>, d: nat) -> bool
    decreases d, 1nat,
{
    match single_key(m) {
        Some(k) => {
            let p = m[0].1;
            if k == "run"@ {
                run_ok(p)
            } else if k == "when"@ || k == "unless"@ {
                cond_ok(p, d)
            } else if k == "checkout"@ {
                record_ok(p, |e| checkout_ok(e))
            } else if k == "restore_cache"@ {
                record_ok(p, |e| cache_ok(e))
            } else if k == "save_cache"@ {
                record_ok(p, |e| save_cache_ok(e))
            } else if k == "persist_to_workspace"@ {
                record_ok(p, |e| workspace_ok(e))
            } else if k == "attach_workspace"@ {
                record_ok(p, |e| attach_ok(e))
            } else if k == "store_test_results"@ {
                record_ok(p, |e| test_results_ok(e))
            } else if k == "store_artifacts"@ {
                record_ok(p, |e| artifacts_ok(e))
            } else if k == "add_ssh_keys"@ {
                record_ok(p, |e| ssh_keys_ok(e))
            } else if k == "setup_remote_docker"@ {
                record_ok(p, |e| remote_docker_ok(e))
            } else {
                false
            }
        },
        None => false,
    }
}

/// A conditional group: a `condition` and a list of steps, nested at most
/// `d` deep.
pub open spec fn cond_ok(p: Yaml, d: nat) -> bool
    decreases d, 0nat,
{
    if d == 0 {
        false
    } else {
        match as_entries(p) {
            Some(e) => find(e, "condition"@) is Some && match find(e, "steps"@) {
                None => true,
                Some(s) => match as_items(s) {
                    Some(items) => steps_ok(items, (d - 1) as nat),
                    None => false,
                },
            },
            None => false,
        }
    }
}

/// Whether every item is a step.
pub open spec fn steps_ok(items: Seq<Yaml>, d: nat) -> bool
    decreases d, items.len() + 3,
{
    if items.len() == 0 {
        true
    } else {
        steps_ok(items.drop_last(), d) && step_ok(items.last(), d)
    }
}

/// Whether `s` is the step read from `y`.
pub open spec fn step_of(y: Yaml, s: Step, d: nat) -> bool
    decreases d, 2nat,
{
    match y {
        Yaml::Str(t) => s == Step::Simple(t),
        Yaml::Mapping(m) => match s {
            Step::Structured(ss) => if tagged_ok(m@, d) {
                tagged_of(m@, ss, d)
            } else {
                string_keys(m@) && match ss {
                    StructuredStep::CommandInvocation(args) => args_match(m@, args@),
                    _ => false,
                }
            },
            _ => false,
        },
        _ => false,
    }
}

/// Whether `ss` is the tagged step read from a one-entry mapping.
pub open spec fn tagged_of(m: Seq<(Yaml, Yaml)>, ss: StructuredStep, d: nat) -> bool
    decreases d, 1nat,
{
    let k = single_key(m)->0;
    let p = m[0].1;
    match ss {
        StructuredStep::Run(r) => k == "run"@ && run_of(p, r),
        StructuredStep::Checkout(c) => k == "checkout"@ && record_of(p, c, |e, x| checkout_of(e, x)),
        StructuredStep::RestoreCache(c) => k == "restore_cache"@ && record_of(
            p,
            c,
            |e, x| cache_of(e, x),
        ),
        StructuredStep::SaveCache(c) => k == "save_cache"@ && record_of(
            p,
            c,
            |e, x| save_cache_of(e, x),
        ),
        StructuredStep::When(c) => k == "when"@ && cond_of(p, c, d),
        StructuredStep::Unless(c) => k == "unless"@ && cond_of(p, c, d),
        StructuredStep::PersistToWorkspace(c) => k == "persist_to_workspace"@ && record_of(
            p,
            c,
            |e, x| workspace_of(e, x),
        ),
        StructuredStep::AttachWorkspace(c) => k == "attach_workspace"@ && record_of(
            p,
            c,
            |e, x| attach_of(e, x),
        ),
        StructuredStep::StoreTestResults(c) => k == "store_test_results"@ && record_of(
            p,
            c,
            |e, x| test_results_of(e, x),
        ),
        StructuredStep::StoreArtifacts(c) => k == "store_artifacts"@ && record_of(
            p,
            c,
            |e, x| artifacts_of(e, x),
        ),
        StructuredStep::AddSshKeys(c) => k == "add_ssh_keys"@ && record_of(
            p,
            c,
            |e, x| ssh_keys_of(e, x),
        ),
        StructuredStep::SetupRemoteDocker(c) => k == "setup_remote_docker"@ && record_of(
            p,
            c,
            |e, x| remote_docker_of(e, x),
        ),
        StructuredStep::CommandInvocation(_) => false,
    }
}

/// Whether `c` is the conditional group read from `p`; the condition is
/// carried as it stands.
pub open spec fn cond_of(p: Yaml, c: ConditionalStep, d: nat) -> bool
    decreases d, 0nat,
{
    if d == 0 {
        false
    } else {
        match as_entries(p) {
            Some(e) => find(e, "condition"@) is Some && content(c.condition) == content(
                find(e, "condition"@)->0,
            ) && match find(e, "steps"@) {
                None => c.steps@.len() == 0,
                Some(s) => match as_items(s) {
                    Some(items) => steps_of(items, c.steps@, (d - 1) as nat),
                    None => false,
                },
            },
            None => false,
        }
    }
}

/// Whether `v` is the list of steps read from `items`.
pub open spec fn steps_of(items: Seq<Yaml>, v: Seq<Step>, d: nat) -> bool
    decreases d, items.len() + 3,
{
    items.len() == v.len() && (items.len() == 0 || (steps_of(items.drop_last(), v.drop_last(), d)
        && step_of(items.last(), v.last(), d)))
}

proof fn lemma_steps_ok_each(s: Seq<Yaml>, d: nat, k: int)
    requires
        steps_ok(s, d),
        0 <= k < s.len(),
    ensures
        step_ok(s[k], d),
    decreases s.len(),
{
    if k < s.len() - 1 {
        lemma_steps_ok_each(s.drop_last(), d, k);
    }
}

/// Reads the arguments of an invocation.
fn read_args(m: &Vec<(Yaml, Yaml)>) -> (r: Option<Vec<(String, Yaml)>>)
    ensures
        r is Some <==> string_keys(m@),
        r matches Some(v) ==> args_match(m@, v@),
{
    let mut out: Vec<(String, Yaml)> = Vec::new();
    let mut i: usize = 0;
    while i < m.len()
        invariant
            0 <= i <= m.len(),
            out@.len() == i,
            forall|j: int|
                0 <= j < i ==> (#[trigger] m@[j]).0 == Yaml::Str(out@[j].0) && content(out@[j].1)
                    == content(m@[j].1),
        decreases m.len() - i,
    {
        match &m[i].0 {
            Yaml::Str(k) => {
                out.push((k.clone(), m[i].1.copy()));
            },
            _ => {
                assert(!((m@[i as int]).0 is Str));
                return None;
            },
        }
        i = i + 1;
    }
    Some(out)
}

/// Reads a step nested at most `d` deep.
pub fn read_step(y: &Yaml, d: usize) -> (r: Option<Step>)
    ensures
        r is Some <==> step_ok(*y, d as nat),
        r matches Some(s) ==> step_of(*y, s, d as nat),
    decreases d, 2nat,
{
    match y {
        Yaml::Str(s) => Some(Step::Simple(s.clone())),
        Yaml::Mapping(m) => {
            match read_tagged(m, d) {
                Some(ss) => Some(Step::Structured(ss)),
                None => match read_args(m) {
                    Some(args) => Some(Step::Structured(StructuredStep::CommandInvocation(args))),
                    None => None,
                },
            }
        },
        _ => None,
    }
}

/// Reads a tagged structured step from a one-entry mapping.
fn read_tagged(m: &Vec<(Yaml, Yaml)>, d: usize) -> (r: Option<StructuredStep>)
    ensures
        r is Some <==> tagged_ok(m@, d as nat),
        r matches Some(ss) ==> tagged_of(m@, ss, d as nat),
    decreases d, 1nat,
{
    if m.len() != 1 {
        return None;
    }
    let k = match &m[0].0 {
        Yaml::Str(k) => k.as_str(),
        _ => return None,
    };
    let p = &m[0].1;
    let empty: Vec<(Yaml, Yaml)> = Vec::new();
    assert(empty@ =~= Seq::<(Yaml, Yaml)>::empty());
    if text_eq(k, "run") {
        return match read_run(p) {
            Some(r) => Some(StructuredStep::Run(r)),
            None => None,
        };
    }
    if text_eq(k, "when") {
        let r = read_cond(p, d);
        return match r {
            Some(c) => Some(StructuredStep::When(c)),
            None => None,
        };
    }
    if text_eq(k, "unless") {
        return match read_cond(p, d) {
            Some(c) => Some(StructuredStep::Unless(c)),
            None => None,
        };
    }
    let e: &Vec<(Yaml, Yaml)> = match p {
        Yaml::Mapping(e) => e,
        Yaml::Null => &empty,
        _ => return None,
    };
    assert(as_entries(*p) == Some(e@));
    if text_eq(k, "checkout") {
        match read_checkout(e) {
            Some(c) => Some(StructuredStep::Checkout(c)),
            None => None,
        }
    } else if text_eq(k, "restore_cache") {
        match read_cache(e) {
            Some(c) => Some(StructuredStep::RestoreCache(c)),
            None => None,
        }
    } else if text_eq(k, "save_cache") {
        match read_save_cache(e) {
            Some(c) => Some(StructuredStep::SaveCache(c)),
            None => None,
        }
    } else if text_eq(k, "persist_to_workspace") {
        match read_workspace(e) {
            Some(c) => Some(StructuredStep::PersistToWorkspace(c)),
            None => None,
        }
    } else if text_eq(k, "attach_workspace") {
        match read_attach(e) {
            Some(c) => Some(StructuredStep::AttachWorkspace(c)),
            None => None,
        }
    } else if text_eq(k, "store_test_results") {
        match read_test_results(e) {
            Some(c) => Some(StructuredStep::StoreTestResults(c)),
            None => None,
        }
    } else if text_eq(k, "store_artifacts") {
        match read_artifacts(e) {
            Some(c) => Some(StructuredStep::StoreArtifacts(c)),
            None => None,
        }
    } else if text_eq(k, "add_ssh_keys") {
        match read_ssh_keys(e) {
            Some(c) => Some(StructuredStep::AddSshKeys(c)),
            None => None,
        }
    } else if text_eq(k, "setup_remote_docker") {
        match read_remote_docker(e) {
            Some(c) => Some(StructuredStep::SetupRemoteDocker(c)),
            None => None,
        }
    } else {
        None
    }
}

/// Reads a conditional group nested at most `d` deep.
fn read_cond(p: &Yaml, d: usize) -> (r: Option<ConditionalStep>)
    ensures
        r is Some <==> cond_ok(*p, d as nat),
        r matches Some(c) ==> cond_of(*p, c, d as nat),
    decreases d, 0nat,
{
    if d == 0 {
        return None;
    }
    let empty: Vec<(Yaml, Yaml)> = Vec::new();
    assert(empty@ =~= Seq::<(Yaml, Yaml)>::empty());
    let e: &Vec<(Yaml, Yaml)> = match p {
        Yaml::Mapping(e) => e,
        Yaml::Null => &empty,
        _ => return None,
    };
    assert(as_entries(*p) == Some(e@));
    let condition = match lookup(e, "condition") {
        Some(c) => c.copy(),
        None => return None,
    };
    let steps = match lookup(e, "steps") {
        None => {
            let v: Vec<Step> = Vec::new();
            v
        },
        Some(Yaml::Null) => {
            let v: Vec<Step> = Vec::new();
            assert(steps_of(Seq::empty(), v@, (d - 1) as nat));
            v
        },
        Some(Yaml::List(items)) => match read_steps(items, d - 1) {
            Some(v) => v,
            None => return None,
        },
        Some(_) => return None,
    };
    Some(ConditionalStep { condition, steps })
}

/// Reads a list of steps nested at most `d` deep.
pub fn read_steps(items: &Vec<Yaml>, d: usize) -> (r: Option<Vec<Step>>)
    ensures
        r is Some <==> steps_ok(items@, d as nat),
        r matches Some(v) ==> steps_of(items@, v@, d as nat),
    decreases d, items@.len() + 3,
{
    let mut out: Vec<Step> = Vec::new();
    let mut i: usize = 0;
    assert(items@.take(0) =~= Seq::<Yaml>::empty());
    while i < items.len()
        invariant
            0 <= i <= items.len(),
            steps_ok(items@.take(i as int), d as nat),
            steps_of(items@.take(i as int), out@, d as nat),
        decreases items.len() - i,
    {
        let ghost before = out@;
        match read_step(&items[i], d) {
            Some(s) => {
                out.push(s);
                assert(items@.take(i + 1).drop_last() =~= items@.take(i as int));
                assert(out@.drop_last() =~= before);
            },
            None => {
                proof {
                    if steps_ok(items@, d as nat) {
                        lemma_steps_ok_each(items@, d as nat, i as int);
                    }
                }
                return None;
            },
        }
        i = i + 1;
    }
    assert(items@.take(items.len() as int) =~= items@);
    Some(out)
}

/// The parameter kind named by `t`.
pub open spec fn param_type_of(t: Seq<char>) -> Option<ParameterType> {
    if t == "string"@ {
        Some(ParameterType::String)
    } else if t == "boolean"@ {
        Some(ParameterType::Boolean)
    } else if t == "integer"@ {
        Some(ParameterType::Integer)
    } else if t == "enum"@ {
        Some(ParameterType::Enum)
    } else if t == "env_var_name"@ {
        Some(ParameterType::EnvVarName)
    } else if t == "steps"@ {
        Some(ParameterType::Steps)
    } else if t == "executor"@ {
        Some(ParameterType::Executor)
    } else {
        None
    }
}

/// Reads a parameter kind from its name.
pub fn parse_param_type(t: &str) -> (r: Option<ParameterType>)
    ensures
        r == param_type_of(t@),
{
    if text_eq(t, "string") {
        Some(ParameterType::String)
    } else if text_eq(t, "boolean") {
        Some(ParameterType::Boolean)
    } else if text_eq(t, "integer") {
        Some(ParameterType::Integer)
    } else if text_eq(t, "enum") {
        Some(ParameterType::Enum)
    } else if text_eq(t, "env_var_name") {
        Some(ParameterType::EnvVarName)
    } else if text_eq(t, "steps") {
        Some(ParameterType::Steps)
    } else if text_eq(t, "executor") {
        Some(ParameterType::Executor)
    } else {
        None
    }
}

/// Whether the entries hold a default value: a `default` key whose value is
/// not null.
pub open spec fn has_default(m: Seq<(Yaml, Yaml)>) -> bool {
    find(m, "default"@) matches Some(v) && !(v is Null)
}

/// A parameter: a mapping with a known `type`.
pub open spec fn param_ok(y: Yaml) -> bool {
    as_entries(y) matches Some(m) && (req_text(find(m, "type"@)) matches Some(t) && param_type_of(
        t@,
    ) is Some) && opt_text(find(m, "description"@)) is Some && opt_text_list(find(m, "enum"@))
        is Some
}

/// Whether `p` is the parameter read from `y`; the default is carried as it stands.
pub open spec fn param_of(y: Yaml, p: Parameter) -> bool {
    &&& param_ok(y)
    &&& as_entries(y) matches Some(m)
    &&& param_type_of(req_text(find(m, "type"@))->0@) == Some(p.param_type)
    &&& opt_text(find(m, "description"@)) == Some(p.description)
    &&& p.default.is_some() == has_default(m)
    &&& p.default matches Some(x) ==> content(x) == content(find(m, "default"@)->0)
    &&& opt_text_list(find(m, "enum"@)) == Some(opt_view(p.enum_values))
}

/// Reads a parameter.
pub fn read_param(y: &Yaml) -> (r: Option<Parameter>)
    ensures
        r is Some <==> param_ok(*y),
        r matches Some(p) ==> param_of(*y, p),
{
    let empty: Vec<(Yaml, Yaml)> = Vec::new();
    assert(empty@ =~= Seq::<(Yaml, Yaml)>::empty());
    let m: &Vec<(Yaml, Yaml)> = match y {
        Yaml::Mapping(m) => m,
        Yaml::Null => &empty,
        _ => return None,
    };
    assert(as_entries(*y) == Some(m@));
    let t = get_req_text(m, "type")?;
    let param_type = parse_param_type(t.as_str())?;
    let description = get_opt_text(m, "description")?;
    let enum_values = get_opt_text_list(m, "enum")?;
    let default = match lookup(m, "default") {
        None => None,
        Some(Yaml::Null) => None,
        Some(v) => Some(v.copy()),
    };
    Some(Parameter { param_type, description, default, enum_values })
}

/// The parameter values of an executor reference: every entry but `name`,
/// in order, as key text and content.
pub open spec fn override_keys(m: Seq<(Yaml, Yaml)>) -> Seq<(Seq<char>, YamlV)>
    decreases m.len(),
{
    if m.len() == 0 {
        Seq::empty()
    } else {
        let rest = override_keys(m.drop_last());
        if key_is(m.last().0, "name"@) {
            rest
        } else {
            rest.push((m.last().0->Str_0@, content(m.last().1)))
        }
    }
}

/// Named values as key text and content.
pub open spec fn keys_of(v: Seq<(String, Yaml)>) -> Seq<(Seq<char>, YamlV)> {
    Seq::new(v.len(), |i: int| (v[i].0@, content(v[i].1)))
}

/// An executor reference: a bare string is a name; a mapping with string
/// keys and a `name` is a name with parameter values.
pub open spec fn executor_ref_ok(y: Yaml) -> bool {
    y is Str || (!(y is Str) && (as_entries(y) matches Some(m) && string_keys(m) && req_text(
        find(m, "name"@),
    ) is Some))
}

/// Whether `v` is the executor reference read from `y`.
pub open spec fn executor_ref_of(y: Yaml, v: ExecutorRef) -> bool {
    match v {
        ExecutorRef::Name(s) => y == Yaml::Str(s),
        ExecutorRef::WithParams { name, parameters } => !(y is Str) && (as_entries(y) matches Some(
            m,
        ) && string_keys(m) && req_text(find(m, "name"@)) == Some(name) && keys_of(parameters@)
            == override_keys(m)),
    }
}

/// Reads an executor reference.
pub fn read_executor_ref(y: &Yaml) -> (r: Option<ExecutorRef>)
    ensures
        r is Some <==> executor_ref_ok(*y),
        r matches Some(v) ==> executor_ref_of(*y, v),
{
    let m = match y {
        Yaml::Str(s) => return Some(ExecutorRef::Name(s.clone())),
        Yaml::Mapping(m) => m,
        _ => return None,
    };
    let name = get_req_text(m, "name")?;
    let mut parameters: Vec<(String, Yaml)> = Vec::new();
    let mut i: usize = 0;
    assert(m@.take(0) =~= Seq::<(Yaml, Yaml)>::empty());
    assert(keys_of(parameters@) =~= Seq::<(Seq<char>, YamlV)>::empty());
    while i < m.len()
        invariant
            0 <= i <= m.len(),
            *y == Yaml::Mapping(*m),
            string_keys(m@.take(i as int)),
            keys_of(parameters@) == override_keys(m@.take(i as int)),
        decreases m.len() - i,
    {
        assert(m@.take(i + 1).drop_last() =~= m@.take(i as int));
        match &m[i].0 {
            Yaml::Str(k) => {
                if !text_eq(k.as_str(), "name") {
                    let ghost before = parameters@;
                    parameters.push((k.clone(), m[i].1.copy()));
                    assert(keys_of(parameters@) =~= keys_of(before).push(
                        (k@, content(m@[i as int].1)),
                    ));
                }
                assert(string_keys(m@.take(i + 1))) by {
                    assert forall|j: int| 0 <= j < i + 1 implies (#[trigger] m@.take(i + 1)[j]).0 is Str by {
                        if j < i {
                            assert(m@.take(i + 1)[j] == m@.take(i as int)[j]);
                        }
                    }
                }
            },
            _ => {
                assert(!(m@[i as int].0 is Str));
                return None;
            },
        }
        i = i + 1;
    }
    assert(m@.take(m.len() as int) =~= m@);
    Some(ExecutorRef::WithParams { name, parameters })
}

/// The keys that name a structured step.
pub open spec fn known_tag(k: Seq<char>) -> bool {
    k == "run"@ || k == "when"@ || k == "unless"@ || k == "checkout"@ || k == "restore_cache"@
        || k == "save_cache"@ || k == "persist_to_workspace"@ || k == "attach_workspace"@
        || k == "store_test_results"@ || k == "store_artifacts"@ || k == "add_ssh_keys"@
        || k == "setup_remote_docker"@
}

/// Law: the shape of a step value decides its variant. A bare string is the
/// shorthand; a one-key mapping whose key names a structured step, and
/// whose value has that step's shape, is that structured step; a mapping
/// whose single key names no structured step is an invocation; nothing
/// but strings and mappings is a step.
pub proof fn lemma_step_precedence(y: Yaml, s: Step, d: nat)
    requires
        step_of(y, s, d),
    ensures
        y is Str ==> s is Simple,
        y is Mapping && tagged_ok(y->Mapping_0@, d) ==> (s matches Step::Structured(ss)
            && !(ss is CommandInvocation)),
        y is Mapping && single_key(y->Mapping_0@) is Some && !known_tag(
            single_key(y->Mapping_0@)->0,
        ) ==> (s matches Step::Structured(ss) && ss is CommandInvocation),
        y is Str || y is Mapping,
{
    if let Yaml::Mapping(m) = y {
        if let Some(k) = single_key(m@) {
            if !known_tag(k) {
                assert(!tagged_ok(m@, d));
            }
        }
    }
}

} // verus!
