//! Decoding of commands, jobs, executors and the whole definition from a
//! document tree, and parsing of a single-document definition.

use vstd::prelude::*;
use crate::error::ParseError;
use crate::fields::{
    lemma_text_map_unique,
    as_entries, as_items, get_opt_bool, get_opt_text, get_text_map, opt_bool, opt_text,
    text_map_field,
};
use crate::records::{
    display_of, display_ok, docker_image_of, docker_image_ok, machine_of, machine_ok, macos_of,
    macos_ok, opt_record_of, opt_record_ok, read_display, read_docker_image, read_machine,
    read_macos,
};
use crate::schema::{
    Command, DockerImage, Executor, ExecutorConfig, Job, OrbDefinition, Parameter, Step,
};
use crate::steps::{
    executor_ref_of, executor_ref_ok, param_of, param_ok, read_executor_ref, read_param,
    read_steps, steps_of, steps_ok, STEP_DEPTH,
};
use crate::text::owned;
use crate::text::{has_key, has_name, unique_names};
use crate::yaml::{distinct_keys, find, lookup, Yaml};

verus! {

/// A field holding named entries: absent gives none; otherwise a mapping
/// with string keys whose values all satisfy `ok`.
pub open spec fn named_ok(f: Option<Yaml>, ok: spec_fn(Yaml) -> bool) -> bool {
    match f {
        None => true,
        Some(y) => as_entries(y) matches Some(m) && distinct_keys(m) && forall|i: int|
            0 <= i < m.len() ==> (#[trigger] m[i]).0 is Str && ok(m[i].1),
    }
}

/// Lemma: entries read from a field with distinct keys have distinct names.
pub proof fn lemma_named_unique<T>(
    f: Option<Yaml>,
    v: Seq<(String, T)>,
    ok: spec_fn(Yaml) -> bool,
    of: spec_fn(Yaml, T) -> bool,
)
    requires
        named_ok(f, ok),
        named_of(f, v, of),
    ensures
        unique_names(v),
{
    if let Some(y) = f {
        let m = as_entries(y)->0;
        assert forall|a: int, b: int| 0 <= a < v.len() && 0 <= b < v.len() && a != b implies v[a].0@
            != v[b].0@ by {
            assert(m[a].0 == Yaml::Str(v[a].0));
            assert(m[b].0 == Yaml::Str(v[b].0));
        }
    }
}

/// Whether `v` holds the named entries of the field, in document order.
pub open spec fn named_of<T>(f: Option<Yaml>, v: Seq<(String, T)>, of: spec_fn(Yaml, T) -> bool) -> bool {
    match f {
        None => v.len() == 0,
        Some(y) => as_entries(y) matches Some(m) && v.len() == m.len() && forall|i: int|
            0 <= i < m.len() ==> (#[trigger] m[i]).0 == Yaml::Str(v[i].0) && of(m[i].1, v[i].1),
    }
}

/// A steps field: absent gives none; otherwise a list of steps.
pub open spec fn steps_field_ok(f: Option<Yaml>) -> bool {
    match f {
        None => true,
        Some(y) => as_items(y) matches Some(items) && steps_ok(items, STEP_DEPTH as nat),
    }
}

pub open spec fn steps_field_of(f: Option<Yaml>, v: Seq<Step>) -> bool {
    match f {
        None => v.len() == 0,
        Some(y) => as_items(y) matches Some(items) && steps_of(items, v, STEP_DEPTH as nat),
    }
}

/// Reads a steps field.
fn get_steps(m: &Vec<(Yaml, Yaml)>) -> (r: Option<Vec<Step>>)
    ensures
        r is Some <==> steps_field_ok(find(m@, "steps"@)),
        r matches Some(v) ==> steps_field_of(find(m@, "steps"@), v@),
{
    match lookup(m, "steps") {
        None => Some(Vec::new()),
        Some(Yaml::Null) => {
            let v: Vec<Step> = Vec::new();
            assert(steps_of(Seq::empty(), v@, STEP_DEPTH as nat));
            Some(v)
        },
        Some(Yaml::List(items)) => read_steps(items, STEP_DEPTH),
        Some(_) => None,
    }
}

/// Reads a parameters field.
fn get_params(m: &Vec<(Yaml, Yaml)>) -> (r: Option<Vec<(String, Parameter)>>)
    ensures
        r is Some <==> named_ok(find(m@, "parameters"@), |y| param_ok(y)),
        r matches Some(v) ==> named_of(find(m@, "parameters"@), v@, |y, p| param_of(y, p)),
{
    let f = lookup(m, "parameters");
    let empty: Vec<(Yaml, Yaml)> = Vec::new();
    assert(empty@ =~= Seq::<(Yaml, Yaml)>::empty());
    let e: &Vec<(Yaml, Yaml)> = match f {
        None => return Some(Vec::new()),
        Some(Yaml::Mapping(e)) => e,
        Some(Yaml::Null) => &empty,
        Some(_) => return None,
    };
    let ghost fy = find(m@, "parameters"@);
    assert(fy is Some && as_entries(fy->0) == Some(e@));
    let mut out: Vec<(String, Parameter)> = Vec::new();
    let mut i: usize = 0;
    while i < e.len()
        invariant
            0 <= i <= e.len(),
            fy == find(m@, "parameters"@),
            fy is Some && as_entries(fy->0) == Some(e@),
            out@.len() == i,
            unique_names(out@),
            forall|j: int|
                0 <= j < i ==> (#[trigger] e@[j]).0 == Yaml::Str(out@[j].0) && param_of(
                    e@[j].1,
                    out@[j].1,
                ),
        decreases e.len() - i,
    {
        let k = match &e[i].0 {
            Yaml::Str(k) => {
                if has_key(&out, k.as_str()) {
                    proof {
                        let j = choose|j: int| 0 <= j < out@.len() && out@[j].0@ == k@;
                        assert(e@[j].0 == Yaml::Str(out@[j].0));
                        assert(!distinct_keys(e@));
                    }
                    return None;
                }
                k.clone()
            },
            _ => {
                assert(!((e@[i as int]).0 is Str && param_ok(e@[i as int].1)));
                return None;
            },
        };
        match read_param(&e[i].1) {
            Some(p) => {
                let ghost before = out@;
                out.push((k, p));
                assert(out@[i as int].0@ == e@[i as int].0->Str_0@);
                assert(unique_names(out@)) by {
                    assert forall|a: int, b: int| 0 <= a < out@.len() && 0 <= b < out@.len() && a != b implies out@[a].0@ != out@[b].0@ by {
                        if a < i && b < i {
                            assert(out@[a] == before[a] && out@[b] == before[b]);
                        } else if a < i {
                            assert(out@[a] == before[a]);
                        } else {
                            assert(out@[b] == before[b]);
                        }
                    }
                }
            },
            None => {
                assert(!((e@[i as int]).0 is Str && param_ok(e@[i as int].1)));
                return None;
            },
        }
        i = i + 1;
    }
    assert(distinct_keys(e@)) by {
        assert forall|a: int, b: int|
            0 <= a < e@.len() && 0 <= b < e@.len() && a != b && e@[a].0 is Str && e@[b].0 is Str
                implies e@[a].0->Str_0@ != e@[b].0->Str_0@ by {
            assert(e@[a].0 == Yaml::Str(out@[a].0));
            assert(e@[b].0 == Yaml::Str(out@[b].0));
        }
    }
    Some(out)
}

/// A command: a mapping with a description, parameters and steps.
pub open spec fn command_ok(y: Yaml) -> bool {
    as_entries(y) matches Some(m) && opt_text(find(m, "description"@)) is Some && named_ok(
        find(m, "parameters"@),
        |p| param_ok(p),
    ) && steps_field_ok(find(m, "steps"@))
}

pub open spec fn command_of(y: Yaml, c: Command) -> bool {
    &&& command_ok(y)
    &&& as_entries(y) matches Some(m)
    &&& opt_text(find(m, "description"@)) == Some(c.description)
    &&& named_of(find(m, "parameters"@), c.parameters@, |p, x| param_of(p, x))
    &&& steps_field_of(find(m, "steps"@), c.steps@)
}

/// Reads a command.
pub fn read_command(y: &Yaml) -> (r: Option<Command>)
    ensures
        r is Some <==> command_ok(*y),
        r matches Some(c) ==> command_of(*y, c),
{
    let empty: Vec<(Yaml, Yaml)> = Vec::new();
    assert(empty@ =~= Seq::<(Yaml, Yaml)>::empty());
    let m: &Vec<(Yaml, Yaml)> = match y {
        Yaml::Mapping(m) => m,
        Yaml::Null => &empty,
        _ => return None,
    };
    assert(as_entries(*y) == Some(m@));
    let description = get_opt_text(m, "description");
    let parameters = get_params(m);
    let steps = get_steps(m);
    match (description, parameters, steps) {
        (Some(description), Some(parameters), Some(steps)) => Some(
            Command { description, parameters, steps },
        ),
        _ => None,
    }
}

/// The container images field: absent or null gives none; otherwise a
/// list of images.
pub open spec fn docker_field_ok(f: Option<Yaml>) -> bool {
    match f {
        None => true,
        Some(y) => y is Null || (as_items(y) matches Some(items) && forall|i: int|
            0 <= i < items.len() ==> docker_image_ok(#[trigger] items[i])),
    }
}

pub open spec fn docker_field_of(f: Option<Yaml>, v: Option<Vec<DockerImage>>) -> bool {
    match f {
        None => v is None,
        Some(y) => if y is Null {
            v is None
        } else {
            v matches Some(x) && (as_items(y) matches Some(items) && x@.len() == items.len()
                && forall|i: int| 0 <= i < items.len() ==> docker_image_of(#[trigger] items[i], x@[i]))
        },
    }
}

fn get_docker(m: &Vec<(Yaml, Yaml)>) -> (r: Option<Option<Vec<DockerImage>>>)
    ensures
        r is Some <==> docker_field_ok(find(m@, "docker"@)),
        r matches Some(v) ==> docker_field_of(find(m@, "docker"@), v),
{
    let items = match lookup(m, "docker") {
        None => return Some(None),
        Some(Yaml::Null) => return Some(None),
        Some(Yaml::List(items)) => items,
        Some(_) => return None,
    };
    let mut out: Vec<DockerImage> = Vec::new();
    let mut i: usize = 0;
    while i < items.len()
        invariant
            0 <= i <= items.len(),
            find(m@, "docker"@) == Some(Yaml::List(*items)),
            out@.len() == i,
            forall|j: int| 0 <= j < i ==> docker_image_of(#[trigger] items@[j], out@[j]),
        decreases items.len() - i,
    {
        match read_docker_image(&items[i]) {
            Some(img) => out.push(img),
            None => {
                assert(!docker_image_ok(items@[i as int]));
                assert(as_items(Yaml::List(*items)) == Some(items@));
                let ghost y = Yaml::List(*items);
                assert(as_items(y)->0 == items@);
                assert(!docker_image_ok(as_items(y)->0[i as int]));
                assert(!docker_field_ok(Some(y)));
                return None;
            },
        }
        i = i + 1;
    }
    Some(Some(out))
}

/// An optional field read with `ok` unless absent or null.
pub open spec fn opt_value_ok(f: Option<Yaml>, ok: spec_fn(Yaml) -> bool) -> bool {
    match f {
        None => true,
        Some(y) => y is Null || ok(y),
    }
}

pub open spec fn opt_value_of<T>(f: Option<Yaml>, v: Option<T>, of: spec_fn(Yaml, T) -> bool) -> bool {
    match f {
        None => v is None,
        Some(y) => if y is Null {
            v is None
        } else {
            v matches Some(x) && of(y, x)
        },
    }
}

/// Execution settings, read from the same mapping as the job or executor.
pub open spec fn config_ok(m: Seq<(Yaml, Yaml)>) -> bool {
    &&& docker_field_ok(find(m, "docker"@))
    &&& opt_value_ok(find(m, "machine"@), |y| machine_ok(y))
    &&& opt_record_ok(find(m, "macos"@), |e| macos_ok(e))
    &&& opt_text(find(m, "resource_class"@)) is Some
    &&& opt_text(find(m, "working_directory"@)) is Some
    &&& text_map_field(find(m, "environment"@)) is Some
    &&& opt_text(find(m, "shell"@)) is Some
}

pub open spec fn config_of(m: Seq<(Yaml, Yaml)>, c: ExecutorConfig) -> bool {
    &&& docker_field_of(find(m, "docker"@), c.docker)
    &&& opt_value_of(find(m, "machine"@), c.machine, |y, x| machine_of(y, x))
    &&& opt_record_of(find(m, "macos"@), c.macos, |e, x| macos_of(e, x))
    &&& opt_text(find(m, "resource_class"@)) == Some(c.resource_class)
    &&& opt_text(find(m, "working_directory"@)) == Some(c.working_directory)
    &&& text_map_field(find(m, "environment"@)) == Some(c.environment@)
    &&& opt_text(find(m, "shell"@)) == Some(c.shell)
}

/// Reads execution settings.
pub fn read_config(m: &Vec<(Yaml, Yaml)>) -> (r: Option<ExecutorConfig>)
    ensures
        r is Some <==> config_ok(m@),
        r matches Some(c) ==> config_of(m@, c),
{
    let docker = get_docker(m)?;
    let machine = match lookup(m, "machine") {
        None => None,
        Some(Yaml::Null) => None,
        Some(y) => Some(read_machine(y)?),
    };
    let macos = match lookup(m, "macos") {
        None => None,
        Some(Yaml::Null) => None,
        Some(Yaml::Mapping(e)) => Some(read_macos(e)?),
        Some(_) => return None,
    };
    let resource_class = get_opt_text(m, "resource_class")?;
    let working_directory = get_opt_text(m, "working_directory")?;
    let environment = get_text_map(m, "environment")?;
    let shell = get_opt_text(m, "shell")?;
    Some(
        ExecutorConfig {
            docker,
            machine,
            macos,
            resource_class,
            working_directory,
            environment,
            shell,
        },
    )
}

/// The value of a decimal text of ASCII digits.
pub open spec fn decimal(t: Seq<char>) -> nat
    decreases t.len(),
{
    if t.len() == 0 {
        0
    } else {
        decimal(t.drop_last()) * 10 + (t.last() as nat - '0' as nat) as nat
    }
}

/// Whether the text is a non-empty run of ASCII digits.
pub open spec fn all_digits(t: Seq<char>) -> bool {
    t.len() > 0 && forall|i: int| 0 <= i < t.len() ==> '0' <= #[trigger] t[i] <= '9'
}

/// An optional count that must fit in 32 bits.
pub open spec fn opt_count(f: Option<Yaml>) -> Option<Option<u32>> {
    match f {
        None => Some(None),
        Some(Yaml::Null) => Some(None),
        Some(Yaml::Number(t)) => if all_digits(t@) && decimal(t@) <= u32::MAX {
            Some(Some(decimal(t@) as u32))
        } else {
            None
        },
        _ => None,
    }
}

/// Reads a decimal count that fits in 32 bits.
fn parse_count(t: &str) -> (r: Option<u32>)
    ensures
        r == (if all_digits(t@) && decimal(t@) <= u32::MAX {
            Some(decimal(t@) as u32)
        } else {
            None
        }),
{
    let cs = crate::text::chars_of(t);
    if cs.len() == 0 {
        return None;
    }
    let limit: u64 = 0x1_0000_0000;
    let mut acc: u64 = 0;
    let mut i: usize = 0;
    while i < cs.len()
        invariant
            cs@ == t@,
            0 <= i <= cs.len(),
            forall|j: int| 0 <= j < i ==> '0' <= #[trigger] t@[j] <= '9',
            acc == if decimal(t@.take(i as int)) < limit as nat {
                decimal(t@.take(i as int))
            } else {
                limit as nat
            },
            limit == 0x1_0000_0000,
        decreases cs.len() - i,
    {
        let c = cs[i];
        if !('0' <= c && c <= '9') {
            return None;
        }
        assert(t@.take(i + 1).drop_last() =~= t@.take(i as int));
        let digit = (c as u32 - '0' as u32) as u64;
        let ghost prev = decimal(t@.take(i as int));
        assert(decimal(t@.take(i + 1)) == prev * 10 + digit);
        let next = acc * 10 + digit;
        acc = if next < limit { next } else { limit };
        proof {
            if prev >= limit as nat {
                assert(prev * 10 + digit >= limit as nat) by (nonlinear_arith)
                    requires prev >= limit as nat;
            }
        }
        i = i + 1;
    }
    assert(t@.take(cs.len() as int) =~= t@);
    if acc < limit {
        Some(acc as u32)
    } else {
        None
    }
}

/// A job: a mapping with its own fields and the execution settings.
pub open spec fn job_ok(y: Yaml) -> bool {
    as_entries(y) matches Some(m) && opt_text(find(m, "description"@)) is Some && opt_value_ok(
        find(m, "executor"@),
        |e| executor_ref_ok(e),
    ) && config_ok(m) && named_ok(find(m, "parameters"@), |p| param_ok(p)) && steps_field_ok(
        find(m, "steps"@),
    ) && opt_count(find(m, "parallelism"@)) is Some && opt_bool(find(m, "circleci_ip_ranges"@))
        is Some
}

pub open spec fn job_of(y: Yaml, j: Job) -> bool {
    &&& job_ok(y)
    &&& as_entries(y) matches Some(m) && opt_text(find(m, "description"@)) == Some(j.description)
        && opt_value_of(find(m, "executor"@), j.executor, |e, x| executor_ref_of(e, x))
        && config_of(m, j.config) && named_of(
        find(m, "parameters"@),
        j.parameters@,
        |p, x| param_of(p, x),
    ) && steps_field_of(find(m, "steps"@), j.steps@) && opt_count(find(m, "parallelism"@))
        == Some(j.parallelism) && opt_bool(find(m, "circleci_ip_ranges"@)) == Some(
        j.circleci_ip_ranges,
    )
}

/// Reads a job.
pub fn read_job(y: &Yaml) -> (r: Option<Job>)
    ensures
        r is Some <==> job_ok(*y),
        r matches Some(j) ==> job_of(*y, j),
{
    let empty: Vec<(Yaml, Yaml)> = Vec::new();
    assert(empty@ =~= Seq::<(Yaml, Yaml)>::empty());
    let m: &Vec<(Yaml, Yaml)> = match y {
        Yaml::Mapping(m) => m,
        Yaml::Null => &empty,
        _ => return None,
    };
    assert(as_entries(*y) == Some(m@));
    let description = get_opt_text(m, "description")?;
    let executor = match lookup(m, "executor") {
        None => None,
        Some(Yaml::Null) => None,
        Some(e) => Some(read_executor_ref(e)?),
    };
    let config = read_config(m)?;
    let parameters = get_params(m)?;
    let steps = get_steps(m)?;
    let parallelism = match lookup(m, "parallelism") {
        None => None,
        Some(Yaml::Null) => None,
        Some(Yaml::Number(t)) => Some(parse_count(t.as_str())?),
        Some(_) => return None,
    };
    let circleci_ip_ranges = get_opt_bool(m, "circleci_ip_ranges")?;
    Some(
        Job {
            description,
            executor,
            config,
            parameters,
            steps,
            parallelism,
            circleci_ip_ranges,
        },
    )
}

/// An executor: a mapping with a description, parameters and the
/// execution settings.
pub open spec fn executor_ok(y: Yaml) -> bool {
    as_entries(y) matches Some(m) && opt_text(find(m, "description"@)) is Some && config_ok(m)
        && named_ok(find(m, "parameters"@), |p| param_ok(p))
}

pub open spec fn executor_of(y: Yaml, x: Executor) -> bool {
    &&& executor_ok(y)
    &&& as_entries(y) matches Some(m) && opt_text(find(m, "description"@)) == Some(x.description)
        && config_of(m, x.config) && named_of(
        find(m, "parameters"@),
        x.parameters@,
        |p, v| param_of(p, v),
    )
}

/// Reads an executor.
pub fn read_executor(y: &Yaml) -> (r: Option<Executor>)
    ensures
        r is Some <==> executor_ok(*y),
        r matches Some(x) ==> executor_of(*y, x),
{
    let empty: Vec<(Yaml, Yaml)> = Vec::new();
    assert(empty@ =~= Seq::<(Yaml, Yaml)>::empty());
    let m: &Vec<(Yaml, Yaml)> = match y {
        Yaml::Mapping(m) => m,
        Yaml::Null => &empty,
        _ => return None,
    };
    assert(as_entries(*y) == Some(m@));
    let description = get_opt_text(m, "description")?;
    let config = read_config(m)?;
    let parameters = get_params(m)?;
    Some(Executor { description, config, parameters })
}


/// Reads the named commands of a definition.
fn get_commands(m: &Vec<(Yaml, Yaml)>) -> (r: Option<Vec<(String, Command)>>)
    ensures
        r is Some <==> named_ok(find(m@, "commands"@), |y| command_ok(y)),
        r matches Some(v) ==> named_of(find(m@, "commands"@), v@, |y, x| command_of(y, x)),
{
    let f = lookup(m, "commands");
    let empty: Vec<(Yaml, Yaml)> = Vec::new();
    assert(empty@ =~= Seq::<(Yaml, Yaml)>::empty());
    let e: &Vec<(Yaml, Yaml)> = match f {
        None => return Some(Vec::new()),
        Some(Yaml::Mapping(e)) => e,
        Some(Yaml::Null) => &empty,
        Some(_) => return None,
    };
    let ghost fy = find(m@, "commands"@);
    assert(fy is Some && as_entries(fy->0) == Some(e@));
    let mut out: Vec<(String, Command)> = Vec::new();
    let mut i: usize = 0;
    while i < e.len()
        invariant
            0 <= i <= e.len(),
            fy == find(m@, "commands"@),
            fy is Some && as_entries(fy->0) == Some(e@),
            out@.len() == i,
            unique_names(out@),
            forall|j: int|
                0 <= j < i ==> (#[trigger] e@[j]).0 == Yaml::Str(out@[j].0) && command_of(
                    e@[j].1,
                    out@[j].1,
                ),
        decreases e.len() - i,
    {
        let k = match &e[i].0 {
            Yaml::Str(k) => {
                if has_key(&out, k.as_str()) {
                    proof {
                        let j = choose|j: int| 0 <= j < out@.len() && out@[j].0@ == k@;
                        assert(e@[j].0 == Yaml::Str(out@[j].0));
                        assert(!distinct_keys(e@));
                    }
                    return None;
                }
                k.clone()
            },
            _ => {
                assert(!((e@[i as int]).0 is Str && command_ok(e@[i as int].1)));
                return None;
            },
        };
        match read_command(&e[i].1) {
            Some(x) => {
                let ghost before = out@;
                out.push((k, x));
                assert(out@[i as int].0@ == e@[i as int].0->Str_0@);
                assert(unique_names(out@)) by {
                    assert forall|a: int, b: int| 0 <= a < out@.len() && 0 <= b < out@.len() && a != b implies out@[a].0@ != out@[b].0@ by {
                        if a < i && b < i {
                            assert(out@[a] == before[a] && out@[b] == before[b]);
                        } else if a < i {
                            assert(out@[a] == before[a]);
                        } else {
                            assert(out@[b] == before[b]);
                        }
                    }
                }
            },
            None => {
                assert(!((e@[i as int]).0 is Str && command_ok(e@[i as int].1)));
                return None;
            },
        }
        i = i + 1;
    }
    assert(distinct_keys(e@)) by {
        assert forall|a: int, b: int|
            0 <= a < e@.len() && 0 <= b < e@.len() && a != b && e@[a].0 is Str && e@[b].0 is Str
                implies e@[a].0->Str_0@ != e@[b].0->Str_0@ by {
            assert(e@[a].0 == Yaml::Str(out@[a].0));
            assert(e@[b].0 == Yaml::Str(out@[b].0));
        }
    }
    Some(out)
}


/// Reads the named jobs of a definition.
fn get_jobs(m: &Vec<(Yaml, Yaml)>) -> (r: Option<Vec<(String, Job)>>)
    ensures
        r is Some <==> named_ok(find(m@, "jobs"@), |y| job_ok(y)),
        r matches Some(v) ==> named_of(find(m@, "jobs"@), v@, |y, x| job_of(y, x)),
{
    let f = lookup(m, "jobs");
    let empty: Vec<(Yaml, Yaml)> = Vec::new();
    assert(empty@ =~= Seq::<(Yaml, Yaml)>::empty());
    let e: &Vec<(Yaml, Yaml)> = match f {
        None => return Some(Vec::new()),
        Some(Yaml::Mapping(e)) => e,
        Some(Yaml::Null) => &empty,
        Some(_) => return None,
    };
    let ghost fy = find(m@, "jobs"@);
    assert(fy is Some && as_entries(fy->0) == Some(e@));
    let mut out: Vec<(String, Job)> = Vec::new();
    let mut i: usize = 0;
    while i < e.len()
        invariant
            0 <= i <= e.len(),
            fy == find(m@, "jobs"@),
            fy is Some && as_entries(fy->0) == Some(e@),
            out@.len() == i,
            unique_names(out@),
            forall|j: int|
                0 <= j < i ==> (#[trigger] e@[j]).0 == Yaml::Str(out@[j].0) && job_of(
                    e@[j].1,
                    out@[j].1,
                ),
        decreases e.len() - i,
    {
        let k = match &e[i].0 {
            Yaml::Str(k) => {
                if has_key(&out, k.as_str()) {
                    proof {
                        let j = choose|j: int| 0 <= j < out@.len() && out@[j].0@ == k@;
                        assert(e@[j].0 == Yaml::Str(out@[j].0));
                        assert(!distinct_keys(e@));
                    }
                    return None;
                }
                k.clone()
            },
            _ => {
                assert(!((e@[i as int]).0 is Str && job_ok(e@[i as int].1)));
                return None;
            },
        };
        match read_job(&e[i].1) {
            Some(x) => {
                let ghost before = out@;
                out.push((k, x));
                assert(out@[i as int].0@ == e@[i as int].0->Str_0@);
                assert(unique_names(out@)) by {
                    assert forall|a: int, b: int| 0 <= a < out@.len() && 0 <= b < out@.len() && a != b implies out@[a].0@ != out@[b].0@ by {
                        if a < i && b < i {
                            assert(out@[a] == before[a] && out@[b] == before[b]);
                        } else if a < i {
                            assert(out@[a] == before[a]);
                        } else {
                            assert(out@[b] == before[b]);
                        }
                    }
                }
            },
            None => {
                assert(!((e@[i as int]).0 is Str && job_ok(e@[i as int].1)));
                return None;
            },
        }
        i = i + 1;
    }
    assert(distinct_keys(e@)) by {
        assert forall|a: int, b: int|
            0 <= a < e@.len() && 0 <= b < e@.len() && a != b && e@[a].0 is Str && e@[b].0 is Str
                implies e@[a].0->Str_0@ != e@[b].0->Str_0@ by {
            assert(e@[a].0 == Yaml::Str(out@[a].0));
            assert(e@[b].0 == Yaml::Str(out@[b].0));
        }
    }
    Some(out)
}


/// Reads the named executors of a definition.
fn get_executors(m: &Vec<(Yaml, Yaml)>) -> (r: Option<Vec<(String, Executor)>>)
    ensures
        r is Some <==> named_ok(find(m@, "executors"@), |y| executor_ok(y)),
        r matches Some(v) ==> named_of(find(m@, "executors"@), v@, |y, x| executor_of(y, x)),
{
    let f = lookup(m, "executors");
    let empty: Vec<(Yaml, Yaml)> = Vec::new();
    assert(empty@ =~= Seq::<(Yaml, Yaml)>::empty());
    let e: &Vec<(Yaml, Yaml)> = match f {
        None => return Some(Vec::new()),
        Some(Yaml::Mapping(e)) => e,
        Some(Yaml::Null) => &empty,
        Some(_) => return None,
    };
    let ghost fy = find(m@, "executors"@);
    assert(fy is Some && as_entries(fy->0) == Some(e@));
    let mut out: Vec<(String, Executor)> = Vec::new();
    let mut i: usize = 0;
    while i < e.len()
        invariant
            0 <= i <= e.len(),
            fy == find(m@, "executors"@),
            fy is Some && as_entries(fy->0) == Some(e@),
            out@.len() == i,
            unique_names(out@),
            forall|j: int|
                0 <= j < i ==> (#[trigger] e@[j]).0 == Yaml::Str(out@[j].0) && executor_of(
                    e@[j].1,
                    out@[j].1,
                ),
        decreases e.len() - i,
    {
        let k = match &e[i].0 {
            Yaml::Str(k) => {
                if has_key(&out, k.as_str()) {
                    proof {
                        let j = choose|j: int| 0 <= j < out@.len() && out@[j].0@ == k@;
                        assert(e@[j].0 == Yaml::Str(out@[j].0));
                        assert(!distinct_keys(e@));
                    }
                    return None;
                }
                k.clone()
            },
            _ => {
                assert(!((e@[i as int]).0 is Str && executor_ok(e@[i as int].1)));
                return None;
            },
        };
        match read_executor(&e[i].1) {
            Some(x) => {
                let ghost before = out@;
                out.push((k, x));
                assert(out@[i as int].0@ == e@[i as int].0->Str_0@);
                assert(unique_names(out@)) by {
                    assert forall|a: int, b: int| 0 <= a < out@.len() && 0 <= b < out@.len() && a != b implies out@[a].0@ != out@[b].0@ by {
                        if a < i && b < i {
                            assert(out@[a] == before[a] && out@[b] == before[b]);
                        } else if a < i {
                            assert(out@[a] == before[a]);
                        } else {
                            assert(out@[b] == before[b]);
                        }
                    }
                }
            },
            None => {
                assert(!((e@[i as int]).0 is Str && executor_ok(e@[i as int].1)));
                return None;
            },
        }
        i = i + 1;
    }
    assert(distinct_keys(e@)) by {
        assert forall|a: int, b: int|
            0 <= a < e@.len() && 0 <= b < e@.len() && a != b && e@[a].0 is Str && e@[b].0 is Str
                implies e@[a].0->Str_0@ != e@[b].0->Str_0@ by {
            assert(e@[a].0 == Yaml::Str(out@[a].0));
            assert(e@[b].0 == Yaml::Str(out@[b].0));
        }
    }
    Some(out)
}


/// The version text of a definition: empty when absent.
pub open spec fn version_text(f: Option<Yaml>) -> Seq<char> {
    match opt_text(f) {
        Some(Some(s)) => s@,
        _ => Seq::empty(),
    }
}

/// A definition: a mapping (or an empty document) whose fields all have
/// their shape. Unknown keys are ignored.
pub open spec fn definition_ok(y: Yaml) -> bool {
    as_entries(y) matches Some(m) && opt_text(find(m, "version"@)) is Some && opt_text(
        find(m, "description"@),
    ) is Some && opt_record_ok(find(m, "display"@), |e| display_ok(e)) && text_map_field(
        find(m, "orbs"@),
    ) is Some && named_ok(find(m, "commands"@), |c| command_ok(c)) && named_ok(
        find(m, "jobs"@),
        |j| job_ok(j),
    ) && named_ok(find(m, "executors"@), |x| executor_ok(x))
}

/// Whether `d` is the definition read from `y`: every entity is read from
/// the entry of its name, in document order.
pub open spec fn definition_of(y: Yaml, d: OrbDefinition) -> bool {
    &&& as_entries(y) matches Some(m)
    &&& d.version@ == version_text(find(m, "version"@))
    &&& opt_text(find(m, "description"@)) == Some(d.description)
    &&& opt_record_of(find(m, "display"@), d.display, |e, x| display_of(e, x))
    &&& text_map_field(find(m, "orbs"@)) == Some(d.orbs@)
    &&& named_of(find(m, "commands"@), d.commands@, |c, x| command_of(c, x))
    &&& named_of(find(m, "jobs"@), d.jobs@, |j, x| job_of(j, x))
    &&& named_of(find(m, "executors"@), d.executors@, |e, x| executor_of(e, x))
}

/// Reads a definition from a document tree.
pub fn read_definition(y: &Yaml) -> (r: Option<OrbDefinition>)
    ensures
        r is Some <==> definition_ok(*y),
        r matches Some(d) ==> definition_of(*y, d),
        r matches Some(d) ==> unique_names(d.orbs@) && unique_names(d.commands@) && unique_names(
            d.jobs@,
        ) && unique_names(d.executors@),
{
    let empty: Vec<(Yaml, Yaml)> = Vec::new();
    assert(empty@ =~= Seq::<(Yaml, Yaml)>::empty());
    let m: &Vec<(Yaml, Yaml)> = match y {
        Yaml::Mapping(m) => m,
        Yaml::Null => &empty,
        _ => return None,
    };
    assert(as_entries(*y) == Some(m@));
    let version = match get_opt_text(m, "version")? {
        Some(v) => v,
        None => String::new(),
    };
    let description = get_opt_text(m, "description")?;
    let display = match lookup(m, "display") {
        None => None,
        Some(Yaml::Null) => None,
        Some(Yaml::Mapping(e)) => Some(read_display(e)?),
        Some(_) => return None,
    };
    let orbs = get_text_map(m, "orbs")?;
    let commands = get_commands(m)?;
    let jobs = get_jobs(m)?;
    let executors = get_executors(m)?;
    let d = OrbDefinition { version, description, display, orbs, commands, jobs, executors };
    proof {
        lemma_text_map_unique(find(m@, "orbs"@), d.orbs@);
        lemma_named_unique(find(m@, "commands"@), d.commands@, |c| command_ok(c), |c, x| command_of(c, x));
        lemma_named_unique(find(m@, "jobs"@), d.jobs@, |j| job_ok(j), |j, x| job_of(j, x));
        lemma_named_unique(find(m@, "executors"@), d.executors@, |e| executor_ok(e), |e, x| executor_of(e, x));
    }
    Some(d)
}

/// Reads a definition from a document tree, or says why its shape is wrong.
pub fn definition_from_yaml(y: &Yaml, source_path: &str) -> (r: Result<OrbDefinition, ParseError>)
    ensures
        r is Ok <==> definition_ok(*y),
        r matches Ok(d) ==> definition_of(*y, d),
        r matches Ok(d) ==> unique_names(d.orbs@) && unique_names(d.commands@) && unique_names(
            d.jobs@,
        ) && unique_names(d.executors@),
        r matches Err(e) ==> (e matches ParseError::YamlParse { path, .. } && path@ == source_path@),
{
    match read_definition(y) {
        Some(d) => Ok(d),
        None => Err(
            ParseError::YamlParse {
                path: owned(source_path),
                message: owned("document does not have the shape of a definition"),
            },
        ),
    }
}

} // verus!
