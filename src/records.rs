//! Decoding of the small records: step settings, images, credentials and
//! other fixed-shape mappings. A record is read from a mapping's entries;
//! unknown keys are ignored.
//!
//! For each shape `x`, `x_ok` says whether a value has it and `x_of` which
//! value is read from it; the reader `read_x` returns `Some` exactly when
//! `x_ok` holds, and then a value that `x_of` describes.

use vstd::prelude::*;
use crate::fields::{
    as_entries, get_opt_bool, get_opt_text, get_opt_text_list, get_req_text, get_text_list,
    get_text_map, opt_bool, opt_text, opt_text_list, opt_view, req_text, text_list_field,
    text_map_field,
};
use crate::schema::{
    AddSshKeysStep, AttachWorkspaceStep, AwsAuth, CacheStep, CheckoutStep, DisplayInfo, DockerAuth,
    DockerImage, DockerImageFull, MacOsConfig, MachineConfig, RunStep, SaveCacheStep,
    SetupRemoteDockerStep, StoreArtifactsStep, StoreTestResultsStep, WorkspaceStep,
};
use crate::yaml::{find, Yaml};

verus! {

pub open spec fn checkout_ok(m: Seq<(Yaml, Yaml)>) -> bool {
    opt_text(find(m, "path"@)) is Some
}

pub open spec fn checkout_of(m: Seq<(Yaml, Yaml)>, v: CheckoutStep) -> bool {
    opt_text(find(m, "path"@)) == Some(v.path)
}

pub fn read_checkout(m: &Vec<(Yaml, Yaml)>) -> (r: Option<CheckoutStep>)
    ensures
        r is Some <==> checkout_ok(m@),
        r matches Some(v) ==> checkout_of(m@, v),
{
    let path = get_opt_text(m, "path")?;
    Some(CheckoutStep { path })
}

pub open spec fn cache_ok(m: Seq<(Yaml, Yaml)>) -> bool {
    &&& opt_text(find(m, "key"@)) is Some
    &&& opt_text_list(find(m, "keys"@)) is Some
    &&& opt_text(find(m, "name"@)) is Some
}

pub open spec fn cache_of(m: Seq<(Yaml, Yaml)>, v: CacheStep) -> bool {
    &&& opt_text(find(m, "key"@)) == Some(v.key)
    &&& opt_text_list(find(m, "keys"@)) == Some(opt_view(v.keys))
    &&& opt_text(find(m, "name"@)) == Some(v.name)
}

pub fn read_cache(m: &Vec<(Yaml, Yaml)>) -> (r: Option<CacheStep>)
    ensures
        r is Some <==> cache_ok(m@),
        r matches Some(v) ==> cache_of(m@, v),
{
    let key = get_opt_text(m, "key");
    let keys = get_opt_text_list(m, "keys");
    let name = get_opt_text(m, "name");
    match (key, keys, name) {
        (Some(key), Some(keys), Some(name)) => Some(CacheStep { key, keys, name }),
        _ => None,
    }
}

pub open spec fn save_cache_ok(m: Seq<(Yaml, Yaml)>) -> bool {
    &&& req_text(find(m, "key"@)) is Some
    &&& text_list_field(find(m, "paths"@)) is Some
    &&& opt_text(find(m, "name"@)) is Some
    &&& opt_text(find(m, "when"@)) is Some
}

pub open spec fn save_cache_of(m: Seq<(Yaml, Yaml)>, v: SaveCacheStep) -> bool {
    &&& req_text(find(m, "key"@)) == Some(v.key)
    &&& text_list_field(find(m, "paths"@)) == Some(v.paths@)
    &&& opt_text(find(m, "name"@)) == Some(v.name)
    &&& opt_text(find(m, "when"@)) == Some(v.when)
}

pub fn read_save_cache(m: &Vec<(Yaml, Yaml)>) -> (r: Option<SaveCacheStep>)
    ensures
        r is Some <==> save_cache_ok(m@),
        r matches Some(v) ==> save_cache_of(m@, v),
{
    let key = get_req_text(m, "key");
    let paths = get_text_list(m, "paths");
    let name = get_opt_text(m, "name");
    let when = get_opt_text(m, "when");
    match (key, paths, name, when) {
        (Some(key), Some(paths), Some(name), Some(when)) => Some(
            SaveCacheStep { key, paths, name, when },
        ),
        _ => None,
    }
}

pub open spec fn workspace_ok(m: Seq<(Yaml, Yaml)>) -> bool {
    &&& req_text(find(m, "root"@)) is Some
    &&& text_list_field(find(m, "paths"@)) is Some
}

pub open spec fn workspace_of(m: Seq<(Yaml, Yaml)>, v: WorkspaceStep) -> bool {
    &&& req_text(find(m, "root"@)) == Some(v.root)
    &&& text_list_field(find(m, "paths"@)) == Some(v.paths@)
}

pub fn read_workspace(m: &Vec<(Yaml, Yaml)>) -> (r: Option<WorkspaceStep>)
    ensures
        r is Some <==> workspace_ok(m@),
        r matches Some(v) ==> workspace_of(m@, v),
{
    let root = get_req_text(m, "root");
    let paths = get_text_list(m, "paths");
    match (root, paths) {
        (Some(root), Some(paths)) => Some(WorkspaceStep { root, paths }),
        _ => None,
    }
}

pub open spec fn attach_ok(m: Seq<(Yaml, Yaml)>) -> bool {
    req_text(find(m, "at"@)) is Some
}

pub open spec fn attach_of(m: Seq<(Yaml, Yaml)>, v: AttachWorkspaceStep) -> bool {
    req_text(find(m, "at"@)) == Some(v.at)
}

pub fn read_attach(m: &Vec<(Yaml, Yaml)>) -> (r: Option<AttachWorkspaceStep>)
    ensures
        r is Some <==> attach_ok(m@),
        r matches Some(v) ==> attach_of(m@, v),
{
    let at = get_req_text(m, "at")?;
    Some(AttachWorkspaceStep { at })
}

pub open spec fn test_results_ok(m: Seq<(Yaml, Yaml)>) -> bool {
    req_text(find(m, "path"@)) is Some
}

pub open spec fn test_results_of(m: Seq<(Yaml, Yaml)>, v: StoreTestResultsStep) -> bool {
    req_text(find(m, "path"@)) == Some(v.path)
}

pub fn read_test_results(m: &Vec<(Yaml, Yaml)>) -> (r: Option<StoreTestResultsStep>)
    ensures
        r is Some <==> test_results_ok(m@),
        r matches Some(v) ==> test_results_of(m@, v),
{
    let path = get_req_text(m, "path")?;
    Some(StoreTestResultsStep { path })
}

pub open spec fn artifacts_ok(m: Seq<(Yaml, Yaml)>) -> bool {
    &&& req_text(find(m, "path"@)) is Some
    &&& opt_text(find(m, "destination"@)) is Some
}

pub open spec fn artifacts_of(m: Seq<(Yaml, Yaml)>, v: StoreArtifactsStep) -> bool {
    &&& req_text(find(m, "path"@)) == Some(v.path)
    &&& opt_text(find(m, "destination"@)) == Some(v.destination)
}

pub fn read_artifacts(m: &Vec<(Yaml, Yaml)>) -> (r: Option<StoreArtifactsStep>)
    ensures
        r is Some <==> artifacts_ok(m@),
        r matches Some(v) ==> artifacts_of(m@, v),
{
    let path = get_req_text(m, "path");
    let destination = get_opt_text(m, "destination");
    match (path, destination) {
        (Some(path), Some(destination)) => Some(StoreArtifactsStep { path, destination }),
        _ => None,
    }
}

pub open spec fn ssh_keys_ok(m: Seq<(Yaml, Yaml)>) -> bool {
    text_list_field(find(m, "fingerprints"@)) is Some
}

pub open spec fn ssh_keys_of(m: Seq<(Yaml, Yaml)>, v: AddSshKeysStep) -> bool {
    text_list_field(find(m, "fingerprints"@)) == Some(v.fingerprints@)
}

pub fn read_ssh_keys(m: &Vec<(Yaml, Yaml)>) -> (r: Option<AddSshKeysStep>)
    ensures
        r is Some <==> ssh_keys_ok(m@),
        r matches Some(v) ==> ssh_keys_of(m@, v),
{
    let fingerprints = get_text_list(m, "fingerprints")?;
    Some(AddSshKeysStep { fingerprints })
}

pub open spec fn remote_docker_ok(m: Seq<(Yaml, Yaml)>) -> bool {
    &&& opt_text(find(m, "version"@)) is Some
    &&& opt_bool(find(m, "docker_layer_caching"@)) is Some
}

pub open spec fn remote_docker_of(m: Seq<(Yaml, Yaml)>, v: SetupRemoteDockerStep) -> bool {
    &&& opt_text(find(m, "version"@)) == Some(v.version)
    &&& opt_bool(find(m, "docker_layer_caching"@)) == Some(v.docker_layer_caching)
}

pub fn read_remote_docker(m: &Vec<(Yaml, Yaml)>) -> (r: Option<SetupRemoteDockerStep>)
    ensures
        r is Some <==> remote_docker_ok(m@),
        r matches Some(v) ==> remote_docker_of(m@, v),
{
    let version = get_opt_text(m, "version");
    let docker_layer_caching = get_opt_bool(m, "docker_layer_caching");
    match (version, docker_layer_caching) {
        (Some(version), Some(docker_layer_caching)) => Some(
            SetupRemoteDockerStep { version, docker_layer_caching },
        ),
        _ => None,
    }
}

pub open spec fn run_full_ok(m: Seq<(Yaml, Yaml)>) -> bool {
    &&& req_text(find(m, "command"@)) is Some
    &&& opt_text(find(m, "name"@)) is Some
    &&& opt_text(find(m, "working_directory"@)) is Some
    &&& text_map_field(find(m, "environment"@)) is Some
    &&& opt_text(find(m, "shell"@)) is Some
    &&& opt_bool(find(m, "background"@)) is Some
    &&& opt_text(find(m, "no_output_timeout"@)) is Some
    &&& opt_text(find(m, "when"@)) is Some
}

/// A run step: a bare string is the command alone; a mapping with a
/// `command` is the full form; nothing else is a run step.
pub open spec fn run_ok(y: Yaml) -> bool {
    y is Str || (!(y is Str) && (as_entries(y) matches Some(m) && run_full_ok(m)))
}

pub open spec fn run_of(y: Yaml, v: RunStep) -> bool {
    match v {
        RunStep::Simple(s) => y == Yaml::Str(s),
        RunStep::Full {
            command,
            name,
            working_directory,
            environment,
            shell,
            background,
            no_output_timeout,
            when,
        } => {
            &&& !(y is Str)
            &&& as_entries(y) matches Some(m)
            &&& req_text(find(m, "command"@)) == Some(command)
            &&& opt_text(find(m, "name"@)) == Some(name)
            &&& opt_text(find(m, "working_directory"@)) == Some(working_directory)
            &&& text_map_field(find(m, "environment"@)) == Some(environment@)
            &&& opt_text(find(m, "shell"@)) == Some(shell)
            &&& opt_bool(find(m, "background"@)) == Some(background)
            &&& opt_text(find(m, "no_output_timeout"@)) == Some(no_output_timeout)
            &&& opt_text(find(m, "when"@)) == Some(when)
        },
    }
}

fn read_run_full(m: &Vec<(Yaml, Yaml)>) -> (r: Option<RunStep>)
    ensures
        r is Some <==> run_full_ok(m@),
        r matches Some(v) ==> run_of(Yaml::Mapping(*m), v),
{
    let command = get_req_text(m, "command");
    let name = get_opt_text(m, "name");
    let working_directory = get_opt_text(m, "working_directory");
    let environment = get_text_map(m, "environment");
    let shell = get_opt_text(m, "shell");
    let background = get_opt_bool(m, "background");
    let no_output_timeout = get_opt_text(m, "no_output_timeout");
    let when = get_opt_text(m, "when");
    match (command, name, working_directory, environment, shell, background, no_output_timeout, when) {
        (
            Some(command),
            Some(name),
            Some(working_directory),
            Some(environment),
            Some(shell),
            Some(background),
            Some(no_output_timeout),
            Some(when),
        ) => Some(
            RunStep::Full {
                command,
                name,
                working_directory,
                environment,
                shell,
                background,
                no_output_timeout,
                when,
            },
        ),
        _ => None,
    }
}

/// Reads a run step.
pub fn read_run(y: &Yaml) -> (r: Option<RunStep>)
    ensures
        r is Some <==> run_ok(*y),
        r matches Some(v) ==> run_of(*y, v),
{
    match y {
        Yaml::Str(s) => Some(RunStep::Simple(s.clone())),
        Yaml::Mapping(m) => read_run_full(m),
        Yaml::Null => {
            let e: Vec<(Yaml, Yaml)> = Vec::new();
            assert(e@ =~= Seq::<(Yaml, Yaml)>::empty());
            let r = read_run_full(&e);
            assert(r is None);
            None
        },
        _ => None,
    }
}

pub open spec fn docker_auth_ok(m: Seq<(Yaml, Yaml)>) -> bool {
    &&& req_text(find(m, "username"@)) is Some
    &&& req_text(find(m, "password"@)) is Some
}

pub open spec fn docker_auth_of(m: Seq<(Yaml, Yaml)>, v: DockerAuth) -> bool {
    &&& req_text(find(m, "username"@)) == Some(v.username)
    &&& req_text(find(m, "password"@)) == Some(v.password)
}

pub open spec fn aws_auth_ok(m: Seq<(Yaml, Yaml)>) -> bool {
    &&& opt_text(find(m, "aws_access_key_id"@)) is Some
    &&& opt_text(find(m, "aws_secret_access_key"@)) is Some
    &&& opt_text(find(m, "oidc_role_arn"@)) is Some
}

pub open spec fn aws_auth_of(m: Seq<(Yaml, Yaml)>, v: AwsAuth) -> bool {
    &&& opt_text(find(m, "aws_access_key_id"@)) == Some(v.aws_access_key_id)
    &&& opt_text(find(m, "aws_secret_access_key"@)) == Some(v.aws_secret_access_key)
    &&& opt_text(find(m, "oidc_role_arn"@)) == Some(v.oidc_role_arn)
}

/// An optional record field: absent or null gives nothing; otherwise it
/// must be a mapping that satisfies `ok`.
pub open spec fn opt_record_ok(f: Option<Yaml>, ok: spec_fn(Seq<(Yaml, Yaml)>) -> bool) -> bool {
    match f {
        None => true,
        Some(y) => y is Null || (as_entries(y) matches Some(m) && ok(m)),
    }
}

/// The value read from an optional record field.
pub open spec fn opt_record_of<T>(
    f: Option<Yaml>,
    v: Option<T>,
    of: spec_fn(Seq<(Yaml, Yaml)>, T) -> bool,
) -> bool {
    match f {
        None => v is None,
        Some(y) => if y is Null {
            v is None
        } else {
            v matches Some(x) && as_entries(y) matches Some(m) && of(m, x)
        },
    }
}

fn read_docker_auth(f: Option<&Yaml>) -> (r: Option<Option<DockerAuth>>)
    ensures
        r is Some <==> opt_record_ok(
            match f {
                Some(y) => Some(*y),
                None => None,
            },
            |m| docker_auth_ok(m),
        ),
        r matches Some(v) ==> opt_record_of(
            match f {
                Some(y) => Some(*y),
                None => None,
            },
            v,
            |m, x| docker_auth_of(m, x),
        ),
{
    match f {
        None => Some(None),
        Some(Yaml::Null) => Some(None),
        Some(Yaml::Mapping(m)) => {
            let username = get_req_text(m, "username");
            let password = get_req_text(m, "password");
            match (username, password) {
                (Some(username), Some(password)) => Some(Some(DockerAuth { username, password })),
                _ => None,
            }
        },
        Some(_) => None,
    }
}

fn read_aws_auth(f: Option<&Yaml>) -> (r: Option<Option<AwsAuth>>)
    ensures
        r is Some <==> opt_record_ok(
            match f {
                Some(y) => Some(*y),
                None => None,
            },
            |m| aws_auth_ok(m),
        ),
        r matches Some(v) ==> opt_record_of(
            match f {
                Some(y) => Some(*y),
                None => None,
            },
            v,
            |m, x| aws_auth_of(m, x),
        ),
{
    let e: Vec<(Yaml, Yaml)> = Vec::new();
    assert(e@ =~= Seq::<(Yaml, Yaml)>::empty());
    let m = match f {
        None => return Some(None),
        Some(Yaml::Null) => return Some(None),
        Some(Yaml::Mapping(m)) => m,
        Some(_) => return None,
    };
    let a = get_opt_text(m, "aws_access_key_id");
    let b = get_opt_text(m, "aws_secret_access_key");
    let c = get_opt_text(m, "oidc_role_arn");
    match (a, b, c) {
        (Some(a), Some(b), Some(c)) => Some(
            Some(AwsAuth { aws_access_key_id: a, aws_secret_access_key: b, oidc_role_arn: c }),
        ),
        _ => None,
    }
}

pub open spec fn image_full_ok(m: Seq<(Yaml, Yaml)>) -> bool {
    &&& req_text(find(m, "image"@)) is Some
    &&& opt_record_ok(find(m, "auth"@), |a| docker_auth_ok(a))
    &&& opt_record_ok(find(m, "aws_auth"@), |a| aws_auth_ok(a))
    &&& opt_text(find(m, "name"@)) is Some
    &&& opt_text_list(find(m, "entrypoint"@)) is Some
    &&& opt_text_list(find(m, "command"@)) is Some
    &&& opt_text(find(m, "user"@)) is Some
    &&& text_map_field(find(m, "environment"@)) is Some
}

pub open spec fn image_full_of(m: Seq<(Yaml, Yaml)>, v: DockerImageFull) -> bool {
    &&& req_text(find(m, "image"@)) == Some(v.image)
    &&& opt_record_of(find(m, "auth"@), v.auth, |a, x| docker_auth_of(a, x))
    &&& opt_record_of(find(m, "aws_auth"@), v.aws_auth, |a, x| aws_auth_of(a, x))
    &&& opt_text(find(m, "name"@)) == Some(v.name)
    &&& opt_text_list(find(m, "entrypoint"@)) == Some(opt_view(v.entrypoint))
    &&& opt_text_list(find(m, "command"@)) == Some(opt_view(v.command))
    &&& opt_text(find(m, "user"@)) == Some(v.user)
    &&& text_map_field(find(m, "environment"@)) == Some(v.environment@)
}

/// A container image: a bare string is the reference alone; a mapping with
/// an `image` is the full form.
pub open spec fn docker_image_ok(y: Yaml) -> bool {
    y is Str || (!(y is Str) && (as_entries(y) matches Some(m) && image_full_ok(m)))
}

pub open spec fn docker_image_of(y: Yaml, v: DockerImage) -> bool {
    match v {
        DockerImage::Simple(s) => y == Yaml::Str(s),
        DockerImage::Full(b) => !(y is Str) && (as_entries(y) matches Some(m) && image_full_of(
            m,
            *b,
        )),
    }
}

fn read_image_full(m: &Vec<(Yaml, Yaml)>) -> (r: Option<DockerImageFull>)
    ensures
        r is Some <==> image_full_ok(m@),
        r matches Some(v) ==> image_full_of(m@, v),
{
    let image = get_req_text(m, "image");
    let auth = read_docker_auth(crate::yaml::lookup(m, "auth"));
    let aws_auth = read_aws_auth(crate::yaml::lookup(m, "aws_auth"));
    let name = get_opt_text(m, "name");
    let entrypoint = get_opt_text_list(m, "entrypoint");
    let command = get_opt_text_list(m, "command");
    let user = get_opt_text(m, "user");
    let environment = get_text_map(m, "environment");
    match (image, auth, aws_auth, name, entrypoint, command, user, environment) {
        (
            Some(image),
            Some(auth),
            Some(aws_auth),
            Some(name),
            Some(entrypoint),
            Some(command),
            Some(user),
            Some(environment),
        ) => Some(
            DockerImageFull { image, auth, aws_auth, name, entrypoint, command, user, environment },
        ),
        _ => None,
    }
}

/// Reads a container image.
pub fn read_docker_image(y: &Yaml) -> (r: Option<DockerImage>)
    ensures
        r is Some <==> docker_image_ok(*y),
        r matches Some(v) ==> docker_image_of(*y, v),
{
    match y {
        Yaml::Str(s) => Some(DockerImage::Simple(s.clone())),
        Yaml::Mapping(m) => match read_image_full(m) {
            Some(full) => Some(DockerImage::Full(Box::new(full))),
            None => None,
        },
        Yaml::Null => {
            let e: Vec<(Yaml, Yaml)> = Vec::new();
            assert(e@ =~= Seq::<(Yaml, Yaml)>::empty());
            let r = read_image_full(&e);
            assert(r is None);
            None
        },
        _ => None,
    }
}

/// A machine image: a flag switches the default machine on or off; a
/// mapping with an `image` names one.
pub open spec fn machine_ok(y: Yaml) -> bool {
    y is Bool || (!(y is Bool) && (as_entries(y) matches Some(m) && req_text(find(m, "image"@))
        is Some && opt_bool(find(m, "docker_layer_caching"@)) is Some))
}

pub open spec fn machine_of(y: Yaml, v: MachineConfig) -> bool {
    match v {
        MachineConfig::Enabled(b) => y == Yaml::Bool(b),
        MachineConfig::Image { image, docker_layer_caching } => {
            &&& !(y is Bool)
            &&& as_entries(y) matches Some(m)
            &&& req_text(find(m, "image"@)) == Some(image)
            &&& opt_bool(find(m, "docker_layer_caching"@)) == Some(docker_layer_caching)
        },
    }
}

/// Reads a machine image.
pub fn read_machine(y: &Yaml) -> (r: Option<MachineConfig>)
    ensures
        r is Some <==> machine_ok(*y),
        r matches Some(v) ==> machine_of(*y, v),
{
    match y {
        Yaml::Bool(b) => Some(MachineConfig::Enabled(*b)),
        Yaml::Mapping(m) => {
            let image = get_req_text(m, "image");
            let dlc = get_opt_bool(m, "docker_layer_caching");
            match (image, dlc) {
                (Some(image), Some(docker_layer_caching)) => Some(
                    MachineConfig::Image { image, docker_layer_caching },
                ),
                _ => None,
            }
        },
        _ => None,
    }
}

pub open spec fn macos_ok(m: Seq<(Yaml, Yaml)>) -> bool {
    req_text(find(m, "xcode"@)) is Some
}

pub open spec fn macos_of(m: Seq<(Yaml, Yaml)>, v: MacOsConfig) -> bool {
    req_text(find(m, "xcode"@)) == Some(v.xcode)
}

/// Reads macOS settings.
pub fn read_macos(m: &Vec<(Yaml, Yaml)>) -> (r: Option<MacOsConfig>)
    ensures
        r is Some <==> macos_ok(m@),
        r matches Some(v) ==> macos_of(m@, v),
{
    let xcode = get_req_text(m, "xcode")?;
    Some(MacOsConfig { xcode })
}

pub open spec fn display_ok(m: Seq<(Yaml, Yaml)>) -> bool {
    &&& opt_text(find(m, "home_url"@)) is Some
    &&& opt_text(find(m, "source_url"@)) is Some
}

pub open spec fn display_of(m: Seq<(Yaml, Yaml)>, v: DisplayInfo) -> bool {
    &&& opt_text(find(m, "home_url"@)) == Some(v.home_url)
    &&& opt_text(find(m, "source_url"@)) == Some(v.source_url)
}

/// Reads display metadata.
pub fn read_display(m: &Vec<(Yaml, Yaml)>) -> (r: Option<DisplayInfo>)
    ensures
        r is Some <==> display_ok(m@),
        r matches Some(v) ==> display_of(m@, v),
{
    let home_url = get_opt_text(m, "home_url");
    let source_url = get_opt_text(m, "source_url");
    match (home_url, source_url) {
        (Some(home_url), Some(source_url)) => Some(DisplayInfo { home_url, source_url }),
        _ => None,
    }
}

} // verus!
