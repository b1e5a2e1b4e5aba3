//! The parsed definition: commands, jobs and executors with their
//! parameters and steps. Maps are held as entries in document order.

use vstd::prelude::*;
use crate::yaml::Yaml;

verus! {

/// Root of a parsed definition.
pub struct OrbDefinition {
    /// Schema version, free-form (`2.1`).
    pub version: String,
    /// Human-readable description.
    pub description: Option<String>,
    /// Display metadata for registry listings.
    pub display: Option<DisplayInfo>,
    /// Imported definitions, name to reference.
    pub orbs: Vec<(String, String)>,
    /// Commands by name.
    pub commands: Vec<(String, Command)>,
    /// Jobs by name.
    pub jobs: Vec<(String, Job)>,
    /// Executors by name.
    pub executors: Vec<(String, Executor)>,
}

/// Display metadata.
pub struct DisplayInfo {
    /// Home page.
    pub home_url: Option<String>,
    /// Source repository.
    pub source_url: Option<String>,
}

/// A reusable command.
pub struct Command {
    /// Human-readable description.
    pub description: Option<String>,
    /// Parameters by name.
    pub parameters: Vec<(String, Parameter)>,
    /// Steps, in order.
    pub steps: Vec<Step>,
}

/// Where code runs: shared by jobs and executors.
pub struct ExecutorConfig {
    /// Container images.
    pub docker: Option<Vec<DockerImage>>,
    /// Machine image.
    pub machine: Option<MachineConfig>,
    /// macOS settings.
    pub macos: Option<MacOsConfig>,
    /// Compute size label.
    pub resource_class: Option<String>,
    /// Working directory.
    pub working_directory: Option<String>,
    /// Environment variables, in document order.
    pub environment: Vec<(String, String)>,
    /// Shell override.
    pub shell: Option<String>,
}

/// A job.
pub struct Job {
    /// Human-readable description.
    pub description: Option<String>,
    /// Executor to run on.
    pub executor: Option<ExecutorRef>,
    /// Execution settings given inline.
    pub config: ExecutorConfig,
    /// Parameters by name.
    pub parameters: Vec<(String, Parameter)>,
    /// Steps, in order.
    pub steps: Vec<Step>,
    /// Parallelism level.
    pub parallelism: Option<u32>,
    /// Whether to run from the published IP ranges.
    pub circleci_ip_ranges: Option<bool>,
}

/// An executor.
pub struct Executor {
    /// Human-readable description.
    pub description: Option<String>,
    /// Execution settings.
    pub config: ExecutorConfig,
    /// Parameters by name.
    pub parameters: Vec<(String, Parameter)>,
}

/// A reference to an executor.
pub enum ExecutorRef {
    /// By name alone.
    Name(String),
    /// By name, with parameter values.
    WithParams { name: String, parameters: Vec<(String, Yaml)> },
}

/// A typed input declaration.
pub struct Parameter {
    /// Kind of value.
    pub param_type: ParameterType,
    /// Human-readable description.
    pub description: Option<String>,
    /// Default value; a parameter without one is required.
    pub default: Option<Yaml>,
    /// Allowed values of an enum parameter.
    pub enum_values: Option<Vec<String>>,
}

/// Kinds of parameter.
#[derive(Clone, Copy, Debug, PartialEq, Eq, Structural)]
pub enum ParameterType {
    String,
    Boolean,
    Integer,
    Enum,
    EnvVarName,
    Steps,
    Executor,
}

/// A step of a command or job.
pub enum Step {
    /// A bare name (`checkout`).
    Simple(String),
    /// A structured step.
    Structured(StructuredStep),
}

/// Structured steps, keyed by their single map key.
pub enum StructuredStep {
    Run(RunStep),
    Checkout(CheckoutStep),
    RestoreCache(CacheStep),
    SaveCache(SaveCacheStep),
    When(ConditionalStep),
    Unless(ConditionalStep),
    PersistToWorkspace(WorkspaceStep),
    AttachWorkspace(AttachWorkspaceStep),
    StoreTestResults(StoreTestResultsStep),
    StoreArtifacts(StoreArtifactsStep),
    AddSshKeys(AddSshKeysStep),
    SetupRemoteDocker(SetupRemoteDockerStep),
    /// Any other invocation, with its arguments.
    CommandInvocation(Vec<(String, Yaml)>),
}

/// A shell command step.
pub enum RunStep {
    /// The command alone.
    Simple(String),
    /// The command with its settings.
    Full {
        command: String,
        name: Option<String>,
        working_directory: Option<String>,
        environment: Vec<(String, String)>,
        shell: Option<String>,
        background: Option<bool>,
        no_output_timeout: Option<String>,
        when: Option<String>,
    },
}

/// Checkout settings.
pub struct CheckoutStep {
    pub path: Option<String>,
}

/// Cache restore settings.
pub struct CacheStep {
    pub key: Option<String>,
    pub keys: Option<Vec<String>>,
    pub name: Option<String>,
}

/// Cache save settings.
pub struct SaveCacheStep {
    pub key: String,
    pub paths: Vec<String>,
    pub name: Option<String>,
    pub when: Option<String>,
}

/// A conditional group of steps.
pub struct ConditionalStep {
    pub condition: Yaml,
    pub steps: Vec<Step>,
}

/// Workspace persistence settings.
pub struct WorkspaceStep {
    pub root: String,
    pub paths: Vec<String>,
}

/// Workspace attachment settings.
pub struct AttachWorkspaceStep {
    pub at: String,
}

/// Test result upload settings.
pub struct StoreTestResultsStep {
    pub path: String,
}

/// Artifact upload settings.
pub struct StoreArtifactsStep {
    pub path: String,
    pub destination: Option<String>,
}

/// Credential installation settings.
pub struct AddSshKeysStep {
    pub fingerprints: Vec<String>,
}

/// Remote container engine settings.
pub struct SetupRemoteDockerStep {
    pub version: Option<String>,
    pub docker_layer_caching: Option<bool>,
}

/// A container image.
pub enum DockerImage {
    /// The image reference alone.
    Simple(String),
    /// The image with its settings.
    Full(Box<DockerImageFull>),
}

/// A container image with its settings.
pub struct DockerImageFull {
    pub image: String,
    pub auth: Option<DockerAuth>,
    pub aws_auth: Option<AwsAuth>,
    pub name: Option<String>,
    pub entrypoint: Option<Vec<String>>,
    pub command: Option<Vec<String>>,
    pub user: Option<String>,
    pub environment: Vec<(String, String)>,
}

/// Registry credentials.
pub struct DockerAuth {
    pub username: String,
    pub password: String,
}

/// Cloud registry credentials.
pub struct AwsAuth {
    pub aws_access_key_id: Option<String>,
    pub aws_secret_access_key: Option<String>,
    pub oidc_role_arn: Option<String>,
}

/// A machine image.
pub enum MachineConfig {
    /// The default machine, switched on or off.
    Enabled(bool),
    /// A named machine image.
    Image { image: String, docker_layer_caching: Option<bool> },
}

/// macOS settings.
pub struct MacOsConfig {
    pub xcode: String,
}

impl OrbDefinition {
    /// A definition with no content.
    pub fn empty() -> (r: OrbDefinition)
        ensures
            r.version@.len() == 0,
            r.description is None,
            r.display is None,
            r.orbs@.len() == 0,
            r.commands@.len() == 0,
            r.jobs@.len() == 0,
            r.executors@.len() == 0,
    {
        OrbDefinition {
            version: String::new(),
            description: None,
            display: None,
            orbs: Vec::new(),
            commands: Vec::new(),
            jobs: Vec::new(),
            executors: Vec::new(),
        }
    }
}

impl Parameter {
    /// Whether a value must be supplied: exactly when there is no default.
    pub fn is_required(&self) -> (r: bool)
        ensures
            r == self.default.is_none(),
    {
        self.default.is_none()
    }
}

} // verus!
