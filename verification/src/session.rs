//! Sessions and the processes launched from them.

use vstd::prelude::*;
use crate::config::{ClientConfig, ClientConfigView};
use crate::error::{view_result, PipelineError};
use crate::text::{copy_texts, join_texts};

verus! {

/// What the host found when it looked for what a session needs: a runtime,
/// and write access to the working directory.
#[derive(Clone, Copy, Debug, PartialEq, Eq, Structural)]
pub enum Prerequisites {
    /// Both are there.
    Satisfied,
    /// No runtime was found, or the working directory cannot be written to.
    Missing,
}

/// What became of the attempt to spawn the game process.
#[derive(Clone, Copy, Debug, PartialEq, Eq, Structural)]
pub enum SpawnOutcome {
    /// The process runs.
    Started,
    /// The executable was not found, or the system refused to start it.
    Failed,
}

/// What a game process is started with.
#[derive(Debug, PartialEq, Eq)]
pub struct LaunchParameters {
    /// The runtime executable.
    pub program: String,
    /// The directory in which the process is started.
    pub working_dir: String,
    /// The libraries on the classpath, in order.
    pub classpath: Vec<String>,
    /// The memory limit in megabytes.
    pub max_mem_mb: u32,
    /// The arguments for the runtime, in order.
    pub runtime_arguments: Vec<String>,
    /// The arguments for the client, in order.
    pub client_arguments: Vec<String>,
}

/// The mathematical value of a [`LaunchParameters`].
pub struct LaunchParametersView {
    pub program: Seq<char>,
    pub working_dir: Seq<char>,
    pub classpath: Seq<Seq<char>>,
    pub max_mem_mb: nat,
    pub runtime_arguments: Seq<Seq<char>>,
    pub client_arguments: Seq<Seq<char>>,
}

impl View for LaunchParameters {
    type V = LaunchParametersView;

    open spec fn view(&self) -> LaunchParametersView {
        LaunchParametersView {
            program: self.program@,
            working_dir: self.working_dir@,
            classpath: self.classpath.deep_view(),
            max_mem_mb: self.max_mem_mb as nat,
            runtime_arguments: self.runtime_arguments.deep_view(),
            client_arguments: self.client_arguments.deep_view(),
        }
    }
}

impl Clone for LaunchParameters {
    fn clone(&self) -> (copy: Self)
        ensures
            copy@ == self@,
    {
        LaunchParameters {
            program: self.program.clone(),
            working_dir: self.working_dir.clone(),
            classpath: copy_texts(&self.classpath),
            max_mem_mb: self.max_mem_mb,
            runtime_arguments: copy_texts(&self.runtime_arguments),
            client_arguments: copy_texts(&self.client_arguments),
        }
    }
}

/// The parameters that a configuration determines. The program is the
/// runtime, started in the base directory of the version. The classpath is
/// the version's dependencies. The runtime is passed the extra runtime
/// arguments; the client is passed the version's own launch arguments and
/// then the extra client arguments.
pub open spec fn launch_parameters(config: ClientConfigView) -> LaunchParametersView
    recommends
        config.valid(),
{
    LaunchParametersView {
        program: config.java_path,
        working_dir: config.version.base_dir,
        classpath: config.version.metadata->0.dependencies,
        max_mem_mb: config.max_mem_mb,
        runtime_arguments: config.runtime_args,
        client_arguments: config.version.metadata->0.launch_arguments + config.client_args,
    }
}

fn derive_parameters(config: &ClientConfig) -> (parameters: LaunchParameters)
    ensures
        parameters@ == launch_parameters(config@),
{
    let metadata = config.metadata();
    LaunchParameters {
        program: config.java_path().clone(),
        working_dir: config.version_info().base_dir().clone(),
        classpath: copy_texts(&metadata.dependencies),
        max_mem_mb: config.max_mem_mb(),
        runtime_arguments: copy_texts(config.runtime_args()),
        client_arguments: join_texts(&metadata.launch_arguments, config.client_args()),
    }
}

/// A launch-ready bundle built from one configuration, which it owns. It is
/// used up by the one launch made from it.
#[derive(Debug, PartialEq, Eq)]
pub struct ClientSession {
    config: ClientConfig,
    parameters: LaunchParameters,
}

/// The mathematical value of a [`ClientSession`].
pub struct ClientSessionView {
    pub config: ClientConfigView,
    pub parameters: LaunchParametersView,
}

impl View for ClientSession {
    type V = ClientSessionView;

    closed spec fn view(&self) -> ClientSessionView {
        ClientSessionView { config: self.config@, parameters: self.parameters@ }
    }
}

impl ClientSession {
    #[verifier::type_invariant]
    spec fn parameters_follow_config(self) -> bool {
        self.parameters@ == launch_parameters(self.config@)
    }

    /// The configuration that the session was built from.
    pub fn config(&self) -> (config: &ClientConfig)
        ensures
            config@ == self@.config,
    {
        &self.config
    }

    /// What the game process is to be started with: the parameters that the
    /// session's configuration determines.
    pub fn parameters(&self) -> (parameters: &LaunchParameters)
        ensures
            parameters@ == self@.parameters,
            parameters@ == launch_parameters(self@.config),
    {
        proof {
            use_type_invariant(self);
        }
        &self.parameters
    }
}

/// A game process that was started, as handed over to the host.
#[derive(Debug, PartialEq, Eq)]
pub struct ProcessHandle {
    parameters: LaunchParameters,
}

/// The mathematical value of a [`ProcessHandle`].
pub struct ProcessHandleView {
    pub parameters: LaunchParametersView,
}

impl View for ProcessHandle {
    type V = ProcessHandleView;

    closed spec fn view(&self) -> ProcessHandleView {
        ProcessHandleView { parameters: self.parameters@ }
    }
}

impl ProcessHandle {
    /// What the process was started with.
    pub fn parameters(&self) -> (parameters: &LaunchParameters)
        ensures
            parameters@ == self@.parameters,
    {
        &self.parameters
    }
}

/// What creating a session yields. Where the configuration names a runtime
/// and the host found the prerequisites, the session of that configuration
/// with the parameters that it determines; otherwise a session error.
pub open spec fn session_of(config: ClientConfigView, prerequisites: Prerequisites) -> Result<
    ClientSessionView,
    PipelineError,
> {
    if config.java_path.len() > 0 && prerequisites == Prerequisites::Satisfied {
        Ok(ClientSessionView { config, parameters: launch_parameters(config) })
    } else {
        Err(PipelineError::SessionCreation)
    }
}

/// What launching a session yields. Where the process was started, a handle
/// that reports the session's parameters; otherwise a launch error.
pub open spec fn handle_of(session: ClientSessionView, outcome: SpawnOutcome) -> Result<
    ProcessHandleView,
    PipelineError,
> {
    match outcome {
        SpawnOutcome::Started => Ok(ProcessHandleView { parameters: session.parameters }),
        SpawnOutcome::Failed => Err(PipelineError::Launch),
    }
}

/// Prepares a session from a configuration and from what the host found of
/// the session's prerequisites. It fails, with a session error, exactly when
/// the configuration names no runtime or a prerequisite is missing.
pub fn create_session(config: ClientConfig, prerequisites: Prerequisites) -> (created: Result<
    ClientSession,
    PipelineError,
>)
    ensures
        view_result(created) == session_of(config@, prerequisites),
        created is Err <==> config@.java_path.len() == 0 || prerequisites
            == Prerequisites::Missing,
        created matches Ok(session) ==> session@.config == config@ && session@.parameters
            == launch_parameters(config@),
        created matches Err(error) ==> error == PipelineError::SessionCreation,
{
    if config.java_path().as_str().is_empty() {
        return Err(PipelineError::SessionCreation);
    }
    match prerequisites {
        Prerequisites::Missing => Err(PipelineError::SessionCreation),
        Prerequisites::Satisfied => {
            let parameters = derive_parameters(&config);
            Ok(ClientSession { config, parameters })
        },
    }
}

/// Concludes the launch of a session from what became of the spawn. The
/// session is used up either way. It fails, with a launch error, exactly when
/// the process was not started; otherwise the handle reports the parameters
/// of the session.
pub fn launch(session: ClientSession, outcome: SpawnOutcome) -> (launched: Result<
    ProcessHandle,
    PipelineError,
>)
    ensures
        view_result(launched) == handle_of(session@, outcome),
        launched is Err <==> outcome == SpawnOutcome::Failed,
        launched matches Ok(handle) ==> handle@.parameters == launch_parameters(session@.config),
        launched matches Err(error) ==> error == PipelineError::Launch,
{
    proof {
        use_type_invariant(&session);
    }
    match outcome {
        SpawnOutcome::Started => Ok(ProcessHandle { parameters: session.parameters }),
        SpawnOutcome::Failed => Err(PipelineError::Launch),
    }
}

/// What creating a session from a configuration and launching it yields.
pub open spec fn launched_from(
    config: ClientConfigView,
    found: Prerequisites,
    outcome: SpawnOutcome,
) -> Result<ProcessHandleView, PipelineError> {
    match session_of(config, found) {
        Ok(session) => handle_of(session, outcome),
        Err(error) => Err(error),
    }
}

/// The parameters that a launched process reports are a function of the
/// configuration alone: two launches from one valid configuration report the
/// same parameters, those that the configuration determines.
pub proof fn launch_parameters_are_determined(
    config: ClientConfigView,
    first_found: Prerequisites,
    first_outcome: SpawnOutcome,
    first: ProcessHandleView,
    second_found: Prerequisites,
    second_outcome: SpawnOutcome,
    second: ProcessHandleView,
)
    requires
        config.valid(),
        launched_from(config, first_found, first_outcome) == Ok::<ProcessHandleView, PipelineError>(
            first,
        ),
        launched_from(config, second_found, second_outcome) == Ok::<
            ProcessHandleView,
            PipelineError,
        >(second),
    ensures
        first.parameters == launch_parameters(config),
        second.parameters == first.parameters,
{
}

/// A launch from a valid configuration succeeds exactly when the
/// configuration names a runtime, the prerequisites were found and the
/// process was started. A missing runtime or prerequisite gives a session
/// error, whatever became of the spawn; a failed spawn after that gives a
/// launch error.
pub proof fn launch_fails_at_the_first_failing_step(
    config: ClientConfigView,
    found: Prerequisites,
    outcome: SpawnOutcome,
)
    requires
        config.valid(),
    ensures
        ({
            let ready = config.java_path.len() > 0 && found == Prerequisites::Satisfied;
            match launched_from(config, found, outcome) {
                Ok(_) => ready && outcome == SpawnOutcome::Started,
                Err(error) => if !ready {
                    error == PipelineError::SessionCreation
                } else {
                    error == PipelineError::Launch && outcome == SpawnOutcome::Failed
                },
            }
        }),
{
}

} // verus!
