//! The immutable configuration of one launch.

use vstd::prelude::*;
use crate::auth::{AuthMethod, AuthMethodView};
use crate::error::{view_result, PipelineError};
use crate::version::{VersionInfo, VersionInfoView, VersionMetadata};

verus! {

/// What a launch may add to the configuration beyond its essentials: a label
/// for the type of version, and further arguments for the runtime and for the
/// client, each in the order in which they are to be passed.
#[derive(Debug, PartialEq, Eq)]
pub struct ExtraArgs {
    /// The label for the type of version.
    pub version_type: String,
    /// Further arguments for the runtime.
    pub runtime: Vec<String>,
    /// Further arguments for the client.
    pub client: Vec<String>,
}

/// The mathematical value of an [`ExtraArgs`].
pub struct ExtraArgsView {
    pub version_type: Seq<char>,
    pub runtime: Seq<Seq<char>>,
    pub client: Seq<Seq<char>>,
}

impl View for ExtraArgs {
    type V = ExtraArgsView;

    open spec fn view(&self) -> ExtraArgsView {
        ExtraArgsView {
            version_type: self.version_type@,
            runtime: self.runtime.deep_view(),
            client: self.client.deep_view(),
        }
    }
}

impl Default for ExtraArgs {
    /// No label and no further arguments.
    fn default() -> (extra: Self)
        ensures
            extra@ == (ExtraArgsView {
                version_type: Seq::empty(),
                runtime: Seq::empty(),
                client: Seq::empty(),
            }),
    {
        let extra = ExtraArgs {
            version_type: String::new(),
            runtime: Vec::new(),
            client: Vec::new(),
        };
        assert(extra.runtime.deep_view() =~= Seq::empty());
        assert(extra.client.deep_view() =~= Seq::empty());
        extra
    }
}

/// Everything a launch is made from: who plays, which version, which runtime,
/// how much memory, and the extra arguments. Its version is loaded and its
/// memory limit is positive; once built it does not change.
#[derive(Debug, PartialEq, Eq)]
pub struct ClientConfig {
    auth: AuthMethod,
    version_info: VersionInfo,
    java_path: String,
    max_mem_mb: u32,
    version_type: String,
    runtime_args: Vec<String>,
    client_args: Vec<String>,
}

/// The mathematical value of a [`ClientConfig`].
pub struct ClientConfigView {
    pub auth: AuthMethodView,
    pub version: VersionInfoView,
    pub java_path: Seq<char>,
    pub max_mem_mb: nat,
    pub version_type: Seq<char>,
    pub runtime_args: Seq<Seq<char>>,
    pub client_args: Seq<Seq<char>>,
}

impl ClientConfigView {
    /// What holds of every configuration: the version is loaded and the
    /// memory limit is positive.
    pub open spec fn valid(self) -> bool {
        self.version.is_loaded() && self.max_mem_mb > 0
    }
}

/// What building a configuration yields. Where the version is loaded and the
/// memory limit, in megabytes, is positive, the configuration that holds the
/// arguments as they are; otherwise a configuration error.
pub open spec fn configuration(
    auth: AuthMethodView,
    version: VersionInfoView,
    java_path: Seq<char>,
    max_mem_mb: int,
    extra_args: ExtraArgsView,
) -> Result<ClientConfigView, PipelineError> {
    if version.is_loaded() && max_mem_mb > 0 {
        Ok(
            ClientConfigView {
                auth,
                version,
                java_path,
                max_mem_mb: max_mem_mb as nat,
                version_type: extra_args.version_type,
                runtime_args: extra_args.runtime,
                client_args: extra_args.client,
            },
        )
    } else {
        Err(PipelineError::InvalidConfig)
    }
}

impl View for ClientConfig {
    type V = ClientConfigView;

    closed spec fn view(&self) -> ClientConfigView {
        ClientConfigView {
            auth: self.auth@,
            version: self.version_info@,
            java_path: self.java_path@,
            max_mem_mb: self.max_mem_mb as nat,
            version_type: self.version_type@,
            runtime_args: self.runtime_args.deep_view(),
            client_args: self.client_args.deep_view(),
        }
    }
}

impl ClientConfig {
    #[verifier::type_invariant]
    spec fn loaded_and_limited(self) -> bool {
        self.version_info@.is_loaded() && self.max_mem_mb > 0
    }

    /// How the player is identified.
    pub fn auth(&self) -> (auth: &AuthMethod)
        ensures
            auth@ == self@.auth,
    {
        &self.auth
    }

    /// The version to launch; it is loaded.
    pub fn version_info(&self) -> (info: &VersionInfo)
        ensures
            info@ == self@.version,
            info@.is_loaded(),
    {
        proof {
            use_type_invariant(self);
        }
        &self.version_info
    }

    /// The metadata of the version to launch.
    pub fn metadata(&self) -> (metadata: &VersionMetadata)
        ensures
            self@.version.metadata == Some(metadata@),
    {
        proof {
            use_type_invariant(self);
        }
        match self.version_info.metadata() {
            Some(metadata) => metadata,
            None => vstd::pervasive::unreached(),
        }
    }

    /// The path of the runtime executable.
    pub fn java_path(&self) -> (path: &String)
        ensures
            path@ == self@.java_path,
    {
        &self.java_path
    }

    /// The memory limit in megabytes; it is positive.
    pub fn max_mem_mb(&self) -> (limit: u32)
        ensures
            limit == self@.max_mem_mb,
            limit > 0,
    {
        proof {
            use_type_invariant(self);
        }
        self.max_mem_mb
    }

    /// The label for the type of version.
    pub fn version_type(&self) -> (label: &String)
        ensures
            label@ == self@.version_type,
    {
        &self.version_type
    }

    /// The extra arguments for the runtime, in order.
    pub fn runtime_args(&self) -> (args: &Vec<String>)
        ensures
            args.deep_view() == self@.runtime_args,
    {
        &self.runtime_args
    }

    /// The extra arguments for the client, in order.
    pub fn client_args(&self) -> (args: &Vec<String>)
        ensures
            args.deep_view() == self@.client_args,
    {
        &self.client_args
    }
}

/// Builds the configuration of a launch. No input or output takes place. It
/// fails, with a configuration error, exactly when the version is not loaded
/// or the memory limit is not positive.
pub fn build_config(
    auth: AuthMethod,
    version_info: VersionInfo,
    java_path: String,
    max_mem_mb: i32,
    extra_args: ExtraArgs,
) -> (built: Result<ClientConfig, PipelineError>)
    ensures
        view_result(built) == configuration(
            auth@,
            version_info@,
            java_path@,
            max_mem_mb as int,
            extra_args@,
        ),
        built is Err <==> !version_info@.is_loaded() || max_mem_mb <= 0,
        built matches Ok(config) ==> config@.valid(),
        built matches Err(error) ==> error == PipelineError::InvalidConfig,
{
    if !version_info.is_loaded() || max_mem_mb <= 0 {
        return Err(PipelineError::InvalidConfig);
    }
    Ok(
        ClientConfig {
            auth,
            version_info,
            java_path,
            max_mem_mb: max_mem_mb as u32,
            version_type: extra_args.version_type,
            runtime_args: extra_args.runtime,
            client_args: extra_args.client,
        },
    )
}

/// A configuration is refused for every version that is not loaded and for
/// every memory limit that is not positive, whatever the other arguments are,
/// and for nothing else; what is built is valid.
pub proof fn configuration_fails_exactly_on_invalid_input(
    auth: AuthMethodView,
    version: VersionInfoView,
    java_path: Seq<char>,
    max_mem_mb: int,
    extra_args: ExtraArgsView,
)
    ensures
        (!version.is_loaded() || max_mem_mb <= 0) <==> configuration(
            auth,
            version,
            java_path,
            max_mem_mb,
            extra_args,
        ) == Err::<ClientConfigView, PipelineError>(PipelineError::InvalidConfig),
        (version.is_loaded() && max_mem_mb > 0) <==> configuration(
            auth,
            version,
            java_path,
            max_mem_mb,
            extra_args,
        ) is Ok,
        configuration(auth, version, java_path, max_mem_mb, extra_args) matches Ok(config)
            ==> config.valid(),
{
}

} // verus!
