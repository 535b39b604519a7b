//! Game versions and the metadata that a load step fills in.

use vstd::prelude::*;
use crate::error::{view_result, PipelineError};
use crate::store::{readable_metadata, version_key, StoreContents, VersionKey, VersionStore};
use crate::text::copy_texts;

verus! {

/// What is known of a version once it is loaded: the libraries it depends on,
/// the arguments it asks to be launched with, and the name of its asset index.
#[derive(Debug, PartialEq, Eq)]
pub struct VersionMetadata {
    /// The libraries that the version depends on, in order.
    pub dependencies: Vec<String>,
    /// The arguments that the version asks to be launched with, in order.
    pub launch_arguments: Vec<String>,
    /// The name of the asset index.
    pub asset_index: String,
}

/// The mathematical value of a [`VersionMetadata`].
pub struct VersionMetadataView {
    pub dependencies: Seq<Seq<char>>,
    pub launch_arguments: Seq<Seq<char>>,
    pub asset_index: Seq<char>,
}

impl View for VersionMetadata {
    type V = VersionMetadataView;

    open spec fn view(&self) -> VersionMetadataView {
        VersionMetadataView {
            dependencies: self.dependencies.deep_view(),
            launch_arguments: self.launch_arguments.deep_view(),
            asset_index: self.asset_index@,
        }
    }
}

/// The mathematical value of metadata that may be missing.
pub open spec fn record_view(record: Option<VersionMetadata>) -> Option<VersionMetadataView> {
    match record {
        Some(metadata) => Some(metadata@),
        None => None,
    }
}

impl Clone for VersionMetadata {
    fn clone(&self) -> (copy: Self)
        ensures
            copy@ == self@,
    {
        VersionMetadata {
            dependencies: copy_texts(&self.dependencies),
            launch_arguments: copy_texts(&self.launch_arguments),
            asset_index: self.asset_index.clone(),
        }
    }
}

/// A game version: where installed versions live, and which of them is meant.
/// It starts unloaded; a load step fills in its metadata from a store, and it
/// is only read after that.
#[derive(Debug, PartialEq, Eq)]
pub struct VersionInfo {
    base_dir: String,
    version_id: String,
    metadata: Option<VersionMetadata>,
}

/// The mathematical value of a [`VersionInfo`].
pub struct VersionInfoView {
    pub base_dir: Seq<char>,
    pub version_id: Seq<char>,
    pub metadata: Option<VersionMetadataView>,
}

impl VersionInfoView {
    /// A version is loaded once its metadata is filled in.
    pub open spec fn is_loaded(self) -> bool {
        self.metadata is Some
    }

    /// The name under which a store holds this version.
    pub open spec fn key(self) -> VersionKey {
        version_key(self.base_dir, self.version_id)
    }

    /// The record of a version that has not been loaded.
    pub open spec fn unloaded(base_dir: Seq<char>, version_id: Seq<char>) -> VersionInfoView {
        VersionInfoView { base_dir, version_id, metadata: None }
    }

    /// The load step. Where `contents` holds readable metadata under the
    /// version's name, the record with that metadata filled in; otherwise a
    /// resolution error.
    pub open spec fn loaded_from(self, contents: StoreContents) -> Result<
        VersionInfoView,
        PipelineError,
    > {
        match readable_metadata(contents, self.key()) {
            Some(metadata) => Ok(VersionInfoView { metadata: Some(metadata), ..self }),
            None => Err(PipelineError::VersionResolution),
        }
    }
}

/// What resolving `version_id` under `base_dir` against `contents` yields: the
/// unloaded record of that version, loaded.
pub open spec fn resolution(
    contents: StoreContents,
    base_dir: Seq<char>,
    version_id: Seq<char>,
) -> Result<VersionInfoView, PipelineError> {
    VersionInfoView::unloaded(base_dir, version_id).loaded_from(contents)
}

impl View for VersionInfo {
    type V = VersionInfoView;

    closed spec fn view(&self) -> VersionInfoView {
        VersionInfoView {
            base_dir: self.base_dir@,
            version_id: self.version_id@,
            metadata: record_view(self.metadata),
        }
    }
}

impl VersionInfo {
    /// An unloaded record of the version `version_id` under `base_dir`.
    pub fn new(base_dir: String, version_id: String) -> (info: Self)
        ensures
            info@ == VersionInfoView::unloaded(base_dir@, version_id@),
    {
        VersionInfo { base_dir, version_id, metadata: None }
    }

    /// The load step: fills in the metadata that `store` holds for this
    /// version. Where the store has no readable metadata for it, the step
    /// fails with a resolution error and the record is left as it was.
    pub fn load(&mut self, store: &VersionStore) -> (outcome: Result<(), PipelineError>)
        ensures
            match outcome {
                Ok(_) => old(self)@.loaded_from(store@) == Ok::<VersionInfoView, PipelineError>(
                    final(self)@,
                ),
                Err(error) => old(self)@.loaded_from(store@) == Err::<
                    VersionInfoView,
                    PipelineError,
                >(error) && final(self)@ == old(self)@,
            },
    {
        match store.lookup(self.base_dir.as_str(), self.version_id.as_str()) {
            Some(metadata) => {
                self.metadata = Some(metadata.clone());
                Ok(())
            },
            None => Err(PipelineError::VersionResolution),
        }
    }

    /// The directory under which installed versions live.
    pub fn base_dir(&self) -> (base_dir: &String)
        ensures
            base_dir@ == self@.base_dir,
    {
        &self.base_dir
    }

    /// The identifier of the version that is meant.
    pub fn version_id(&self) -> (version_id: &String)
        ensures
            version_id@ == self@.version_id,
    {
        &self.version_id
    }

    /// Whether the load step has filled in the metadata.
    pub fn is_loaded(&self) -> (loaded: bool)
        ensures
            loaded == self@.is_loaded(),
    {
        self.metadata.is_some()
    }

    /// The metadata, once the version is loaded.
    pub fn metadata(&self) -> (metadata: Option<&VersionMetadata>)
        ensures
            match metadata {
                Some(metadata) => self@.metadata == Some(metadata@),
                None => self@.metadata is None,
            },
    {
        self.metadata.as_ref()
    }
}

impl Default for VersionInfo {
    /// The unloaded record with an empty base directory and identifier.
    fn default() -> (info: Self)
        ensures
            info@ == VersionInfoView::unloaded(Seq::empty(), Seq::empty()),
    {
        VersionInfo { base_dir: String::new(), version_id: String::new(), metadata: None }
    }
}

/// Resolves the version `version_id` under `base_dir` against `store`: an
/// unloaded record is made and then loaded. It succeeds exactly when the store
/// holds readable metadata under that name; the record is then loaded and
/// carries that metadata. Otherwise it fails with a resolution error.
pub fn resolve_version(store: &VersionStore, base_dir: &str, version_id: &str) -> (resolved: Result<
    VersionInfo,
    PipelineError,
>)
    ensures
        view_result(resolved) == resolution(store@, base_dir@, version_id@),
        resolved is Ok <==> readable_metadata(store@, version_key(base_dir@, version_id@)) is Some,
        resolved matches Ok(info) ==> info@.is_loaded(),
        resolved matches Err(error) ==> error == PipelineError::VersionResolution,
{
    let mut info = VersionInfo::new(base_dir.to_owned(), version_id.to_owned());
    match info.load(store) {
        Ok(_) => Ok(info),
        Err(error) => Err(error),
    }
}

/// Resolution succeeds on exactly the versions that the store holds with
/// readable metadata. It then yields the loaded record of that version, with
/// the metadata that the store holds; on every other name, one that the store
/// lacks among them, it fails with a resolution error.
pub proof fn resolution_succeeds_exactly_on_readable_versions(
    contents: StoreContents,
    base_dir: Seq<char>,
    version_id: Seq<char>,
)
    ensures
        ({
            let key = version_key(base_dir, version_id);
            let present = contents.contains_key(key) && contents[key] is Some;
            match resolution(contents, base_dir, version_id) {
                Ok(version) => present && version.is_loaded() && version == (VersionInfoView {
                    base_dir,
                    version_id,
                    metadata: contents[key],
                }),
                Err(error) => !present && error == PipelineError::VersionResolution,
            }
        }),
{
}

/// Loading is idempotent: a record that was loaded from a store is left as it
/// is by a further load from the same store.
pub proof fn loading_again_changes_nothing(
    version: VersionInfoView,
    contents: StoreContents,
    loaded: VersionInfoView,
)
    requires
        version.loaded_from(contents) == Ok::<VersionInfoView, PipelineError>(loaded),
    ensures
        loaded.loaded_from(contents) == Ok::<VersionInfoView, PipelineError>(loaded),
{
}

/// Resolution is repeatable: two resolutions of one name against one store
/// yield records with the same metadata.
pub proof fn resolution_is_repeatable(
    contents: StoreContents,
    base_dir: Seq<char>,
    version_id: Seq<char>,
    first: VersionInfoView,
    second: VersionInfoView,
)
    requires
        resolution(contents, base_dir, version_id) == Ok::<VersionInfoView, PipelineError>(first),
        resolution(contents, base_dir, version_id) == Ok::<VersionInfoView, PipelineError>(second),
    ensures
        first.metadata == second.metadata,
        first == second,
{
}

} // verus!
