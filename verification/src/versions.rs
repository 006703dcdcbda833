//! Named milestones of the engine object format.
//!
//! Every conditional field in the package format is gated on a comparison
//! between the package's recorded version and one of these milestones.

use vstd::prelude::*;

verus! {

/// The ordered milestones of the object format, oldest first.
///
/// Each milestone marks the introduction of a structural change. Its numeric
/// value is given by [`Self::value`]; successive milestones carry strictly
/// increasing values.
#[derive(Debug, Clone, Copy, PartialEq, Eq, Structural)]
pub enum EUnrealEngineObjectUE5Version {
    /// First versioned format release.
    InitialVersion,
    /// Names not referenced from export data may be stripped.
    NamesReferencedFromExportData,
    /// A payload table of contents was added to the package summary.
    PayloadToc,
    /// Data identifying references from and to optional packages was added.
    OptionalResources,
    /// Core types switched to double-precision components by default.
    LargeWorldCoordinates,
    /// The per-export package guid was removed from export entries.
    RemoveObjectExportPackageGuid,
    /// The inherited-instance flag was added to export entries.
    TrackObjectExportIsInherited,
    /// Soft object paths switched to (package name, asset name) pairs.
    FSoftObjectPathRemoveAssetPathFNames,
    /// A soft-object-path list was added to the package summary.
    AddSoftObjectPathList,
    /// A bulk-data resource table was added.
    DataResources,
    /// Script-serialization offsets were added to export entries.
    ScriptSerializationOffset,
    /// Property tags gained an extension block.
    PropertyTagExtensionAndOverridableSerialization,
    /// Property tags gained a complete type name.
    PropertyTagCompleteTypeName,
    /// Package build dependencies joined the written package data.
    AssetRegistryPackageBuildDependencies,
    /// A metadata serialization offset was added to the summary.
    MetadataSerializationOffset,
    /// Cell exports and imports joined the object graph.
    VerseCells,
    /// The summary switched from a legacy guid to a saved content hash.
    PackageSavedHash,
    /// Shadow serialization of subobjects.
    OsSubObjectShadowSerialization,
}

/// The newest milestone value this decoder knows; packages above it decode
/// with a compatibility warning.
pub const KNOWN_SUPPORTED_UE5VER: i32 = 1017;

impl EUnrealEngineObjectUE5Version {
    /// The numeric version value of this milestone.
    pub open spec fn spec_value(self) -> i32 {
        match self {
            EUnrealEngineObjectUE5Version::InitialVersion => 1000,
            EUnrealEngineObjectUE5Version::NamesReferencedFromExportData => 1001,
            EUnrealEngineObjectUE5Version::PayloadToc => 1002,
            EUnrealEngineObjectUE5Version::OptionalResources => 1003,
            EUnrealEngineObjectUE5Version::LargeWorldCoordinates => 1004,
            EUnrealEngineObjectUE5Version::RemoveObjectExportPackageGuid => 1005,
            EUnrealEngineObjectUE5Version::TrackObjectExportIsInherited => 1006,
            EUnrealEngineObjectUE5Version::FSoftObjectPathRemoveAssetPathFNames => 1007,
            EUnrealEngineObjectUE5Version::AddSoftObjectPathList => 1008,
            EUnrealEngineObjectUE5Version::DataResources => 1009,
            EUnrealEngineObjectUE5Version::ScriptSerializationOffset => 1010,
            EUnrealEngineObjectUE5Version::PropertyTagExtensionAndOverridableSerialization => 1011,
            EUnrealEngineObjectUE5Version::PropertyTagCompleteTypeName => 1012,
            EUnrealEngineObjectUE5Version::AssetRegistryPackageBuildDependencies => 1013,
            EUnrealEngineObjectUE5Version::MetadataSerializationOffset => 1014,
            EUnrealEngineObjectUE5Version::VerseCells => 1015,
            EUnrealEngineObjectUE5Version::PackageSavedHash => 1016,
            EUnrealEngineObjectUE5Version::OsSubObjectShadowSerialization => 1017,
        }
    }

    /// Executable form of [`Self::spec_value`].
    pub fn value(self) -> (v: i32)
        ensures
            v == self.spec_value(),
    {
        match self {
            EUnrealEngineObjectUE5Version::InitialVersion => 1000,
            EUnrealEngineObjectUE5Version::NamesReferencedFromExportData => 1001,
            EUnrealEngineObjectUE5Version::PayloadToc => 1002,
            EUnrealEngineObjectUE5Version::OptionalResources => 1003,
            EUnrealEngineObjectUE5Version::LargeWorldCoordinates => 1004,
            EUnrealEngineObjectUE5Version::RemoveObjectExportPackageGuid => 1005,
            EUnrealEngineObjectUE5Version::TrackObjectExportIsInherited => 1006,
            EUnrealEngineObjectUE5Version::FSoftObjectPathRemoveAssetPathFNames => 1007,
            EUnrealEngineObjectUE5Version::AddSoftObjectPathList => 1008,
            EUnrealEngineObjectUE5Version::DataResources => 1009,
            EUnrealEngineObjectUE5Version::ScriptSerializationOffset => 1010,
            EUnrealEngineObjectUE5Version::PropertyTagExtensionAndOverridableSerialization => 1011,
            EUnrealEngineObjectUE5Version::PropertyTagCompleteTypeName => 1012,
            EUnrealEngineObjectUE5Version::AssetRegistryPackageBuildDependencies => 1013,
            EUnrealEngineObjectUE5Version::MetadataSerializationOffset => 1014,
            EUnrealEngineObjectUE5Version::VerseCells => 1015,
            EUnrealEngineObjectUE5Version::PackageSavedHash => 1016,
            EUnrealEngineObjectUE5Version::OsSubObjectShadowSerialization => 1017,
        }
    }
}

/// The highest milestone value equals [`KNOWN_SUPPORTED_UE5VER`], and the
/// milestone values grow strictly along the declaration order.
pub proof fn lemma_milestones_ordered()
    ensures
        EUnrealEngineObjectUE5Version::OsSubObjectShadowSerialization.spec_value()
            == KNOWN_SUPPORTED_UE5VER,
        EUnrealEngineObjectUE5Version::InitialVersion.spec_value()
            < EUnrealEngineObjectUE5Version::OptionalResources.spec_value()
            < EUnrealEngineObjectUE5Version::RemoveObjectExportPackageGuid.spec_value()
            < EUnrealEngineObjectUE5Version::TrackObjectExportIsInherited.spec_value()
            < EUnrealEngineObjectUE5Version::AddSoftObjectPathList.spec_value()
            < EUnrealEngineObjectUE5Version::MetadataSerializationOffset.spec_value()
            < EUnrealEngineObjectUE5Version::VerseCells.spec_value()
            < EUnrealEngineObjectUE5Version::PackageSavedHash.spec_value()
            < EUnrealEngineObjectUE5Version::OsSubObjectShadowSerialization.spec_value(),
{
}

} // verus!
