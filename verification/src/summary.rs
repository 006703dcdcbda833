//! The package summary: the version-gated header at the start of a package
//! file.
//!
//! [`spec_parse_summary`] is the mathematical model of the decode: it reads
//! the same fields in the same order as the executable decoder, including
//! every version-gated field and every inline invariant check, and returns
//! either the decoded summary with the position after it or the exact error.
//! The decode is all-or-nothing: the first violated invariant aborts it.

use crate::bytes::take_i32;
use crate::bytes::take_i64;
use crate::bytes::take_u16;
use crate::bytes::take_u32;
use crate::errors::ParseError;
use crate::fstring::take_fstring;
use crate::reader::UassetReader;
use crate::versions::EUnrealEngineObjectUE5Version;
use vstd::prelude::*;

verus! {

/// The magic tag that opens every package file.
pub const PACKAGE_MAGIC: u32 = 0x9e2a83c1;

/// Sanity bound on the custom-version list length.
pub const MAX_CUSTOM_VERSIONS: i32 = 100000;

/// Bits that may legally be set in the compression flags: the low nibble
/// holds deprecated-format bits, the high nibble option bits.
pub const COMPRESSION_FLAGS_MASK: u32 = 0xff;

/// Oldest engine version (major.minor) whose packages are accepted.
pub const MIN_SUPPORTED_MAJOR: u16 = 4;

/// Oldest supported minor version under [`MIN_SUPPORTED_MAJOR`].
pub const MIN_SUPPORTED_MINOR: u16 = 27;

/// One decoded package summary. Built once by the decoder, then read-only.
#[derive(Debug, Clone)]
pub struct UassetSummary {
    /// Magic tag; always [`PACKAGE_MAGIC`] in a decoded summary.
    pub tag: u32,
    /// Legacy file version; one of -7, -8, -9.
    pub legacy_file_version: i32,
    /// Legacy object version of the oldest lineage.
    pub legacy_ue3_version: i32,
    /// Object version of the previous engine generation.
    pub file_version_ue4: i32,
    /// Object version of the current engine generation; 0 when the legacy
    /// file version predates it.
    pub file_version_ue5: i32,
    /// Licensee object version.
    pub file_version_licensee_ue4: u32,
    /// Saved content hash (20 bytes); present above `PackageSavedHash`.
    pub saved_hash: Option<Vec<u8>>,
    /// Total size of the header in bytes, as recorded in the file.
    pub total_header_size: i32,
    /// Custom version records (20 bytes each), kept raw.
    pub custom_versions: Vec<Vec<u8>>,
    /// Name of the package.
    pub package_name: String,
    /// Package flag bits.
    pub package_flags: u32,
    /// Number of entries in the name table.
    pub name_count: i32,
    /// Byte offset of the name table.
    pub name_offset: i32,
    /// Soft-object-path count; present above `AddSoftObjectPathList`.
    pub soft_object_paths_count: Option<i32>,
    /// Soft-object-path offset; present above `AddSoftObjectPathList`.
    pub soft_object_paths_offset: Option<i32>,
    /// Localization id of the package.
    pub localization_id: String,
    /// Gatherable-text descriptor count.
    pub gatherable_text_data_count: i32,
    /// Gatherable-text descriptor offset.
    pub gatherable_text_data_offset: i32,
    /// Number of entries in the export table.
    pub export_count: i32,
    /// Byte offset of the export table.
    pub export_offset: i32,
    /// Number of entries in the import table.
    pub import_count: i32,
    /// Byte offset of the import table.
    pub import_offset: i32,
    /// Cell-export count; present above `VerseCells`.
    pub cell_export_count: Option<i32>,
    /// Cell-export offset; present above `VerseCells`.
    pub cell_export_offset: Option<i32>,
    /// Cell-import count; present above `VerseCells`.
    pub cell_import_count: Option<i32>,
    /// Cell-import offset; present above `VerseCells`.
    pub cell_import_offset: Option<i32>,
    /// Metadata offset; present above `MetadataSerializationOffset`.
    pub metadata_offset: Option<i32>,
    /// Byte offset of the dependency table.
    pub depends_offset: i32,
    /// Soft-package-reference count.
    pub soft_package_references_count: i32,
    /// Soft-package-reference offset.
    pub soft_package_references_offset: i32,
    /// Byte offset of the searchable-names table.
    pub searchable_names_offset: i32,
    /// Byte offset of the thumbnail table.
    pub thumbnail_table_offset: i32,
    /// Legacy guid (16 bytes); present below `PackageSavedHash`.
    pub guid: Option<Vec<u8>>,
    /// Persistent guid (16 bytes); always present.
    pub persistent_guid: Vec<u8>,
    /// Generation records (8 bytes each), kept raw.
    pub generations: Vec<Vec<u8>>,
    /// Major version of the engine that saved the package.
    pub saved_by_engine_version_major: u16,
    /// Minor version of the engine that saved the package.
    pub saved_by_engine_version_minor: u16,
    /// Patch version of the engine that saved the package.
    pub saved_by_engine_version_patch: u16,
    /// Changelist of the engine that saved the package.
    pub saved_by_engine_version_changelist: u32,
    /// Version name of the engine that saved the package.
    pub saved_by_engine_version_name: String,
    /// Major version of the oldest compatible engine.
    pub compatible_engine_version_major: u16,
    /// Minor version of the oldest compatible engine.
    pub compatible_engine_version_minor: u16,
    /// Patch version of the oldest compatible engine.
    pub compatible_engine_version_patch: u16,
    /// Changelist of the oldest compatible engine.
    pub compatible_engine_version_changelist: u32,
    /// Version name of the oldest compatible engine.
    pub compatible_engine_version_name: String,
    /// Compression flag bits; always within [`COMPRESSION_FLAGS_MASK`].
    pub compression_flags: u32,
    /// Compressed-chunk records (16 bytes each); always empty, since
    /// compressed packages are not supported.
    pub compressed_chunks: Vec<Vec<u8>>,
    /// Package source value.
    pub package_source: u32,
    /// Names of additional packages to cook.
    pub additional_packages_to_cook: Vec<String>,
    /// Byte offset of the asset-registry data.
    pub asset_registry_data_offset: i32,
    /// Byte offset where bulk data starts.
    pub bulk_data_start_offset: i64,
}

/// The mathematical view of a [`UassetSummary`].
#[verifier::ext_equal]
pub struct SummaryModel {
    /// See [`UassetSummary::tag`].
    pub tag: u32,
    /// See [`UassetSummary::legacy_file_version`].
    pub legacy_file_version: i32,
    /// See [`UassetSummary::legacy_ue3_version`].
    pub legacy_ue3_version: i32,
    /// See [`UassetSummary::file_version_ue4`].
    pub file_version_ue4: i32,
    /// See [`UassetSummary::file_version_ue5`].
    pub file_version_ue5: i32,
    /// See [`UassetSummary::file_version_licensee_ue4`].
    pub file_version_licensee_ue4: u32,
    /// See [`UassetSummary::saved_hash`].
    pub saved_hash: Option<Seq<u8>>,
    /// See [`UassetSummary::total_header_size`].
    pub total_header_size: i32,
    /// See [`UassetSummary::custom_versions`].
    pub custom_versions: Seq<Seq<u8>>,
    /// See [`UassetSummary::package_name`].
    pub package_name: Seq<char>,
    /// See [`UassetSummary::package_flags`].
    pub package_flags: u32,
    /// See [`UassetSummary::name_count`].
    pub name_count: i32,
    /// See [`UassetSummary::name_offset`].
    pub name_offset: i32,
    /// See [`UassetSummary::soft_object_paths_count`].
    pub soft_object_paths_count: Option<i32>,
    /// See [`UassetSummary::soft_object_paths_offset`].
    pub soft_object_paths_offset: Option<i32>,
    /// See [`UassetSummary::localization_id`].
    pub localization_id: Seq<char>,
    /// See [`UassetSummary::gatherable_text_data_count`].
    pub gatherable_text_data_count: i32,
    /// See [`UassetSummary::gatherable_text_data_offset`].
    pub gatherable_text_data_offset: i32,
    /// See [`UassetSummary::export_count`].
    pub export_count: i32,
    /// See [`UassetSummary::export_offset`].
    pub export_offset: i32,
    /// See [`UassetSummary::import_count`].
    pub import_count: i32,
    /// See [`UassetSummary::import_offset`].
    pub import_offset: i32,
    /// See [`UassetSummary::cell_export_count`].
    pub cell_export_count: Option<i32>,
    /// See [`UassetSummary::cell_export_offset`].
    pub cell_export_offset: Option<i32>,
    /// See [`UassetSummary::cell_import_count`].
    pub cell_import_count: Option<i32>,
    /// See [`UassetSummary::cell_import_offset`].
    pub cell_import_offset: Option<i32>,
    /// See [`UassetSummary::metadata_offset`].
    pub metadata_offset: Option<i32>,
    /// See [`UassetSummary::depends_offset`].
    pub depends_offset: i32,
    /// See [`UassetSummary::soft_package_references_count`].
    pub soft_package_references_count: i32,
    /// See [`UassetSummary::soft_package_references_offset`].
    pub soft_package_references_offset: i32,
    /// See [`UassetSummary::searchable_names_offset`].
    pub searchable_names_offset: i32,
    /// See [`UassetSummary::thumbnail_table_offset`].
    pub thumbnail_table_offset: i32,
    /// See [`UassetSummary::guid`].
    pub guid: Option<Seq<u8>>,
    /// See [`UassetSummary::persistent_guid`].
    pub persistent_guid: Seq<u8>,
    /// See [`UassetSummary::generations`].
    pub generations: Seq<Seq<u8>>,
    /// See [`UassetSummary::saved_by_engine_version_major`].
    pub saved_by_engine_version_major: u16,
    /// See [`UassetSummary::saved_by_engine_version_minor`].
    pub saved_by_engine_version_minor: u16,
    /// See [`UassetSummary::saved_by_engine_version_patch`].
    pub saved_by_engine_version_patch: u16,
    /// See [`UassetSummary::saved_by_engine_version_changelist`].
    pub saved_by_engine_version_changelist: u32,
    /// See [`UassetSummary::saved_by_engine_version_name`].
    pub saved_by_engine_version_name: Seq<char>,
    /// See [`UassetSummary::compatible_engine_version_major`].
    pub compatible_engine_version_major: u16,
    /// See [`UassetSummary::compatible_engine_version_minor`].
    pub compatible_engine_version_minor: u16,
    /// See [`UassetSummary::compatible_engine_version_patch`].
    pub compatible_engine_version_patch: u16,
    /// See [`UassetSummary::compatible_engine_version_changelist`].
    pub compatible_engine_version_changelist: u32,
    /// See [`UassetSummary::compatible_engine_version_name`].
    pub compatible_engine_version_name: Seq<char>,
    /// See [`UassetSummary::compression_flags`].
    pub compression_flags: u32,
    /// See [`UassetSummary::compressed_chunks`].
    pub compressed_chunks: Seq<Seq<u8>>,
    /// See [`UassetSummary::package_source`].
    pub package_source: u32,
    /// See [`UassetSummary::additional_packages_to_cook`].
    pub additional_packages_to_cook: Seq<Seq<char>>,
    /// See [`UassetSummary::asset_registry_data_offset`].
    pub asset_registry_data_offset: i32,
    /// See [`UassetSummary::bulk_data_start_offset`].
    pub bulk_data_start_offset: i64,
}

impl View for UassetSummary {
    type V = SummaryModel;

    open spec fn view(&self) -> SummaryModel {
        SummaryModel {
            tag: self.tag,
            legacy_file_version: self.legacy_file_version,
            legacy_ue3_version: self.legacy_ue3_version,
            file_version_ue4: self.file_version_ue4,
            file_version_ue5: self.file_version_ue5,
            file_version_licensee_ue4: self.file_version_licensee_ue4,
            saved_hash: self.saved_hash.deep_view(),
            total_header_size: self.total_header_size,
            custom_versions: self.custom_versions.deep_view(),
            package_name: self.package_name@,
            package_flags: self.package_flags,
            name_count: self.name_count,
            name_offset: self.name_offset,
            soft_object_paths_count: self.soft_object_paths_count,
            soft_object_paths_offset: self.soft_object_paths_offset,
            localization_id: self.localization_id@,
            gatherable_text_data_count: self.gatherable_text_data_count,
            gatherable_text_data_offset: self.gatherable_text_data_offset,
            export_count: self.export_count,
            export_offset: self.export_offset,
            import_count: self.import_count,
            import_offset: self.import_offset,
            cell_export_count: self.cell_export_count,
            cell_export_offset: self.cell_export_offset,
            cell_import_count: self.cell_import_count,
            cell_import_offset: self.cell_import_offset,
            metadata_offset: self.metadata_offset,
            depends_offset: self.depends_offset,
            soft_package_references_count: self.soft_package_references_count,
            soft_package_references_offset: self.soft_package_references_offset,
            searchable_names_offset: self.searchable_names_offset,
            thumbnail_table_offset: self.thumbnail_table_offset,
            guid: self.guid.deep_view(),
            persistent_guid: self.persistent_guid@,
            generations: self.generations.deep_view(),
            saved_by_engine_version_major: self.saved_by_engine_version_major,
            saved_by_engine_version_minor: self.saved_by_engine_version_minor,
            saved_by_engine_version_patch: self.saved_by_engine_version_patch,
            saved_by_engine_version_changelist: self.saved_by_engine_version_changelist,
            saved_by_engine_version_name: self.saved_by_engine_version_name@,
            compatible_engine_version_major: self.compatible_engine_version_major,
            compatible_engine_version_minor: self.compatible_engine_version_minor,
            compatible_engine_version_patch: self.compatible_engine_version_patch,
            compatible_engine_version_changelist: self.compatible_engine_version_changelist,
            compatible_engine_version_name: self.compatible_engine_version_name@,
            compression_flags: self.compression_flags,
            compressed_chunks: self.compressed_chunks.deep_view(),
            package_source: self.package_source,
            additional_packages_to_cook: self.additional_packages_to_cook.deep_view(),
            asset_registry_data_offset: self.asset_registry_data_offset,
            bulk_data_start_offset: self.bulk_data_start_offset,
        }
    }
}

impl UassetSummary {
    /// True when the package's object version is newer than this decoder
    /// knows; the decode still proceeds, with this as a non-fatal warning.
    pub fn ue5_version_too_new(&self) -> (r: bool)
        ensures
            r == (self.file_version_ue5 > crate::versions::KNOWN_SUPPORTED_UE5VER),
    {
        self.file_version_ue5 > crate::versions::KNOWN_SUPPORTED_UE5VER
    }
}

/// The all-zero, all-empty summary that decoding starts from.
pub open spec fn default_summary_model() -> SummaryModel {
    SummaryModel {
        tag: 0,
        legacy_file_version: 0,
        legacy_ue3_version: 0,
        file_version_ue4: 0,
        file_version_ue5: 0,
        file_version_licensee_ue4: 0,
        saved_hash: None,
        total_header_size: 0,
        custom_versions: seq![],
        package_name: seq![],
        package_flags: 0,
        name_count: 0,
        name_offset: 0,
        soft_object_paths_count: None,
        soft_object_paths_offset: None,
        localization_id: seq![],
        gatherable_text_data_count: 0,
        gatherable_text_data_offset: 0,
        export_count: 0,
        export_offset: 0,
        import_count: 0,
        import_offset: 0,
        cell_export_count: None,
        cell_export_offset: None,
        cell_import_count: None,
        cell_import_offset: None,
        metadata_offset: None,
        depends_offset: 0,
        soft_package_references_count: 0,
        soft_package_references_offset: 0,
        searchable_names_offset: 0,
        thumbnail_table_offset: 0,
        guid: None,
        persistent_guid: seq![],
        generations: seq![],
        saved_by_engine_version_major: 0,
        saved_by_engine_version_minor: 0,
        saved_by_engine_version_patch: 0,
        saved_by_engine_version_changelist: 0,
        saved_by_engine_version_name: seq![],
        compatible_engine_version_major: 0,
        compatible_engine_version_minor: 0,
        compatible_engine_version_patch: 0,
        compatible_engine_version_changelist: 0,
        compatible_engine_version_name: seq![],
        compression_flags: 0,
        compressed_chunks: seq![],
        package_source: 0,
        additional_packages_to_cook: seq![],
        asset_registry_data_offset: 0,
        bulk_data_start_offset: 0,
    }
}

impl Default for UassetSummary {
    /// The all-zero, all-empty summary.
    fn default() -> (s: Self)
        ensures
            s@ == default_summary_model(),
    {
        let s = UassetSummary {
            tag: 0,
            legacy_file_version: 0,
            legacy_ue3_version: 0,
            file_version_ue4: 0,
            file_version_ue5: 0,
            file_version_licensee_ue4: 0,
            saved_hash: None,
            total_header_size: 0,
            custom_versions: Vec::new(),
            package_name: String::new(),
            package_flags: 0,
            name_count: 0,
            name_offset: 0,
            soft_object_paths_count: None,
            soft_object_paths_offset: None,
            localization_id: String::new(),
            gatherable_text_data_count: 0,
            gatherable_text_data_offset: 0,
            export_count: 0,
            export_offset: 0,
            import_count: 0,
            import_offset: 0,
            cell_export_count: None,
            cell_export_offset: None,
            cell_import_count: None,
            cell_import_offset: None,
            metadata_offset: None,
            depends_offset: 0,
            soft_package_references_count: 0,
            soft_package_references_offset: 0,
            searchable_names_offset: 0,
            thumbnail_table_offset: 0,
            guid: None,
            persistent_guid: Vec::new(),
            generations: Vec::new(),
            saved_by_engine_version_major: 0,
            saved_by_engine_version_minor: 0,
            saved_by_engine_version_patch: 0,
            saved_by_engine_version_changelist: 0,
            saved_by_engine_version_name: String::new(),
            compatible_engine_version_major: 0,
            compatible_engine_version_minor: 0,
            compatible_engine_version_patch: 0,
            compatible_engine_version_changelist: 0,
            compatible_engine_version_name: String::new(),
            compression_flags: 0,
            compressed_chunks: Vec::new(),
            package_source: 0,
            additional_packages_to_cook: Vec::new(),
            asset_registry_data_offset: 0,
            bulk_data_start_offset: 0,
        };
        proof {
            assert(s@ =~= default_summary_model());
        }
        s
    }
}

/// True when an offset recorded in the file lies within `[0, file_size]`.
pub open spec fn offset_ok(off: int, file_size: int) -> bool {
    0 <= off <= file_size
}

/// Reads `n` records of `size` bytes each at `p`.
pub open spec fn take_records(b: Seq<u8>, p: int, n: int, size: int) -> Option<
    (Seq<Seq<u8>>, int),
> {
    if 0 <= p && 0 <= n && p + n * size <= b.len() {
        Some(
            (
                Seq::new(n as nat, |i: int| b.subrange(p + i * size, p + (i + 1) * size)),
                p + n * size,
            ),
        )
    } else {
        None
    }
}

/// Reads `n` length-prefixed strings at `p`.
pub open spec fn take_fstrings(b: Seq<u8>, p: int, n: int) -> Result<
    (Seq<Seq<char>>, int),
    ParseError,
>
    decreases n,
{
    if n <= 0 {
        Ok((seq![], p))
    } else {
        match take_fstring(b, p) {
            Err(e) => Err(e),
            Ok((t, p1)) => match take_fstrings(b, p1, n - 1) {
                Err(e) => Err(e),
                Ok((ts, p2)) => Ok((seq![t] + ts, p2)),
            },
        }
    }
}

/// Bytes of the header that remain before `total_header_size`, at zero when
/// the position has already passed it.
pub open spec fn header_remaining(total_header_size: i32, p: int) -> int {
    if total_header_size - p >= 0 {
        total_header_size - p
    } else {
        0
    }
}

/// The error raised by the saved-by engine version check, if any: an
/// unversioned package (major 0) needs the caller's permission, and versions
/// before the minimum supported one are rejected.
pub open spec fn asset_version_error(major: u16, minor: u16, allow_unversioned: bool) -> Option<
    ParseError,
> {
    if major == 0 {
        if !allow_unversioned {
            Some(ParseError::UnversionedAssetNotAllowed)
        } else {
            None
        }
    } else if major < MIN_SUPPORTED_MAJOR || (major == MIN_SUPPORTED_MAJOR && minor
        < MIN_SUPPORTED_MINOR) {
        Some(ParseError::AssetVersionTooOld { major, minor })
    } else {
        None
    }
}

/// The first out-of-range offset among the section offsets read before the
/// guids, in the order they are validated, if any.
pub open spec fn section_offsets_error(m: SummaryModel, file_size: int) -> Option<ParseError> {
    if !offset_ok(m.gatherable_text_data_offset as int, file_size) {
        Some(
            ParseError::InvalidFileOffset {
                offset: m.gatherable_text_data_offset as i64,
                file_size: file_size as u64,
            },
        )
    } else if !offset_ok(m.export_offset as int, file_size) {
        Some(
            ParseError::InvalidFileOffset {
                offset: m.export_offset as i64,
                file_size: file_size as u64,
            },
        )
    } else if !offset_ok(m.import_offset as int, file_size) {
        Some(
            ParseError::InvalidFileOffset {
                offset: m.import_offset as i64,
                file_size: file_size as u64,
            },
        )
    } else if !offset_ok(m.depends_offset as int, file_size) {
        Some(
            ParseError::InvalidFileOffset {
                offset: m.depends_offset as i64,
                file_size: file_size as u64,
            },
        )
    } else if !offset_ok(m.soft_package_references_offset as int, file_size) {
        Some(
            ParseError::InvalidFileOffset {
                offset: m.soft_package_references_offset as i64,
                file_size: file_size as u64,
            },
        )
    } else if !offset_ok(m.searchable_names_offset as int, file_size) {
        Some(
            ParseError::InvalidFileOffset {
                offset: m.searchable_names_offset as i64,
                file_size: file_size as u64,
            },
        )
    } else if !offset_ok(m.thumbnail_table_offset as int, file_size) {
        Some(
            ParseError::InvalidFileOffset {
                offset: m.thumbnail_table_offset as i64,
                file_size: file_size as u64,
            },
        )
    } else {
        None
    }
}

/// Reads the magic tag, the legacy file version and the object versions.
pub open spec fn stage_versions(b: Seq<u8>) -> Result<(SummaryModel, int), ParseError> {
    let m = default_summary_model();
    if b.len() < 4 {
        Err(ParseError::Io)
    } else {
        let tag = take_u32(b, 0).unwrap().0;
        if tag != PACKAGE_MAGIC {
            Err(ParseError::InvalidTag)
        } else if b.len() < 8 {
            Err(ParseError::Io)
        } else {
            let lfv = take_i32(b, 4).unwrap().0;
            if !(lfv == -7 || lfv == -8 || lfv == -9) {
                Err(ParseError::UnsupportedLegacyVersion(lfv))
            } else if lfv <= -8 {
                if b.len() < 24 {
                    Err(ParseError::Io)
                } else {
                    Ok(
                        (
                            SummaryModel {
                                tag,
                                legacy_file_version: lfv,
                                legacy_ue3_version: take_i32(b, 8).unwrap().0,
                                file_version_ue4: take_i32(b, 12).unwrap().0,
                                file_version_ue5: take_i32(b, 16).unwrap().0,
                                file_version_licensee_ue4: take_u32(b, 20).unwrap().0,
                                ..m
                            },
                            24,
                        ),
                    )
                }
            } else {
                if b.len() < 20 {
                    Err(ParseError::Io)
                } else {
                    Ok(
                        (
                            SummaryModel {
                                tag,
                                legacy_file_version: lfv,
                                legacy_ue3_version: take_i32(b, 8).unwrap().0,
                                file_version_ue4: take_i32(b, 12).unwrap().0,
                                file_version_ue5: 0,
                                file_version_licensee_ue4: take_u32(b, 16).unwrap().0,
                                ..m
                            },
                            20,
                        ),
                    )
                }
            }
        }
    }
}

/// Reads the saved content hash and the header size at its early position,
/// both only above `PackageSavedHash`.
pub open spec fn stage_saved_hash(b: Seq<u8>, m: SummaryModel, p: int) -> Result<
    (SummaryModel, int),
    ParseError,
> {
    if m.file_version_ue5 >= EUnrealEngineObjectUE5Version::PackageSavedHash.spec_value() {
        if p + 24 <= b.len() {
            Ok(
                (
                    SummaryModel {
                        saved_hash: Some(b.subrange(p, p + 20)),
                        total_header_size: take_i32(b, p + 20).unwrap().0,
                        ..m
                    },
                    p + 24,
                ),
            )
        } else {
            Err(ParseError::Io)
        }
    } else {
        Ok((m, p))
    }
}

/// Reads the custom-version list, and the header size at its late position
/// below `PackageSavedHash`.
pub open spec fn stage_custom_versions(b: Seq<u8>, m: SummaryModel, p: int) -> Result<
    (SummaryModel, int),
    ParseError,
> {
    match take_i32(b, p) {
        None => Err(ParseError::Io),
        Some((n, p1)) => {
            if n < 0 || n > MAX_CUSTOM_VERSIONS {
                Err(ParseError::InvalidArraySize(n))
            } else {
                match take_records(b, p1, n as int, 20) {
                    None => Err(ParseError::Io),
                    Some((recs, p2)) => {
                        if m.file_version_ue5
                            >= EUnrealEngineObjectUE5Version::PackageSavedHash.spec_value() {
                            Ok((SummaryModel { custom_versions: recs, ..m }, p2))
                        } else {
                            match take_i32(b, p2) {
                                None => Err(ParseError::Io),
                                Some((ths, p3)) => Ok(
                                    (
                                        SummaryModel {
                                            custom_versions: recs,
                                            total_header_size: ths,
                                            ..m
                                        },
                                        p3,
                                    ),
                                ),
                            }
                        }
                    },
                }
            }
        },
    }
}

/// Reads the package name, the package flags, the name-table descriptor and
/// the soft-object-path descriptor when present.
pub open spec fn stage_names_block(b: Seq<u8>, m: SummaryModel, p: int) -> Result<
    (SummaryModel, int),
    ParseError,
> {
    match take_fstring(b, p) {
        Err(e) => Err(e),
        Ok((package_name, p1)) => {
            let soft = m.file_version_ue5
                >= EUnrealEngineObjectUE5Version::AddSoftObjectPathList.spec_value();
            let width: int = if soft {
                20
            } else {
                12
            };
            if p1 + width <= b.len() {
                Ok(
                    (
                        SummaryModel {
                            package_name,
                            package_flags: take_u32(b, p1).unwrap().0,
                            name_count: take_i32(b, p1 + 4).unwrap().0,
                            name_offset: take_i32(b, p1 + 8).unwrap().0,
                            soft_object_paths_count: if soft {
                                Some(take_i32(b, p1 + 12).unwrap().0)
                            } else {
                                None
                            },
                            soft_object_paths_offset: if soft {
                                Some(take_i32(b, p1 + 16).unwrap().0)
                            } else {
                                None
                            },
                            ..m
                        },
                        p1 + width,
                    ),
                )
            } else {
                Err(ParseError::Io)
            }
        },
    }
}

/// Reads the localization id and the block of section descriptors, with the
/// cell descriptors and the metadata offset when present.
pub open spec fn stage_descriptors(b: Seq<u8>, m: SummaryModel, p: int) -> Result<
    (SummaryModel, int),
    ParseError,
> {
    match take_fstring(b, p) {
        Err(e) => Err(e),
        Ok((localization_id, p1)) => {
            let cells = m.file_version_ue5
                >= EUnrealEngineObjectUE5Version::VerseCells.spec_value();
            let md = m.file_version_ue5
                >= EUnrealEngineObjectUE5Version::MetadataSerializationOffset.spec_value();
            let c: int = if cells {
                16
            } else {
                0
            };
            let d: int = if md {
                4
            } else {
                0
            };
            let width: int = 44 + c + d;
            if p1 + width <= b.len() {
                Ok(
                    (
                        SummaryModel {
                            localization_id,
                            gatherable_text_data_count: take_i32(b, p1).unwrap().0,
                            gatherable_text_data_offset: take_i32(b, p1 + 4).unwrap().0,
                            export_count: take_i32(b, p1 + 8).unwrap().0,
                            export_offset: take_i32(b, p1 + 12).unwrap().0,
                            import_count: take_i32(b, p1 + 16).unwrap().0,
                            import_offset: take_i32(b, p1 + 20).unwrap().0,
                            cell_export_count: if cells {
                                Some(take_i32(b, p1 + 24).unwrap().0)
                            } else {
                                None
                            },
                            cell_export_offset: if cells {
                                Some(take_i32(b, p1 + 28).unwrap().0)
                            } else {
                                None
                            },
                            cell_import_count: if cells {
                                Some(take_i32(b, p1 + 32).unwrap().0)
                            } else {
                                None
                            },
                            cell_import_offset: if cells {
                                Some(take_i32(b, p1 + 36).unwrap().0)
                            } else {
                                None
                            },
                            metadata_offset: if md {
                                Some(take_i32(b, p1 + 24 + c).unwrap().0)
                            } else {
                                None
                            },
                            depends_offset: take_i32(b, p1 + 24 + c + d).unwrap().0,
                            soft_package_references_count: take_i32(
                                b,
                                p1 + 28 + c + d,
                            ).unwrap().0,
                            soft_package_references_offset: take_i32(
                                b,
                                p1 + 32 + c + d,
                            ).unwrap().0,
                            searchable_names_offset: take_i32(b, p1 + 36 + c + d).unwrap().0,
                            thumbnail_table_offset: take_i32(b, p1 + 40 + c + d).unwrap().0,
                            ..m
                        },
                        p1 + width,
                    ),
                )
            } else {
                Err(ParseError::Io)
            }
        },
    }
}

/// Validates the section offsets read so far, then reads the legacy guid when
/// present and the persistent guid.
pub open spec fn stage_guids(b: Seq<u8>, m: SummaryModel, p: int) -> Result<
    (SummaryModel, int),
    ParseError,
> {
    match section_offsets_error(m, b.len() as int) {
        Some(e) => Err(e),
        None => {
            let legacy = m.file_version_ue5
                < EUnrealEngineObjectUE5Version::PackageSavedHash.spec_value();
            let width: int = if legacy {
                32
            } else {
                16
            };
            if p + width <= b.len() {
                Ok(
                    (
                        SummaryModel {
                            guid: if legacy {
                                Some(b.subrange(p, p + 16))
                            } else {
                                None
                            },
                            persistent_guid: if legacy {
                                b.subrange(p + 16, p + 32)
                            } else {
                                b.subrange(p, p + 16)
                            },
                            ..m
                        },
                        p + width,
                    ),
                )
            } else {
                Err(ParseError::Io)
            }
        },
    }
}

/// Reads the generation list, bounded by the room left in the header.
pub open spec fn stage_generations(b: Seq<u8>, m: SummaryModel, p: int) -> Result<
    (SummaryModel, int),
    ParseError,
> {
    let max_generations = header_remaining(m.total_header_size, p) / 8;
    match take_i32(b, p) {
        None => Err(ParseError::Io),
        Some((n, p1)) => {
            if n < 0 || n > max_generations {
                Err(ParseError::InvalidArraySize(n))
            } else {
                match take_records(b, p1, n as int, 8) {
                    None => Err(ParseError::Io),
                    Some((recs, p2)) => Ok((SummaryModel { generations: recs, ..m }, p2)),
                }
            }
        },
    }
}

/// Reads the saved-by and compatible engine version records, then validates
/// the saved-by version.
pub open spec fn stage_engine_versions(
    b: Seq<u8>,
    m: SummaryModel,
    p: int,
    allow_unversioned: bool,
) -> Result<(SummaryModel, int), ParseError> {
    if p + 10 > b.len() {
        Err(ParseError::Io)
    } else {
        let sa_major = take_u16(b, p).unwrap().0;
        let sa_minor = take_u16(b, p + 2).unwrap().0;
        let sa_patch = take_u16(b, p + 4).unwrap().0;
        let sa_cl = take_u32(b, p + 6).unwrap().0;
        match take_fstring(b, p + 10) {
            Err(e) => Err(e),
            Ok((sa_name, p1)) => {
                if p1 + 10 > b.len() {
                    Err(ParseError::Io)
                } else {
                    let co_major = take_u16(b, p1).unwrap().0;
                    let co_minor = take_u16(b, p1 + 2).unwrap().0;
                    let co_patch = take_u16(b, p1 + 4).unwrap().0;
                    let co_cl = take_u32(b, p1 + 6).unwrap().0;
                    match take_fstring(b, p1 + 10) {
                        Err(e) => Err(e),
                        Ok((co_name, p2)) => match asset_version_error(
                            sa_major,
                            sa_minor,
                            allow_unversioned,
                        ) {
                            Some(e) => Err(e),
                            None => Ok(
                                (
                                    SummaryModel {
                                        saved_by_engine_version_major: sa_major,
                                        saved_by_engine_version_minor: sa_minor,
                                        saved_by_engine_version_patch: sa_patch,
                                        saved_by_engine_version_changelist: sa_cl,
                                        saved_by_engine_version_name: sa_name,
                                        compatible_engine_version_major: co_major,
                                        compatible_engine_version_minor: co_minor,
                                        compatible_engine_version_patch: co_patch,
                                        compatible_engine_version_changelist: co_cl,
                                        compatible_engine_version_name: co_name,
                                        ..m
                                    },
                                    p2,
                                ),
                            ),
                        },
                    }
                }
            },
        }
    }
}

/// Reads and validates the compression flags, then the compressed-chunk list,
/// which must be empty.
pub open spec fn stage_compression(b: Seq<u8>, m: SummaryModel, p: int) -> Result<
    (SummaryModel, int),
    ParseError,
> {
    match take_u32(b, p) {
        None => Err(ParseError::Io),
        Some((flags, p1)) => {
            if flags & !COMPRESSION_FLAGS_MASK != 0 {
                Err(ParseError::InvalidCompressionFlags)
            } else {
                let max_chunks = header_remaining(m.total_header_size, p1) / 16;
                match take_i32(b, p1) {
                    None => Err(ParseError::Io),
                    Some((n, p2)) => {
                        if n < 0 || n > max_chunks {
                            Err(ParseError::InvalidArraySize(n))
                        } else {
                            match take_records(b, p2, n as int, 16) {
                                None => Err(ParseError::Io),
                                Some((recs, p3)) => {
                                    if n > 0 {
                                        Err(ParseError::CompressedChunksNotSupported)
                                    } else {
                                        Ok(
                                            (
                                                SummaryModel {
                                                    compression_flags: flags,
                                                    compressed_chunks: recs,
                                                    ..m
                                                },
                                                p3,
                                            ),
                                        )
                                    }
                                },
                            }
                        }
                    },
                }
            }
        },
    }
}

/// Reads the package source, the additional-packages-to-cook list and the
/// final offsets, validating the offsets against the file size.
pub open spec fn stage_tail(b: Seq<u8>, m: SummaryModel, p: int) -> Result<
    (SummaryModel, int),
    ParseError,
> {
    match take_u32(b, p) {
        None => Err(ParseError::Io),
        Some((package_source, p1)) => {
            let max_packages = header_remaining(m.total_header_size, p1);
            match take_i32(b, p1) {
                None => Err(ParseError::Io),
                Some((n, p2)) => {
                    if n < 0 || n > max_packages {
                        Err(ParseError::InvalidArraySize(n))
                    } else {
                        match take_fstrings(b, p2, n as int) {
                            Err(e) => Err(e),
                            Ok((packages, p3)) => {
                                if p3 + 12 > b.len() {
                                    Err(ParseError::Io)
                                } else {
                                    let ar_off = take_i32(b, p3).unwrap().0;
                                    let bulk_off = take_i64(b, p3 + 4).unwrap().0;
                                    if !offset_ok(ar_off as int, b.len() as int) {
                                        Err(
                                            ParseError::InvalidFileOffset {
                                                offset: ar_off as i64,
                                                file_size: b.len() as u64,
                                            },
                                        )
                                    } else if !offset_ok(bulk_off as int, b.len() as int) {
                                        Err(
                                            ParseError::InvalidFileOffset {
                                                offset: bulk_off,
                                                file_size: b.len() as u64,
                                            },
                                        )
                                    } else {
                                        Ok(
                                            (
                                                SummaryModel {
                                                    package_source,
                                                    additional_packages_to_cook: packages,
                                                    asset_registry_data_offset: ar_off,
                                                    bulk_data_start_offset: bulk_off,
                                                    ..m
                                                },
                                                p3 + 12,
                                            ),
                                        )
                                    }
                                }
                            },
                        }
                    }
                },
            }
        },
    }
}

/// The whole summary decode: the summary together with the position after it,
/// or the first error met. `b` is the whole file, so `b.len()` is the file
/// size that offsets are validated against.
pub open spec fn spec_parse_summary(b: Seq<u8>, allow_unversioned: bool) -> Result<
    (SummaryModel, int),
    ParseError,
> {
    match stage_versions(b) {
        Err(e) => Err(e),
        Ok((m, p)) => match stage_saved_hash(b, m, p) {
            Err(e) => Err(e),
            Ok((m, p)) => match stage_custom_versions(b, m, p) {
                Err(e) => Err(e),
                Ok((m, p)) => match stage_names_block(b, m, p) {
                    Err(e) => Err(e),
                    Ok((m, p)) => match stage_descriptors(b, m, p) {
                        Err(e) => Err(e),
                        Ok((m, p)) => match stage_guids(b, m, p) {
                            Err(e) => Err(e),
                            Ok((m, p)) => match stage_generations(b, m, p) {
                                Err(e) => Err(e),
                                Ok((m, p)) => match stage_engine_versions(
                                    b,
                                    m,
                                    p,
                                    allow_unversioned,
                                ) {
                                    Err(e) => Err(e),
                                    Ok((m, p)) => match stage_compression(b, m, p) {
                                        Err(e) => Err(e),
                                        Ok((m, p)) => stage_tail(b, m, p),
                                    },
                                },
                            },
                        },
                    },
                },
            },
        },
    }
}

/// Validates one file offset against the file size: inside `[0, file_size]`
/// or the exact error carrying both values.
pub fn check_offset_value(offset: i64, file_size: u64) -> (r: Result<(), ParseError>)
    ensures
        r is Ok <==> offset_ok(offset as int, file_size as int),
        r is Err ==> r == Err::<(), ParseError>(
            ParseError::InvalidFileOffset { offset, file_size },
        ),
{
    if offset < 0 || offset as u64 > file_size {
        Err(ParseError::InvalidFileOffset { offset, file_size })
    } else {
        Ok(())
    }
}

/// Validates the saved-by engine version as [`asset_version_error`] states.
pub fn asset_version_check(major: u16, minor: u16, allow_unversioned: bool) -> (r: Result<
    (),
    ParseError,
>)
    ensures
        match asset_version_error(major, minor, allow_unversioned) {
            Some(e) => r == Err::<(), ParseError>(e),
            None => r == Ok::<(), ParseError>(()),
        },
{
    if major == 0 {
        if !allow_unversioned {
            return Err(ParseError::UnversionedAssetNotAllowed);
        }
    } else if major < MIN_SUPPORTED_MAJOR || (major == MIN_SUPPORTED_MAJOR && minor
        < MIN_SUPPORTED_MINOR) {
        return Err(ParseError::AssetVersionTooOld { major, minor });
    }
    Ok(())
}

/// Reads `n` records of `size` bytes each, as [`take_records`] states.
fn read_records(r: &mut UassetReader, n: usize, size: usize) -> (res: Result<
    Vec<Vec<u8>>,
    ParseError,
>)
    requires
        old(r).wf(),
        size >= 1,
    ensures
        final(r).wf(),
        final(r).data == old(r).data,
        match take_records(old(r).data@, old(r).pos as int, n as int, size as int) {
            Some((recs, q)) => (res matches Ok(v) && v.deep_view() == recs) && final(r).pos as int
                == q,
            None => res == Err::<Vec<Vec<u8>>, ParseError>(ParseError::Io),
        },
{
    let avail = r.data.len() - r.pos;
    proof {
        vstd::arithmetic::div_mod::lemma_fundamental_div_mod(avail as int, size as int);
        vstd::arithmetic::div_mod::lemma_mod_bound(avail as int, size as int);
    }
    if n > avail / size {
        proof {
            let q = avail as int / size as int;
            assert(n as int * size as int >= (q + 1) * size as int) by (nonlinear_arith)
                requires
                    n as int >= q + 1,
                    size as int >= 1,
            ;
            assert((q + 1) * size as int == q * size as int + size as int) by (nonlinear_arith);
            assert(size as int * q == q * size as int) by (nonlinear_arith);
            assert(avail as int == size as int * q + (avail as int % size as int));
            assert((avail as int % size as int) < size as int);
            assert(n as int * size as int > avail as int);
            assert(avail as int == r.data@.len() - r.pos as int);
            assert(r.pos as int + n as int * size as int > r.data@.len());
            assert(take_records(r.data@, r.pos as int, n as int, size as int) is None);
        }
        return Err(ParseError::Io);
    }
    proof {
        let q = avail as int / size as int;
        assert(n as int * size as int <= q * size as int) by (nonlinear_arith)
            requires
                n as int <= q,
                size as int >= 1,
        ;
        assert(size as int * q == q * size as int) by (nonlinear_arith);
        assert(avail as int == size as int * q + (avail as int % size as int));
        assert((avail as int % size as int) >= 0);
        assert(n as int * size as int <= avail as int);
        assert(r.pos as int + n as int * size as int <= r.data@.len());
    }
    let ghost b = r.data@;
    let ghost start = r.pos as int;
    let mut out: Vec<Vec<u8>> = Vec::new();
    let mut i: usize = 0;
    while i < n
        invariant
            r.wf(),
            r.data == old(r).data,
            r.data@ == b,
            i <= n,
            out@.len() == i,
            size >= 1,
            start + n as int * size as int <= b.len(),
            r.pos as int == start + i as int * size as int,
            out.deep_view() == Seq::new(
                i as nat,
                |k: int| b.subrange(start + k * size as int, start + (k + 1) * size as int),
            ),
        decreases n - i,
    {
        proof {
            assert((i as int + 1) * size as int <= n as int * size as int) by (nonlinear_arith)
                requires
                    i as int + 1 <= n as int,
                    size as int >= 0,
            ;
            assert((i as int + 1) * size as int == i as int * size as int + size as int)
                by (nonlinear_arith);
        }
        let ghost prev_dv = out.deep_view();
        let ghost prev_len = out@.len();
        let rec = match r.read_bytes(size) {
            Ok(v) => v,
            Err(_) => vstd::pervasive::unreached(),
        };
        let ghost rec_v = rec@;
        proof {
            assert(rec.deep_view() =~= rec_v);
        }
        out.push(rec);
        proof {
            let f = |k: int| b.subrange(start + k * size as int, start + (k + 1) * size as int);
            assert(out@.len() == i + 1);
            assert forall|k: int| 0 <= k < i + 1 implies out.deep_view()[k] == f(k) by {
                if k < i {
                    assert(out.deep_view()[k] == out@[k].deep_view());
                    assert(out@[k] == out@.subrange(0, prev_len as int)[k]);
                    assert(prev_dv[k] == f(k));
                } else {
                    assert(out@[k] == rec);
                    assert(rec_v == b.subrange(
                        start + i as int * size as int,
                        start + i as int * size as int + size as int,
                    ));
                    assert(out.deep_view()[k] =~= f(k));
                }
            }
            assert(out.deep_view() =~= Seq::new((i + 1) as nat, f));
        }
        i = i + 1;
    }
    Ok(out)
}

/// Reads `n` length-prefixed strings, as [`take_fstrings`] states.
fn read_fstrings(r: &mut UassetReader, n: usize) -> (res: Result<Vec<String>, ParseError>)
    requires
        old(r).wf(),
    ensures
        final(r).wf(),
        final(r).data == old(r).data,
        match take_fstrings(old(r).data@, old(r).pos as int, n as int) {
            Ok((ts, q)) => (res matches Ok(v) && v.deep_view() == ts) && final(r).pos as int == q,
            Err(e) => res == Err::<Vec<String>, ParseError>(e),
        },
{
    let ghost b = r.data@;
    let ghost start = r.pos as int;
    let mut out: Vec<String> = Vec::new();
    let mut i: usize = 0;
    while i < n
        invariant
            r.wf(),
            r.data == old(r).data,
            r.data@ == b,
            b == old(r).data@,
            start == old(r).pos as int,
            i <= n,
            take_fstrings(b, start, n as int) == (match take_fstrings(
                b,
                r.pos as int,
                n as int - i,
            ) {
                Ok(rest) => Ok::<(Seq<Seq<char>>, int), ParseError>(
                    (out.deep_view() + rest.0, rest.1),
                ),
                Err(e) => Err::<(Seq<Seq<char>>, int), ParseError>(e),
            }),
        decreases n - i,
    {
        let ghost pos0 = r.pos as int;
        let ghost prev = out.deep_view();
        proof {
            assert(take_fstrings(b, pos0, n as int - i) == (match take_fstring(b, pos0) {
                Err(e) => Err::<(Seq<Seq<char>>, int), ParseError>(e),
                Ok((t0, p1)) => match take_fstrings(b, p1, n as int - i - 1) {
                    Err(e) => Err::<(Seq<Seq<char>>, int), ParseError>(e),
                    Ok((ts, p2)) => Ok::<(Seq<Seq<char>>, int), ParseError>((seq![t0] + ts, p2)),
                },
            }));
        }
        let t = match r.read_fstring() {
            Ok(v) => v,
            Err(e) => {
                return Err(e);
            },
        };
        let ghost tv = t@;
        out.push(t);
        proof {
            assert(out.deep_view() =~= prev + seq![tv]);
            match take_fstrings(b, r.pos as int, n as int - i - 1) {
                Ok(rest) => {
                    assert(prev + (seq![tv] + rest.0) =~= (prev + seq![tv]) + rest.0);
                },
                Err(_) => {},
            }
        }
        i = i + 1;
    }
    proof {
        assert(out.deep_view() + seq![] =~= out.deep_view());
    }
    Ok(out)
}

/// Reads the magic tag, the legacy file version and the object versions, as
/// [`stage_versions`] states.
#[verifier::rlimit(50)]
fn stage_versions_exec(r: &mut UassetReader, s: &mut UassetSummary) -> (res: Result<
    (),
    ParseError,
>)
    requires
        old(r).wf(),
        old(r).pos == 0,
        old(s)@ == default_summary_model(),
    ensures
        final(r).wf(),
        final(r).data == old(r).data,
        match stage_versions(old(r).data@) {
            Ok((m, q)) => res is Ok && final(s)@ == m && final(r).pos as int == q,
            Err(e) => res == Err::<(), ParseError>(e),
        },
{
    let tag = match r.read_u32() {
        Ok(v) => v,
        Err(e) => {
            return Err(e);
        },
    };
    if tag != PACKAGE_MAGIC {
        return Err(ParseError::InvalidTag);
    }
    s.tag = tag;
    let lfv = match r.read_i32() {
        Ok(v) => v,
        Err(e) => {
            return Err(e);
        },
    };
    if !(lfv == -7 || lfv == -8 || lfv == -9) {
        return Err(ParseError::UnsupportedLegacyVersion(lfv));
    }
    s.legacy_file_version = lfv;
    let v3 = match r.read_i32() {
        Ok(v) => v,
        Err(e) => {
            return Err(e);
        },
    };
    s.legacy_ue3_version = v3;
    let v4 = match r.read_i32() {
        Ok(v) => v,
        Err(e) => {
            return Err(e);
        },
    };
    s.file_version_ue4 = v4;
    if lfv <= -8 {
        let v5 = match r.read_i32() {
            Ok(v) => v,
            Err(e) => {
                return Err(e);
            },
        };
        s.file_version_ue5 = v5;
    } else {
        s.file_version_ue5 = 0;
    }
    let lic = match r.read_u32() {
        Ok(v) => v,
        Err(e) => {
            return Err(e);
        },
    };
    s.file_version_licensee_ue4 = lic;
    proof {
        assert(s@ =~= stage_versions(old(r).data@).unwrap().0);
    }
    Ok(())
}

/// Reads the saved content hash and the early header size, as
/// [`stage_saved_hash`] states.
#[verifier::rlimit(50)]
fn stage_saved_hash_exec(r: &mut UassetReader, s: &mut UassetSummary) -> (res: Result<
    (),
    ParseError,
>)
    requires
        old(r).wf(),
    ensures
        final(r).wf(),
        final(r).data == old(r).data,
        match stage_saved_hash(old(r).data@, old(s)@, old(r).pos as int) {
            Ok((m, q)) => res is Ok && final(s)@ == m && final(r).pos as int == q,
            Err(e) => res == Err::<(), ParseError>(e),
        },
{
    if s.file_version_ue5 >= EUnrealEngineObjectUE5Version::PackageSavedHash.value() {
        let hash = match r.read_bytes(20) {
            Ok(v) => v,
            Err(e) => {
                return Err(e);
            },
        };
        proof {
            assert(hash.deep_view() =~= hash@);
        }
        s.saved_hash = Some(hash);
        let ths = match r.read_i32() {
            Ok(v) => v,
            Err(e) => {
                return Err(e);
            },
        };
        s.total_header_size = ths;
        proof {
            assert(s@ =~= stage_saved_hash(
                old(r).data@,
                old(s)@,
                old(r).pos as int,
            ).unwrap().0);
        }
    }
    Ok(())
}

/// Reads the custom-version list and the late header size, as
/// [`stage_custom_versions`] states.
#[verifier::rlimit(50)]
fn stage_custom_versions_exec(r: &mut UassetReader, s: &mut UassetSummary) -> (res: Result<
    (),
    ParseError,
>)
    requires
        old(r).wf(),
    ensures
        final(r).wf(),
        final(r).data == old(r).data,
        match stage_custom_versions(old(r).data@, old(s)@, old(r).pos as int) {
            Ok((m, q)) => res is Ok && final(s)@ == m && final(r).pos as int == q,
            Err(e) => res == Err::<(), ParseError>(e),
        },
{
    let n = match r.read_i32() {
        Ok(v) => v,
        Err(e) => {
            return Err(e);
        },
    };
    if n < 0 || n > MAX_CUSTOM_VERSIONS {
        return Err(ParseError::InvalidArraySize(n));
    }
    let recs = match read_records(r, n as usize, 20) {
        Ok(v) => v,
        Err(e) => {
            return Err(e);
        },
    };
    s.custom_versions = recs;
    if s.file_version_ue5 < EUnrealEngineObjectUE5Version::PackageSavedHash.value() {
        let ths = match r.read_i32() {
            Ok(v) => v,
            Err(e) => {
                return Err(e);
            },
        };
        s.total_header_size = ths;
    }
    proof {
        assert(s@ =~= stage_custom_versions(
            old(r).data@,
            old(s)@,
            old(r).pos as int,
        ).unwrap().0);
    }
    Ok(())
}

/// Reads the package name, the package flags, the name-table descriptor and
/// the soft-object-path descriptor, as [`stage_names_block`] states.
#[verifier::rlimit(50)]
fn stage_names_block_exec(r: &mut UassetReader, s: &mut UassetSummary) -> (res: Result<
    (),
    ParseError,
>)
    requires
        old(r).wf(),
    ensures
        final(r).wf(),
        final(r).data == old(r).data,
        match stage_names_block(old(r).data@, old(s)@, old(r).pos as int) {
            Ok((m, q)) => res is Ok && final(s)@ == m && final(r).pos as int == q,
            Err(e) => res == Err::<(), ParseError>(e),
        },
{
    let package_name = match r.read_fstring() {
        Ok(v) => v,
        Err(e) => {
            return Err(e);
        },
    };
    s.package_name = package_name;
    let package_flags = match r.read_u32() {
        Ok(v) => v,
        Err(e) => {
            return Err(e);
        },
    };
    s.package_flags = package_flags;
    let name_count = match r.read_i32() {
        Ok(v) => v,
        Err(e) => {
            return Err(e);
        },
    };
    s.name_count = name_count;
    let name_offset = match r.read_i32() {
        Ok(v) => v,
        Err(e) => {
            return Err(e);
        },
    };
    s.name_offset = name_offset;
    if s.file_version_ue5 >= EUnrealEngineObjectUE5Version::AddSoftObjectPathList.value() {
        let c = match r.read_i32() {
            Ok(v) => v,
            Err(e) => {
                return Err(e);
            },
        };
        let o = match r.read_i32() {
            Ok(v) => v,
            Err(e) => {
                return Err(e);
            },
        };
        s.soft_object_paths_count = Some(c);
        s.soft_object_paths_offset = Some(o);
    } else {
        s.soft_object_paths_count = None;
        s.soft_object_paths_offset = None;
    }
    proof {
        assert(s@ =~= stage_names_block(old(r).data@, old(s)@, old(r).pos as int).unwrap().0);
    }
    Ok(())
}

/// Reads the localization id and the section descriptors, as
/// [`stage_descriptors`] states.
#[verifier::rlimit(100)]
fn stage_descriptors_exec(r: &mut UassetReader, s: &mut UassetSummary) -> (res: Result<
    (),
    ParseError,
>)
    requires
        old(r).wf(),
    ensures
        final(r).wf(),
        final(r).data == old(r).data,
        match stage_descriptors(old(r).data@, old(s)@, old(r).pos as int) {
            Ok((m, q)) => res is Ok && final(s)@ == m && final(r).pos as int == q,
            Err(e) => res == Err::<(), ParseError>(e),
        },
{
    let localization_id = match r.read_fstring() {
        Ok(v) => v,
        Err(e) => {
            return Err(e);
        },
    };
    s.localization_id = localization_id;
    let gatherable_text_data_count = match r.read_i32() {
        Ok(v) => v,
        Err(e) => {
            return Err(e);
        },
    };
    s.gatherable_text_data_count = gatherable_text_data_count;
    let gatherable_text_data_offset = match r.read_i32() {
        Ok(v) => v,
        Err(e) => {
            return Err(e);
        },
    };
    s.gatherable_text_data_offset = gatherable_text_data_offset;
    let export_count = match r.read_i32() {
        Ok(v) => v,
        Err(e) => {
            return Err(e);
        },
    };
    s.export_count = export_count;
    let export_offset = match r.read_i32() {
        Ok(v) => v,
        Err(e) => {
            return Err(e);
        },
    };
    s.export_offset = export_offset;
    let import_count = match r.read_i32() {
        Ok(v) => v,
        Err(e) => {
            return Err(e);
        },
    };
    s.import_count = import_count;
    let import_offset = match r.read_i32() {
        Ok(v) => v,
        Err(e) => {
            return Err(e);
        },
    };
    s.import_offset = import_offset;
    if s.file_version_ue5 >= EUnrealEngineObjectUE5Version::VerseCells.value() {
        let cec = match r.read_i32() {
            Ok(v) => v,
            Err(e) => {
                return Err(e);
            },
        };
        let ceo = match r.read_i32() {
            Ok(v) => v,
            Err(e) => {
                return Err(e);
            },
        };
        let cic = match r.read_i32() {
            Ok(v) => v,
            Err(e) => {
                return Err(e);
            },
        };
        let cio = match r.read_i32() {
            Ok(v) => v,
            Err(e) => {
                return Err(e);
            },
        };
        s.cell_export_count = Some(cec);
        s.cell_export_offset = Some(ceo);
        s.cell_import_count = Some(cic);
        s.cell_import_offset = Some(cio);
    } else {
        s.cell_export_count = None;
        s.cell_export_offset = None;
        s.cell_import_count = None;
        s.cell_import_offset = None;
    }
    if s.file_version_ue5 >= EUnrealEngineObjectUE5Version::MetadataSerializationOffset.value() {
        let md = match r.read_i32() {
            Ok(v) => v,
            Err(e) => {
                return Err(e);
            },
        };
        s.metadata_offset = Some(md);
    } else {
        s.metadata_offset = None;
    }
    let depends_offset = match r.read_i32() {
        Ok(v) => v,
        Err(e) => {
            return Err(e);
        },
    };
    s.depends_offset = depends_offset;
    let soft_package_references_count = match r.read_i32() {
        Ok(v) => v,
        Err(e) => {
            return Err(e);
        },
    };
    s.soft_package_references_count = soft_package_references_count;
    let soft_package_references_offset = match r.read_i32() {
        Ok(v) => v,
        Err(e) => {
            return Err(e);
        },
    };
    s.soft_package_references_offset = soft_package_references_offset;
    let searchable_names_offset = match r.read_i32() {
        Ok(v) => v,
        Err(e) => {
            return Err(e);
        },
    };
    s.searchable_names_offset = searchable_names_offset;
    let thumbnail_table_offset = match r.read_i32() {
        Ok(v) => v,
        Err(e) => {
            return Err(e);
        },
    };
    s.thumbnail_table_offset = thumbnail_table_offset;
    proof {
        assert(s@ =~= stage_descriptors(old(r).data@, old(s)@, old(r).pos as int).unwrap().0);
    }
    Ok(())
}

/// Validates the section offsets, then reads the guids, as [`stage_guids`]
/// states.
#[verifier::rlimit(50)]
fn stage_guids_exec(r: &mut UassetReader, s: &mut UassetSummary) -> (res: Result<(), ParseError>)
    requires
        old(r).wf(),
    ensures
        final(r).wf(),
        final(r).data == old(r).data,
        match stage_guids(old(r).data@, old(s)@, old(r).pos as int) {
            Ok((m, q)) => res is Ok && final(s)@ == m && final(r).pos as int == q,
            Err(e) => res == Err::<(), ParseError>(e),
        },
{
    let file_size = r.data.len() as u64;
    match check_offset_value(s.gatherable_text_data_offset as i64, file_size) {
        Ok(()) => (),
        Err(e) => {
            return Err(e);
        },
    }
    match check_offset_value(s.export_offset as i64, file_size) {
        Ok(()) => (),
        Err(e) => {
            return Err(e);
        },
    }
    match check_offset_value(s.import_offset as i64, file_size) {
        Ok(()) => (),
        Err(e) => {
            return Err(e);
        },
    }
    match check_offset_value(s.depends_offset as i64, file_size) {
        Ok(()) => (),
        Err(e) => {
            return Err(e);
        },
    }
    match check_offset_value(s.soft_package_references_offset as i64, file_size) {
        Ok(()) => (),
        Err(e) => {
            return Err(e);
        },
    }
    match check_offset_value(s.searchable_names_offset as i64, file_size) {
        Ok(()) => (),
        Err(e) => {
            return Err(e);
        },
    }
    match check_offset_value(s.thumbnail_table_offset as i64, file_size) {
        Ok(()) => (),
        Err(e) => {
            return Err(e);
        },
    }
    if s.file_version_ue5 < EUnrealEngineObjectUE5Version::PackageSavedHash.value() {
        let g = match r.read_bytes(16) {
            Ok(v) => v,
            Err(e) => {
                return Err(e);
            },
        };
        proof {
            assert(g.deep_view() =~= g@);
        }
        s.guid = Some(g);
    } else {
        s.guid = None;
    }
    let pg = match r.read_bytes(16) {
        Ok(v) => v,
        Err(e) => {
            return Err(e);
        },
    };
    s.persistent_guid = pg;
    proof {
        assert(s@ =~= stage_guids(old(r).data@, old(s)@, old(r).pos as int).unwrap().0);
    }
    Ok(())
}

/// Computes the room left in the header before `total_header_size`, as
/// [`header_remaining`] states.
fn header_remaining_at(total_header_size: i32, pos: usize) -> (rem: u64)
    ensures
        rem as int == header_remaining(total_header_size, pos as int),
{
    if total_header_size <= 0 {
        0
    } else {
        let t = total_header_size as u64;
        if t <= pos as u64 {
            0
        } else {
            t - pos as u64
        }
    }
}

/// Reads the generation list, as [`stage_generations`] states.
#[verifier::rlimit(50)]
fn stage_generations_exec(r: &mut UassetReader, s: &mut UassetSummary) -> (res: Result<
    (),
    ParseError,
>)
    requires
        old(r).wf(),
    ensures
        final(r).wf(),
        final(r).data == old(r).data,
        match stage_generations(old(r).data@, old(s)@, old(r).pos as int) {
            Ok((m, q)) => res is Ok && final(s)@ == m && final(r).pos as int == q,
            Err(e) => res == Err::<(), ParseError>(e),
        },
{
    let remaining = header_remaining_at(s.total_header_size, r.pos);
    let max_generations = remaining / 8;
    let n = match r.read_i32() {
        Ok(v) => v,
        Err(e) => {
            return Err(e);
        },
    };
    if n < 0 || n as u64 > max_generations {
        return Err(ParseError::InvalidArraySize(n));
    }
    let recs = match read_records(r, n as usize, 8) {
        Ok(v) => v,
        Err(e) => {
            return Err(e);
        },
    };
    s.generations = recs;
    proof {
        assert(s@ =~= stage_generations(old(r).data@, old(s)@, old(r).pos as int).unwrap().0);
    }
    Ok(())
}

/// Reads the engine version records and validates the saved-by version, as
/// [`stage_engine_versions`] states.
#[verifier::rlimit(100)]
fn stage_engine_versions_exec(
    r: &mut UassetReader,
    s: &mut UassetSummary,
    allow_unversioned: bool,
) -> (res: Result<(), ParseError>)
    requires
        old(r).wf(),
    ensures
        final(r).wf(),
        final(r).data == old(r).data,
        match stage_engine_versions(old(r).data@, old(s)@, old(r).pos as int, allow_unversioned) {
            Ok((m, q)) => res is Ok && final(s)@ == m && final(r).pos as int == q,
            Err(e) => res == Err::<(), ParseError>(e),
        },
{
    let sa_major = match r.read_u16() {
        Ok(v) => v,
        Err(e) => {
            return Err(e);
        },
    };
    let sa_minor = match r.read_u16() {
        Ok(v) => v,
        Err(e) => {
            return Err(e);
        },
    };
    let sa_patch = match r.read_u16() {
        Ok(v) => v,
        Err(e) => {
            return Err(e);
        },
    };
    let sa_cl = match r.read_u32() {
        Ok(v) => v,
        Err(e) => {
            return Err(e);
        },
    };
    let sa_name = match r.read_fstring() {
        Ok(v) => v,
        Err(e) => {
            return Err(e);
        },
    };
    let co_major = match r.read_u16() {
        Ok(v) => v,
        Err(e) => {
            return Err(e);
        },
    };
    let co_minor = match r.read_u16() {
        Ok(v) => v,
        Err(e) => {
            return Err(e);
        },
    };
    let co_patch = match r.read_u16() {
        Ok(v) => v,
        Err(e) => {
            return Err(e);
        },
    };
    let co_cl = match r.read_u32() {
        Ok(v) => v,
        Err(e) => {
            return Err(e);
        },
    };
    let co_name = match r.read_fstring() {
        Ok(v) => v,
        Err(e) => {
            return Err(e);
        },
    };
    match asset_version_check(sa_major, sa_minor, allow_unversioned) {
        Ok(()) => (),
        Err(e) => {
            return Err(e);
        },
    }
    s.saved_by_engine_version_major = sa_major;
    s.saved_by_engine_version_minor = sa_minor;
    s.saved_by_engine_version_patch = sa_patch;
    s.saved_by_engine_version_changelist = sa_cl;
    s.saved_by_engine_version_name = sa_name;
    s.compatible_engine_version_major = co_major;
    s.compatible_engine_version_minor = co_minor;
    s.compatible_engine_version_patch = co_patch;
    s.compatible_engine_version_changelist = co_cl;
    s.compatible_engine_version_name = co_name;
    proof {
        assert(s@ =~= stage_engine_versions(
            old(r).data@,
            old(s)@,
            old(r).pos as int,
            allow_unversioned,
        ).unwrap().0);
    }
    Ok(())
}

/// Reads and validates the compression flags and the compressed-chunk list,
/// as [`stage_compression`] states.
#[verifier::rlimit(50)]
fn stage_compression_exec(r: &mut UassetReader, s: &mut UassetSummary) -> (res: Result<
    (),
    ParseError,
>)
    requires
        old(r).wf(),
    ensures
        final(r).wf(),
        final(r).data == old(r).data,
        match stage_compression(old(r).data@, old(s)@, old(r).pos as int) {
            Ok((m, q)) => res is Ok && final(s)@ == m && final(r).pos as int == q,
            Err(e) => res == Err::<(), ParseError>(e),
        },
{
    let flags = match r.read_u32() {
        Ok(v) => v,
        Err(e) => {
            return Err(e);
        },
    };
    if flags & !COMPRESSION_FLAGS_MASK != 0 {
        return Err(ParseError::InvalidCompressionFlags);
    }
    let remaining = header_remaining_at(s.total_header_size, r.pos);
    let max_chunks = remaining / 16;
    let n = match r.read_i32() {
        Ok(v) => v,
        Err(e) => {
            return Err(e);
        },
    };
    if n < 0 || n as u64 > max_chunks {
        return Err(ParseError::InvalidArraySize(n));
    }
    let recs = match read_records(r, n as usize, 16) {
        Ok(v) => v,
        Err(e) => {
            return Err(e);
        },
    };
    if n > 0 {
        return Err(ParseError::CompressedChunksNotSupported);
    }
    s.compression_flags = flags;
    s.compressed_chunks = recs;
    proof {
        assert(s@ =~= stage_compression(old(r).data@, old(s)@, old(r).pos as int).unwrap().0);
    }
    Ok(())
}

/// Reads the package source, the additional-packages list and the final
/// offsets, as [`stage_tail`] states.
#[verifier::rlimit(50)]
fn stage_tail_exec(r: &mut UassetReader, s: &mut UassetSummary) -> (res: Result<(), ParseError>)
    requires
        old(r).wf(),
    ensures
        final(r).wf(),
        final(r).data == old(r).data,
        match stage_tail(old(r).data@, old(s)@, old(r).pos as int) {
            Ok((m, q)) => res is Ok && final(s)@ == m && final(r).pos as int == q,
            Err(e) => res == Err::<(), ParseError>(e),
        },
{
    let package_source = match r.read_u32() {
        Ok(v) => v,
        Err(e) => {
            return Err(e);
        },
    };
    let remaining = header_remaining_at(s.total_header_size, r.pos);
    let n = match r.read_i32() {
        Ok(v) => v,
        Err(e) => {
            return Err(e);
        },
    };
    if n < 0 || n as u64 > remaining {
        return Err(ParseError::InvalidArraySize(n));
    }
    let packages = match read_fstrings(r, n as usize) {
        Ok(v) => v,
        Err(e) => {
            return Err(e);
        },
    };
    let ar_off = match r.read_i32() {
        Ok(v) => v,
        Err(e) => {
            return Err(e);
        },
    };
    let bulk_off = match r.read_i64() {
        Ok(v) => v,
        Err(e) => {
            return Err(e);
        },
    };
    let file_size = r.data.len() as u64;
    match check_offset_value(ar_off as i64, file_size) {
        Ok(()) => (),
        Err(e) => {
            return Err(e);
        },
    }
    match check_offset_value(bulk_off, file_size) {
        Ok(()) => (),
        Err(e) => {
            return Err(e);
        },
    }
    s.package_source = package_source;
    s.additional_packages_to_cook = packages;
    s.asset_registry_data_offset = ar_off;
    s.bulk_data_start_offset = bulk_off;
    proof {
        assert(s@ =~= stage_tail(old(r).data@, old(s)@, old(r).pos as int).unwrap().0);
    }
    Ok(())
}

/// Decodes the package summary from the start of the file, exactly as
/// [`spec_parse_summary`] states: the whole summary, or the first error.
#[verifier::rlimit(100)]
pub fn read_uasset_summary(r: &mut UassetReader, allow_unversioned: bool) -> (res: Result<
    UassetSummary,
    ParseError,
>)
    requires
        old(r).wf(),
    ensures
        final(r).wf(),
        final(r).data == old(r).data,
        match spec_parse_summary(old(r).data@, allow_unversioned) {
            Ok((m, q)) => (res matches Ok(s) && s@ == m) && final(r).pos as int == q,
            Err(e) => res == Err::<UassetSummary, ParseError>(e),
        },
{
    r.seek_to(0);
    let mut s = UassetSummary::default();
    match stage_versions_exec(r, &mut s) {
        Ok(()) => (),
        Err(e) => {
            return Err(e);
        },
    }
    match stage_saved_hash_exec(r, &mut s) {
        Ok(()) => (),
        Err(e) => {
            return Err(e);
        },
    }
    match stage_custom_versions_exec(r, &mut s) {
        Ok(()) => (),
        Err(e) => {
            return Err(e);
        },
    }
    match stage_names_block_exec(r, &mut s) {
        Ok(()) => (),
        Err(e) => {
            return Err(e);
        },
    }
    match stage_descriptors_exec(r, &mut s) {
        Ok(()) => (),
        Err(e) => {
            return Err(e);
        },
    }
    match stage_guids_exec(r, &mut s) {
        Ok(()) => (),
        Err(e) => {
            return Err(e);
        },
    }
    match stage_generations_exec(r, &mut s) {
        Ok(()) => (),
        Err(e) => {
            return Err(e);
        },
    }
    match stage_engine_versions_exec(r, &mut s, allow_unversioned) {
        Ok(()) => (),
        Err(e) => {
            return Err(e);
        },
    }
    match stage_compression_exec(r, &mut s) {
        Ok(()) => (),
        Err(e) => {
            return Err(e);
        },
    }
    match stage_tail_exec(r, &mut s) {
        Ok(()) => (),
        Err(e) => {
            return Err(e);
        },
    }
    Ok(s)
}

} // verus!
