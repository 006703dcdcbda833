//! Laws of the decoder: properties that hold of every input, stated over the
//! specification functions and proved once and for all.

use crate::bytes::le_u32;
use crate::bytes::take_i32;
use crate::bytes::take_u32;
use crate::errors::ParseError;
use crate::export_table::take_export_entry;
use crate::summary::offset_ok;
use crate::summary::section_offsets_error;
use crate::summary::spec_parse_summary;
use crate::summary::stage_compression;
use crate::summary::stage_custom_versions;
use crate::summary::stage_descriptors;
use crate::summary::stage_engine_versions;
use crate::summary::stage_generations;
use crate::summary::stage_guids;
use crate::summary::stage_names_block;
use crate::summary::stage_saved_hash;
use crate::summary::stage_tail;
use crate::summary::stage_versions;
use crate::summary::take_fstrings;
use crate::fstring::take_fstring;
use crate::summary::SummaryModel;
use crate::summary::PACKAGE_MAGIC;
use crate::versions::EUnrealEngineObjectUE5Version;
use vstd::prelude::*;

verus! {

// The accepted tag value has a unique little-endian byte decomposition.
proof fn lemma_magic_bytes_unique(b0: u8, b1: u8, b2: u8, b3: u8)
    requires
        b0 + b1 * 0x100 + b2 * 0x1_0000 + b3 * 0x100_0000 == 0x9e2a_83c1,
    ensures
        b0 == 0xc1 && b1 == 0x83 && b2 == 0x2a && b3 == 0x9e,
{
}

/// The magic-tag gate: the four little-endian bytes `C1 83 2A 9E` are exactly
/// the accepted tag, and any other four opening bytes fail the whole decode
/// with `InvalidTag` before any further field is read.
pub proof fn lemma_magic_tag_gate(b: Seq<u8>, allow_unversioned: bool)
    requires
        b.len() >= 4,
    ensures
        (b[0] == 0xc1 && b[1] == 0x83 && b[2] == 0x2a && b[3] == 0x9e) <==> take_u32(
            b,
            0,
        ).unwrap().0 == PACKAGE_MAGIC,
        take_u32(b, 0).unwrap().0 != PACKAGE_MAGIC ==> spec_parse_summary(b, allow_unversioned)
            == Err::<(SummaryModel, int), ParseError>(ParseError::InvalidTag),
{
    let s = b.subrange(0, 4);
    assert(s[0] == b[0] && s[1] == b[1] && s[2] == b[2] && s[3] == b[3]);
    assert(le_u32(s) == b[0] + b[1] * 0x100 + b[2] * 0x1_0000 + b[3] * 0x100_0000);
    if take_u32(b, 0).unwrap().0 == PACKAGE_MAGIC {
        lemma_magic_bytes_unique(b[0], b[1], b[2], b[3]);
    }
}

/// The legacy-version gate: when the magic tag is right, every declared
/// legacy file version outside `{-7, -8, -9}` fails the whole decode with
/// `UnsupportedLegacyVersion` carrying that value.
pub proof fn lemma_legacy_version_gate(b: Seq<u8>, allow_unversioned: bool)
    requires
        b.len() >= 8,
        take_u32(b, 0).unwrap().0 == PACKAGE_MAGIC,
    ensures
        ({
            let v = take_i32(b, 4).unwrap().0;
            !(v == -7 || v == -8 || v == -9) ==> spec_parse_summary(b, allow_unversioned)
                == Err::<(SummaryModel, int), ParseError>(ParseError::UnsupportedLegacyVersion(v))
        }),
{
}

// A string decode never fails with the legacy-version error.
proof fn lemma_take_fstring_not_legacy(b: Seq<u8>, p: int)
    ensures
        take_fstring(b, p) matches Err(e) ==> !(e is UnsupportedLegacyVersion),
{
}

// A counted string decode never fails with the legacy-version error.
proof fn lemma_take_fstrings_not_legacy(b: Seq<u8>, p: int, n: int)
    ensures
        take_fstrings(b, p, n) matches Err(e) ==> !(e is UnsupportedLegacyVersion),
    decreases n,
{
    if n > 0 {
        lemma_take_fstring_not_legacy(b, p);
        match take_fstring(b, p) {
            Ok((_, p1)) => {
                lemma_take_fstrings_not_legacy(b, p1, n - 1);
            },
            Err(_) => {},
        }
    }
}

/// The acceptance side of the legacy-version gate: on a file that declares
/// one of the supported legacy versions, no part of the decode ever fails
/// with `UnsupportedLegacyVersion` — the set `{-7, -8, -9}` is exactly the
/// acceptance set.
pub proof fn lemma_legacy_version_accepted(b: Seq<u8>, allow_unversioned: bool)
    requires
        b.len() >= 8,
        take_u32(b, 0).unwrap().0 == PACKAGE_MAGIC,
        ({
            let v = take_i32(b, 4).unwrap().0;
            v == -7 || v == -8 || v == -9
        }),
    ensures
        match spec_parse_summary(b, allow_unversioned) {
            Err(e) => !(e is UnsupportedLegacyVersion),
            Ok(_) => true,
        },
{
    match stage_versions(b) {
        Err(_) => {},
        Ok((m1, p1)) => match stage_saved_hash(b, m1, p1) {
            Err(_) => {},
            Ok((m2, p2)) => match stage_custom_versions(b, m2, p2) {
                Err(_) => {},
                Ok((m3, p3)) => {
                    lemma_take_fstring_not_legacy(b, p3);
                    match stage_names_block(b, m3, p3) {
                        Err(_) => {},
                        Ok((m4, p4)) => {
                            lemma_take_fstring_not_legacy(b, p4);
                            match stage_descriptors(b, m4, p4) {
                                Err(_) => {},
                                Ok((m5, p5)) => match stage_guids(b, m5, p5) {
                                    Err(_) => {},
                                    Ok((m6, p6)) => match stage_generations(b, m6, p6) {
                                        Err(_) => {},
                                        Ok((m7, p7)) => {
                                            lemma_take_fstring_not_legacy(b, p7 + 10);
                                            match take_fstring(b, p7 + 10) {
                                                Ok((_, q)) => {
                                                    lemma_take_fstring_not_legacy(b, q + 10);
                                                },
                                                Err(_) => {},
                                            }
                                            match stage_engine_versions(
                                                b,
                                                m7,
                                                p7,
                                                allow_unversioned,
                                            ) {
                                                Err(_) => {},
                                                Ok((m8, p8)) => match stage_compression(
                                                    b,
                                                    m8,
                                                    p8,
                                                ) {
                                                    Err(_) => {},
                                                    Ok((m9, p9)) => {
                                                        match crate::bytes::take_i32(b, p9 + 4) {
                                                            Some((n, p10)) => {
                                                                lemma_take_fstrings_not_legacy(
                                                                    b,
                                                                    p10,
                                                                    n as int,
                                                                );
                                                            },
                                                            None => {},
                                                        }
                                                        assert(spec_parse_summary(
                                                            b,
                                                            allow_unversioned,
                                                        ) == stage_tail(b, m9, p9));
                                                    },
                                                },
                                            }
                                        },
                                    },
                                },
                            }
                        },
                    }
                },
            },
        },
    }
}

/// Every version-gated optional field of a decoded summary is present exactly
/// when the package's object version reaches the field's milestone — never
/// inferred from any other decoded state. In particular a summary below
/// `AddSoftObjectPathList` never carries a soft-object-path descriptor.
pub proof fn lemma_optional_field_presence(b: Seq<u8>, allow_unversioned: bool)
    requires
        spec_parse_summary(b, allow_unversioned) is Ok,
    ensures
        ({
            let m = spec_parse_summary(b, allow_unversioned).unwrap().0;
            &&& (m.saved_hash is Some <==> m.file_version_ue5
                >= EUnrealEngineObjectUE5Version::PackageSavedHash.spec_value())
            &&& (m.guid is Some <==> m.file_version_ue5
                < EUnrealEngineObjectUE5Version::PackageSavedHash.spec_value())
            &&& (m.soft_object_paths_count is Some <==> m.file_version_ue5
                >= EUnrealEngineObjectUE5Version::AddSoftObjectPathList.spec_value())
            &&& (m.soft_object_paths_offset is Some <==> m.file_version_ue5
                >= EUnrealEngineObjectUE5Version::AddSoftObjectPathList.spec_value())
            &&& (m.cell_export_count is Some <==> m.file_version_ue5
                >= EUnrealEngineObjectUE5Version::VerseCells.spec_value())
            &&& (m.cell_export_offset is Some <==> m.file_version_ue5
                >= EUnrealEngineObjectUE5Version::VerseCells.spec_value())
            &&& (m.cell_import_count is Some <==> m.file_version_ue5
                >= EUnrealEngineObjectUE5Version::VerseCells.spec_value())
            &&& (m.cell_import_offset is Some <==> m.file_version_ue5
                >= EUnrealEngineObjectUE5Version::VerseCells.spec_value())
            &&& (m.metadata_offset is Some <==> m.file_version_ue5
                >= EUnrealEngineObjectUE5Version::MetadataSerializationOffset.spec_value())
        }),
{
    let m1 = stage_versions(b).unwrap().0;
    let p1 = stage_versions(b).unwrap().1;
    let m2 = stage_saved_hash(b, m1, p1).unwrap().0;
    let p2 = stage_saved_hash(b, m1, p1).unwrap().1;
    let m3 = stage_custom_versions(b, m2, p2).unwrap().0;
    let p3 = stage_custom_versions(b, m2, p2).unwrap().1;
    let m4 = stage_names_block(b, m3, p3).unwrap().0;
    let p4 = stage_names_block(b, m3, p3).unwrap().1;
    let m5 = stage_descriptors(b, m4, p4).unwrap().0;
    let p5 = stage_descriptors(b, m4, p4).unwrap().1;
    let m6 = stage_guids(b, m5, p5).unwrap().0;
    let p6 = stage_guids(b, m5, p5).unwrap().1;
    let m7 = stage_generations(b, m6, p6).unwrap().0;
    let p7 = stage_generations(b, m6, p6).unwrap().1;
    let m8 = stage_engine_versions(b, m7, p7, allow_unversioned).unwrap().0;
    let p8 = stage_engine_versions(b, m7, p7, allow_unversioned).unwrap().1;
    let m9 = stage_compression(b, m8, p8).unwrap().0;
    let p9 = stage_compression(b, m8, p8).unwrap().1;
    assert(spec_parse_summary(b, allow_unversioned) == stage_tail(b, m9, p9));
}

/// Every decoded summary satisfies the summary invariants: the right magic
/// tag, a supported legacy version, compression flags within the accepted
/// mask, an empty compressed-chunk list, and every recorded section offset
/// within `[0, file_size]`.
pub proof fn lemma_summary_invariants(b: Seq<u8>, allow_unversioned: bool)
    requires
        spec_parse_summary(b, allow_unversioned) is Ok,
    ensures
        ({
            let m = spec_parse_summary(b, allow_unversioned).unwrap().0;
            &&& m.tag == PACKAGE_MAGIC
            &&& (m.legacy_file_version == -7 || m.legacy_file_version == -8
                || m.legacy_file_version == -9)
            &&& m.compression_flags & !crate::summary::COMPRESSION_FLAGS_MASK == 0
            &&& m.compressed_chunks.len() == 0
            &&& offset_ok(m.gatherable_text_data_offset as int, b.len() as int)
            &&& offset_ok(m.export_offset as int, b.len() as int)
            &&& offset_ok(m.import_offset as int, b.len() as int)
            &&& offset_ok(m.depends_offset as int, b.len() as int)
            &&& offset_ok(m.soft_package_references_offset as int, b.len() as int)
            &&& offset_ok(m.searchable_names_offset as int, b.len() as int)
            &&& offset_ok(m.thumbnail_table_offset as int, b.len() as int)
            &&& offset_ok(m.asset_registry_data_offset as int, b.len() as int)
            &&& offset_ok(m.bulk_data_start_offset as int, b.len() as int)
        }),
{
    let m1 = stage_versions(b).unwrap().0;
    let p1 = stage_versions(b).unwrap().1;
    let m2 = stage_saved_hash(b, m1, p1).unwrap().0;
    let p2 = stage_saved_hash(b, m1, p1).unwrap().1;
    let m3 = stage_custom_versions(b, m2, p2).unwrap().0;
    let p3 = stage_custom_versions(b, m2, p2).unwrap().1;
    let m4 = stage_names_block(b, m3, p3).unwrap().0;
    let p4 = stage_names_block(b, m3, p3).unwrap().1;
    let m5 = stage_descriptors(b, m4, p4).unwrap().0;
    let p5 = stage_descriptors(b, m4, p4).unwrap().1;
    let m6 = stage_guids(b, m5, p5).unwrap().0;
    let p6 = stage_guids(b, m5, p5).unwrap().1;
    let m7 = stage_generations(b, m6, p6).unwrap().0;
    let p7 = stage_generations(b, m6, p6).unwrap().1;
    let m8 = stage_engine_versions(b, m7, p7, allow_unversioned).unwrap().0;
    let p8 = stage_engine_versions(b, m7, p7, allow_unversioned).unwrap().1;
    let m9 = stage_compression(b, m8, p8).unwrap().0;
    let p9 = stage_compression(b, m8, p8).unwrap().1;
    assert(spec_parse_summary(b, allow_unversioned) == stage_tail(b, m9, p9));
    assert(section_offsets_error(m5, b.len() as int) is None);
    assert(m9.compressed_chunks.len() == 0) by {
        assert(stage_compression(b, m8, p8) is Ok);
    }
}

/// The inherited-instance boundary: at `TrackObjectExportIsInherited` exactly
/// the flag is *not* read — the entry is 108 bytes and the flag defaults to
/// false — while one version above it the flag *is* read and the entry is 112
/// bytes. The comparison is strict by design, inherited from the origin
/// format.
pub proof fn lemma_inherited_instance_boundary(b: Seq<u8>, p: int)
    ensures
        ({
            let at = EUnrealEngineObjectUE5Version::TrackObjectExportIsInherited.spec_value();
            &&& (take_export_entry(b, p, at) matches Ok(x) ==> !x.0.is_inherited_instance && x.1
                == p + 108)
            &&& (take_export_entry(b, p, (at + 1) as i32) matches Ok(x) ==> x.1 == p + 112)
        }),
{
}

/// The generate-public-hash boundary: the flag is read at or above
/// `OptionalResources` and defaults to false below it.
pub proof fn lemma_public_hash_boundary(b: Seq<u8>, p: int, ue5: i32)
    ensures
        ue5 < EUnrealEngineObjectUE5Version::OptionalResources.spec_value() ==> (take_export_entry(
            b,
            p,
            ue5,
        ) matches Ok(x) ==> !x.0.generate_public_hash),
{
}

} // verus!
