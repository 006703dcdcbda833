//! The export table: one descriptor per serialized object in the package.
//!
//! Three fields are version-gated, two of them with intentionally asymmetric
//! comparisons inherited from the origin format: a legacy per-export guid is
//! consumed and discarded strictly below `RemoveObjectExportPackageGuid`, the
//! inherited-instance flag is read strictly *above*
//! `TrackObjectExportIsInherited` (not at it), and the generate-public-hash
//! flag is read at or above `OptionalResources`. These operators are the
//! binding contract, reproduced exactly.

use crate::bytes::take_i32;
use crate::bytes::take_i64;
use crate::bytes::take_u32;
use crate::errors::ParseError;
use crate::reader::UassetReader;
use crate::summary::SummaryModel;
use crate::unreal_types::take_fname;
use crate::unreal_types::FName;
use crate::versions::EUnrealEngineObjectUE5Version;
use vstd::prelude::*;

verus! {

/// One export-table entry: a serialized object's descriptor and its byte
/// range within the package.
#[derive(Debug, Clone, Copy, PartialEq, Eq, Structural)]
pub struct ExportEntry {
    /// Class reference: signed index into the combined import/export space
    /// (negative = import, positive = export, zero = null).
    pub class_index: i32,
    /// Superclass reference, same index space.
    pub super_index: i32,
    /// Template reference, same index space.
    pub template_index: i32,
    /// Outer-object reference, same index space.
    pub outer_index: i32,
    /// Name of the object, as a raw name reference.
    pub object_name: FName,
    /// Object flag bits.
    pub object_flags: i32,
    /// Size in bytes of the object's own serialized data.
    pub serial_size: i64,
    /// Byte offset of the object's own serialized data.
    pub serial_offset: i64,
    /// Whether the export is forced.
    pub force_export: bool,
    /// Whether the object is stripped for clients.
    pub not_for_client: bool,
    /// Whether the object is stripped for servers.
    pub not_for_server: bool,
    /// Whether the object is an inherited instance; read only strictly above
    /// `TrackObjectExportIsInherited`, else false.
    pub is_inherited_instance: bool,
    /// Package flag bits recorded on the export.
    pub package_flags: u32,
    /// Whether the object is skipped outside editor game loads.
    pub not_always_loaded_for_editor_game: bool,
    /// Whether the object is an asset.
    pub is_asset: bool,
    /// Whether a public hash is generated; read only at or above
    /// `OptionalResources`, else false.
    pub generate_public_hash: bool,
    /// First entry of this export in the dependency list.
    pub first_export_dependency: i32,
    /// Count of serialization-before-serialization dependencies.
    pub serialization_before_serialization_dependencies: i32,
    /// Count of create-before-serialization dependencies.
    pub create_before_serialization_dependencies: i32,
    /// Count of serialization-before-create dependencies.
    pub serialization_before_create_dependencies: i32,
    /// Count of create-before-create dependencies.
    pub create_before_create_dependencies: i32,
    /// Byte offset where script serialization starts.
    pub script_serialization_start_offset: i64,
    /// Byte offset where script serialization ends.
    pub script_serialization_end_offset: i64,
}

/// Decodes one export entry at `p` under the given object version.
pub open spec fn take_export_entry(b: Seq<u8>, p: int, ue5: i32) -> Result<
    (ExportEntry, int),
    ParseError,
> {
    let g: int = if ue5 < EUnrealEngineObjectUE5Version::RemoveObjectExportPackageGuid.spec_value() {
        16
    } else {
        0
    };
    let h: int = if ue5 > EUnrealEngineObjectUE5Version::TrackObjectExportIsInherited.spec_value() {
        4
    } else {
        0
    };
    let k: int = if ue5 >= EUnrealEngineObjectUE5Version::OptionalResources.spec_value() {
        4
    } else {
        0
    };
    let width: int = 104 + g + h + k;
    if 0 <= p && p + width <= b.len() {
        Ok(
            (
                ExportEntry {
                    class_index: take_i32(b, p).unwrap().0,
                    super_index: take_i32(b, p + 4).unwrap().0,
                    template_index: take_i32(b, p + 8).unwrap().0,
                    outer_index: take_i32(b, p + 12).unwrap().0,
                    object_name: take_fname(b, p + 16).unwrap().0,
                    object_flags: take_i32(b, p + 24).unwrap().0,
                    serial_size: take_i64(b, p + 28).unwrap().0,
                    serial_offset: take_i64(b, p + 36).unwrap().0,
                    force_export: take_u32(b, p + 44).unwrap().0 != 0,
                    not_for_client: take_u32(b, p + 48).unwrap().0 != 0,
                    not_for_server: take_u32(b, p + 52).unwrap().0 != 0,
                    is_inherited_instance: if h == 4 {
                        take_u32(b, p + 56 + g).unwrap().0 != 0
                    } else {
                        false
                    },
                    package_flags: take_u32(b, p + 56 + g + h).unwrap().0,
                    not_always_loaded_for_editor_game: take_u32(b, p + 60 + g + h).unwrap().0 != 0,
                    is_asset: take_u32(b, p + 64 + g + h).unwrap().0 != 0,
                    generate_public_hash: if k == 4 {
                        take_u32(b, p + 68 + g + h).unwrap().0 != 0
                    } else {
                        false
                    },
                    first_export_dependency: take_i32(b, p + 68 + g + h + k).unwrap().0,
                    serialization_before_serialization_dependencies: take_i32(
                        b,
                        p + 72 + g + h + k,
                    ).unwrap().0,
                    create_before_serialization_dependencies: take_i32(
                        b,
                        p + 76 + g + h + k,
                    ).unwrap().0,
                    serialization_before_create_dependencies: take_i32(
                        b,
                        p + 80 + g + h + k,
                    ).unwrap().0,
                    create_before_create_dependencies: take_i32(b, p + 84 + g + h + k).unwrap().0,
                    script_serialization_start_offset: take_i64(b, p + 88 + g + h + k).unwrap().0,
                    script_serialization_end_offset: take_i64(b, p + 96 + g + h + k).unwrap().0,
                },
                p + width,
            ),
        )
    } else {
        Err(ParseError::Io)
    }
}

/// Decodes `n` export entries in sequence starting at `p`.
pub open spec fn take_export_entries(b: Seq<u8>, p: int, n: int, ue5: i32) -> Result<
    (Seq<ExportEntry>, int),
    ParseError,
>
    decreases n,
{
    if n <= 0 {
        Ok((seq![], p))
    } else {
        match take_export_entry(b, p, ue5) {
            Err(e) => Err(e),
            Ok((x, p1)) => match take_export_entries(b, p1, n - 1, ue5) {
                Err(e) => Err(e),
                Ok((xs, p2)) => Ok((seq![x] + xs, p2)),
            },
        }
    }
}

/// The whole export-table read: empty when the export descriptor records no
/// table (offset not in `(0, file_size]` or count not positive), else the
/// declared number of entries decoded at the declared offset.
pub open spec fn spec_read_exports(b: Seq<u8>, m: SummaryModel) -> Result<
    Seq<ExportEntry>,
    ParseError,
> {
    if m.export_offset <= 0 || m.export_offset as int > b.len() || m.export_count <= 0 {
        Ok(seq![])
    } else {
        match take_export_entries(b, m.export_offset as int, m.export_count as int,
            m.file_version_ue5) {
            Err(e) => Err(e),
            Ok((xs, _)) => Ok(xs),
        }
    }
}

/// Reads one export entry, as [`take_export_entry`] states.
#[verifier::rlimit(100)]
fn read_export_entry(r: &mut UassetReader, ue5: i32) -> (res: Result<ExportEntry, ParseError>)
    requires
        old(r).wf(),
    ensures
        final(r).wf(),
        final(r).data == old(r).data,
        match take_export_entry(old(r).data@, old(r).pos as int, ue5) {
            Ok((x, q)) => res == Ok::<ExportEntry, ParseError>(x) && final(r).pos as int == q,
            Err(e) => res == Err::<ExportEntry, ParseError>(e),
        },
{
    let class_index = match r.read_i32() {
        Ok(v) => v,
        Err(e) => {
            return Err(e);
        },
    };
    let super_index = match r.read_i32() {
        Ok(v) => v,
        Err(e) => {
            return Err(e);
        },
    };
    let template_index = match r.read_i32() {
        Ok(v) => v,
        Err(e) => {
            return Err(e);
        },
    };
    let outer_index = match r.read_i32() {
        Ok(v) => v,
        Err(e) => {
            return Err(e);
        },
    };
    let object_name = match r.read_fname() {
        Ok(v) => v,
        Err(e) => {
            return Err(e);
        },
    };
    let object_flags = match r.read_i32() {
        Ok(v) => v,
        Err(e) => {
            return Err(e);
        },
    };
    let serial_size = match r.read_i64() {
        Ok(v) => v,
        Err(e) => {
            return Err(e);
        },
    };
    let serial_offset = match r.read_i64() {
        Ok(v) => v,
        Err(e) => {
            return Err(e);
        },
    };
    let force_export = match r.read_u32() {
        Ok(v) => v != 0,
        Err(e) => {
            return Err(e);
        },
    };
    let not_for_client = match r.read_u32() {
        Ok(v) => v != 0,
        Err(e) => {
            return Err(e);
        },
    };
    let not_for_server = match r.read_u32() {
        Ok(v) => v != 0,
        Err(e) => {
            return Err(e);
        },
    };
    if ue5 < EUnrealEngineObjectUE5Version::RemoveObjectExportPackageGuid.value() {
        match r.read_bytes(16) {
            Ok(_) => (),
            Err(e) => {
                return Err(e);
            },
        }
    }
    let is_inherited_instance = if ue5
        > EUnrealEngineObjectUE5Version::TrackObjectExportIsInherited.value() {
        match r.read_u32() {
            Ok(v) => v != 0,
            Err(e) => {
                return Err(e);
            },
        }
    } else {
        false
    };
    let package_flags = match r.read_u32() {
        Ok(v) => v,
        Err(e) => {
            return Err(e);
        },
    };
    let not_always_loaded_for_editor_game = match r.read_u32() {
        Ok(v) => v != 0,
        Err(e) => {
            return Err(e);
        },
    };
    let is_asset = match r.read_u32() {
        Ok(v) => v != 0,
        Err(e) => {
            return Err(e);
        },
    };
    let generate_public_hash = if ue5
        >= EUnrealEngineObjectUE5Version::OptionalResources.value() {
        match r.read_u32() {
            Ok(v) => v != 0,
            Err(e) => {
                return Err(e);
            },
        }
    } else {
        false
    };
    let first_export_dependency = match r.read_i32() {
        Ok(v) => v,
        Err(e) => {
            return Err(e);
        },
    };
    let serialization_before_serialization_dependencies = match r.read_i32() {
        Ok(v) => v,
        Err(e) => {
            return Err(e);
        },
    };
    let create_before_serialization_dependencies = match r.read_i32() {
        Ok(v) => v,
        Err(e) => {
            return Err(e);
        },
    };
    let serialization_before_create_dependencies = match r.read_i32() {
        Ok(v) => v,
        Err(e) => {
            return Err(e);
        },
    };
    let create_before_create_dependencies = match r.read_i32() {
        Ok(v) => v,
        Err(e) => {
            return Err(e);
        },
    };
    let script_serialization_start_offset = match r.read_i64() {
        Ok(v) => v,
        Err(e) => {
            return Err(e);
        },
    };
    let script_serialization_end_offset = match r.read_i64() {
        Ok(v) => v,
        Err(e) => {
            return Err(e);
        },
    };
    Ok(
        ExportEntry {
            class_index,
            super_index,
            template_index,
            outer_index,
            object_name,
            object_flags,
            serial_size,
            serial_offset,
            force_export,
            not_for_client,
            not_for_server,
            is_inherited_instance,
            package_flags,
            not_always_loaded_for_editor_game,
            is_asset,
            generate_public_hash,
            first_export_dependency,
            serialization_before_serialization_dependencies,
            create_before_serialization_dependencies,
            serialization_before_create_dependencies,
            create_before_create_dependencies,
            script_serialization_start_offset,
            script_serialization_end_offset,
        },
    )
}

/// Reads the whole export table, as [`spec_read_exports`] states.
#[verifier::rlimit(100)]
pub fn read_exports_from(r: &mut UassetReader, summary: &crate::summary::UassetSummary) -> (res:
    Result<Vec<ExportEntry>, ParseError>)
    requires
        old(r).wf(),
    ensures
        final(r).wf(),
        final(r).data == old(r).data,
        match spec_read_exports(old(r).data@, summary@) {
            Ok(xs) => res matches Ok(v) && v@ == xs,
            Err(e) => res == Err::<Vec<ExportEntry>, ParseError>(e),
        },
{
    let offset = summary.export_offset;
    let count = summary.export_count;
    if offset <= 0 || offset as u64 > r.data.len() as u64 || count <= 0 {
        return Ok(Vec::new());
    }
    let ue5 = summary.file_version_ue5;
    r.seek_to(offset as usize);
    let ghost b = r.data@;
    let ghost start = r.pos as int;
    let n = count as usize;
    let mut out: Vec<ExportEntry> = Vec::new();
    let mut i: usize = 0;
    while i < n
        invariant
            r.wf(),
            r.data == old(r).data,
            r.data@ == b,
            i <= n,
            take_export_entries(b, start, n as int, ue5) == (match take_export_entries(
                b,
                r.pos as int,
                n as int - i,
                ue5,
            ) {
                Ok(rest) => Ok::<(Seq<ExportEntry>, int), ParseError>((out@ + rest.0, rest.1)),
                Err(e) => Err::<(Seq<ExportEntry>, int), ParseError>(e),
            }),
            spec_read_exports(b, summary@) == (match take_export_entries(b, start, n as int, ue5) {
                Ok(rest) => Ok::<Seq<ExportEntry>, ParseError>(rest.0),
                Err(e) => Err::<Seq<ExportEntry>, ParseError>(e),
            }),
        decreases n - i,
    {
        let ghost prev = out@;
        let x = match read_export_entry(r, ue5) {
            Ok(v) => v,
            Err(e) => {
                return Err(e);
            },
        };
        out.push(x);
        proof {
            match take_export_entries(b, r.pos as int, n as int - i - 1, ue5) {
                Ok(rest) => {
                    assert(prev + (seq![x] + rest.0) =~= (prev + seq![x]) + rest.0);
                    assert(out@ =~= prev + seq![x]);
                },
                Err(_) => {},
            }
        }
        i = i + 1;
    }
    proof {
        assert(out@ + seq![] =~= out@);
    }
    Ok(out)
}

} // verus!
