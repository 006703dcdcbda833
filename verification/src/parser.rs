//! The parser orchestrator: owns the bytes, decodes the summary eagerly at
//! construction, and decodes each section lazily on first access, caching the
//! result. A failed first access caches nothing; the next access retries the
//! decode from scratch.

use crate::asset_registry::read_asset_registry_from;
use crate::asset_registry::read_thumbnails_from;
use crate::asset_registry::spec_read_asset_registry;
use crate::asset_registry::spec_read_thumbnails;
use crate::asset_registry::AssetData;
use crate::asset_registry::AssetDataModel;
use crate::asset_registry::AssetModel;
use crate::asset_registry::AssetRegistryData;
use crate::bytes::skip_pos;
use crate::errors::ParseError;
use crate::export_table::read_exports_from;
use crate::export_table::spec_read_exports;
use crate::export_table::ExportEntry;
use crate::fstring::take_fstring;
use crate::reader::UassetReader;
use crate::summary::asset_version_error;
use crate::summary::check_offset_value;
use crate::summary::offset_ok;
use crate::summary::read_uasset_summary;
use crate::summary::spec_parse_summary;
use crate::summary::SummaryModel;
use crate::summary::UassetSummary;
use crate::summary::COMPRESSION_FLAGS_MASK;
use vstd::prelude::*;

verus! {

/// Decodes `n` name-table entries at `p`: each a length-prefixed string
/// followed by four bytes of precomputed hash, which are skipped.
pub open spec fn take_name_entries(b: Seq<u8>, p: int, n: int) -> Result<
    (Seq<Seq<char>>, int),
    ParseError,
>
    decreases n,
{
    if n <= 0 {
        Ok((seq![], p))
    } else {
        match take_fstring(b, p) {
            Err(e) => Err(e),
            Ok((t, p1)) => match take_name_entries(b, skip_pos(b, p1, 4), n - 1) {
                Err(e) => Err(e),
                Ok((ts, p2)) => Ok((seq![t] + ts, p2)),
            },
        }
    }
}

/// The whole name-table read: empty when the name descriptor records no table
/// (count not positive or offset not in `(0, file_size]`), else the declared
/// number of entries decoded at the declared offset.
pub open spec fn spec_read_names(b: Seq<u8>, m: SummaryModel) -> Result<Seq<Seq<char>>, ParseError> {
    if m.name_count <= 0 {
        Ok(seq![])
    } else if m.name_offset <= 0 || m.name_offset as int > b.len() {
        Ok(seq![])
    } else {
        match take_name_entries(b, m.name_offset as int, m.name_count as int) {
            Err(e) => Err(e),
            Ok((ns, _)) => Ok(ns),
        }
    }
}

/// Reads the name table, as [`spec_read_names`] states.
pub fn read_names_from(r: &mut UassetReader, summary: &UassetSummary) -> (res: Result<
    Vec<String>,
    ParseError,
>)
    requires
        old(r).wf(),
    ensures
        final(r).wf(),
        final(r).data == old(r).data,
        match spec_read_names(old(r).data@, summary@) {
            Ok(ns) => res matches Ok(v) && v.deep_view() == ns,
            Err(e) => res == Err::<Vec<String>, ParseError>(e),
        },
{
    if summary.name_count <= 0 {
        let out: Vec<String> = Vec::new();
        proof {
            assert(out.deep_view() =~= Seq::<Seq<char>>::empty());
        }
        return Ok(out);
    }
    let offset = summary.name_offset;
    if offset <= 0 || offset as u64 > r.data.len() as u64 {
        let out: Vec<String> = Vec::new();
        proof {
            assert(out.deep_view() =~= Seq::<Seq<char>>::empty());
        }
        return Ok(out);
    }
    r.seek_to(offset as usize);
    let ghost b = r.data@;
    let ghost start = r.pos as int;
    let n = summary.name_count as usize;
    let mut out: Vec<String> = Vec::new();
    let mut i: usize = 0;
    while i < n
        invariant
            r.wf(),
            r.data == old(r).data,
            r.data@ == b,
            i <= n,
            spec_read_names(b, summary@) == (match take_name_entries(b, start, n as int) {
                Ok(rest) => Ok::<Seq<Seq<char>>, ParseError>(rest.0),
                Err(e) => Err::<Seq<Seq<char>>, ParseError>(e),
            }),
            take_name_entries(b, start, n as int) == (match take_name_entries(
                b,
                r.pos as int,
                n as int - i,
            ) {
                Ok(rest) => Ok::<(Seq<Seq<char>>, int), ParseError>(
                    (out.deep_view() + rest.0, rest.1),
                ),
                Err(e) => Err::<(Seq<Seq<char>>, int), ParseError>(e),
            }),
        decreases n - i,
    {
        let ghost prev = out.deep_view();
        let t = match r.read_fstring() {
            Ok(v) => v,
            Err(e) => {
                return Err(e);
            },
        };
        let ghost tv = t@;
        r.skip_bytes(4);
        out.push(t);
        proof {
            assert(out.deep_view() =~= prev + seq![tv]);
            match take_name_entries(b, r.pos as int, n as int - i - 1) {
                Ok(rest) => {
                    assert(prev + (seq![tv] + rest.0) =~= (prev + seq![tv]) + rest.0);
                },
                Err(_) => {},
            }
        }
        i = i + 1;
    }
    proof {
        assert(out.deep_view() + Seq::<Seq<char>>::empty() =~= out.deep_view());
    }
    Ok(out)
}

/// A package parser over an in-memory byte buffer.
///
/// The summary is decoded once at construction; each section is decoded at
/// most once, on first access, and cached for the parser's lifetime.
pub struct UassetParser {
    reader: UassetReader,
    package_file_size: u64,
    allow_unversioned: bool,
    /// The package summary, decoded at construction.
    pub summary: UassetSummary,
    names: Option<Vec<String>>,
    asset_registry_data: Option<Vec<AssetRegistryData>>,
    thumbnail_cache: Option<Vec<AssetData>>,
    export: Option<Vec<ExportEntry>>,
}

impl UassetParser {
    /// The bytes of the package file the parser was built over.
    pub closed spec fn data_spec(&self) -> Seq<u8> {
        self.reader.data@
    }

    /// Whether the caller allowed unversioned assets.
    pub closed spec fn allow_unversioned_spec(&self) -> bool {
        self.allow_unversioned
    }

    /// The decoded summary, as a mathematical value.
    pub closed spec fn summary_spec(&self) -> SummaryModel {
        self.summary@
    }

    /// Well-formedness: the summary is the one decoded from the bytes, and
    /// every cached section equals its section's decode.
    pub closed spec fn wf(&self) -> bool {
        &&& self.reader.wf()
        &&& self.package_file_size as int == self.reader.data@.len()
        &&& (spec_parse_summary(self.reader.data@, self.allow_unversioned) matches Ok(mq)
            && mq.0 == self.summary@)
        &&& (self.names matches Some(v) ==> spec_read_names(self.reader.data@, self.summary@)
            == Ok::<Seq<Seq<char>>, ParseError>(v.deep_view()))
        &&& (self.asset_registry_data matches Some(v) ==> spec_read_asset_registry(
            self.reader.data@,
            self.summary@,
        ) == Ok::<Seq<AssetModel>, ParseError>(v.deep_view()))
        &&& (self.thumbnail_cache matches Some(v) ==> spec_read_thumbnails(
            self.reader.data@,
            self.summary@,
        ) == Ok::<Seq<AssetDataModel>, ParseError>(v.deep_view()))
        &&& (self.export matches Some(v) ==> spec_read_exports(self.reader.data@, self.summary@)
            == Ok::<Seq<ExportEntry>, ParseError>(v@))
    }

    /// Builds a parser over the package bytes: decodes the summary eagerly
    /// and fails with its exact error when the summary decode fails.
    pub fn new(data: Vec<u8>, allow_unversioned: bool) -> (res: Result<UassetParser, ParseError>)
        ensures
            match spec_parse_summary(data@, allow_unversioned) {
                Ok((m, q)) => res matches Ok(p) && p.wf() && p.summary_spec() == m && p.data_spec()
                    == data@ && p.allow_unversioned_spec() == allow_unversioned,
                Err(e) => res == Err::<UassetParser, ParseError>(e),
            },
    {
        let mut reader = UassetReader::new(data);
        let package_file_size = reader.data.len() as u64;
        let summary = match read_uasset_summary(&mut reader, allow_unversioned) {
            Ok(s) => s,
            Err(e) => {
                return Err(e);
            },
        };
        Ok(
            UassetParser {
                reader,
                package_file_size,
                allow_unversioned,
                summary,
                names: None,
                asset_registry_data: None,
                thumbnail_cache: None,
                export: None,
            },
        )
    }

    /// The size in bytes of the package file.
    pub fn file_size(&self) -> (n: u64)
        requires
            self.wf(),
        ensures
            n as int == self.data_spec().len(),
    {
        self.package_file_size
    }

    /// Validates one file offset against the package's file size, as the
    /// summary decoder does for each recorded offset.
    pub fn check_file_offset(&self, offset: i64) -> (r: Result<(), ParseError>)
        requires
            self.wf(),
        ensures
            r is Ok <==> offset_ok(offset as int, self.data_spec().len() as int),
            r is Err ==> r == Err::<(), ParseError>(
                ParseError::InvalidFileOffset {
                    offset,
                    file_size: self.data_spec().len() as u64,
                },
            ),
    {
        check_offset_value(offset, self.package_file_size)
    }

    /// Validates compression flags: every bit outside the accepted mask is an
    /// error.
    pub fn check_compression_flags(&self, flags: u32) -> (r: Result<(), ParseError>)
        ensures
            r is Ok <==> flags & !COMPRESSION_FLAGS_MASK == 0,
            r is Err ==> r == Err::<(), ParseError>(ParseError::InvalidCompressionFlags),
    {
        if flags & !COMPRESSION_FLAGS_MASK != 0 {
            Err(ParseError::InvalidCompressionFlags)
        } else {
            Ok(())
        }
    }

    /// Validates a saved-by engine version against this parser's unversioned
    /// policy, as [`asset_version_error`] states; the patch level plays no
    /// part.
    pub fn check_asset_version(&self, major: u16, minor: u16, _patch: u16) -> (r: Result<
        (),
        ParseError,
    >)
        ensures
            match asset_version_error(major, minor, self.allow_unversioned_spec()) {
                Some(e) => r == Err::<(), ParseError>(e),
                None => r == Ok::<(), ParseError>(()),
            },
    {
        crate::summary::asset_version_check(major, minor, self.allow_unversioned)
    }

    /// The name table, decoded on first call and cached; a failed decode
    /// caches nothing and the next call retries.
    pub fn get_names(&mut self) -> (res: Result<&Vec<String>, ParseError>)
        requires
            old(self).wf(),
        ensures
            final(self).wf(),
            final(self).data_spec() == old(self).data_spec(),
            final(self).summary_spec() == old(self).summary_spec(),
            final(self).allow_unversioned_spec() == old(self).allow_unversioned_spec(),
            match spec_read_names(old(self).data_spec(), old(self).summary_spec()) {
                Ok(ns) => res matches Ok(v) && v.deep_view() == ns,
                Err(e) => res == Err::<&Vec<String>, ParseError>(e),
            },
    {
        if self.names.is_none() {
            let ns = match read_names_from(&mut self.reader, &self.summary) {
                Ok(v) => v,
                Err(e) => {
                    return Err(e);
                },
            };
            self.names = Some(ns);
        }
        match &self.names {
            Some(v) => Ok(v),
            None => vstd::pervasive::unreached(),
        }
    }

    /// The asset-registry metadata, decoded on first call and cached; a
    /// failed decode caches nothing and the next call retries.
    pub fn get_asset_registry_data(&mut self) -> (res: Result<&Vec<AssetRegistryData>, ParseError>)
        requires
            old(self).wf(),
        ensures
            final(self).wf(),
            final(self).data_spec() == old(self).data_spec(),
            final(self).summary_spec() == old(self).summary_spec(),
            final(self).allow_unversioned_spec() == old(self).allow_unversioned_spec(),
            match spec_read_asset_registry(old(self).data_spec(), old(self).summary_spec()) {
                Ok(xs) => res matches Ok(v) && v.deep_view() == xs,
                Err(e) => res == Err::<&Vec<AssetRegistryData>, ParseError>(e),
            },
    {
        if self.asset_registry_data.is_none() {
            let xs = match read_asset_registry_from(&mut self.reader, &self.summary) {
                Ok(v) => v,
                Err(e) => {
                    return Err(e);
                },
            };
            self.asset_registry_data = Some(xs);
        }
        match &self.asset_registry_data {
            Some(v) => Ok(v),
            None => vstd::pervasive::unreached(),
        }
    }

    /// The thumbnail index, decoded on first call and cached; a failed decode
    /// caches nothing and the next call retries.
    pub fn get_thumbnail_cache(&mut self) -> (res: Result<&Vec<AssetData>, ParseError>)
        requires
            old(self).wf(),
        ensures
            final(self).wf(),
            final(self).data_spec() == old(self).data_spec(),
            final(self).summary_spec() == old(self).summary_spec(),
            final(self).allow_unversioned_spec() == old(self).allow_unversioned_spec(),
            match spec_read_thumbnails(old(self).data_spec(), old(self).summary_spec()) {
                Ok(xs) => res matches Ok(v) && v.deep_view() == xs,
                Err(e) => res == Err::<&Vec<AssetData>, ParseError>(e),
            },
    {
        if self.thumbnail_cache.is_none() {
            let xs = match read_thumbnails_from(&mut self.reader, &self.summary) {
                Ok(v) => v,
                Err(e) => {
                    return Err(e);
                },
            };
            self.thumbnail_cache = Some(xs);
        }
        match &self.thumbnail_cache {
            Some(v) => Ok(v),
            None => vstd::pervasive::unreached(),
        }
    }

    /// The export table, decoded on first call and cached; a failed decode
    /// caches nothing and the next call retries.
    pub fn get_exports(&mut self) -> (res: Result<&Vec<ExportEntry>, ParseError>)
        requires
            old(self).wf(),
        ensures
            final(self).wf(),
            final(self).data_spec() == old(self).data_spec(),
            final(self).summary_spec() == old(self).summary_spec(),
            final(self).allow_unversioned_spec() == old(self).allow_unversioned_spec(),
            match spec_read_exports(old(self).data_spec(), old(self).summary_spec()) {
                Ok(xs) => res matches Ok(v) && v@ == xs,
                Err(e) => res == Err::<&Vec<ExportEntry>, ParseError>(e),
            },
    {
        if self.export.is_none() {
            let xs = match read_exports_from(&mut self.reader, &self.summary) {
                Ok(v) => v,
                Err(e) => {
                    return Err(e);
                },
            };
            self.export = Some(xs);
        }
        match &self.export {
            Some(v) => Ok(v),
            None => vstd::pervasive::unreached(),
        }
    }

    /// Resolves a raw name reference against the name table, which must have
    /// been loaded: the named text, or `None` for the reserved absence marker
    /// or an out-of-range index.
    pub fn resolve_name(&self, names: &Vec<String>, f: crate::unreal_types::FName) -> (r: Option<
        String,
    >)
        ensures
            match crate::unreal_types::spec_resolve_name(names.deep_view(), f) {
                Some(t) => r matches Some(s) && s@ == t,
                None => r is None,
            },
    {
        crate::unreal_types::resolve_name_in(names, f)
    }
}

} // verus!
