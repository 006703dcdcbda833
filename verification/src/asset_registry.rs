//! The asset-registry metadata section and the thumbnail index.
//!
//! Both sections are absent (an empty result, not an error) when their
//! recorded offset is not in `(0, file_size]`. The asset registry is the one
//! reader that tolerates trailing truncation: when a tag pair fails to decode
//! mid-stream, the result holds every fully decoded asset plus the current
//! asset with the tag pairs read before the break.

use crate::bytes::take_i32;
use crate::bytes::take_i64;
use crate::errors::ParseError;
use crate::fstring::take_fstring;
use crate::reader::UassetReader;
use crate::summary::check_offset_value;
use crate::summary::offset_ok;
use crate::summary::SummaryModel;
use crate::summary::UassetSummary;
use vstd::prelude::*;

verus! {

/// Metadata of one asset: its object path, its class name and its tag pairs.
///
/// Tag keys are not guaranteed unique; the pairs are kept in stream order and
/// a lookup takes the last pair with the key, so the last write wins.
#[derive(Debug, Clone)]
pub struct AssetRegistryData {
    /// Object path of the asset.
    pub object_path: String,
    /// Class name of the asset's object.
    pub object_class_name: String,
    /// Tag pairs (key, value) in stream order.
    pub tags: Vec<(String, String)>,
}

/// The mathematical view of an [`AssetRegistryData`].
#[verifier::ext_equal]
pub struct AssetModel {
    /// See [`AssetRegistryData::object_path`].
    pub object_path: Seq<char>,
    /// See [`AssetRegistryData::object_class_name`].
    pub object_class_name: Seq<char>,
    /// See [`AssetRegistryData::tags`].
    pub tags: Seq<(Seq<char>, Seq<char>)>,
}

impl View for AssetRegistryData {
    type V = AssetModel;

    open spec fn view(&self) -> AssetModel {
        AssetModel {
            object_path: self.object_path@,
            object_class_name: self.object_class_name@,
            tags: self.tags.deep_view(),
        }
    }
}

impl DeepView for AssetRegistryData {
    type V = AssetModel;

    open spec fn deep_view(&self) -> AssetModel {
        self.view()
    }
}

impl Default for AssetRegistryData {
    /// An asset with empty path, class name and tags.
    fn default() -> (a: Self)
        ensures
            a@.object_path == Seq::<char>::empty(),
            a@.object_class_name == Seq::<char>::empty(),
            a@.tags == Seq::<(Seq<char>, Seq<char>)>::empty(),
    {
        let a = AssetRegistryData {
            object_path: String::new(),
            object_class_name: String::new(),
            tags: Vec::new(),
        };
        proof {
            assert(a@.tags =~= Seq::<(Seq<char>, Seq<char>)>::empty());
        }
        a
    }
}

/// One thumbnail-index entry: where a cached thumbnail's payload lies.
#[derive(Debug, Clone)]
pub struct AssetData {
    /// Class name of the asset the thumbnail belongs to.
    pub asset_class_name: String,
    /// Object path without the package prefix.
    pub object_path_without_package_name: String,
    /// Byte offset of the cached thumbnail payload.
    pub file_offset: i32,
}

/// The mathematical view of an [`AssetData`].
#[verifier::ext_equal]
pub struct AssetDataModel {
    /// See [`AssetData::asset_class_name`].
    pub asset_class_name: Seq<char>,
    /// See [`AssetData::object_path_without_package_name`].
    pub object_path_without_package_name: Seq<char>,
    /// See [`AssetData::file_offset`].
    pub file_offset: i32,
}

impl View for AssetData {
    type V = AssetDataModel;

    open spec fn view(&self) -> AssetDataModel {
        AssetDataModel {
            asset_class_name: self.asset_class_name@,
            object_path_without_package_name: self.object_path_without_package_name@,
            file_offset: self.file_offset,
        }
    }
}

impl DeepView for AssetData {
    type V = AssetDataModel;

    open spec fn deep_view(&self) -> AssetDataModel {
        self.view()
    }
}

impl Default for AssetData {
    /// An entry with empty names and offset zero.
    fn default() -> (a: Self)
        ensures
            a@.asset_class_name == Seq::<char>::empty(),
            a@.object_path_without_package_name == Seq::<char>::empty(),
            a@.file_offset == 0,
    {
        AssetData {
            asset_class_name: String::new(),
            object_path_without_package_name: String::new(),
            file_offset: 0,
        }
    }
}

/// The value of the last tag pair carrying `key`, if any: the last write to a
/// repeated key wins.
pub open spec fn last_tag_value(tags: Seq<(Seq<char>, Seq<char>)>, key: Seq<char>) -> Option<
    Seq<char>,
>
    decreases tags.len(),
{
    if tags.len() == 0 {
        None
    } else if tags.last().0 == key {
        Some(tags.last().1)
    } else {
        last_tag_value(tags.drop_last(), key)
    }
}

impl AssetRegistryData {
    /// Looks up a tag by key; of repeated keys the last pair wins.
    pub fn tag_value(&self, key: &String) -> (r: Option<&String>)
        ensures
            match last_tag_value(self@.tags, key@) {
                Some(v) => r matches Some(s) && s@ == v,
                None => r is None,
            },
    {
        let mut i: usize = self.tags.len();
        proof {
            assert(self@.tags.take(i as int) =~= self@.tags);
        }
        while i > 0
            invariant
                i <= self.tags.len(),
                last_tag_value(self@.tags, key@) == last_tag_value(
                    self@.tags.take(i as int),
                    key@,
                ),
            decreases i,
        {
            i = i - 1;
            let ghost pre = self@.tags.take(i + 1 as int);
            proof {
                assert(pre.last() == self@.tags[i as int]);
                assert(pre.drop_last() =~= self@.tags.take(i as int));
            }
            if self.tags[i].0.eq(key) {
                return Some(&self.tags[i].1);
            }
        }
        proof {
            assert(self@.tags.take(0) =~= Seq::<(Seq<char>, Seq<char>)>::empty());
        }
        None
    }
}

/// Reads up to `n` tag pairs at `p`: the pairs read before the first failure,
/// the position after them, and whether all `n` were read.
pub open spec fn take_tag_pairs(b: Seq<u8>, p: int, n: int) -> (Seq<(Seq<char>, Seq<char>)>, int, bool)
    decreases n,
{
    if n <= 0 {
        (seq![], p, true)
    } else {
        match take_fstring(b, p) {
            Err(_) => (seq![], p, false),
            Ok((k, p1)) => match take_fstring(b, p1) {
                Err(_) => (seq![], p, false),
                Ok((v, p2)) => {
                    let r = take_tag_pairs(b, p2, n - 1);
                    (seq![(k, v)] + r.0, r.1, r.2)
                },
            },
        }
    }
}

/// Decodes one asset's metadata at `p`: path, class name, tag count, then up
/// to that many tag pairs; the flag says whether every declared pair was
/// read. A negative tag count reads no pairs.
pub open spec fn take_asset(b: Seq<u8>, p: int) -> Result<(AssetModel, int, bool), ParseError> {
    match take_fstring(b, p) {
        Err(e) => Err(e),
        Ok((path, p1)) => match take_fstring(b, p1) {
            Err(e) => Err(e),
            Ok((class, p2)) => match take_i32(b, p2) {
                None => Err(ParseError::Io),
                Some((ntags, p3)) => {
                    let m: int = if ntags < 0 {
                        0
                    } else {
                        ntags as int
                    };
                    let r = take_tag_pairs(b, p3, m);
                    Ok(
                        (
                            AssetModel {
                                object_path: path,
                                object_class_name: class,
                                tags: r.0,
                            },
                            r.1,
                            r.2,
                        ),
                    )
                },
            },
        },
    }
}

/// Decodes `n` assets at `p`, stopping early — with the partially decoded
/// asset included — when a tag pair fails to decode.
pub open spec fn take_assets(b: Seq<u8>, p: int, n: int) -> Result<
    (Seq<AssetModel>, int),
    ParseError,
>
    decreases n,
{
    if n <= 0 {
        Ok((seq![], p))
    } else {
        match take_asset(b, p) {
            Err(e) => Err(e),
            Ok((a, p1, complete)) => {
                if !complete {
                    Ok((seq![a], p1))
                } else {
                    match take_assets(b, p1, n - 1) {
                        Err(e) => Err(e),
                        Ok((rest, p2)) => Ok((seq![a] + rest, p2)),
                    }
                }
            },
        }
    }
}

/// The whole asset-registry read: empty when the recorded offset is not in
/// `(0, file_size]`; else a validated dependency-data offset, a non-negative
/// asset count, and that many assets with truncation tolerated.
pub open spec fn spec_read_asset_registry(b: Seq<u8>, m: SummaryModel) -> Result<
    Seq<AssetModel>,
    ParseError,
> {
    if m.asset_registry_data_offset <= 0 || m.asset_registry_data_offset as int > b.len() {
        Ok(seq![])
    } else {
        match take_i64(b, m.asset_registry_data_offset as int) {
            None => Err(ParseError::Io),
            Some((dep, p1)) => {
                if !offset_ok(dep as int, b.len() as int) {
                    Err(ParseError::InvalidFileOffset { offset: dep, file_size: b.len() as u64 })
                } else {
                    match take_i32(b, p1) {
                        None => Err(ParseError::Io),
                        Some((n, p2)) => {
                            if n < 0 {
                                Err(ParseError::InvalidArraySize(n))
                            } else {
                                match take_assets(b, p2, n as int) {
                                    Err(e) => Err(e),
                                    Ok((assets, _)) => Ok(assets),
                                }
                            }
                        },
                    }
                }
            },
        }
    }
}

/// Decodes one thumbnail-index entry at `p`.
pub open spec fn take_thumb_entry(b: Seq<u8>, p: int) -> Result<(AssetDataModel, int), ParseError> {
    match take_fstring(b, p) {
        Err(e) => Err(e),
        Ok((class, p1)) => match take_fstring(b, p1) {
            Err(e) => Err(e),
            Ok((path, p2)) => match take_i32(b, p2) {
                None => Err(ParseError::Io),
                Some((off, p3)) => Ok(
                    (
                        AssetDataModel {
                            asset_class_name: class,
                            object_path_without_package_name: path,
                            file_offset: off,
                        },
                        p3,
                    ),
                ),
            },
        },
    }
}

/// Decodes `n` thumbnail-index entries at `p`.
pub open spec fn take_thumb_entries(b: Seq<u8>, p: int, n: int) -> Result<
    (Seq<AssetDataModel>, int),
    ParseError,
>
    decreases n,
{
    if n <= 0 {
        Ok((seq![], p))
    } else {
        match take_thumb_entry(b, p) {
            Err(e) => Err(e),
            Ok((x, p1)) => match take_thumb_entries(b, p1, n - 1) {
                Err(e) => Err(e),
                Ok((xs, p2)) => Ok((seq![x] + xs, p2)),
            },
        }
    }
}

/// The whole thumbnail-index read: empty when the recorded offset is not in
/// `(0, file_size]`, else the declared number of entries; a negative count
/// reads none.
pub open spec fn spec_read_thumbnails(b: Seq<u8>, m: SummaryModel) -> Result<
    Seq<AssetDataModel>,
    ParseError,
> {
    if m.thumbnail_table_offset <= 0 || m.thumbnail_table_offset as int > b.len() {
        Ok(seq![])
    } else {
        match take_i32(b, m.thumbnail_table_offset as int) {
            None => Err(ParseError::Io),
            Some((n, p1)) => {
                let count: int = if n < 0 {
                    0
                } else {
                    n as int
                };
                match take_thumb_entries(b, p1, count) {
                    Err(e) => Err(e),
                    Ok((xs, _)) => Ok(xs),
                }
            },
        }
    }
}

/// Reads one asset's metadata, as [`take_asset`] states; the flag says
/// whether every declared tag pair was read.
fn read_one_asset(r: &mut UassetReader) -> (res: Result<(AssetRegistryData, bool), ParseError>)
    requires
        old(r).wf(),
    ensures
        final(r).wf(),
        final(r).data == old(r).data,
        match take_asset(old(r).data@, old(r).pos as int) {
            Ok((a, q, complete)) => (res matches Ok(av) && av.0@ == a && av.1 == complete)
                && final(r).pos as int == q,
            Err(e) => res == Err::<(AssetRegistryData, bool), ParseError>(e),
        },
{
    let ghost b = r.data@;
    let ghost p0 = r.pos as int;
    let object_path = match r.read_fstring() {
        Ok(v) => v,
        Err(e) => {
            return Err(e);
        },
    };
    let ghost pathv = object_path@;
    let ghost p1 = r.pos as int;
    let object_class_name = match r.read_fstring() {
        Ok(v) => v,
        Err(e) => {
            return Err(e);
        },
    };
    let ghost classv = object_class_name@;
    let ghost p2 = r.pos as int;
    let ntags = match r.read_i32() {
        Ok(v) => v,
        Err(e) => {
            return Err(e);
        },
    };
    let ghost p3 = r.pos as int;
    let m: usize = if ntags < 0 {
        0
    } else {
        ntags as usize
    };
    let mut tags: Vec<(String, String)> = Vec::new();
    let mut complete = true;
    let mut j: usize = 0;
    proof {
        assert(tags.deep_view() =~= Seq::<(Seq<char>, Seq<char>)>::empty());
        let rest = take_tag_pairs(b, p3, m as int);
        assert(tags.deep_view() + rest.0 =~= rest.0);
    }
    while j < m && complete
        invariant
            r.wf(),
            r.data == old(r).data,
            r.data@ == b,
            j <= m,
            complete ==> take_tag_pairs(b, p3, m as int) == {
                let rest = take_tag_pairs(b, r.pos as int, m as int - j);
                (tags.deep_view() + rest.0, rest.1, rest.2)
            },
            !complete ==> take_tag_pairs(b, p3, m as int) == (tags.deep_view(), r.pos as int, false),
        ensures
            complete ==> j == m,
        decreases m - j,
    {
        let ghost prev = tags.deep_view();
        let pair_start = r.pos;
        let ghost posk = r.pos as int;
        let key = match r.read_fstring() {
            Ok(v) => v,
            Err(_) => {
                complete = false;
                proof {
                    assert(take_tag_pairs(b, posk, m as int - j).0 =~= Seq::<
                        (Seq<char>, Seq<char>),
                    >::empty());
                    assert(prev + Seq::<(Seq<char>, Seq<char>)>::empty() =~= prev);
                }
                break ;
            },
        };
        let ghost keyv = key@;
        let val = match r.read_fstring() {
            Ok(v) => v,
            Err(_) => {
                complete = false;
                r.seek_to(pair_start);
                proof {
                    assert(prev + Seq::<(Seq<char>, Seq<char>)>::empty() =~= prev);
                }
                break ;
            },
        };
        let ghost valv = val@;
        tags.push((key, val));
        proof {
            assert(tags.deep_view() =~= prev + seq![(keyv, valv)]);
            let rest = take_tag_pairs(b, r.pos as int, m as int - j - 1);
            assert(prev + (seq![(keyv, valv)] + rest.0) =~= (prev + seq![(keyv, valv)]) + rest.0);
        }
        j = j + 1;
    }
    proof {
        if complete {
            assert(take_tag_pairs(b, r.pos as int, 0) == (
                Seq::<(Seq<char>, Seq<char>)>::empty(),
                r.pos as int,
                true,
            ));
            assert(tags.deep_view() + Seq::<(Seq<char>, Seq<char>)>::empty() =~= tags.deep_view());
        }
    }
    let asset = AssetRegistryData { object_path, object_class_name, tags };
    proof {
        assert(take_tag_pairs(b, p3, m as int).0 == asset@.tags);
        assert(asset@ =~= take_asset(b, p0).unwrap().0);
    }
    Ok((asset, complete))
}

/// Reads the asset-registry section, as [`spec_read_asset_registry`] states.
#[verifier::rlimit(100)]
pub fn read_asset_registry_from(r: &mut UassetReader, summary: &UassetSummary) -> (res: Result<
    Vec<AssetRegistryData>,
    ParseError,
>)
    requires
        old(r).wf(),
    ensures
        final(r).wf(),
        final(r).data == old(r).data,
        match spec_read_asset_registry(old(r).data@, summary@) {
            Ok(xs) => res matches Ok(v) && v.deep_view() == xs,
            Err(e) => res == Err::<Vec<AssetRegistryData>, ParseError>(e),
        },
{
    let offset = summary.asset_registry_data_offset;
    if offset <= 0 || offset as u64 > r.data.len() as u64 {
        let out: Vec<AssetRegistryData> = Vec::new();
        proof {
            assert(out.deep_view() =~= Seq::<AssetModel>::empty());
        }
        return Ok(out);
    }
    r.seek_to(offset as usize);
    let ghost b = r.data@;
    let dep = match r.read_i64() {
        Ok(v) => v,
        Err(e) => {
            return Err(e);
        },
    };
    match check_offset_value(dep, r.data.len() as u64) {
        Ok(()) => (),
        Err(e) => {
            return Err(e);
        },
    }
    let n_assets = match r.read_i32() {
        Ok(v) => v,
        Err(e) => {
            return Err(e);
        },
    };
    if n_assets < 0 {
        return Err(ParseError::InvalidArraySize(n_assets));
    }
    let n = n_assets as usize;
    let ghost start = r.pos as int;
    let mut out: Vec<AssetRegistryData> = Vec::new();
    let mut i: usize = 0;
    while i < n
        invariant
            r.wf(),
            r.data == old(r).data,
            r.data@ == b,
            i <= n,
            spec_read_asset_registry(b, summary@) == (match take_assets(b, start, n as int) {
                Ok(rest) => Ok::<Seq<AssetModel>, ParseError>(rest.0),
                Err(e) => Err::<Seq<AssetModel>, ParseError>(e),
            }),
            take_assets(b, start, n as int) == (match take_assets(b, r.pos as int, n as int - i) {
                Ok(rest) => Ok::<(Seq<AssetModel>, int), ParseError>(
                    (out.deep_view() + rest.0, rest.1),
                ),
                Err(e) => Err::<(Seq<AssetModel>, int), ParseError>(e),
            }),
        decreases n - i,
    {
        let ghost prev = out.deep_view();
        let (asset, complete) = match read_one_asset(r) {
            Ok(v) => v,
            Err(e) => {
                return Err(e);
            },
        };
        let ghost av = asset@;
        out.push(asset);
        proof {
            assert(out.deep_view() =~= prev + seq![av]);
        }
        if !complete {
            proof {
                assert(prev + seq![av] =~= out.deep_view());
            }
            return Ok(out);
        }
        proof {
            match take_assets(b, r.pos as int, n as int - i - 1) {
                Ok(rest) => {
                    assert(prev + (seq![av] + rest.0) =~= (prev + seq![av]) + rest.0);
                },
                Err(_) => {},
            }
        }
        i = i + 1;
    }
    proof {
        assert(out.deep_view() + Seq::<AssetModel>::empty() =~= out.deep_view());
    }
    Ok(out)
}

/// Reads the thumbnail index, as [`spec_read_thumbnails`] states.
pub fn read_thumbnails_from(r: &mut UassetReader, summary: &UassetSummary) -> (res: Result<
    Vec<AssetData>,
    ParseError,
>)
    requires
        old(r).wf(),
    ensures
        final(r).wf(),
        final(r).data == old(r).data,
        match spec_read_thumbnails(old(r).data@, summary@) {
            Ok(xs) => res matches Ok(v) && v.deep_view() == xs,
            Err(e) => res == Err::<Vec<AssetData>, ParseError>(e),
        },
{
    let offset = summary.thumbnail_table_offset;
    if offset <= 0 || offset as u64 > r.data.len() as u64 {
        let out: Vec<AssetData> = Vec::new();
        proof {
            assert(out.deep_view() =~= Seq::<AssetDataModel>::empty());
        }
        return Ok(out);
    }
    r.seek_to(offset as usize);
    let ghost b = r.data@;
    let object_count = match r.read_i32() {
        Ok(v) => v,
        Err(e) => {
            return Err(e);
        },
    };
    let n: usize = if object_count < 0 {
        0
    } else {
        object_count as usize
    };
    let ghost start = r.pos as int;
    let mut out: Vec<AssetData> = Vec::new();
    let mut i: usize = 0;
    while i < n
        invariant
            r.wf(),
            r.data == old(r).data,
            r.data@ == b,
            i <= n,
            spec_read_thumbnails(b, summary@) == (match take_thumb_entries(b, start, n as int) {
                Ok(rest) => Ok::<Seq<AssetDataModel>, ParseError>(rest.0),
                Err(e) => Err::<Seq<AssetDataModel>, ParseError>(e),
            }),
            take_thumb_entries(b, start, n as int) == (match take_thumb_entries(
                b,
                r.pos as int,
                n as int - i,
            ) {
                Ok(rest) => Ok::<(Seq<AssetDataModel>, int), ParseError>(
                    (out.deep_view() + rest.0, rest.1),
                ),
                Err(e) => Err::<(Seq<AssetDataModel>, int), ParseError>(e),
            }),
        decreases n - i,
    {
        let ghost prev = out.deep_view();
        let asset_class_name = match r.read_fstring() {
            Ok(v) => v,
            Err(e) => {
                return Err(e);
            },
        };
        let object_path_without_package_name = match r.read_fstring() {
            Ok(v) => v,
            Err(e) => {
                return Err(e);
            },
        };
        let file_offset = match r.read_i32() {
            Ok(v) => v,
            Err(e) => {
                return Err(e);
            },
        };
        let entry = AssetData {
            asset_class_name,
            object_path_without_package_name,
            file_offset,
        };
        let ghost ev = entry@;
        out.push(entry);
        proof {
            assert(out.deep_view() =~= prev + seq![ev]);
            match take_thumb_entries(b, r.pos as int, n as int - i - 1) {
                Ok(rest) => {
                    assert(prev + (seq![ev] + rest.0) =~= (prev + seq![ev]) + rest.0);
                },
                Err(_) => {},
            }
        }
        i = i + 1;
    }
    proof {
        assert(out.deep_view() + Seq::<AssetDataModel>::empty() =~= out.deep_view());
    }
    Ok(out)
}

} // verus!
