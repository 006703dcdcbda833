use uasset::asset_registry::AssetRegistryData;
use uasset::errors::ParseError;
use uasset::fstring::encode_fstring;
use uasset::parser::UassetParser;
use uasset::reader::UassetReader;
use uasset::unreal_types::FName;
use uasset::versions::EUnrealEngineObjectUE5Version;

struct Params {
    legacy: i32,
    ue5: i32,
    ths: i32,
    package_name: String,
    name_count: i32,
    name_offset: i32,
    soft_pair: (i32, i32),
    gather: (i32, i32),
    export: (i32, i32),
    import: (i32, i32),
    depends: i32,
    softref: (i32, i32),
    searchable: i32,
    thumb: i32,
    saved: (u16, u16, u16, u32),
    comp_flags: u32,
    chunk_count: i32,
    ar_offset: i32,
    bulk: i64,
    custom_version_count: i32,
}

impl Default for Params {
    fn default() -> Self {
        Params {
            legacy: -8,
            ue5: 0,
            ths: 4096,
            package_name: String::new(),
            name_count: 0,
            name_offset: 0,
            soft_pair: (0, 0),
            gather: (0, 0),
            export: (0, 0),
            import: (0, 0),
            depends: 0,
            softref: (0, 0),
            searchable: 0,
            thumb: 0,
            saved: (5, 3, 0, 0),
            comp_flags: 0,
            chunk_count: 0,
            ar_offset: 0,
            bulk: 0,
            custom_version_count: 0,
        }
    }
}

fn fstr(s: &str) -> Vec<u8> {
    encode_fstring(s, false).unwrap()
}

fn build(p: &Params) -> Vec<u8> {
    let mut f: Vec<u8> = Vec::new();
    f.extend_from_slice(&0x9e2a83c1u32.to_le_bytes());
    f.extend_from_slice(&p.legacy.to_le_bytes());
    f.extend_from_slice(&0i32.to_le_bytes()); // legacy ue3 version
    f.extend_from_slice(&522i32.to_le_bytes()); // ue4 version
    if p.legacy <= -8 {
        f.extend_from_slice(&p.ue5.to_le_bytes());
    }
    f.extend_from_slice(&0u32.to_le_bytes()); // licensee version
    let hash_first = p.ue5 >= 1016;
    if hash_first {
        f.extend_from_slice(&[0u8; 20]); // saved content hash
        f.extend_from_slice(&p.ths.to_le_bytes());
    }
    f.extend_from_slice(&p.custom_version_count.to_le_bytes());
    let n = if p.custom_version_count > 0 { p.custom_version_count } else { 0 };
    for _ in 0..n {
        f.extend_from_slice(&[0u8; 20]);
    }
    if !hash_first {
        f.extend_from_slice(&p.ths.to_le_bytes());
    }
    f.extend_from_slice(&fstr(&p.package_name));
    f.extend_from_slice(&0u32.to_le_bytes()); // package flags
    f.extend_from_slice(&p.name_count.to_le_bytes());
    f.extend_from_slice(&p.name_offset.to_le_bytes());
    if p.ue5 >= 1008 {
        f.extend_from_slice(&p.soft_pair.0.to_le_bytes());
        f.extend_from_slice(&p.soft_pair.1.to_le_bytes());
    }
    f.extend_from_slice(&fstr("")); // localization id
    f.extend_from_slice(&p.gather.0.to_le_bytes());
    f.extend_from_slice(&p.gather.1.to_le_bytes());
    f.extend_from_slice(&p.export.0.to_le_bytes());
    f.extend_from_slice(&p.export.1.to_le_bytes());
    f.extend_from_slice(&p.import.0.to_le_bytes());
    f.extend_from_slice(&p.import.1.to_le_bytes());
    if p.ue5 >= 1015 {
        f.extend_from_slice(&[0u8; 16]); // cell export/import descriptors
    }
    if p.ue5 >= 1014 {
        f.extend_from_slice(&0i32.to_le_bytes()); // metadata offset
    }
    f.extend_from_slice(&p.depends.to_le_bytes());
    f.extend_from_slice(&p.softref.0.to_le_bytes());
    f.extend_from_slice(&p.softref.1.to_le_bytes());
    f.extend_from_slice(&p.searchable.to_le_bytes());
    f.extend_from_slice(&p.thumb.to_le_bytes());
    if p.ue5 < 1016 {
        f.extend_from_slice(&[0u8; 16]); // legacy guid
    }
    f.extend_from_slice(&[0u8; 16]); // persistent guid
    f.extend_from_slice(&0i32.to_le_bytes()); // generation count
    f.extend_from_slice(&p.saved.0.to_le_bytes());
    f.extend_from_slice(&p.saved.1.to_le_bytes());
    f.extend_from_slice(&p.saved.2.to_le_bytes());
    f.extend_from_slice(&p.saved.3.to_le_bytes());
    f.extend_from_slice(&fstr("5.3.0"));
    f.extend_from_slice(&5u16.to_le_bytes());
    f.extend_from_slice(&3u16.to_le_bytes());
    f.extend_from_slice(&0u16.to_le_bytes());
    f.extend_from_slice(&0u32.to_le_bytes());
    f.extend_from_slice(&fstr("5.3.0"));
    f.extend_from_slice(&p.comp_flags.to_le_bytes());
    f.extend_from_slice(&p.chunk_count.to_le_bytes());
    let c = if p.chunk_count > 0 { p.chunk_count } else { 0 };
    for _ in 0..c {
        f.extend_from_slice(&[0u8; 16]);
    }
    f.extend_from_slice(&0u32.to_le_bytes()); // package source
    f.extend_from_slice(&0i32.to_le_bytes()); // additional packages to cook
    f.extend_from_slice(&p.ar_offset.to_le_bytes());
    f.extend_from_slice(&p.bulk.to_le_bytes());
    f
}

#[test]
fn magic_tag_accepted() {
    let f = build(&Params::default());
    assert_eq!(&f[0..4], &[0xc1, 0x83, 0x2a, 0x9e]);
    let parser = UassetParser::new(f, true);
    assert!(parser.is_ok());
}

#[test]
fn magic_tag_rejected_before_anything_else() {
    let mut f = build(&Params::default());
    f[0] = 0xc2;
    assert!(matches!(UassetParser::new(f, true), Err(ParseError::InvalidTag)));
    // Even a four-byte file reports the bad tag, not the missing remainder.
    let tiny = vec![0x00u8, 0x00, 0x00, 0x00];
    assert!(matches!(UassetParser::new(tiny, true), Err(ParseError::InvalidTag)));
    // A good tag with nothing after it is a short read instead.
    let good_tiny = vec![0xc1u8, 0x83, 0x2a, 0x9e];
    assert!(matches!(UassetParser::new(good_tiny, true), Err(ParseError::Io)));
}

#[test]
fn legacy_version_acceptance_set() {
    for legacy in [-7i32, -8, -9] {
        let f = build(&Params { legacy, ..Params::default() });
        assert!(UassetParser::new(f, true).is_ok(), "legacy {legacy} must be accepted");
    }
    for legacy in [-6i32, -10, 0, 1, 42, i32::MIN, i32::MAX] {
        let f = build(&Params { legacy, ..Params::default() });
        assert_eq!(
            UassetParser::new(f, true).err().unwrap(),
            ParseError::UnsupportedLegacyVersion(legacy)
        );
    }
}

#[test]
fn fstring_round_trip_utf8_ascii() {
    let enc = encode_fstring("Hello", false).unwrap();
    assert_eq!(enc, vec![6, 0, 0, 0, b'H', b'e', b'l', b'l', b'o', 0]);
    let mut r = UassetReader::new(enc);
    assert_eq!(r.read_fstring().unwrap(), "Hello");
}

#[test]
fn fstring_round_trip_utf8_multibyte() {
    let text = "h\u{e9}llo \u{2713}";
    let enc = encode_fstring(text, false).unwrap();
    let mut r = UassetReader::new(enc);
    assert_eq!(r.read_fstring().unwrap(), text);
}

#[test]
fn fstring_round_trip_utf16() {
    let text = "h\u{e9}llo \u{2713} \u{1f600}";
    let enc = encode_fstring(text, true).unwrap();
    let len = i32::from_le_bytes([enc[0], enc[1], enc[2], enc[3]]);
    assert!(len < 0, "wide branch must store a negative length");
    let mut r = UassetReader::new(enc);
    assert_eq!(r.read_fstring().unwrap(), text);
}

#[test]
fn fstring_empty_is_length_zero() {
    assert_eq!(encode_fstring("", false).unwrap(), vec![0, 0, 0, 0]);
    assert_eq!(encode_fstring("", true).unwrap(), vec![0, 0, 0, 0]);
    let mut r = UassetReader::new(vec![0, 0, 0, 0]);
    assert_eq!(r.read_fstring().unwrap(), "");
}

#[test]
fn fstring_invalid_utf8_rejected() {
    // length 2, payload 0xff plus the NUL: 0xff is never valid UTF-8.
    let mut r = UassetReader::new(vec![2, 0, 0, 0, 0xff, 0]);
    assert_eq!(r.read_fstring().err().unwrap(), ParseError::InvalidUtf8);
    // A payload whose final byte is not the NUL is rejected too.
    let mut r2 = UassetReader::new(vec![2, 0, 0, 0, b'A', b'B']);
    assert_eq!(r2.read_fstring().err().unwrap(), ParseError::InvalidUtf8);
}

#[test]
fn fstring_invalid_utf16_rejected() {
    // two units: a lone high surrogate, then the NUL unit that is dropped.
    let mut r = UassetReader::new(vec![0xfe, 0xff, 0xff, 0xff, 0x00, 0xd8, 0x00, 0x00]);
    assert_eq!(r.read_fstring().err().unwrap(), ParseError::InvalidUtf16);
}

#[test]
fn offset_beyond_file_size_rejected() {
    let base_len = build(&Params::default()).len() as i32;
    let f = build(&Params { thumb: base_len + 1, ..Params::default() });
    let file_size = f.len() as u64;
    assert_eq!(
        UassetParser::new(f, true).err().unwrap(),
        ParseError::InvalidFileOffset { offset: (base_len + 1) as i64, file_size }
    );
}

#[test]
fn offset_check_stops_before_guids() {
    // Truncate the file right after the thumbnail offset: a bad offset is
    // reported as such, not as the short read of the guids behind it.
    let p = Params::default();
    let full = build(&p);
    // layout up to and including thumbnail offset for legacy -8, version 0:
    // 24 head + 4 custom count + 4 header size + 4 empty package name
    // + 12 flags/name table + 4 empty localization id + 24 descriptors
    // + 20 depends/soft refs/searchable/thumbnail = 96 bytes.
    let mut f = full[0..96].to_vec();
    let bad = 97i32;
    f[92..96].copy_from_slice(&bad.to_le_bytes());
    assert_eq!(
        UassetParser::new(f, true).err().unwrap(),
        ParseError::InvalidFileOffset { offset: 97, file_size: 96 }
    );
}

#[test]
fn soft_object_path_pair_consumed_only_above_milestone() {
    let below = EUnrealEngineObjectUE5Version::AddSoftObjectPathList.value() - 1;
    let at = EUnrealEngineObjectUE5Version::AddSoftObjectPathList.value();
    let f = build(&Params { ue5: below, gather: (0x31323334, 0), ..Params::default() });
    let parser = UassetParser::new(f, true).unwrap();
    assert_eq!(parser.summary.soft_object_paths_count, None);
    assert_eq!(parser.summary.soft_object_paths_offset, None);
    assert_eq!(parser.summary.gatherable_text_data_count, 0x31323334);

    let f2 = build(&Params {
        ue5: at,
        soft_pair: (7, 0),
        gather: (0x31323334, 0),
        ..Params::default()
    });
    let parser2 = UassetParser::new(f2, true).unwrap();
    assert_eq!(parser2.summary.soft_object_paths_count, Some(7));
    assert_eq!(parser2.summary.soft_object_paths_offset, Some(0));
    assert_eq!(parser2.summary.gatherable_text_data_count, 0x31323334);
}

fn export_entry_bytes(ue5: i32, inherited_word: u32) -> Vec<u8> {
    let mut e: Vec<u8> = Vec::new();
    e.extend_from_slice(&1i32.to_le_bytes()); // class index
    e.extend_from_slice(&2i32.to_le_bytes()); // super index
    e.extend_from_slice(&3i32.to_le_bytes()); // template index
    e.extend_from_slice(&4i32.to_le_bytes()); // outer index
    e.extend_from_slice(&9i32.to_le_bytes()); // object name index
    e.extend_from_slice(&1i32.to_le_bytes()); // object name number
    e.extend_from_slice(&0x11i32.to_le_bytes()); // object flags
    e.extend_from_slice(&100i64.to_le_bytes()); // serial size
    e.extend_from_slice(&200i64.to_le_bytes()); // serial offset
    e.extend_from_slice(&1u32.to_le_bytes()); // force export
    e.extend_from_slice(&0u32.to_le_bytes()); // not for client
    e.extend_from_slice(&0u32.to_le_bytes()); // not for server
    if ue5 < 1005 {
        e.extend_from_slice(&[0u8; 16]); // discarded legacy per-export guid
    }
    if ue5 > 1006 {
        e.extend_from_slice(&inherited_word.to_le_bytes());
    }
    e.extend_from_slice(&0x22u32.to_le_bytes()); // package flags
    e.extend_from_slice(&0u32.to_le_bytes()); // not always loaded
    e.extend_from_slice(&1u32.to_le_bytes()); // is asset
    if ue5 >= 1003 {
        e.extend_from_slice(&1u32.to_le_bytes()); // generate public hash
    }
    e.extend_from_slice(&5i32.to_le_bytes());
    e.extend_from_slice(&6i32.to_le_bytes());
    e.extend_from_slice(&7i32.to_le_bytes());
    e.extend_from_slice(&8i32.to_le_bytes());
    e.extend_from_slice(&9i32.to_le_bytes());
    e.extend_from_slice(&300i64.to_le_bytes());
    e.extend_from_slice(&400i64.to_le_bytes());
    e
}

#[test]
fn export_inherited_flag_not_read_at_milestone() {
    let at = EUnrealEngineObjectUE5Version::TrackObjectExportIsInherited.value();
    let base = build(&Params { ue5: at, ..Params::default() });
    let off = base.len() as i32;
    let mut f = build(&Params { ue5: at, export: (1, off), ..Params::default() });
    f.extend_from_slice(&export_entry_bytes(at, 0));
    let mut parser = UassetParser::new(f, true).unwrap();
    let exports = parser.get_exports().unwrap();
    assert_eq!(exports.len(), 1);
    // At the milestone exactly, the flag is not read and defaults to false;
    // the next word is the package flags.
    assert!(!exports[0].is_inherited_instance);
    assert_eq!(exports[0].package_flags, 0x22);
    assert_eq!(exports[0].object_name, FName { index: 9, number: 1 });
    assert_eq!(exports[0].serial_offset, 200);
    assert!(exports[0].generate_public_hash);
}

#[test]
fn export_inherited_flag_read_one_above_milestone() {
    let above = EUnrealEngineObjectUE5Version::TrackObjectExportIsInherited.value() + 1;
    let base = build(&Params { ue5: above, ..Params::default() });
    let off = base.len() as i32;
    let mut f = build(&Params { ue5: above, export: (1, off), ..Params::default() });
    f.extend_from_slice(&export_entry_bytes(above, 1));
    let mut parser = UassetParser::new(f, true).unwrap();
    let exports = parser.get_exports().unwrap();
    assert_eq!(exports.len(), 1);
    assert!(exports[0].is_inherited_instance);
    assert_eq!(exports[0].package_flags, 0x22);
}

#[test]
fn export_discarded_guid_below_milestone() {
    let below = EUnrealEngineObjectUE5Version::RemoveObjectExportPackageGuid.value() - 1;
    let base = build(&Params { ue5: below, ..Params::default() });
    let off = base.len() as i32;
    let mut f = build(&Params { ue5: below, export: (1, off), ..Params::default() });
    f.extend_from_slice(&export_entry_bytes(below, 0));
    let mut parser = UassetParser::new(f, true).unwrap();
    let exports = parser.get_exports().unwrap();
    assert_eq!(exports.len(), 1);
    assert_eq!(exports[0].package_flags, 0x22);
    assert_eq!(exports[0].create_before_create_dependencies, 9);
    assert_eq!(exports[0].script_serialization_end_offset, 400);
}

#[test]
fn export_table_absent_is_empty() {
    let f = build(&Params::default());
    let mut parser = UassetParser::new(f, true).unwrap();
    assert!(parser.get_exports().unwrap().is_empty());
}

#[test]
fn compressed_chunks_rejected() {
    let f = build(&Params { chunk_count: 1, ..Params::default() });
    assert_eq!(
        UassetParser::new(f, true).err().unwrap(),
        ParseError::CompressedChunksNotSupported
    );
}

#[test]
fn compression_flags_mask() {
    let ok = build(&Params { comp_flags: 0xff, ..Params::default() });
    assert!(UassetParser::new(ok, true).is_ok());
    let bad = build(&Params { comp_flags: 0x100, ..Params::default() });
    assert_eq!(
        UassetParser::new(bad, true).err().unwrap(),
        ParseError::InvalidCompressionFlags
    );
}

#[test]
fn unversioned_asset_policy() {
    let f = build(&Params { saved: (0, 0, 0, 0), ..Params::default() });
    assert_eq!(
        UassetParser::new(f.clone(), false).err().unwrap(),
        ParseError::UnversionedAssetNotAllowed
    );
    assert!(UassetParser::new(f, true).is_ok());
}

#[test]
fn asset_version_too_old() {
    let f = build(&Params { saved: (4, 26, 0, 0), ..Params::default() });
    assert_eq!(
        UassetParser::new(f, true).err().unwrap(),
        ParseError::AssetVersionTooOld { major: 4, minor: 26 }
    );
    let f2 = build(&Params { saved: (3, 99, 0, 0), ..Params::default() });
    assert_eq!(
        UassetParser::new(f2, true).err().unwrap(),
        ParseError::AssetVersionTooOld { major: 3, minor: 99 }
    );
    let ok = build(&Params { saved: (4, 27, 0, 0), ..Params::default() });
    assert!(UassetParser::new(ok, true).is_ok());
}

#[test]
fn custom_version_count_bounds() {
    let f = build(&Params { custom_version_count: -1, ..Params::default() });
    assert_eq!(UassetParser::new(f, true).err().unwrap(), ParseError::InvalidArraySize(-1));
    // Patch the count to one past the sanity bound; the record payload does
    // not matter because the bound check comes first.
    let mut f2 = build(&Params::default());
    f2[24..28].copy_from_slice(&100001i32.to_le_bytes());
    assert_eq!(
        UassetParser::new(f2, true).err().unwrap(),
        ParseError::InvalidArraySize(100001)
    );
}

#[test]
fn name_table_read_and_resolution() {
    let base = build(&Params::default());
    let off = base.len() as i32;
    let mut f = build(&Params { name_count: 3, name_offset: off, ..Params::default() });
    for name in ["Alpha", "None", "Generic"] {
        f.extend_from_slice(&fstr(name));
        f.extend_from_slice(&[0u8; 4]); // discarded precomputed hash
    }
    let mut parser = UassetParser::new(f, true).unwrap();
    let names = parser.get_names().unwrap().clone();
    assert_eq!(names, vec!["Alpha".to_string(), "None".to_string(), "Generic".to_string()]);
    assert_eq!(
        parser.resolve_name(&names, FName { index: 0, number: 0 }),
        Some("Alpha".to_string())
    );
    // The reserved text is the logical absence marker.
    assert_eq!(parser.resolve_name(&names, FName { index: 1, number: 0 }), None);
    // An out-of-range index is an explicit invalid name, never remapped.
    assert_eq!(
        parser.resolve_name(&names, FName { index: 7, number: 0 }),
        Some("InvalidName_7".to_string())
    );
    assert_eq!(
        parser.resolve_name(&names, FName { index: -3, number: 0 }),
        Some("InvalidName_-3".to_string())
    );
}

#[test]
fn name_table_absent_is_empty() {
    let f = build(&Params { name_count: 5, name_offset: 0, ..Params::default() });
    let mut parser = UassetParser::new(f, true).unwrap();
    assert!(parser.get_names().unwrap().is_empty());
}

fn registry_asset(path: &str, class: &str, tags: &[(&str, &str)]) -> Vec<u8> {
    let mut a: Vec<u8> = Vec::new();
    a.extend_from_slice(&fstr(path));
    a.extend_from_slice(&fstr(class));
    a.extend_from_slice(&(tags.len() as i32).to_le_bytes());
    for (k, v) in tags {
        a.extend_from_slice(&fstr(k));
        a.extend_from_slice(&fstr(v));
    }
    a
}

#[test]
fn asset_registry_truncation_keeps_decoded_prefix() {
    let base = build(&Params::default());
    let off = base.len() as i32;
    let mut f = build(&Params { ar_offset: off, ..Params::default() });
    f.extend_from_slice(&0i64.to_le_bytes()); // dependency data offset
    f.extend_from_slice(&5i32.to_le_bytes()); // five assets declared
    f.extend_from_slice(&registry_asset("A1", "C1", &[("k1", "v1")]));
    f.extend_from_slice(&registry_asset("A2", "C2", &[("k2", "v2"), ("k3", "v3")]));
    // Third asset: path, class, three declared tags, one complete pair, then
    // truncation in the middle of the second pair's value.
    f.extend_from_slice(&fstr("A3"));
    f.extend_from_slice(&fstr("C3"));
    f.extend_from_slice(&3i32.to_le_bytes());
    f.extend_from_slice(&fstr("k4"));
    f.extend_from_slice(&fstr("v4"));
    f.extend_from_slice(&fstr("k5"));
    f.extend_from_slice(&9i32.to_le_bytes()); // value claims 9 bytes, stream ends
    let mut parser = UassetParser::new(f, true).unwrap();
    let assets = parser.get_asset_registry_data().unwrap();
    assert_eq!(assets.len(), 3);
    assert_eq!(assets[0].object_path, "A1");
    assert_eq!(assets[0].object_class_name, "C1");
    assert_eq!(assets[0].tags, vec![("k1".to_string(), "v1".to_string())]);
    assert_eq!(assets[1].tags.len(), 2);
    assert_eq!(assets[2].object_path, "A3");
    assert_eq!(assets[2].object_class_name, "C3");
    assert_eq!(assets[2].tags, vec![("k4".to_string(), "v4".to_string())]);
}

#[test]
fn asset_registry_negative_count_rejected() {
    let base = build(&Params::default());
    let off = base.len() as i32;
    let mut f = build(&Params { ar_offset: off, ..Params::default() });
    f.extend_from_slice(&0i64.to_le_bytes());
    f.extend_from_slice(&(-2i32).to_le_bytes());
    let mut parser = UassetParser::new(f, true).unwrap();
    assert_eq!(
        parser.get_asset_registry_data().err().unwrap(),
        ParseError::InvalidArraySize(-2)
    );
}

#[test]
fn asset_registry_tag_lookup_last_write_wins() {
    let asset = AssetRegistryData {
        object_path: "P".to_string(),
        object_class_name: "C".to_string(),
        tags: vec![
            ("k".to_string(), "first".to_string()),
            ("other".to_string(), "x".to_string()),
            ("k".to_string(), "second".to_string()),
        ],
    };
    assert_eq!(asset.tag_value(&"k".to_string()), Some(&"second".to_string()));
    assert_eq!(asset.tag_value(&"other".to_string()), Some(&"x".to_string()));
    assert_eq!(asset.tag_value(&"missing".to_string()), None);
}

#[test]
fn thumbnail_cache_read() {
    let base = build(&Params::default());
    let off = base.len() as i32;
    let mut f = build(&Params { thumb: off, ..Params::default() });
    f.extend_from_slice(&2i32.to_le_bytes());
    f.extend_from_slice(&fstr("Texture2D"));
    f.extend_from_slice(&fstr("Foo.Bar"));
    f.extend_from_slice(&123i32.to_le_bytes());
    f.extend_from_slice(&fstr("Material"));
    f.extend_from_slice(&fstr("Baz.Qux"));
    f.extend_from_slice(&456i32.to_le_bytes());
    let mut parser = UassetParser::new(f, true).unwrap();
    let cache = parser.get_thumbnail_cache().unwrap();
    assert_eq!(cache.len(), 2);
    assert_eq!(cache[0].asset_class_name, "Texture2D");
    assert_eq!(cache[0].object_path_without_package_name, "Foo.Bar");
    assert_eq!(cache[0].file_offset, 123);
    assert_eq!(cache[1].asset_class_name, "Material");
    assert_eq!(cache[1].file_offset, 456);
}

#[test]
fn memoized_sections_survive_later_calls() {
    let base = build(&Params::default());
    let off = base.len() as i32;
    let mut f = build(&Params { name_count: 1, name_offset: off, ..Params::default() });
    f.extend_from_slice(&fstr("Only"));
    f.extend_from_slice(&[0u8; 4]);
    let mut parser = UassetParser::new(f, true).unwrap();
    let first = parser.get_names().unwrap().clone();
    // A second call returns the cached table even after other sections moved
    // the cursor.
    let _ = parser.get_thumbnail_cache().unwrap();
    let second = parser.get_names().unwrap().clone();
    assert_eq!(first, second);
    assert_eq!(first, vec!["Only".to_string()]);
}

#[test]
fn summary_fields_round_home() {
    let f = build(&Params { ue5: 1017, ..Params::default() });
    let parser = UassetParser::new(f, true).unwrap();
    let s = &parser.summary;
    assert_eq!(s.tag, 0x9e2a83c1);
    assert_eq!(s.legacy_file_version, -8);
    assert_eq!(s.file_version_ue5, 1017);
    assert!(s.saved_hash.is_some()); // 1017 is above the saved-hash milestone
    assert!(s.guid.is_none());
    assert_eq!(s.total_header_size, 4096);
    assert_eq!(s.saved_by_engine_version_major, 5);
    assert_eq!(s.saved_by_engine_version_name, "5.3.0");
    assert!(s.compressed_chunks.is_empty());
    assert!(!s.ue5_version_too_new());
    let f2 = build(&Params { ue5: 1018, ..Params::default() });
    let parser2 = UassetParser::new(f2, true).unwrap();
    assert!(parser2.summary.ue5_version_too_new());
}

#[test]
fn parser_check_helpers() {
    let f = build(&Params::default());
    let size = f.len() as u64;
    let parser = UassetParser::new(f, false).unwrap();
    assert!(parser.check_file_offset(0).is_ok());
    assert!(parser.check_file_offset(size as i64).is_ok());
    assert_eq!(
        parser.check_file_offset(-1).err().unwrap(),
        ParseError::InvalidFileOffset { offset: -1, file_size: size }
    );
    assert!(parser.check_compression_flags(0xf3).is_ok());
    assert_eq!(
        parser.check_compression_flags(0x1000).err().unwrap(),
        ParseError::InvalidCompressionFlags
    );
    assert!(parser.check_asset_version(4, 27, 0).is_ok());
    assert_eq!(
        parser.check_asset_version(0, 0, 0).err().unwrap(),
        ParseError::UnversionedAssetNotAllowed
    );
    assert_eq!(
        parser.check_asset_version(4, 0, 9).err().unwrap(),
        ParseError::AssetVersionTooOld { major: 4, minor: 0 }
    );
    assert_eq!(parser.file_size(), size);
}

#[test]
fn legacy_seven_has_no_ue5_version_field() {
    // With legacy version -7 the file has no separate field for the newer
    // object version; it defaults to zero and no gated field is present.
    let f = build(&Params { legacy: -7, ..Params::default() });
    let parser = UassetParser::new(f, true).unwrap();
    assert_eq!(parser.summary.file_version_ue5, 0);
    assert!(parser.summary.saved_hash.is_none());
    assert!(parser.summary.guid.is_some());
    assert!(parser.summary.metadata_offset.is_none());
}
