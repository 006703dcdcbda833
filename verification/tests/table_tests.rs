use uasset::data_table::DataTableExport;
use uasset::data_table::PropertyData;
use uasset::data_table::StructPropertyData;
use uasset::data_table::UDataTable;
use uasset::export_table::ExportEntry;
use uasset::exports::ExportType;
use uasset::exports::ParsedExport;
use uasset::unreal_types::i32_text;
use uasset::unreal_types::name_text;
use uasset::unreal_types::FName;

fn names() -> Vec<String> {
    vec![
        "None".to_string(),
        "RowStruct".to_string(),
        "Generic".to_string(),
        "RowA".to_string(),
        "RowB".to_string(),
        "Speed".to_string(),
    ]
}

fn sample_table() -> DataTableExport {
    let properties = vec![
        PropertyData::new(FName { index: 5, number: 0 }, "IntProperty".to_string(), vec![1, 2]),
        PropertyData::new(FName { index: 1, number: 0 }, "ObjectProperty".to_string(), vec![]),
    ];
    let rows = vec![
        StructPropertyData {
            name: FName { index: 3, number: 0 },
            struct_type: FName { index: 0, number: 0 },
            data: vec![7],
        },
        StructPropertyData {
            name: FName { index: 4, number: 0 },
            struct_type: FName { index: 0, number: 0 },
            data: vec![8, 9],
        },
    ];
    DataTableExport { properties, table: UDataTable::with_data(rows) }
}

#[test]
fn data_table_new_is_empty() {
    let d = DataTableExport::new();
    assert!(d.properties.is_empty());
    assert!(d.table.data.is_empty());
    let t = UDataTable::new();
    assert!(t.data.is_empty());
}

#[test]
fn property_new_keeps_parts() {
    let p = PropertyData::new(FName { index: 2, number: 5 }, "T".to_string(), vec![1]);
    assert_eq!(p.name, FName { index: 2, number: 5 });
    assert_eq!(p.property_type, "T");
    assert_eq!(p.data, vec![1]);
}

#[test]
fn name_string_resolution() {
    let d = sample_table();
    let ns = names();
    assert_eq!(d.get_name_string(&FName { index: 2, number: 0 }, &ns), "Generic");
    assert_eq!(d.get_name_string(&FName { index: 6, number: 0 }, &ns), "InvalidName_6");
    assert_eq!(d.get_name_string(&FName { index: -1, number: 0 }, &ns), "InvalidName_-1");
    assert!(d.is_none_name(&FName { index: 0, number: 0 }, &ns));
    assert!(!d.is_none_name(&FName { index: 1, number: 0 }, &ns));
    // An out-of-range index never resolves to the absence marker.
    assert!(!d.is_none_name(&FName { index: 42, number: 0 }, &ns));
}

#[test]
fn row_struct_marker_found() {
    let d = sample_table();
    let ns = names();
    assert_eq!(d.find_row_struct_type(&ns), Some(FName { index: 0, number: 0 }));
    let mut without = sample_table();
    without.properties.pop();
    assert_eq!(without.find_row_struct_type(&ns), None);
}

#[test]
fn generic_name_index() {
    let d = sample_table();
    assert_eq!(d.get_generic_name_index(&names()), 2);
    let no_generic = vec!["None".to_string(), "Other".to_string()];
    assert_eq!(d.get_generic_name_index(&no_generic), 0);
}

#[test]
fn property_lookup_by_name() {
    let d = sample_table();
    let ns = names();
    let p = d.get_property(&"Speed".to_string(), &ns).unwrap();
    assert_eq!(p.property_type, "IntProperty");
    assert!(d.get_property(&"Missing".to_string(), &ns).is_none());
}

#[test]
fn table_entry_lookup_by_name() {
    let d = sample_table();
    let ns = names();
    let row = d.get_table_entry(&"RowB".to_string(), &ns).unwrap();
    assert_eq!(row.data, vec![8, 9]);
    assert!(d.get_table_entry(&"RowC".to_string(), &ns).is_none());
}

#[test]
fn table_entry_names_in_order() {
    let d = sample_table();
    assert_eq!(
        d.get_table_entry_names(&names()),
        vec!["RowA".to_string(), "RowB".to_string()]
    );
}

#[test]
fn decimal_text_of_integers() {
    assert_eq!(i32_text(0), "0");
    assert_eq!(i32_text(7), "7");
    assert_eq!(i32_text(10), "10");
    assert_eq!(i32_text(90210), "90210");
    assert_eq!(i32_text(-1), "-1");
    assert_eq!(i32_text(i32::MAX), "2147483647");
    assert_eq!(i32_text(i32::MIN), "-2147483648");
}

#[test]
fn free_name_text_matches_methods() {
    let ns = names();
    assert_eq!(name_text(&ns, FName { index: 3, number: 0 }), "RowA");
    assert_eq!(name_text(&ns, FName { index: 100, number: 0 }), "InvalidName_100");
}

fn entry() -> ExportEntry {
    ExportEntry {
        class_index: 0,
        super_index: 0,
        template_index: 0,
        outer_index: 0,
        object_name: FName { index: 0, number: 0 },
        object_flags: 0,
        serial_size: 0,
        serial_offset: 0,
        force_export: false,
        not_for_client: false,
        not_for_server: false,
        is_inherited_instance: false,
        package_flags: 0,
        not_always_loaded_for_editor_game: false,
        is_asset: false,
        generate_public_hash: false,
        first_export_dependency: 0,
        serialization_before_serialization_dependencies: 0,
        create_before_serialization_dependencies: 0,
        serialization_before_create_dependencies: 0,
        create_before_create_dependencies: 0,
        script_serialization_start_offset: 0,
        script_serialization_end_offset: 0,
    }
}

#[test]
fn parsed_export_normal() {
    let p = ParsedExport::new_normal(entry(), vec![1, 2, 3]);
    assert!(!p.is_data_table());
    assert!(p.as_data_table().is_none());
    match &p.export_type {
        ExportType::Normal(d) => assert_eq!(d, &vec![1, 2, 3]),
        ExportType::DataTable(_) => panic!("expected a normal export"),
    }
}

#[test]
fn parsed_export_data_table() {
    let mut p = ParsedExport::new_data_table(entry(), sample_table());
    assert!(p.is_data_table());
    assert_eq!(p.as_data_table().unwrap().table.data.len(), 2);
    let dt = p.as_data_table_mut().unwrap();
    dt.properties.clear();
    assert_eq!(p.as_data_table().unwrap().properties.len(), 0);
}
