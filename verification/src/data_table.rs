//! Data-table export values: decoded properties, table rows, and lookups over
//! them by resolved name. The deeper structured-property decoding itself is
//! not part of this library.

use crate::unreal_types::none_marker;
use crate::unreal_types::name_is_none;
use crate::unreal_types::name_text;
use crate::unreal_types::spec_name_text;
use crate::unreal_types::FName;
use vstd::prelude::*;

verus! {

/// One decoded property: its name reference, its resolved type name and its
/// raw value bytes.
#[derive(Debug, Clone)]
pub struct PropertyData {
    /// Name reference of the property.
    pub name: FName,
    /// Resolved type name of the property.
    pub property_type: String,
    /// Raw value bytes of the property.
    pub data: Vec<u8>,
}

/// The mathematical view of a [`PropertyData`].
#[verifier::ext_equal]
pub struct PropertyModel {
    /// See [`PropertyData::name`].
    pub name: FName,
    /// See [`PropertyData::property_type`].
    pub property_type: Seq<char>,
    /// See [`PropertyData::data`].
    pub data: Seq<u8>,
}

impl View for PropertyData {
    type V = PropertyModel;

    open spec fn view(&self) -> PropertyModel {
        PropertyModel {
            name: self.name,
            property_type: self.property_type@,
            data: self.data@,
        }
    }
}

impl DeepView for PropertyData {
    type V = PropertyModel;

    open spec fn deep_view(&self) -> PropertyModel {
        self.view()
    }
}

impl PropertyData {
    /// Builds a property from its parts.
    pub fn new(name: FName, property_type: String, data: Vec<u8>) -> (p: Self)
        ensures
            p@.name == name,
            p@.property_type == property_type@,
            p@.data == data@,
    {
        PropertyData { name, property_type, data }
    }
}

/// One table row: its name reference, the row struct's type reference and the
/// row's raw value bytes.
#[derive(Debug, Clone)]
pub struct StructPropertyData {
    /// Name reference of the row.
    pub name: FName,
    /// Type reference of the row struct.
    pub struct_type: FName,
    /// Raw value bytes of the row.
    pub data: Vec<u8>,
}

/// The mathematical view of a [`StructPropertyData`].
#[verifier::ext_equal]
pub struct StructPropertyModel {
    /// See [`StructPropertyData::name`].
    pub name: FName,
    /// See [`StructPropertyData::struct_type`].
    pub struct_type: FName,
    /// See [`StructPropertyData::data`].
    pub data: Seq<u8>,
}

impl View for StructPropertyData {
    type V = StructPropertyModel;

    open spec fn view(&self) -> StructPropertyModel {
        StructPropertyModel {
            name: self.name,
            struct_type: self.struct_type,
            data: self.data@,
        }
    }
}

impl DeepView for StructPropertyData {
    type V = StructPropertyModel;

    open spec fn deep_view(&self) -> StructPropertyModel {
        self.view()
    }
}

/// A data table: its rows in on-disk order.
#[derive(Debug)]
pub struct UDataTable {
    /// The rows of the table.
    pub data: Vec<StructPropertyData>,
}

impl View for UDataTable {
    type V = Seq<StructPropertyModel>;

    open spec fn view(&self) -> Seq<StructPropertyModel> {
        self.data.deep_view()
    }
}

impl UDataTable {
    /// An empty table.
    pub fn new() -> (t: Self)
        ensures
            t@ == Seq::<StructPropertyModel>::empty(),
    {
        let t = UDataTable { data: Vec::new() };
        proof {
            assert(t@ =~= Seq::<StructPropertyModel>::empty());
        }
        t
    }

    /// A table holding the given rows.
    pub fn with_data(data: Vec<StructPropertyData>) -> (t: Self)
        ensures
            t@ == data.deep_view(),
    {
        UDataTable { data }
    }
}

/// A decoded data-table export: its plain properties and its row table.
#[derive(Debug)]
pub struct DataTableExport {
    /// The export's plain properties, in stream order.
    pub properties: Vec<PropertyData>,
    /// The export's row table.
    pub table: UDataTable,
}

/// The mathematical view of a [`DataTableExport`].
#[verifier::ext_equal]
pub struct DataTableModel {
    /// See [`DataTableExport::properties`].
    pub properties: Seq<PropertyModel>,
    /// See [`DataTableExport::table`].
    pub table: Seq<StructPropertyModel>,
}

impl View for DataTableExport {
    type V = DataTableModel;

    open spec fn view(&self) -> DataTableModel {
        DataTableModel { properties: self.properties.deep_view(), table: self.table@ }
    }
}

/// The first property matching the key text, in stream order.
pub open spec fn spec_get_property(
    props: Seq<PropertyModel>,
    names: Seq<Seq<char>>,
    key: Seq<char>,
) -> Option<PropertyModel>
    decreases props.len(),
{
    if props.len() == 0 {
        None
    } else if spec_name_text(names, props[0].name) == key {
        Some(props[0])
    } else {
        spec_get_property(props.drop_first(), names, key)
    }
}

/// The first table row matching the key text, in table order.
pub open spec fn spec_get_table_entry(
    rows: Seq<StructPropertyModel>,
    names: Seq<Seq<char>>,
    key: Seq<char>,
) -> Option<StructPropertyModel>
    decreases rows.len(),
{
    if rows.len() == 0 {
        None
    } else if spec_name_text(names, rows[0].name) == key {
        Some(rows[0])
    } else {
        spec_get_table_entry(rows.drop_first(), names, key)
    }
}

/// Whether a property is the row-struct marker: named `RowStruct` with type
/// `ObjectProperty`.
pub open spec fn is_row_struct_property(p: PropertyModel, names: Seq<Seq<char>>) -> bool {
    spec_name_text(names, p.name) == "RowStruct"@ && p.property_type == "ObjectProperty"@
}

/// The row-struct type decided by the properties: a placeholder reference
/// when some property is the row-struct marker, else nothing.
pub open spec fn spec_row_struct_type(props: Seq<PropertyModel>, names: Seq<Seq<char>>) -> Option<
    FName,
>
    decreases props.len(),
{
    if props.len() == 0 {
        None
    } else if is_row_struct_property(props[0], names) {
        Some(FName { index: 0, number: 0 })
    } else {
        spec_row_struct_type(props.drop_first(), names)
    }
}

/// The first index of `key` in the name table, or zero when absent.
pub open spec fn spec_name_index_or_zero(names: Seq<Seq<char>>, key: Seq<char>, i: int) -> int
    decreases names.len() - i,
{
    if i < 0 || i >= names.len() {
        0
    } else if names[i] == key {
        i
    } else {
        spec_name_index_or_zero(names, key, i + 1)
    }
}

impl DataTableExport {
    /// An export with no properties and an empty table.
    pub fn new() -> (d: Self)
        ensures
            d@.properties == Seq::<PropertyModel>::empty(),
            d@.table == Seq::<StructPropertyModel>::empty(),
    {
        let d = DataTableExport { properties: Vec::new(), table: UDataTable::new() };
        proof {
            assert(d@.properties =~= Seq::<PropertyModel>::empty());
        }
        d
    }

    /// The text a name reference resolves to against the name table.
    pub fn get_name_string(&self, name: &FName, names: &Vec<String>) -> (s: String)
        ensures
            s@ == spec_name_text(names.deep_view(), *name),
    {
        name_text(names, *name)
    }

    /// Whether a name reference resolves to the reserved absence marker.
    pub fn is_none_name(&self, name: &FName, names: &Vec<String>) -> (r: bool)
        ensures
            r == (spec_name_text(names.deep_view(), *name) == none_marker()),
    {
        name_is_none(names, *name)
    }

    /// Finds the row-struct marker among the properties, as
    /// [`spec_row_struct_type`] states.
    pub fn find_row_struct_type(&self, names: &Vec<String>) -> (r: Option<FName>)
        ensures
            r == spec_row_struct_type(self@.properties, names.deep_view()),
    {
        let ghost props = self@.properties;
        let ghost nv = names.deep_view();
        let mut i: usize = 0;
        proof {
            assert(props.skip(0) =~= props);
        }
        while i < self.properties.len()
            invariant
                i <= self.properties.len(),
                props == self@.properties,
                nv == names.deep_view(),
                spec_row_struct_type(props, nv) == spec_row_struct_type(props.skip(i as int), nv),
            decreases self.properties.len() - i,
        {
            proof {
                assert(props.skip(i as int)[0] == props[i as int]);
                assert(props[i as int] == self.properties@[i as int]@);
                assert(props.skip(i as int).drop_first() =~= props.skip(i + 1 as int));
            }
            let prop_name = name_text(names, self.properties[i].name);
            let row_struct = String::from_str("RowStruct");
            let object_property = String::from_str("ObjectProperty");
            proof {
                reveal_strlit("RowStruct");
                reveal_strlit("ObjectProperty");
            }
            if prop_name.eq(&row_struct) && self.properties[i].property_type.eq(&object_property) {
                return Some(FName { index: 0, number: 0 });
            }
            i = i + 1;
        }
        proof {
            assert(props.skip(props.len() as int) =~= Seq::<PropertyModel>::empty());
        }
        None
    }

    /// The first index of `Generic` in the name table, or zero when it is
    /// absent, as [`spec_name_index_or_zero`] states.
    pub fn get_generic_name_index(&self, names: &Vec<String>) -> (r: i32)
        requires
            names@.len() <= i32::MAX,
        ensures
            r as int == spec_name_index_or_zero(names.deep_view(), "Generic"@, 0),
    {
        let ghost nv = names.deep_view();
        let generic = String::from_str("Generic");
        proof {
            reveal_strlit("Generic");
        }
        let mut i: usize = 0;
        while i < names.len()
            invariant
                i <= names.len(),
                names@.len() <= i32::MAX,
                nv == names.deep_view(),
                generic@ == "Generic"@,
                spec_name_index_or_zero(nv, "Generic"@, 0) == spec_name_index_or_zero(
                    nv,
                    "Generic"@,
                    i as int,
                ),
            decreases names.len() - i,
        {
            proof {
                assert(nv.len() == names@.len());
                assert(nv[i as int] == names@[i as int]@);
            }
            let hit = names[i].eq(&generic);
            proof {
                reveal_strlit("Generic");
                assert(spec_name_index_or_zero(nv, "Generic"@, i as int) == (if i as int
                    >= nv.len() {
                    0int
                } else if nv[i as int] == "Generic"@ {
                    i as int
                } else {
                    spec_name_index_or_zero(nv, "Generic"@, i as int + 1)
                }));
                assert(hit == (nv[i as int] == generic@));
                assert(generic@ == "Generic"@);
            }
            if hit {
                proof {
                    assert(spec_name_index_or_zero(nv, "Generic"@, i as int) == i as int);
                }
                return i as i32;
            }
            proof {
                assert(spec_name_index_or_zero(nv, "Generic"@, i as int)
                    == spec_name_index_or_zero(nv, "Generic"@, i as int + 1));
            }
            i = i + 1;
        }
        0
    }

    /// Looks up a property by resolved name, as [`spec_get_property`] states:
    /// the first match in stream order.
    pub fn get_property(&self, name: &String, names: &Vec<String>) -> (r: Option<&PropertyData>)
        ensures
            match spec_get_property(self@.properties, names.deep_view(), name@) {
                Some(p) => r matches Some(q) && q@ == p,
                None => r is None,
            },
    {
        let ghost props = self@.properties;
        let ghost nv = names.deep_view();
        let mut i: usize = 0;
        proof {
            assert(props.skip(0) =~= props);
        }
        while i < self.properties.len()
            invariant
                i <= self.properties.len(),
                props == self@.properties,
                nv == names.deep_view(),
                spec_get_property(props, nv, name@) == spec_get_property(
                    props.skip(i as int),
                    nv,
                    name@,
                ),
            decreases self.properties.len() - i,
        {
            proof {
                assert(props.skip(i as int)[0] == props[i as int]);
                assert(props[i as int] == self.properties@[i as int]@);
                assert(props.skip(i as int).drop_first() =~= props.skip(i + 1 as int));
            }
            let prop_name = name_text(names, self.properties[i].name);
            if prop_name.eq(name) {
                return Some(&self.properties[i]);
            }
            i = i + 1;
        }
        proof {
            assert(props.skip(props.len() as int) =~= Seq::<PropertyModel>::empty());
        }
        None
    }

    /// Looks up a table row by resolved name, as [`spec_get_table_entry`]
    /// states: the first match in table order.
    pub fn get_table_entry(&self, name: &String, names: &Vec<String>) -> (r: Option<
        &StructPropertyData,
    >)
        ensures
            match spec_get_table_entry(self@.table, names.deep_view(), name@) {
                Some(p) => r matches Some(q) && q@ == p,
                None => r is None,
            },
    {
        let ghost rows = self@.table;
        let ghost nv = names.deep_view();
        let mut i: usize = 0;
        proof {
            assert(rows.skip(0) =~= rows);
        }
        while i < self.table.data.len()
            invariant
                i <= self.table.data.len(),
                rows == self@.table,
                nv == names.deep_view(),
                spec_get_table_entry(rows, nv, name@) == spec_get_table_entry(
                    rows.skip(i as int),
                    nv,
                    name@,
                ),
            decreases self.table.data.len() - i,
        {
            proof {
                assert(rows.skip(i as int)[0] == rows[i as int]);
                assert(rows[i as int] == self.table.data@[i as int]@);
                assert(rows.skip(i as int).drop_first() =~= rows.skip(i + 1 as int));
            }
            let row_name = name_text(names, self.table.data[i].name);
            if row_name.eq(name) {
                return Some(&self.table.data[i]);
            }
            i = i + 1;
        }
        proof {
            assert(rows.skip(rows.len() as int) =~= Seq::<StructPropertyModel>::empty());
        }
        None
    }

    /// The resolved names of all table rows, in table order.
    pub fn get_table_entry_names(&self, names: &Vec<String>) -> (r: Vec<String>)
        ensures
            r.deep_view() == Seq::new(
                self@.table.len(),
                |i: int| spec_name_text(names.deep_view(), self@.table[i].name),
            ),
    {
        let ghost expected = Seq::new(
            self@.table.len(),
            |i: int| spec_name_text(names.deep_view(), self@.table[i].name),
        );
        let mut out: Vec<String> = Vec::new();
        let mut i: usize = 0;
        while i < self.table.data.len()
            invariant
                i <= self.table.data.len(),
                expected == Seq::new(
                    self@.table.len(),
                    |k: int| spec_name_text(names.deep_view(), self@.table[k].name),
                ),
                out.deep_view() == expected.take(i as int),
            decreases self.table.data.len() - i,
        {
            let ghost prev = out.deep_view();
            let t = name_text(names, self.table.data[i].name);
            let ghost tv = t@;
            out.push(t);
            proof {
                assert(out.deep_view() =~= prev + seq![tv]);
                assert(expected.take(i + 1 as int) =~= expected.take(i as int).push(expected[
                    i as int]));
                assert(out.deep_view() =~= expected.take(i + 1 as int));
            }
            i = i + 1;
        }
        proof {
            assert(expected.take(expected.len() as int) =~= expected);
        }
        out
    }
}

} // verus!
