//! Decoded export values: an export-table entry together with the object's
//! decoded content — raw bytes for a plain export, or a data table.

use crate::data_table::DataTableExport;
use crate::export_table::ExportEntry;
use vstd::prelude::*;

verus! {

/// The decoded content of one export.
#[derive(Debug)]
pub enum ExportType {
    /// A plain export: the object's raw serialized bytes.
    Normal(Vec<u8>),
    /// A data-table export.
    DataTable(DataTableExport),
}

/// One export-table entry paired with its decoded content.
#[derive(Debug)]
pub struct ParsedExport {
    /// The export-table entry.
    pub entry: ExportEntry,
    /// The decoded content.
    pub export_type: ExportType,
}

impl ParsedExport {
    /// Pairs an entry with raw export bytes.
    pub fn new_normal(entry: ExportEntry, data: Vec<u8>) -> (p: Self)
        ensures
            p.entry == entry,
            p.export_type matches ExportType::Normal(d) && d@ == data@,
    {
        ParsedExport { entry, export_type: ExportType::Normal(data) }
    }

    /// Pairs an entry with a decoded data table.
    pub fn new_data_table(entry: ExportEntry, data_table: DataTableExport) -> (p: Self)
        ensures
            p.entry == entry,
            p.export_type matches ExportType::DataTable(dt) && dt@ == data_table@,
    {
        ParsedExport { entry, export_type: ExportType::DataTable(data_table) }
    }

    /// Whether the content is a data table.
    pub fn is_data_table(&self) -> (r: bool)
        ensures
            r == (self.export_type matches ExportType::DataTable(_)),
    {
        match &self.export_type {
            ExportType::DataTable(_) => true,
            ExportType::Normal(_) => false,
        }
    }

    /// The content as a data table, when it is one.
    pub fn as_data_table(&self) -> (r: Option<&DataTableExport>)
        ensures
            match r {
                Some(dt) => self.export_type matches ExportType::DataTable(d) && dt@ == d@,
                None => !(self.export_type matches ExportType::DataTable(_)),
            },
    {
        match &self.export_type {
            ExportType::DataTable(dt) => Some(dt),
            ExportType::Normal(_) => None,
        }
    }

    /// The content as a mutable data table, when it is one.
    pub fn as_data_table_mut(&mut self) -> (r: Option<&mut DataTableExport>)
        ensures
            match r {
                Some(_) => old(self).export_type matches ExportType::DataTable(_),
                None => !(old(self).export_type matches ExportType::DataTable(_)),
            },
    {
        match &mut self.export_type {
            ExportType::DataTable(dt) => Some(dt),
            ExportType::Normal(_) => None,
        }
    }
}

} // verus!
