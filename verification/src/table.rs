//! The two-column table of a listing: a label and a link per row.

use vstd::prelude::*;
use crate::entity::{flake_views, name_views, org_url, Flake, FlakeView, Org};
use crate::printer::{
    add_row, cell_lines, data_cell, format_of, new_table, set_titles, table_format, table_rows,
    table_string, table_text, table_titles, title_cell, CellModel, CellView, Emphasis, TextCell,
};
use crate::style::{StyleView, TableStyle};
use crate::text::{is_plain, is_plain_text};
use prettytable::Table;

verus! {

/// One row of a listing.
#[derive(Debug, PartialEq, Eq)]
pub struct DisplayRow {
    /// What the row is about.
    pub label: String,
    /// Where to read more.
    pub link: String,
}

pub ghost struct RowView {
    pub label: Seq<char>,
    pub link: Seq<char>,
}

impl View for DisplayRow {
    type V = RowView;

    open spec fn view(&self) -> RowView {
        RowView { label: self.label@, link: self.link@ }
    }
}

impl RowView {
    /// The cells of the row: the label stands out, the link steps back.
    pub open spec fn cells(self) -> Seq<CellModel> {
        seq![
            data_cell(CellView { text: self.label, emphasis: Emphasis::Strong }),
            data_cell(CellView { text: self.link, emphasis: Emphasis::Faint }),
        ]
    }

    /// Neither cell holds an escape character.
    pub open spec fn printable(self) -> bool {
        is_plain(self.label) && is_plain(self.link)
    }
}

/// The views of `rows`, in order.
pub open spec fn row_views(rows: Seq<DisplayRow>) -> Seq<RowView> {
    Seq::new(rows.len(), |i: int| rows[i]@)
}

/// The row of a flake: its name, and its page under `host`.
pub open spec fn flake_row(flake: FlakeView, host: Seq<char>) -> RowView {
    RowView { label: flake.name(), link: flake.url(host) }
}

/// The row of an organization: its name, and its page under `host`.
pub open spec fn org_row(name: Seq<char>, host: Seq<char>) -> RowView {
    RowView { label: name, link: org_url(host, name) }
}

/// One row per flake, in the order of `flakes`.
pub open spec fn flake_rows(flakes: Seq<FlakeView>, host: Seq<char>) -> Seq<RowView> {
    Seq::new(flakes.len(), |i: int| flake_row(flakes[i], host))
}

/// One row per organization, in the order of `names`.
pub open spec fn org_rows(names: Seq<Seq<char>>, host: Seq<char>) -> Seq<RowView> {
    Seq::new(names.len(), |i: int| org_row(names[i], host))
}

/// Builds the rows of a flake listing. Nothing is sorted and nothing is dropped.
pub fn rows_of_flakes(flakes: &Vec<Flake>, host: &str) -> (rows: Vec<DisplayRow>)
    ensures
        row_views(rows@) == flake_rows(flake_views(flakes@), host@),
{
    let mut rows: Vec<DisplayRow> = Vec::new();
    let mut i: usize = 0;
    while i < flakes.len()
        invariant
            i <= flakes.len(),
            rows.len() == i,
            forall|j: int| 0 <= j < i ==> (#[trigger] rows[j])@ == flake_row(flakes[j]@, host@),
        decreases flakes.len() - i,
    {
        let flake = &flakes[i];
        rows.push(DisplayRow { label: flake.name(), link: flake.url(host) });
        i += 1;
    }
    proof {
        assert(row_views(rows@) =~= flake_rows(flake_views(flakes@), host@));
    }
    rows
}

/// Builds the rows of an organization listing. Nothing is sorted and nothing is dropped.
pub fn rows_of_orgs(names: &Vec<String>, host: &str) -> (rows: Vec<DisplayRow>)
    ensures
        row_views(rows@) == org_rows(name_views(names@), host@),
{
    let mut rows: Vec<DisplayRow> = Vec::new();
    let mut i: usize = 0;
    while i < names.len()
        invariant
            i <= names.len(),
            rows.len() == i,
            forall|j: int| 0 <= j < i ==> (#[trigger] rows[j])@ == org_row(names[j]@, host@),
        decreases names.len() - i,
    {
        let org = Org::new(names[i].clone());
        let link = org.url(host);
        rows.push(DisplayRow { label: org.name, link });
        i += 1;
    }
    proof {
        assert(row_views(rows@) =~= org_rows(name_views(names@), host@));
    }
    rows
}

/// A listing ready to be laid out: the two titles and the rows below them.
#[derive(Debug, PartialEq, Eq)]
pub struct DisplayTable {
    /// Title of the label column.
    pub label_title: String,
    /// Title of the link column.
    pub link_title: String,
    /// The rows, first to last.
    pub rows: Vec<DisplayRow>,
}

pub ghost struct TableView {
    pub label_title: Seq<char>,
    pub link_title: Seq<char>,
    pub rows: Seq<RowView>,
}

impl View for DisplayTable {
    type V = TableView;

    open spec fn view(&self) -> TableView {
        TableView {
            label_title: self.label_title@,
            link_title: self.link_title@,
            rows: row_views(self.rows@),
        }
    }
}

impl TableView {
    /// The cells of the title row.
    pub open spec fn titles(self) -> Seq<CellModel> {
        seq![title_cell(self.label_title), title_cell(self.link_title)]
    }

    /// The cells of the data rows, row by row.
    pub open spec fn cells(self) -> Seq<Seq<CellModel>> {
        Seq::new(self.rows.len(), |i: int| self.rows[i].cells())
    }

    /// No title and no cell holds an escape character.
    pub open spec fn printable(self) -> bool {
        &&& is_plain(self.label_title)
        &&& is_plain(self.link_title)
        &&& forall|i: int| 0 <= i < self.rows.len() ==> (#[trigger] self.rows[i]).printable()
    }

    /// The table as text under `style`, every line ended by a line feed.
    pub open spec fn text(self, style: StyleView) -> Seq<char> {
        table_text(format_of(style), Some(self.titles()), self.cells())
    }
}

impl DisplayTable {
    /// Whether the table can be laid out: no title and no cell holds an escape character.
    pub fn printable(&self) -> (ok: bool)
        ensures
            ok == self@.printable(),
    {
        if !is_plain_text(self.label_title.as_str()) || !is_plain_text(self.link_title.as_str()) {
            return false;
        }
        let mut i: usize = 0;
        while i < self.rows.len()
            invariant
                i <= self.rows.len(),
                forall|j: int| 0 <= j < i ==> (#[trigger] self@.rows[j]).printable(),
            decreases self.rows.len() - i,
        {
            let row = &self.rows[i];
            if !is_plain_text(row.label.as_str()) || !is_plain_text(row.link.as_str()) {
                proof {
                    assert(!self@.rows[i as int].printable());
                }
                return false;
            }
            i += 1;
        }
        true
    }

    /// Lays the table out in a printer's table: the titles unstyled, then one
    /// row per row of `self` in the same order, the label strong and the link
    /// faint. `None` when the table is not printable.
    pub fn to_table(&self, style: &TableStyle) -> (out: Option<Table>)
        ensures
            out is Some <==> self@.printable(),
            out matches Some(table) ==> {
                &&& table_format(table) == format_of(style@)
                &&& table_titles(table) == Some(self@.titles())
                &&& table_rows(table) == self@.cells()
            },
    {
        if !self.printable() {
            return None;
        }
        let mut table = new_table(style);
        let mut titles: Vec<String> = Vec::new();
        titles.push(self.label_title.clone());
        titles.push(self.link_title.clone());
        set_titles(&mut table, &titles);
        proof {
            assert(titles@.map_values(|t: String| (CellModel { lines: cell_lines(t@), emphasis: None }))
                =~= self@.titles());
        }
        let mut i: usize = 0;
        while i < self.rows.len()
            invariant
                i <= self.rows.len(),
                self@.printable(),
                table_format(table) == format_of(style@),
                table_titles(table) == Some(self@.titles()),
                table_rows(table) == self@.cells().take(i as int),
            decreases self.rows.len() - i,
        {
            let row = &self.rows[i];
            let mut cells: Vec<TextCell> = Vec::new();
            cells.push(TextCell { text: row.label.clone(), emphasis: Emphasis::Strong });
            cells.push(TextCell { text: row.link.clone(), emphasis: Emphasis::Faint });
            proof {
                assert(self@.rows[i as int].printable());
                assert(cells@.map_values(
                    |c: TextCell|
                        (CellModel { lines: cell_lines(c.text@), emphasis: Some(c.emphasis) }),
                ) =~= self@.rows[i as int].cells());
                assert(self@.cells().take(i as int).push(self@.rows[i as int].cells())
                    =~= self@.cells().take(i + 1));
            }
            add_row(&mut table, &cells);
            i += 1;
        }
        proof {
            assert(self@.cells().take(i as int) =~= self@.cells());
        }
        Some(table)
    }

    /// The table as text under `style`. `None` when the table is not printable.
    pub fn render(&self, style: &TableStyle) -> (out: Option<String>)
        ensures
            out is Some <==> self@.printable(),
            out matches Some(text) ==> text@ == self@.text(style@),
    {
        match self.to_table(style) {
            Some(table) => Some(table_string(&table)),
            None => None,
        }
    }
}

} // verus!
