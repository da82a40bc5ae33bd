//! The table printer, `prettytable`, as far as this crate uses it.
//!
//! Verus does not read the printer. What this module says of it is taken
//! on trust from its source: the items marked `external_body`, the
//! declaration of its table type, and the spec functions without a body.
//! Everything else in the crate is proved from these.

use vstd::prelude::*;
use crate::style::{Rule, RulePosition, StyleView, TableStyle};
use crate::text::is_plain;
use prettytable::format::{FormatBuilder, LinePosition, LineSeparator};
use prettytable::{Attr, Cell, Row, Table};

verus! {

/// `prettytable::Table`: a format, an optional title row and the data rows.
/// Its fields are private; [`table_format`], [`table_titles`] and
/// [`table_rows`] stand for them.
#[verifier::external_type_specification]
#[verifier::external_body]
pub struct ExTable(prettytable::Table);

/// How a cell's text is set off on a terminal that can do so.
#[derive(Clone, Copy, Debug, PartialEq, Eq, Structural)]
pub enum Emphasis {
    /// Bold.
    Strong,
    /// Dimmed.
    Faint,
}

/// The text of one data cell with its emphasis.
#[derive(Debug)]
pub struct TextCell {
    pub text: String,
    pub emphasis: Emphasis,
}

pub ghost struct CellView {
    pub text: Seq<char>,
    pub emphasis: Emphasis,
}

impl View for TextCell {
    type V = CellView;

    open spec fn view(&self) -> CellView {
        CellView { text: self.text@, emphasis: self.emphasis }
    }
}

/// What the printer holds of a cell: the lines of its text, and how it is
/// set off. Every cell this crate makes is aligned left and one column wide.
pub ghost struct CellModel {
    pub lines: Seq<Seq<char>>,
    pub emphasis: Option<Emphasis>,
}

/// What the printer holds of a format that this crate makes: the border at
/// both sides, the padding, and for each place the ruled line drawn there,
/// if any. There is no column separator and no indentation.
pub ghost struct FormatModel {
    pub border: char,
    pub pad_left: nat,
    pub pad_right: nat,
    pub top: Option<Rule>,
    pub title: Option<Rule>,
    pub between: Option<Rule>,
    pub bottom: Option<Rule>,
}

/// The rule of `style` if it is drawn at `position`.
pub open spec fn rule_at(style: StyleView, position: RulePosition) -> Option<Rule> {
    if style.rules_at.contains(position) {
        Some(style.rule)
    } else {
        None
    }
}

/// The format that the printer is given for `style`.
pub open spec fn format_of(style: StyleView) -> FormatModel {
    FormatModel {
        border: style.border,
        pad_left: style.pad_left,
        pad_right: style.pad_right,
        top: rule_at(style, RulePosition::Top),
        title: rule_at(style, RulePosition::Title),
        between: rule_at(style, RulePosition::Between),
        bottom: rule_at(style, RulePosition::Bottom),
    }
}

/// The lines that `Cell::new` keeps of a text: it splits the text with
/// `str::lines` and keeps nothing else of it.
pub uninterp spec fn cell_lines(text: Seq<char>) -> Seq<Seq<char>>;

/// The cell of a title: its lines, not set off.
pub open spec fn title_cell(text: Seq<char>) -> CellModel {
    CellModel { lines: cell_lines(text), emphasis: None }
}

/// The cell of a data row: its lines, set off as asked.
pub open spec fn data_cell(cell: CellView) -> CellModel {
    CellModel { lines: cell_lines(cell.text), emphasis: Some(cell.emphasis) }
}

/// The format that a table was given by `Table::set_format`.
pub uninterp spec fn table_format(table: Table) -> FormatModel;

/// The title row that a table was given by `Table::set_titles`, if any.
pub uninterp spec fn table_titles(table: Table) -> Option<Seq<CellModel>>;

/// The data rows of a table, in the order `Table::add_row` appended them.
pub uninterp spec fn table_rows(table: Table) -> Seq<Seq<CellModel>>;

/// The text that the printer lays a table out as: what the `Display` of
/// `prettytable::Table` writes for a table of this format, title row and
/// data rows, every line ended by a line feed. The layout is the printer's
/// own and is not restated here; it depends on nothing but these three.
pub uninterp spec fn table_text(
    format: FormatModel,
    titles: Option<Seq<CellModel>>,
    rows: Seq<Seq<CellModel>>,
) -> Seq<char>;

/// `Table::new`, then `Table::set_format` with the format that
/// `FormatBuilder::new` builds from `borders`, `padding` and `separators`.
///
/// Trusted: the new table has neither titles nor rows, and its format is
/// that of `style`: `borders` sets the border at both sides, `padding` the
/// two paddings, and `separators` the same rule at every place listed and at
/// no other.
#[verifier::external_body]
pub(crate) fn new_table(style: &TableStyle) -> (table: Table)
    ensures
        table_format(table) == format_of(style@),
        table_titles(table) is None,
        table_rows(table) == Seq::<Seq<CellModel>>::empty(),
{
    let at: Vec<LinePosition> = style.rules_at.iter().map(|p| match p {
        RulePosition::Top => LinePosition::Top,
        RulePosition::Title => LinePosition::Title,
        RulePosition::Between => LinePosition::Intern,
        RulePosition::Bottom => LinePosition::Bottom,
    }).collect();
    let rule = LineSeparator::new(style.rule.line, style.rule.junction, style.rule.left, style.rule.right);
    let mut table = Table::new();
    table.set_format(FormatBuilder::new().borders(style.border).padding(style.pad_left.into(), style.pad_right.into()).separators(&at, rule).build());
    table
}

/// `Table::set_titles` with a `Row::new` of one `Cell::new` per title.
///
/// Trusted: the title row becomes these cells, in order and not set off;
/// format and data rows stay. The titles must be plain, because `Cell::new`
/// measures them.
#[verifier::external_body]
pub(crate) fn set_titles(table: &mut Table, titles: &Vec<String>)
    requires
        forall|i: int| 0 <= i < titles.len() ==> is_plain(#[trigger] titles[i]@),
    ensures
        table_format(*final(table)) == table_format(*old(table)),
        table_titles(*final(table)) == Some(
            titles@.map_values(|t: String| (CellModel { lines: cell_lines(t@), emphasis: None })),
        ),
        table_rows(*final(table)) == table_rows(*old(table)),
{
    table.set_titles(Row::new(titles.iter().map(|t| Cell::new(t)).collect()));
}

/// `Table::add_row` with a `Row::new` of one `Cell::new` per cell, each
/// given its emphasis by `Cell::with_style`: `Attr::Bold` for strong,
/// `Attr::Dim` for faint.
///
/// Trusted: the row is appended after the rows there are; format and
/// titles stay. The texts must be plain, because `Cell::new` measures them.
#[verifier::external_body]
pub(crate) fn add_row(table: &mut Table, cells: &Vec<TextCell>)
    requires
        forall|i: int| 0 <= i < cells.len() ==> is_plain(#[trigger] cells[i]@.text),
    ensures
        table_format(*final(table)) == table_format(*old(table)),
        table_titles(*final(table)) == table_titles(*old(table)),
        table_rows(*final(table)) == table_rows(*old(table)).push(
            cells@.map_values(
                |c: TextCell|
                    (CellModel { lines: cell_lines(c.text@), emphasis: Some(c.emphasis) }),
            ),
        ),
{
    table.add_row(Row::new(cells.iter().map(|c| Cell::new(&c.text).with_style(match c.emphasis {
        Emphasis::Strong => Attr::Bold,
        Emphasis::Faint => Attr::Dim,
    })).collect()));
}

/// `to_string` on a `prettytable::Table`, that is its `Display`.
///
/// Trusted: the text is [`table_text`] of what the table holds. Emphasis
/// does not show in it; it shows only where the table is printed to a
/// terminal.
#[verifier::external_body]
pub(crate) fn table_string(table: &Table) -> (text: String)
    ensures
        text@ == table_text(table_format(*table), table_titles(*table), table_rows(*table)),
{
    table.to_string()
}

} // verus!
