//! What a listing writes to standard output.

use vstd::prelude::*;
use vstd::string::*;
use crate::style::{StyleView, TableStyle};
use crate::table::{row_views, DisplayRow, DisplayTable, RowView, TableView};

verus! {

/// The line written for an empty listing: `No results`, ended by a line feed.
pub open spec fn no_results_text() -> Seq<char> {
    seq!['N', 'o', ' ', 'r', 'e', 's', 'u', 'l', 't', 's', '\n']
}

/// What stands before the message of a failed fetch: `Error: `.
pub open spec fn error_prefix() -> Seq<char> {
    seq!['E', 'r', 'r', 'o', 'r', ':', ' ']
}

/// The line written for a failed fetch: `Error: {message}`, ended by a line feed.
pub open spec fn error_text(message: Seq<char>) -> Seq<char> {
    error_prefix() + message + seq!['\n']
}

/// The one thing a listing writes: a notice that there is nothing to show,
/// the message of a failed fetch, or a table.
#[derive(Debug, PartialEq, Eq)]
pub enum Output {
    /// The catalog returned no record.
    NoResults,
    /// The fetch failed; the message is the failure's display text.
    Error(String),
    /// The catalog returned at least one record.
    Table(DisplayTable),
}

pub ghost enum OutputView {
    NoResults,
    Error(Seq<char>),
    Table(TableView),
}

impl View for Output {
    type V = OutputView;

    open spec fn view(&self) -> OutputView {
        match self {
            Output::NoResults => OutputView::NoResults,
            Output::Error(message) => OutputView::Error(message@),
            Output::Table(table) => OutputView::Table(table@),
        }
    }
}

impl OutputView {
    /// Whether the output can be turned into text: the two messages always,
    /// a table when no title and no cell holds an escape character.
    pub open spec fn printable(self) -> bool {
        match self {
            OutputView::Table(table) => table.printable(),
            _ => true,
        }
    }

    /// Everything that goes to standard output, line ends included.
    pub open spec fn text(self, style: StyleView) -> Seq<char> {
        match self {
            OutputView::NoResults => no_results_text(),
            OutputView::Error(message) => error_text(message),
            OutputView::Table(table) => table.text(style),
        }
    }
}

/// The output for the outcome of a fetch whose records were already turned
/// into rows: the message of a failure, the notice for no rows, and else a
/// table of all the rows in their order under the two titles.
pub open spec fn listing(
    label_title: Seq<char>,
    link_title: Seq<char>,
    fetched: Result<Seq<RowView>, Seq<char>>,
) -> OutputView {
    match fetched {
        Err(message) => OutputView::Error(message),
        Ok(rows) => if rows.len() == 0 {
            OutputView::NoResults
        } else {
            OutputView::Table(TableView { label_title, link_title, rows })
        },
    }
}

/// What a fetch outcome is to the contracts.
pub open spec fn fetched_view(fetched: Result<Vec<DisplayRow>, String>) -> Result<
    Seq<RowView>,
    Seq<char>,
> {
    match fetched {
        Ok(rows) => Ok(row_views(rows@)),
        Err(message) => Err(message@),
    }
}

/// Sorts a fetch outcome into its output. This is the one routine behind
/// both kinds of listing.
pub fn listing_output(
    label_title: String,
    link_title: String,
    fetched: Result<Vec<DisplayRow>, String>,
) -> (output: Output)
    ensures
        output@ == listing(label_title@, link_title@, fetched_view(fetched)),
{
    match fetched {
        Err(message) => Output::Error(message),
        Ok(rows) => {
            if rows.len() == 0 {
                Output::NoResults
            } else {
                Output::Table(DisplayTable { label_title, link_title, rows })
            }
        },
    }
}

impl Output {
    /// Everything that goes to standard output for this output, line ends
    /// included. `None` for a table that is not printable.
    pub fn text(&self, style: &TableStyle) -> (out: Option<String>)
        ensures
            out is Some <==> self@.printable(),
            out matches Some(text) ==> text@ == self@.text(style@),
    {
        match self {
            Output::NoResults => {
                let text = String::from_str("No results\n");
                proof {
                    reveal_strlit("No results\n");
                    assert(text@ =~= no_results_text());
                }
                Some(text)
            },
            Output::Error(message) => {
                let mut text = String::from_str("Error: ");
                text.append(message.as_str());
                text.append("\n");
                proof {
                    reveal_strlit("Error: ");
                    reveal_strlit("\n");
                    assert("Error: "@ =~= error_prefix());
                    assert("\n"@ =~= seq!['\n']);
                }
                Some(text)
            },
            Output::Table(table) => table.render(style),
        }
    }
}

} // verus!
