//! How a table is drawn: border, padding and ruled lines.

use vstd::prelude::*;

verus! {

/// A place in a table where a ruled line can be drawn.
#[derive(Clone, Copy, Debug, PartialEq, Eq, Structural)]
pub enum RulePosition {
    /// Above the title row.
    Top,
    /// Between the title row and the first data row.
    Title,
    /// Between two data rows.
    Between,
    /// Below the last data row.
    Bottom,
}

/// The characters of a ruled line.
#[derive(Clone, Copy, Debug, PartialEq, Eq, Structural)]
pub struct Rule {
    /// Drawn along the line.
    pub line: char,
    /// Drawn where the line crosses a column separator. No table of this
    /// crate has one, so none shows it.
    pub junction: char,
    /// Drawn where the line meets the left border.
    pub left: char,
    /// Drawn where the line meets the right border.
    pub right: char,
}

/// The drawing of a table, built by the caller and handed to every rendering.
///
/// Columns are set apart by padding alone; there is no separator between them.
#[derive(Debug)]
pub struct TableStyle {
    /// Drawn left and right of every row.
    pub border: char,
    /// Spaces before each cell's text.
    pub pad_left: u8,
    /// Spaces after each cell's text.
    pub pad_right: u8,
    /// The ruled line.
    pub rule: Rule,
    /// Where the ruled line is drawn.
    pub rules_at: Vec<RulePosition>,
}

/// A [`TableStyle`] as the contracts see it.
pub ghost struct StyleView {
    pub border: char,
    pub pad_left: nat,
    pub pad_right: nat,
    pub rule: Rule,
    pub rules_at: Seq<RulePosition>,
}

impl View for TableStyle {
    type V = StyleView;

    open spec fn view(&self) -> StyleView {
        StyleView {
            border: self.border,
            pad_left: self.pad_left as nat,
            pad_right: self.pad_right as nat,
            rule: self.rule,
            rules_at: self.rules_at@,
        }
    }
}

/// The style of the listings: `|` borders, one space of padding on either
/// side, and a line of `-` between `+` corners above the titles, below them
/// and below the last row.
pub open spec fn listing_style() -> StyleView {
    StyleView {
        border: '|',
        pad_left: 1,
        pad_right: 1,
        rule: Rule { line: '-', junction: '+', left: '+', right: '+' },
        rules_at: seq![RulePosition::Top, RulePosition::Title, RulePosition::Bottom],
    }
}

impl TableStyle {
    /// The style of the listings.
    pub fn listing() -> (style: TableStyle)
        ensures
            style@ == listing_style(),
    {
        let mut rules_at: Vec<RulePosition> = Vec::new();
        rules_at.push(RulePosition::Top);
        rules_at.push(RulePosition::Title);
        rules_at.push(RulePosition::Bottom);
        proof {
            assert(rules_at@ =~= listing_style().rules_at);
        }
        TableStyle {
            border: '|',
            pad_left: 1,
            pad_right: 1,
            rule: Rule { line: '-', junction: '+', left: '+', right: '+' },
            rules_at,
        }
    }
}

} // verus!
