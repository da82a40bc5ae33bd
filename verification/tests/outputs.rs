use fh_list::output::{listing_output, Output};
use fh_list::style::TableStyle;
use fh_list::table::{DisplayRow, DisplayTable};

fn row(label: &str, link: &str) -> DisplayRow {
    DisplayRow { label: label.to_string(), link: link.to_string() }
}

#[test]
fn no_results_is_one_line() {
    assert_eq!(Output::NoResults.text(&TableStyle::listing()), Some("No results\n".to_string()));
}

#[test]
fn an_error_is_one_line_with_its_message() {
    let output = Output::Error("connection refused".to_string());
    assert_eq!(
        output.text(&TableStyle::listing()),
        Some("Error: connection refused\n".to_string())
    );
}

#[test]
fn an_error_without_message_keeps_its_prefix() {
    assert_eq!(
        Output::Error(String::new()).text(&TableStyle::listing()),
        Some("Error: \n".to_string())
    );
}

#[test]
fn an_error_message_is_written_as_it_is() {
    let output = Output::Error("bad \u{1b}[31mbyte\nsecond line".to_string());
    assert_eq!(
        output.text(&TableStyle::listing()),
        Some("Error: bad \u{1b}[31mbyte\nsecond line\n".to_string())
    );
}

#[test]
fn a_table_output_is_the_rendered_table() {
    let table = DisplayTable {
        label_title: "Flake".to_string(),
        link_title: "FlakeHub URL".to_string(),
        rows: vec![row("a/b", "h/flake/a/b")],
    };
    let expected = "\
+---------------------+
| Flake  FlakeHub URL |
+---------------------+
| a/b    h/flake/a/b  |
+---------------------+
";
    assert_eq!(Output::Table(table).text(&TableStyle::listing()), Some(expected.to_string()));
}

#[test]
fn a_table_output_with_an_escape_character_has_no_text() {
    let table = DisplayTable {
        label_title: "Flake".to_string(),
        link_title: "FlakeHub URL".to_string(),
        rows: vec![row("a/\u{1b}", "h")],
    };
    assert_eq!(Output::Table(table).text(&TableStyle::listing()), None);
}

#[test]
fn a_failed_fetch_becomes_an_error() {
    let output = listing_output("L".to_string(), "R".to_string(), Err("boom".to_string()));
    assert_eq!(output, Output::Error("boom".to_string()));
}

#[test]
fn no_rows_become_no_results() {
    let output = listing_output("L".to_string(), "R".to_string(), Ok(Vec::new()));
    assert_eq!(output, Output::NoResults);
}

#[test]
fn rows_become_a_table_under_the_titles() {
    let rows = vec![row("b", "2"), row("a", "1")];
    let output = listing_output("L".to_string(), "R".to_string(), Ok(rows));
    assert_eq!(
        output,
        Output::Table(DisplayTable {
            label_title: "L".to_string(),
            link_title: "R".to_string(),
            rows: vec![row("b", "2"), row("a", "1")],
        })
    );
}
