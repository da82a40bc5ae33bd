use fh_list::command::{Action, Event, ListSubcommand, Phase, ResourceKind, SUCCESS};
use fh_list::entity::Flake;
use fh_list::output::Output;
use fh_list::style::TableStyle;
use fh_list::table::{DisplayRow, DisplayTable};

fn command(cmd: ResourceKind) -> ListSubcommand {
    ListSubcommand::new(cmd, "https://flakehub.com".to_string(), "https://api.flakehub.com".to_string())
}

fn flake(organization: &str, project: &str) -> Flake {
    Flake::new(organization.to_string(), project.to_string())
}

fn row(label: &str, link: &str) -> DisplayRow {
    DisplayRow { label: label.to_string(), link: link.to_string() }
}

/// Reports `events` one after the other, from the start, and collects the answers.
fn run(command: &ListSubcommand, events: Vec<Event>) -> (Phase, Vec<Action>) {
    let mut phase = ListSubcommand::start();
    let mut actions = Vec::new();
    for event in events {
        let (next, action) = command.step(phase, event);
        phase = next;
        actions.push(action);
    }
    (phase, actions)
}

fn finished(action: &Action) -> &Output {
    match action {
        Action::Finish { output, code } => {
            assert_eq!(*code, 0);
            output
        }
        other => panic!("not finished: {:?}", other),
    }
}

#[test]
fn success_is_zero() {
    assert_eq!(SUCCESS, 0);
}

#[test]
fn an_invocation_starts_ready_and_connects_to_the_backend_host() {
    assert_eq!(ListSubcommand::start(), Phase::Ready);
    let (phase, action) = command(ResourceKind::Flakes).step(Phase::Ready, Event::Invoked);
    assert_eq!(phase, Phase::Connecting);
    assert!(matches!(action, Action::Connect(ref host) if host == "https://api.flakehub.com"));
}

#[test]
fn with_a_client_the_flakes_are_fetched() {
    let (phase, action) = command(ResourceKind::Flakes).step(Phase::Connecting, Event::Connected);
    assert_eq!(phase, Phase::Fetching);
    assert!(matches!(action, Action::ListFlakes));
}

#[test]
fn with_a_client_the_orgs_are_fetched() {
    let (phase, action) = command(ResourceKind::Orgs).step(Phase::Connecting, Event::Connected);
    assert_eq!(phase, Phase::Fetching);
    assert!(matches!(action, Action::ListOrgs));
}

#[test]
fn one_flake_gives_a_table_of_one_row() {
    let (phase, actions) = run(
        &command(ResourceKind::Flakes),
        vec![Event::Invoked, Event::Connected, Event::Flakes(Ok(vec![flake("acme", "tool")]))],
    );
    assert_eq!(phase, Phase::Done);
    assert_eq!(actions.len(), 3);
    let output = finished(&actions[2]);
    assert_eq!(
        *output,
        Output::Table(DisplayTable {
            label_title: "Flake".to_string(),
            link_title: "FlakeHub URL".to_string(),
            rows: vec![row("acme/tool", "https://flakehub.com/flake/acme/tool")],
        })
    );
    let expected = "\
+-------------------------------------------------+
| Flake      FlakeHub URL                         |
+-------------------------------------------------+
| acme/tool  https://flakehub.com/flake/acme/tool |
+-------------------------------------------------+
";
    assert_eq!(output.text(&TableStyle::listing()), Some(expected.to_string()));
}

#[test]
fn no_orgs_give_no_results() {
    let (phase, actions) = run(
        &command(ResourceKind::Orgs),
        vec![Event::Invoked, Event::Connected, Event::Orgs(Ok(Vec::new()))],
    );
    assert_eq!(phase, Phase::Done);
    let output = finished(&actions[2]);
    assert_eq!(*output, Output::NoResults);
    assert_eq!(output.text(&TableStyle::listing()), Some("No results\n".to_string()));
}

#[test]
fn no_flakes_give_no_results() {
    let (_, actions) = run(
        &command(ResourceKind::Flakes),
        vec![Event::Invoked, Event::Connected, Event::Flakes(Ok(Vec::new()))],
    );
    let output = finished(&actions[2]);
    assert_eq!(*output, Output::NoResults);
    assert_eq!(output.text(&TableStyle::listing()), Some("No results\n".to_string()));
}

#[test]
fn orgs_give_a_table_in_the_order_fetched() {
    let names = vec!["zeta".to_string(), "alpha".to_string()];
    let (_, actions) = run(
        &command(ResourceKind::Orgs),
        vec![Event::Invoked, Event::Connected, Event::Orgs(Ok(names))],
    );
    let output = finished(&actions[2]);
    assert_eq!(
        *output,
        Output::Table(DisplayTable {
            label_title: "Organization".to_string(),
            link_title: "FlakeHub URL".to_string(),
            rows: vec![
                row("zeta", "https://flakehub.com/org/zeta"),
                row("alpha", "https://flakehub.com/org/alpha"),
            ],
        })
    );
    let expected = "\
+----------------------------------------------+
| Organization  FlakeHub URL                   |
+----------------------------------------------+
| zeta          https://flakehub.com/org/zeta  |
| alpha         https://flakehub.com/org/alpha |
+----------------------------------------------+
";
    assert_eq!(output.text(&TableStyle::listing()), Some(expected.to_string()));
}

#[test]
fn flakes_give_a_table_in_the_order_fetched() {
    let flakes = vec![flake("b", "z"), flake("a", "y"), flake("b", "z")];
    let (_, actions) = run(
        &command(ResourceKind::Flakes),
        vec![Event::Invoked, Event::Connected, Event::Flakes(Ok(flakes))],
    );
    match finished(&actions[2]) {
        Output::Table(table) => {
            assert_eq!(
                table.rows,
                vec![
                    row("b/z", "https://flakehub.com/flake/b/z"),
                    row("a/y", "https://flakehub.com/flake/a/y"),
                    row("b/z", "https://flakehub.com/flake/b/z"),
                ]
            );
        }
        other => panic!("no table: {:?}", other),
    }
}

#[test]
fn a_failed_flake_fetch_is_written_out_and_succeeds() {
    let (phase, actions) = run(
        &command(ResourceKind::Flakes),
        vec![Event::Invoked, Event::Connected, Event::Flakes(Err("request timed out".to_string()))],
    );
    assert_eq!(phase, Phase::Done);
    let output = finished(&actions[2]);
    assert_eq!(*output, Output::Error("request timed out".to_string()));
    assert_eq!(
        output.text(&TableStyle::listing()),
        Some("Error: request timed out\n".to_string())
    );
}

#[test]
fn a_failed_org_fetch_is_written_out_and_succeeds() {
    let (phase, actions) = run(
        &command(ResourceKind::Orgs),
        vec![Event::Invoked, Event::Connected, Event::Orgs(Err("status 500".to_string()))],
    );
    assert_eq!(phase, Phase::Done);
    let output = finished(&actions[2]);
    assert_eq!(output.text(&TableStyle::listing()), Some("Error: status 500\n".to_string()));
}

#[test]
fn a_failed_connect_is_handed_on_and_nothing_is_fetched() {
    for cmd in [ResourceKind::Flakes, ResourceKind::Orgs] {
        let (phase, actions) = run(
            &command(cmd),
            vec![
                Event::Invoked,
                Event::ConnectFailed,
                Event::Connected,
                Event::Flakes(Ok(vec![flake("a", "b")])),
                Event::Orgs(Ok(vec!["a".to_string()])),
                Event::Invoked,
            ],
        );
        assert_eq!(phase, Phase::Done);
        assert!(matches!(actions[0], Action::Connect(_)));
        assert!(matches!(actions[1], Action::Propagate));
        for action in &actions[2..] {
            assert!(matches!(action, Action::Refuse));
        }
        assert!(!actions.iter().any(|a| matches!(a, Action::ListFlakes | Action::ListOrgs)));
    }
}

#[test]
fn an_answer_of_the_other_kind_is_refused() {
    let (phase, action) =
        command(ResourceKind::Flakes).step(Phase::Fetching, Event::Orgs(Ok(vec!["a".to_string()])));
    assert_eq!(phase, Phase::Fetching);
    assert!(matches!(action, Action::Refuse));

    let (phase, action) =
        command(ResourceKind::Orgs).step(Phase::Fetching, Event::Flakes(Err("e".to_string())));
    assert_eq!(phase, Phase::Fetching);
    assert!(matches!(action, Action::Refuse));
}

#[test]
fn an_event_out_of_turn_is_refused() {
    let c = command(ResourceKind::Flakes);
    for phase in [Phase::Connecting, Phase::Fetching, Phase::Done] {
        let (next, action) = c.step(phase, Event::Invoked);
        assert_eq!(next, phase);
        assert!(matches!(action, Action::Refuse));
    }
    for phase in [Phase::Ready, Phase::Fetching, Phase::Done] {
        let (next, action) = c.step(phase, Event::Connected);
        assert_eq!(next, phase);
        assert!(matches!(action, Action::Refuse));
        let (next, action) = c.step(phase, Event::ConnectFailed);
        assert_eq!(next, phase);
        assert!(matches!(action, Action::Refuse));
    }
    for phase in [Phase::Ready, Phase::Connecting, Phase::Done] {
        let (next, action) = c.step(phase, Event::Flakes(Ok(Vec::new())));
        assert_eq!(next, phase);
        assert!(matches!(action, Action::Refuse));
    }
}

#[test]
fn the_fetch_is_asked_for_once() {
    let (_, actions) = run(
        &command(ResourceKind::Orgs),
        vec![
            Event::Invoked,
            Event::Connected,
            Event::Connected,
            Event::Orgs(Ok(Vec::new())),
            Event::Connected,
        ],
    );
    let fetches = actions.iter().filter(|a| matches!(a, Action::ListFlakes | Action::ListOrgs)).count();
    assert_eq!(fetches, 1);
}

#[test]
fn two_invocations_with_the_same_reports_write_the_same() {
    let reports = || {
        vec![
            Event::Invoked,
            Event::Connected,
            Event::Flakes(Ok(vec![flake("acme", "tool"), flake("b", "c")])),
        ]
    };
    let style = TableStyle::listing();
    let (first_phase, first) = run(&command(ResourceKind::Flakes), reports());
    let (second_phase, second) = run(&command(ResourceKind::Flakes), reports());
    assert_eq!(first_phase, second_phase);
    assert_eq!(finished(&first[2]), finished(&second[2]));
    assert_eq!(finished(&first[2]).text(&style), finished(&second[2]).text(&style));
}

#[test]
fn the_links_follow_the_display_host_not_the_backend_host() {
    let c = ListSubcommand::new(ResourceKind::Orgs, "https://shown".to_string(), "https://asked".to_string());
    let (_, actions) =
        run(&c, vec![Event::Invoked, Event::Connected, Event::Orgs(Ok(vec!["o".to_string()]))]);
    assert!(matches!(actions[0], Action::Connect(ref host) if host == "https://asked"));
    match finished(&actions[2]) {
        Output::Table(table) => assert_eq!(table.rows, vec![row("o", "https://shown/org/o")]),
        other => panic!("no table: {:?}", other),
    }
}

#[test]
fn a_listing_is_printable_when_host_and_names_are_plain() {
    let style = TableStyle::listing();
    let reports = |organization: &str| {
        vec![Event::Invoked, Event::Connected, Event::Flakes(Ok(vec![flake(organization, "p")]))]
    };

    let plain = command(ResourceKind::Flakes);
    let (_, actions) = run(&plain, reports("o"));
    assert!(finished(&actions[2]).text(&style).is_some());

    let (_, actions) = run(&plain, reports("o\u{1b}"));
    assert!(finished(&actions[2]).text(&style).is_none());

    let escaped_host =
        ListSubcommand::new(ResourceKind::Flakes, "h\u{1b}".to_string(), "b".to_string());
    let (_, actions) = run(&escaped_host, reports("o"));
    assert!(finished(&actions[2]).text(&style).is_none());

    let escaped_backend =
        ListSubcommand::new(ResourceKind::Flakes, "h".to_string(), "b\u{1b}".to_string());
    let (_, actions) = run(&escaped_backend, reports("o"));
    assert!(finished(&actions[2]).text(&style).is_some());
}
