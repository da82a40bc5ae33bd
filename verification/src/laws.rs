//! What holds of every listing, proved from the definitions of the command.

use vstd::prelude::*;
use crate::command::{
    flake_title, link_title, org_title, ActionView, CommandView, Event, EventView,
    ListSubcommand, Phase, ResourceKind, SUCCESS,
};
use crate::entity::{flake_segment, org_segment, FlakeView};
use crate::output::{error_prefix, no_results_text, OutputView};
use crate::style::{StyleView, TableStyle};
use crate::text::{is_plain, lemma_plain_concat};

verus! {

/// The views of `events`, in order.
pub open spec fn event_views(events: Seq<Event>) -> Seq<EventView> {
    Seq::new(events.len(), |i: int| events[i]@)
}

/// A flake listing that fetched one flake or more ends with success and a
/// table titled `Flake` and `FlakeHub URL`. The table has one row per flake,
/// in the order fetched; the row's label is `{organization}/{project}` and
/// its link is `{host}/flake/{organization}/{project}`.
pub proof fn flake_listing_has_a_row_per_flake(command: CommandView, flakes: Seq<FlakeView>)
    requires
        command.cmd == ResourceKind::Flakes,
        flakes.len() > 0,
    ensures
        command.step(Phase::Fetching, EventView::Flakes(Ok(flakes))) matches (
            Phase::Done,
            ActionView::Finish { output: OutputView::Table(table), code },
        ) && {
            &&& code == SUCCESS
            &&& table.label_title == flake_title()
            &&& table.link_title == link_title()
            &&& table.rows.len() == flakes.len()
            &&& forall|i: int|
                0 <= i < flakes.len() ==> {
                    &&& (#[trigger] table.rows[i]).label == flakes[i].organization + seq!['/']
                        + flakes[i].project
                    &&& table.rows[i].link == command.host + flake_segment()
                        + flakes[i].organization + seq!['/'] + flakes[i].project
                }
        },
{
    let next = command.step(Phase::Fetching, EventView::Flakes(Ok(flakes)));
    let table = next.1->Finish_output->Table_0;
    assert forall|i: int| 0 <= i < flakes.len() implies {
        &&& (#[trigger] table.rows[i]).label == flakes[i].organization + seq!['/']
            + flakes[i].project
        &&& table.rows[i].link == command.host + flake_segment() + flakes[i].organization
            + seq!['/'] + flakes[i].project
    } by {
        assert(table.rows[i].link =~= command.host + flake_segment() + flakes[i].organization
            + seq!['/'] + flakes[i].project);
    }
}

/// An organization listing that fetched one name or more ends with success
/// and a table titled `Organization` and `FlakeHub URL`. The table has one
/// row per name, in the order fetched; the row's label is the name and its
/// link is `{host}/org/{name}`.
pub proof fn org_listing_has_a_row_per_name(command: CommandView, names: Seq<Seq<char>>)
    requires
        command.cmd == ResourceKind::Orgs,
        names.len() > 0,
    ensures
        command.step(Phase::Fetching, EventView::Orgs(Ok(names))) matches (
            Phase::Done,
            ActionView::Finish { output: OutputView::Table(table), code },
        ) && {
            &&& code == SUCCESS
            &&& table.label_title == org_title()
            &&& table.link_title == link_title()
            &&& table.rows.len() == names.len()
            &&& forall|i: int|
                0 <= i < names.len() ==> {
                    &&& (#[trigger] table.rows[i]).label == names[i]
                    &&& table.rows[i].link == command.host + org_segment() + names[i]
                }
        },
{
}

/// The table of a flake listing can be laid out exactly when the display
/// host and the names of all the flakes fetched are plain.
pub proof fn flake_table_is_printable_iff_plain(command: CommandView, flakes: Seq<FlakeView>)
    requires
        flakes.len() > 0,
    ensures
        command.flakes_output(Ok(flakes)).printable() <==> {
            &&& is_plain(command.host)
            &&& forall|i: int|
                0 <= i < flakes.len() ==> is_plain(#[trigger] flakes[i].organization) && is_plain(
                    flakes[i].project,
                )
        },
{
    let table = command.flakes_output(Ok(flakes))->Table_0;
    lemma_titles_are_plain();
    assert forall|i: int| 0 <= i < flakes.len() implies (table.rows[i].printable() <==> is_plain(
        command.host,
    ) && is_plain(flakes[i].organization) && is_plain(flakes[i].project)) by {
        let flake = flakes[i];
        lemma_plain_concat(flake.organization, seq!['/']);
        lemma_plain_concat(flake.organization + seq!['/'], flake.project);
        lemma_plain_concat(command.host, flake_segment());
        lemma_plain_concat(command.host + flake_segment(), flake.name());
    }
    if table.printable() {
        assert(table.rows[0].printable());
        assert forall|i: int| 0 <= i < flakes.len() implies is_plain(
            #[trigger] flakes[i].organization,
        ) && is_plain(flakes[i].project) by {
            assert(table.rows[i].printable());
        }
    }
}

/// The table of an organization listing can be laid out exactly when the
/// display host and all the names fetched are plain.
pub proof fn org_table_is_printable_iff_plain(command: CommandView, names: Seq<Seq<char>>)
    requires
        names.len() > 0,
    ensures
        command.orgs_output(Ok(names)).printable() <==> {
            &&& is_plain(command.host)
            &&& forall|i: int| 0 <= i < names.len() ==> is_plain(#[trigger] names[i])
        },
{
    let table = command.orgs_output(Ok(names))->Table_0;
    lemma_titles_are_plain();
    assert forall|i: int| 0 <= i < names.len() implies (table.rows[i].printable() <==> is_plain(
        command.host,
    ) && is_plain(names[i])) by {
        lemma_plain_concat(command.host, org_segment());
        lemma_plain_concat(command.host + org_segment(), names[i]);
    }
    if table.printable() {
        assert(table.rows[0].printable());
        assert forall|i: int| 0 <= i < names.len() implies is_plain(#[trigger] names[i]) by {
            assert(table.rows[i].printable());
        }
    }
}

/// The three titles hold no escape character.
proof fn lemma_titles_are_plain()
    ensures
        is_plain(flake_title()),
        is_plain(org_title()),
        is_plain(link_title()),
{
}

/// A listing of either kind that fetched nothing ends with success and the
/// notice alone, which is the line `No results` under every style.
pub proof fn empty_listing_says_no_results(command: CommandView, style: StyleView)
    ensures
        command.cmd == ResourceKind::Flakes ==> command.step(
            Phase::Fetching,
            EventView::Flakes(Ok(Seq::empty())),
        ) == (Phase::Done, ActionView::Finish { output: OutputView::NoResults, code: SUCCESS }),
        command.cmd == ResourceKind::Orgs ==> command.step(
            Phase::Fetching,
            EventView::Orgs(Ok(Seq::empty())),
        ) == (Phase::Done, ActionView::Finish { output: OutputView::NoResults, code: SUCCESS }),
        OutputView::NoResults.printable(),
        OutputView::NoResults.text(style) == no_results_text(),
{
}

/// A listing of either kind whose fetch failed with `message` still ends
/// with success, and what it writes is the line `Error: {message}` under
/// every style.
pub proof fn failed_fetch_is_written_out(
    command: CommandView,
    message: Seq<char>,
    style: StyleView,
)
    ensures
        command.cmd == ResourceKind::Flakes ==> command.step(
            Phase::Fetching,
            EventView::Flakes(Err(message)),
        ) == (
            Phase::Done,
            ActionView::Finish { output: OutputView::Error(message), code: SUCCESS },
        ),
        command.cmd == ResourceKind::Orgs ==> command.step(
            Phase::Fetching,
            EventView::Orgs(Err(message)),
        ) == (
            Phase::Done,
            ActionView::Finish { output: OutputView::Error(message), code: SUCCESS },
        ),
        OutputView::Error(message).printable(),
        OutputView::Error(message).text(style) == error_prefix() + message + seq!['\n'],
{
}

/// Whatever is reported in whatever phase, an invocation that finishes does
/// so with success.
pub proof fn finish_is_success(command: CommandView, phase: Phase, event: EventView)
    ensures
        command.step(phase, event).1 matches ActionView::Finish { code, .. } ==> code == SUCCESS,
{
}

/// Every event is answered by one action.
pub proof fn run_answers_each_event(command: CommandView, phase: Phase, events: Seq<EventView>)
    ensures
        command.run(phase, events).len() == events.len(),
    decreases events.len(),
{
    if events.len() > 0 {
        run_answers_each_event(command, command.step(phase, events[0]).0, events.drop_first());
    }
}

/// Once an invocation is over, everything is refused.
pub proof fn nothing_follows_the_end(command: CommandView, events: Seq<EventView>, i: int)
    requires
        0 <= i < events.len(),
    ensures
        command.run(Phase::Done, events).len() == events.len(),
        command.run(Phase::Done, events)[i] == ActionView::Refuse,
    decreases events.len(),
{
    run_answers_each_event(command, Phase::Done, events);
    if i > 0 {
        nothing_follows_the_end(command, events.drop_first(), i - 1);
        run_answers_each_event(command, Phase::Done, events.drop_first());
    }
}

/// When the client cannot be built, the failure is handed on and that is
/// the end: whatever is reported afterwards, no fetch is asked for.
pub proof fn failed_connect_is_handed_on(command: CommandView, later: Seq<EventView>)
    ensures
        ({
            let events = seq![EventView::Invoked, EventView::ConnectFailed] + later;
            let actions = command.run(Phase::Ready, events);
            &&& actions.len() == events.len()
            &&& actions[0] == ActionView::Connect(command.backend_host)
            &&& actions[1] == ActionView::Propagate
            &&& forall|i: int| 2 <= i < actions.len() ==> actions[i] == ActionView::Refuse
        }),
{
    let events = seq![EventView::Invoked, EventView::ConnectFailed] + later;
    let actions = command.run(Phase::Ready, events);
    let second = events.drop_first();
    let rest = second.drop_first();
    assert(rest =~= later);
    run_answers_each_event(command, Phase::Ready, events);
    run_answers_each_event(command, Phase::Connecting, second);
    run_answers_each_event(command, Phase::Done, rest);
    assert(command.run(Phase::Connecting, second) == seq![ActionView::Propagate] + command.run(
        Phase::Done,
        rest,
    ));
    assert forall|i: int| 2 <= i < actions.len() implies actions[i] == ActionView::Refuse by {
        nothing_follows_the_end(command, rest, i - 2);
    }
}

/// A fetch is asked for only in answer to the report that the client was built.
pub proof fn fetch_needs_a_client(
    command: CommandView,
    phase: Phase,
    events: Seq<EventView>,
    i: int,
)
    requires
        0 <= i < events.len(),
    ensures
        command.run(phase, events).len() == events.len(),
        command.run(phase, events)[i].is_fetch() ==> events[i] is Connected,
    decreases events.len(),
{
    run_answers_each_event(command, phase, events);
    if i > 0 {
        let next = command.step(phase, events[0]).0;
        fetch_needs_a_client(command, next, events.drop_first(), i - 1);
    }
}

/// From the moment the fetch was asked for, no other is.
pub proof fn no_fetch_after_the_fetch(
    command: CommandView,
    phase: Phase,
    events: Seq<EventView>,
    i: int,
)
    requires
        phase is Fetching || phase is Done,
        0 <= i < events.len(),
    ensures
        command.run(phase, events).len() == events.len(),
        !command.run(phase, events)[i].is_fetch(),
    decreases events.len(),
{
    run_answers_each_event(command, phase, events);
    if i > 0 {
        let next = command.step(phase, events[0]).0;
        no_fetch_after_the_fetch(command, next, events.drop_first(), i - 1);
    }
}

/// An invocation fetches at most once, whatever it is told.
pub proof fn at_most_one_fetch(
    command: CommandView,
    phase: Phase,
    events: Seq<EventView>,
    i: int,
    j: int,
)
    requires
        0 <= i < j < events.len(),
    ensures
        command.run(phase, events).len() == events.len(),
        !(command.run(phase, events)[i].is_fetch() && command.run(phase, events)[j].is_fetch()),
    decreases events.len(),
{
    run_answers_each_event(command, phase, events);
    let next = command.step(phase, events[0]).0;
    if i > 0 {
        at_most_one_fetch(command, next, events.drop_first(), i - 1, j - 1);
    } else if command.run(phase, events)[0].is_fetch() {
        no_fetch_after_the_fetch(command, next, events.drop_first(), j - 1);
    }
}

/// Two invocations with the same arguments that are told the same things
/// ask for the same things and finish with the same output, which is the
/// same text under the same style: nothing but the arguments and the reports
/// decides what a listing does, and nothing is carried from one invocation
/// to the next.
pub proof fn same_reports_same_listing(
    first: ListSubcommand,
    second: ListSubcommand,
    reports: Seq<Event>,
    again: Seq<Event>,
    style: TableStyle,
    same_style: TableStyle,
)
    requires
        first@ == second@,
        event_views(reports) == event_views(again),
        style@ == same_style@,
    ensures
        first@.run(Phase::Ready, event_views(reports)) == second@.run(
            Phase::Ready,
            event_views(again),
        ),
        forall|i: int|
            #![trigger first@.run(Phase::Ready, event_views(reports))[i]]
            0 <= i < reports.len() ==> (first@.run(
                Phase::Ready,
                event_views(reports),
            )[i] matches ActionView::Finish { output, .. } ==> second@.run(
                Phase::Ready,
                event_views(again),
            )[i] matches ActionView::Finish { output: same_output, .. } && output.printable()
                == same_output.printable() && output.text(style@) == same_output.text(
                same_style@,
            )),
{
}

} // verus!
