//! The `list` command: what it asks of the outside world, in which order,
//! and what it makes of the answers.
//!
//! The command neither connects nor prints. It is a state machine: the
//! caller hands [`ListSubcommand::step`] the phase and what happened last,
//! and gets back the next phase and what to do next.

use vstd::prelude::*;
use vstd::string::*;
use crate::entity::{flake_views, name_views, Flake, FlakeView};
use crate::output::{listing, listing_output, Output, OutputView};
use crate::table::{flake_rows, org_rows, rows_of_flakes, rows_of_orgs};

verus! {

/// The exit code of a listing that ran to its end, whatever it fetched.
pub const SUCCESS: u8 = 0;

/// Title of the label column of a flake listing: `Flake`.
pub open spec fn flake_title() -> Seq<char> {
    seq!['F', 'l', 'a', 'k', 'e']
}

/// Title of the label column of an organization listing: `Organization`.
pub open spec fn org_title() -> Seq<char> {
    seq!['O', 'r', 'g', 'a', 'n', 'i', 'z', 'a', 't', 'i', 'o', 'n']
}

/// Title of the link column of either listing: `FlakeHub URL`.
pub open spec fn link_title() -> Seq<char> {
    seq!['F', 'l', 'a', 'k', 'e', 'H', 'u', 'b', ' ', 'U', 'R', 'L']
}

/// Which collection of the catalog is listed.
#[derive(Clone, Copy, Debug, PartialEq, Eq, Structural)]
pub enum ResourceKind {
    /// All public flakes.
    Flakes,
    /// All public organizations.
    Orgs,
}

/// One invocation of `list`.
#[derive(Debug)]
pub struct ListSubcommand {
    /// What to list.
    pub cmd: ResourceKind,
    /// The host that the links in the table point to.
    pub host: String,
    /// The host that the catalog is fetched from.
    pub backend_host: String,
}

pub ghost struct CommandView {
    pub cmd: ResourceKind,
    pub host: Seq<char>,
    pub backend_host: Seq<char>,
}

impl View for ListSubcommand {
    type V = CommandView;

    open spec fn view(&self) -> CommandView {
        CommandView { cmd: self.cmd, host: self.host@, backend_host: self.backend_host@ }
    }
}

/// How far an invocation has come.
#[derive(Clone, Copy, Debug, PartialEq, Eq, Structural)]
pub enum Phase {
    /// Nothing has been asked yet.
    Ready,
    /// A client was asked for; the answer is pending.
    Connecting,
    /// The records were asked for; the answer is pending.
    Fetching,
    /// The invocation is over.
    Done,
}

/// What the caller reports to the command.
#[derive(Debug)]
pub enum Event {
    /// The command was invoked.
    Invoked,
    /// The client for the backend host was built.
    Connected,
    /// The client could not be built.
    ConnectFailed,
    /// The outcome of fetching the flakes: the flakes in the order the
    /// catalog returned them, or the message of the failure.
    Flakes(Result<Vec<Flake>, String>),
    /// The outcome of fetching the organizations: their names in the order
    /// the catalog returned them, or the message of the failure.
    Orgs(Result<Vec<String>, String>),
}

pub ghost enum EventView {
    Invoked,
    Connected,
    ConnectFailed,
    Flakes(Result<Seq<FlakeView>, Seq<char>>),
    Orgs(Result<Seq<Seq<char>>, Seq<char>>),
}

impl View for Event {
    type V = EventView;

    open spec fn view(&self) -> EventView {
        match self {
            Event::Invoked => EventView::Invoked,
            Event::Connected => EventView::Connected,
            Event::ConnectFailed => EventView::ConnectFailed,
            Event::Flakes(Ok(flakes)) => EventView::Flakes(Ok(flake_views(flakes@))),
            Event::Flakes(Err(message)) => EventView::Flakes(Err(message@)),
            Event::Orgs(Ok(names)) => EventView::Orgs(Ok(name_views(names@))),
            Event::Orgs(Err(message)) => EventView::Orgs(Err(message@)),
        }
    }
}

/// What the command asks of its caller.
#[derive(Debug)]
pub enum Action {
    /// Build a client for this backend host, and report `Connected` or `ConnectFailed`.
    Connect(String),
    /// Fetch all flakes in one call, and report the outcome as `Flakes`.
    ListFlakes,
    /// Fetch all organizations in one call, and report the outcome as `Orgs`.
    ListOrgs,
    /// Write the output to standard output and end with this exit code.
    Finish { output: Output, code: u8 },
    /// End by handing the failure to build the client on to the caller's caller.
    Propagate,
    /// The event answers nothing that was asked; nothing is to be done.
    Refuse,
}

pub ghost enum ActionView {
    Connect(Seq<char>),
    ListFlakes,
    ListOrgs,
    Finish { output: OutputView, code: u8 },
    Propagate,
    Refuse,
}

impl View for Action {
    type V = ActionView;

    open spec fn view(&self) -> ActionView {
        match self {
            Action::Connect(backend_host) => ActionView::Connect(backend_host@),
            Action::ListFlakes => ActionView::ListFlakes,
            Action::ListOrgs => ActionView::ListOrgs,
            Action::Finish { output, code } => ActionView::Finish { output: output@, code: *code },
            Action::Propagate => ActionView::Propagate,
            Action::Refuse => ActionView::Refuse,
        }
    }
}

impl ActionView {
    /// Whether the action is one of the two fetches.
    pub open spec fn is_fetch(self) -> bool {
        self is ListFlakes || self is ListOrgs
    }
}

impl CommandView {
    /// The fetch that this command makes once it has a client.
    pub open spec fn fetch(self) -> ActionView {
        match self.cmd {
            ResourceKind::Flakes => ActionView::ListFlakes,
            ResourceKind::Orgs => ActionView::ListOrgs,
        }
    }

    /// The output of a flake listing whose fetch ended in `fetched`.
    pub open spec fn flakes_output(self, fetched: Result<Seq<FlakeView>, Seq<char>>) -> OutputView {
        listing(
            flake_title(),
            link_title(),
            match fetched {
                Ok(flakes) => Ok(flake_rows(flakes, self.host)),
                Err(message) => Err(message),
            },
        )
    }

    /// The output of an organization listing whose fetch ended in `fetched`.
    pub open spec fn orgs_output(self, fetched: Result<Seq<Seq<char>>, Seq<char>>) -> OutputView {
        listing(
            org_title(),
            link_title(),
            match fetched {
                Ok(names) => Ok(org_rows(names, self.host)),
                Err(message) => Err(message),
            },
        )
    }

    /// The transition: the phase and the action that follow `event` in `phase`.
    ///
    /// An invocation asks for a client first. If that fails the failure is
    /// handed on and nothing is fetched. With a client the one fetch of the
    /// command's kind is made, and its outcome, a failure too, is written out
    /// and ends the invocation with [`SUCCESS`]. An event that does not
    /// answer what was asked last is refused and changes nothing.
    pub open spec fn step(self, phase: Phase, event: EventView) -> (Phase, ActionView) {
        match phase {
            Phase::Ready => match event {
                EventView::Invoked => (Phase::Connecting, ActionView::Connect(self.backend_host)),
                _ => (phase, ActionView::Refuse),
            },
            Phase::Connecting => match event {
                EventView::Connected => (Phase::Fetching, self.fetch()),
                EventView::ConnectFailed => (Phase::Done, ActionView::Propagate),
                _ => (phase, ActionView::Refuse),
            },
            Phase::Fetching => match event {
                EventView::Flakes(fetched) => if self.cmd == ResourceKind::Flakes {
                    (
                        Phase::Done,
                        ActionView::Finish { output: self.flakes_output(fetched), code: SUCCESS },
                    )
                } else {
                    (phase, ActionView::Refuse)
                },
                EventView::Orgs(fetched) => if self.cmd == ResourceKind::Orgs {
                    (
                        Phase::Done,
                        ActionView::Finish { output: self.orgs_output(fetched), code: SUCCESS },
                    )
                } else {
                    (phase, ActionView::Refuse)
                },
                _ => (phase, ActionView::Refuse),
            },
            Phase::Done => (phase, ActionView::Refuse),
        }
    }

    /// The actions that answer `events`, one by one, from `phase` on.
    pub open spec fn run(self, phase: Phase, events: Seq<EventView>) -> Seq<ActionView>
        decreases events.len(),
    {
        if events.len() == 0 {
            Seq::empty()
        } else {
            let (next, action) = self.step(phase, events[0]);
            seq![action] + self.run(next, events.drop_first())
        }
    }
}

impl ListSubcommand {
    /// An invocation that lists `cmd`, links to `host` and fetches from `backend_host`.
    pub fn new(cmd: ResourceKind, host: String, backend_host: String) -> (command: ListSubcommand)
        ensures
            command@ == (CommandView { cmd, host: host@, backend_host: backend_host@ }),
    {
        ListSubcommand { cmd, host, backend_host }
    }

    /// The phase every invocation starts in.
    pub fn start() -> (phase: Phase)
        ensures
            phase == Phase::Ready,
    {
        Phase::Ready
    }

    /// Takes one step: answers `event`, reported in `phase`, with the next
    /// phase and the next action.
    pub fn step(&self, phase: Phase, event: Event) -> (next: (Phase, Action))
        ensures
            (next.0, next.1@) == self@.step(phase, event@),
    {
        match phase {
            Phase::Ready => match event {
                Event::Invoked => (Phase::Connecting, Action::Connect(self.backend_host.clone())),
                _ => (phase, Action::Refuse),
            },
            Phase::Connecting => match event {
                Event::Connected => match self.cmd {
                    ResourceKind::Flakes => (Phase::Fetching, Action::ListFlakes),
                    ResourceKind::Orgs => (Phase::Fetching, Action::ListOrgs),
                },
                Event::ConnectFailed => (Phase::Done, Action::Propagate),
                _ => (phase, Action::Refuse),
            },
            Phase::Fetching => match event {
                Event::Flakes(fetched) => match self.cmd {
                    ResourceKind::Flakes => {
                        let rows = match fetched {
                            Ok(flakes) => Ok(rows_of_flakes(&flakes, self.host.as_str())),
                            Err(message) => Err(message),
                        };
                        let output = listing_output(flake_heading(), link_heading(), rows);
                        (Phase::Done, Action::Finish { output, code: SUCCESS })
                    },
                    ResourceKind::Orgs => (phase, Action::Refuse),
                },
                Event::Orgs(fetched) => match self.cmd {
                    ResourceKind::Orgs => {
                        let rows = match fetched {
                            Ok(names) => Ok(rows_of_orgs(&names, self.host.as_str())),
                            Err(message) => Err(message),
                        };
                        let output = listing_output(org_heading(), link_heading(), rows);
                        (Phase::Done, Action::Finish { output, code: SUCCESS })
                    },
                    ResourceKind::Flakes => (phase, Action::Refuse),
                },
                _ => (phase, Action::Refuse),
            },
            Phase::Done => (phase, Action::Refuse),
        }
    }
}

fn flake_heading() -> (title: String)
    ensures
        title@ == flake_title(),
{
    let title = String::from_str("Flake");
    proof {
        reveal_strlit("Flake");
        assert(title@ =~= flake_title());
    }
    title
}

fn org_heading() -> (title: String)
    ensures
        title@ == org_title(),
{
    let title = String::from_str("Organization");
    proof {
        reveal_strlit("Organization");
        assert(title@ =~= org_title());
    }
    title
}

fn link_heading() -> (title: String)
    ensures
        title@ == link_title(),
{
    let title = String::from_str("FlakeHub URL");
    proof {
        reveal_strlit("FlakeHub URL");
        assert(title@ =~= link_title());
    }
    title
}

} // verus!
