//! The records of the monitor: what each is entered as in the log, and what
//! is shown of it on the console.

use crate::probe::{PingEvent, PingEventView};
use crate::state::EventKind;
use crate::text::glue;
use vstd::prelude::*;
use vstd::string::StringExecFns;

verus! {

/// The escape sequence that ends a colour.
pub open spec fn colour_off() -> Seq<char> {
    "\x1B[0m"@
}

/// The escape sequence that turns what follows bright red.
pub open spec fn red_on() -> Seq<char> {
    "\x1B[91m"@
}

/// The escape sequence that turns what follows bright green.
pub open spec fn green_on() -> Seq<char> {
    "\x1B[92m"@
}

/// `text` as it is shown: in the colour that `on` turns on, or as it is
/// where the console takes no colours.
pub open spec fn shown(text: Seq<char>, on: Seq<char>, coloured: bool) -> Seq<char> {
    if coloured {
        on + text + colour_off()
    } else {
        text
    }
}

/// `Colorize::bright_red` of colored, written out as a string. Whether the
/// text is coloured depends on the environment and on the console. A text
/// without an escape character comes back either as it is or between the
/// escape sequence for bright red and the one that ends a colour.
#[verifier::external_body]
fn bright_red(text: &str) -> (painted: String)
    ensures
        !text@.contains('\x1B') ==> painted@ == shown(text@, red_on(), true) || painted@ == shown(
            text@,
            red_on(),
            false,
        ),
{
    colored::Colorize::bright_red(text).to_string()
}

/// `Colorize::bright_green` of colored, written out as a string. As
/// [`bright_red`], with the escape sequence for bright green.
#[verifier::external_body]
fn bright_green(text: &str) -> (painted: String)
    ensures
        !text@.contains('\x1B') ==> painted@ == shown(text@, green_on(), true) || painted@
            == shown(text@, green_on(), false),
{
    colored::Colorize::bright_green(text).to_string()
}

impl EventKind {
    /// What stands before the time stamp in the log.
    pub open spec fn log_label(self) -> Seq<char> {
        match self {
            EventKind::GatewayUp => "Router UP: "@,
            EventKind::GatewayDown => "Router DOWN: "@,
            EventKind::ConnectionUp => "CONNECTION UP: "@,
            EventKind::ConnectionDown => "CONNECTION DOWN: "@,
            EventKind::ProcessStart => "\nSTART: "@,
            EventKind::ProcessEnd => "END: "@,
        }
    }

    /// What stands before the time stamp on the console. The start of the
    /// process is not shown there.
    pub open spec fn console_label(self) -> Option<Seq<char>> {
        match self {
            EventKind::GatewayUp => Some("Router UP      "@),
            EventKind::GatewayDown => Some("Router DOWN    "@),
            EventKind::ConnectionUp => Some("CONNECTION UP  "@),
            EventKind::ConnectionDown => Some("CONNECTION DOWN"@),
            EventKind::ProcessStart => None,
            EventKind::ProcessEnd => Some("\nEXIT:"@),
        }
    }

    /// The escape sequence for the colour in which the console shows the
    /// label: red for down, green for up, none for the end of the process.
    pub open spec fn colour(self) -> Option<Seq<char>> {
        match self {
            EventKind::GatewayUp | EventKind::ConnectionUp => Some(green_on()),
            EventKind::GatewayDown | EventKind::ConnectionDown => Some(red_on()),
            EventKind::ProcessStart | EventKind::ProcessEnd => None,
        }
    }
}

/// One record: a change of state, or the start or end of the process.
#[derive(Debug, PartialEq, Eq)]
pub struct Event {
    pub kind: EventKind,
    pub timestamp: String,
    /// The hosts whose failure the record reports; empty for other records.
    pub detail: Vec<PingEvent>,
}

/// An [`Event`] as plain values.
pub struct EventView {
    pub kind: EventKind,
    pub timestamp: Seq<char>,
    pub detail: Seq<PingEventView>,
}

impl View for Event {
    type V = EventView;

    open spec fn view(&self) -> EventView {
        EventView {
            kind: self.kind,
            timestamp: self.timestamp@,
            detail: self.detail.deep_view(),
        }
    }
}

impl DeepView for Event {
    type V = EventView;

    open spec fn deep_view(&self) -> EventView {
        self@
    }
}

impl EventView {
    /// The first line of the record in the log.
    pub open spec fn header(self) -> Seq<char> {
        self.kind.log_label() + self.timestamp
    }

    /// The entries by which the record stands in the log: its header, and
    /// under a record of a failure the diagnostics of each host in `detail`.
    pub open spec fn log_lines(self) -> Seq<Seq<char>> {
        if self.kind.spec_is_down() {
            seq![self.header()] + self.detail.map_values(
                |host: PingEventView| host.detail_lines(),
            ).flatten()
        } else {
            seq![self.header()]
        }
    }

    /// What the console shows of the record, with colours or without.
    pub open spec fn console_text(self, coloured: bool) -> Option<Seq<char>> {
        match self.kind.console_label() {
            Some(label) => Some(
                match self.kind.colour() {
                    Some(on) => shown(label, on, coloured),
                    None => label,
                } + " "@ + self.timestamp,
            ),
            None => None,
        }
    }
}

/// A console line from a label that is already painted.
pub fn console_line_with(label: &str, timestamp: &str) -> (line: String)
    ensures
        line@ == label@ + " "@ + timestamp@,
{
    let mut line = glue(label, " ");
    line.append(timestamp);
    line
}

impl Event {
    /// The record of the start of the process.
    pub fn process_start(timestamp: &str) -> (event: Event)
        ensures
            event@ == (EventView {
                kind: EventKind::ProcessStart,
                timestamp: timestamp@,
                detail: Seq::empty(),
            }),
    {
        let event = Event {
            kind: EventKind::ProcessStart,
            timestamp: timestamp.to_owned(),
            detail: Vec::new(),
        };
        assert(event@.detail == Seq::<PingEventView>::empty());
        event
    }

    /// The record of the end of the process.
    pub fn process_end(timestamp: &str) -> (event: Event)
        ensures
            event@ == (EventView {
                kind: EventKind::ProcessEnd,
                timestamp: timestamp@,
                detail: Seq::empty(),
            }),
    {
        let event = Event {
            kind: EventKind::ProcessEnd,
            timestamp: timestamp.to_owned(),
            detail: Vec::new(),
        };
        assert(event@.detail == Seq::<PingEventView>::empty());
        event
    }

    /// The first line of the record in the log.
    pub fn header(&self) -> (line: String)
        ensures
            line@ == self@.header(),
    {
        let label = match self.kind {
            EventKind::GatewayUp => "Router UP: ",
            EventKind::GatewayDown => "Router DOWN: ",
            EventKind::ConnectionUp => "CONNECTION UP: ",
            EventKind::ConnectionDown => "CONNECTION DOWN: ",
            EventKind::ProcessStart => "\nSTART: ",
            EventKind::ProcessEnd => "END: ",
        };
        glue(label, self.timestamp.as_str())
    }

    /// The entries by which the record stands in the log, in order. Each is
    /// appended as one line.
    pub fn lines(&self) -> (lines: Vec<String>)
        ensures
            lines.deep_view() == self@.log_lines(),
    {
        let mut lines: Vec<String> = Vec::new();
        lines.push(self.header());
        assert(lines.deep_view() == seq![self@.header()]);
        if self.kind.is_down() {
            let ghost blocks = self@.detail.map_values(|host: PingEventView| host.detail_lines());
            let mut i: usize = 0;
            assert(blocks.take(0).flatten() == Seq::<Seq<char>>::empty());
            while i < self.detail.len()
                invariant
                    i <= self.detail.len(),
                    blocks == self@.detail.map_values(|host: PingEventView| host.detail_lines()),
                    lines.deep_view() == seq![self@.header()] + blocks.take(i as int).flatten(),
                decreases self.detail.len() - i,
            {
                let ghost before = lines.deep_view();
                let mut block = self.detail[i].log_details();
                let ghost added = block.deep_view();
                lines.append(&mut block);
                proof {
                    assert(lines.deep_view() == before + added);
                    assert(added == blocks[i as int]);
                    assert(blocks.take(i + 1) == blocks.take(i as int).push(blocks[i as int]));
                    blocks.take(i as int).lemma_flatten_push(blocks[i as int]);
                }
                i += 1;
            }
            assert(blocks.take(self.detail.len() as int) == blocks);
        }
        lines
    }

    /// What the console shows of the record, if it shows anything: the
    /// label, red for a failure and green for a recovery where the console
    /// takes colours, and the time stamp.
    pub fn console_line(&self) -> (line: Option<String>)
        ensures
            line.deep_view() == self@.console_text(true) || line.deep_view()
                == self@.console_text(false),
    {
        proof {
            reveal_strlit("Router UP      ");
            reveal_strlit("Router DOWN    ");
            reveal_strlit("CONNECTION UP  ");
            reveal_strlit("CONNECTION DOWN");
        }
        match self.kind {
            EventKind::GatewayUp => {
                let label = bright_green("Router UP      ");
                Some(console_line_with(label.as_str(), self.timestamp.as_str()))
            },
            EventKind::GatewayDown => {
                let label = bright_red("Router DOWN    ");
                Some(console_line_with(label.as_str(), self.timestamp.as_str()))
            },
            EventKind::ConnectionUp => {
                let label = bright_green("CONNECTION UP  ");
                Some(console_line_with(label.as_str(), self.timestamp.as_str()))
            },
            EventKind::ConnectionDown => {
                let label = bright_red("CONNECTION DOWN");
                Some(console_line_with(label.as_str(), self.timestamp.as_str()))
            },
            EventKind::ProcessStart => None,
            EventKind::ProcessEnd => Some(
                console_line_with("\nEXIT:", self.timestamp.as_str()),
            ),
        }
    }
}

} // verus!
