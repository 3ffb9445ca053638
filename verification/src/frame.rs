//! What one frame of the dashboard shows, as plain values.
//!
//! A frame is a function of the status on display and the history, and of
//! nothing else: building one fetches nothing and waits for nothing.

use crate::history::{log_line, peak_of, scale_of, History, Sample};
use crate::status::{HavenStatus, StatusModel};
use crate::style::{styled, Line, Span, Styled, Tone};
use crate::text::{decimal, decimal_text};
use vstd::prelude::*;
use vstd::string::*;

verus! {

/// The title of the status bar.
pub const STATUS_TITLE: &'static str = " HavenMC Status ";

/// The title of the player panel.
pub const PLAYERS_TITLE: &'static str = " Players ";

/// The title of the activity panel.
pub const ACTIVITY_TITLE: &'static str = " Activity ";

/// The rows of the status bar, its border included.
pub const STATUS_ROWS: u16 = 3;

/// The share of the width that the player panel takes, in percent; the
/// activity panel takes the rest.
pub const PLAYERS_PERCENT: u16 = 30;

/// The rows of the activity chart, its border included; the log takes the
/// rows below it.
pub const ACTIVITY_ROWS: u16 = 3;

/// The model of a borrowed status that may be missing.
pub open spec fn shown_model(shown: Option<&HavenStatus>) -> Option<StatusModel> {
    match shown {
        Some(s) => Some(s@),
        None => None,
    }
}

/// The status bar: the server's state and its player count, or a notice
/// where no status is on display.
pub open spec fn status_bar_of(shown: Option<StatusModel>) -> Seq<Styled> {
    match shown {
        Some(s) => seq![
            styled(Tone::Plain, " サーバー: "@),
            if s.online {
                styled(Tone::Green, "ONLINE"@)
            } else {
                styled(Tone::Red, "OFFLINE"@)
            },
            styled(
                Tone::Plain,
                " | オンライン: "@ + decimal(s.players.online as nat) + "/"@ + decimal(
                    s.players.max as nat,
                ),
            ),
        ],
        None => seq![
            styled(Tone::Plain, " "@),
            styled(Tone::Yellow, "!!"@),
            styled(Tone::Plain, " データを取得中、または接続エラー..."@),
        ],
    }
}

/// The entry of one player in the player panel.
pub open spec fn player_item(name: Seq<char>) -> Seq<char> {
    "  • "@ + name
}

/// The player panel: one entry for each name, in the order of the report;
/// empty where no status is on display or the report has no names.
pub open spec fn player_items_of(shown: Option<StatusModel>) -> Seq<Seq<char>> {
    match shown {
        Some(s) => match s.players.list {
            Some(names) => names.map_values(|n: Seq<char>| player_item(n)),
            None => Seq::empty(),
        },
        None => Seq::empty(),
    }
}

/// One frame of the dashboard.
#[derive(Clone, Debug)]
pub struct Frame {
    /// The status bar.
    pub status_bar: Line,
    /// The entries of the player panel.
    pub players: Vec<String>,
    /// The bars of the activity chart, oldest first.
    pub activity: Vec<u64>,
    /// The upper end of the chart's scale.
    pub activity_max: u64,
    /// The log below the chart, newest first.
    pub log: Vec<String>,
}

/// The model of a [`Frame`].
pub struct FrameModel {
    pub status_bar: Seq<Styled>,
    pub players: Seq<Seq<char>>,
    pub activity: Seq<u64>,
    pub activity_max: u64,
    pub log: Seq<Seq<char>>,
}

impl View for Frame {
    type V = FrameModel;

    open spec fn view(&self) -> FrameModel {
        FrameModel {
            status_bar: self.status_bar@,
            players: self.players.deep_view(),
            activity: self.activity@,
            activity_max: self.activity_max,
            log: self.log.deep_view(),
        }
    }
}

/// The frame for a status on display and a history.
pub open spec fn frame_of(shown: Option<StatusModel>, history: Seq<Sample>) -> FrameModel {
    FrameModel {
        status_bar: status_bar_of(shown),
        players: player_items_of(shown),
        activity: history.map_values(|s: Sample| s.online as u64),
        activity_max: scale_of(peak_of(history)) as u64,
        log: history.reverse().map_values(|s: Sample| log_line(s)),
    }
}

/// Builds the status bar.
pub fn status_bar(shown: Option<&HavenStatus>) -> (line: Line)
    ensures
        line@ == status_bar_of(shown_model(shown)),
{
    match shown {
        Some(s) => {
            let mut line: Line = Line::of(Span::plain(" サーバー: "));
            if s.online {
                line.push(Span::new(Tone::Green, "ONLINE"));
            } else {
                line.push(Span::new(Tone::Red, "OFFLINE"));
            }
            let mut tail: String = String::from_str(" | オンライン: ");
            let online: String = decimal_text(s.players.online as u64);
            tail.append(online.as_str());
            tail.append("/");
            let max: String = decimal_text(s.players.max as u64);
            tail.append(max.as_str());
            line.push(Span::owned(tail));
            line
        },
        None => {
            let mut line: Line = Line::of(Span::plain(" "));
            line.push(Span::new(Tone::Yellow, "!!"));
            line.push(Span::plain(" データを取得中、または接続エラー..."));
            line
        },
    }
}

/// Builds the entries of the player panel.
pub fn player_items(shown: Option<&HavenStatus>) -> (items: Vec<String>)
    ensures
        items.deep_view() == player_items_of(shown_model(shown)),
{
    let mut items: Vec<String> = Vec::new();
    match shown {
        Some(s) => match &s.players.list {
            Some(names) => {
                let ghost model = names.deep_view();
                let mut i: usize = 0;
                while i < names.len()
                    invariant
                        i <= names.len(),
                        model == names.deep_view(),
                        items.deep_view() == model.take(i as int).map_values(
                            |n: Seq<char>| player_item(n),
                        ),
                    decreases names.len() - i,
                {
                    let mut item: String = String::from_str("  • ");
                    item.append(names[i].as_str());
                    let ghost before = items.deep_view();
                    items.push(item);
                    assert(items.deep_view() =~= before.push(item@));
                    i = i + 1;
                }
                items
            },
            None => items,
        },
        None => items,
    }
}

impl Frame {
    /// The frame for the status on display and the history.
    pub fn of(shown: Option<&HavenStatus>, history: &History) -> (frame: Frame)
        ensures
            frame@ == frame_of(shown_model(shown), history@),
    {
        Frame {
            status_bar: status_bar(shown),
            players: player_items(shown),
            activity: history.counts(),
            activity_max: history.scale(),
            log: history.log_lines(),
        }
    }
}

} // verus!
