//! The persisted preference between the command line and the dashboard.
//!
//! The preference is one word, `cli` or `tui`. It is read once at startup
//! and written only by the `mode` command. Loading and storing it is the
//! caller's part; what a request does to it is decided here.

use crate::style::{styled, Line, Span, Styled, Tone};
use crate::text::{join2, same_text};
use vstd::prelude::*;
use vstd::string::*;

verus! {

/// The persisted record.
#[derive(Clone, Debug)]
pub struct HaoleConfig {
    pub mode: String,
}

impl Default for HaoleConfig {
    /// The preference where none was stored: the command line.
    fn default() -> (cfg: Self)
        ensures
            cfg.mode@ == "cli"@,
    {
        HaoleConfig { mode: String::from_str("cli") }
    }
}

/// The two modes of the program.
#[derive(Clone, Copy, Debug, PartialEq, Eq, Structural)]
pub enum Mode {
    /// One command, one answer.
    Cli,
    /// The dashboard.
    Tui,
}

impl Mode {
    /// The word that stands for a mode in the record.
    pub open spec fn name_of(self) -> Seq<char> {
        match self {
            Mode::Cli => "cli"@,
            Mode::Tui => "tui"@,
        }
    }

    /// The other mode.
    pub open spec fn other(self) -> Mode {
        match self {
            Mode::Cli => Mode::Tui,
            Mode::Tui => Mode::Cli,
        }
    }

    /// The word that stands for the mode in the record.
    pub fn name(self) -> (word: &'static str)
        ensures
            word@ == self.name_of(),
    {
        match self {
            Mode::Cli => "cli",
            Mode::Tui => "tui",
        }
    }

    /// The other mode.
    pub fn toggle(self) -> (mode: Mode)
        ensures
            mode == self.other(),
            mode.other() == self,
    {
        match self {
            Mode::Cli => Mode::Tui,
            Mode::Tui => Mode::Cli,
        }
    }
}

/// The mode that a stored word stands for: the dashboard for `tui`, the
/// command line for anything else.
pub open spec fn preference_of(word: Seq<char>) -> Mode {
    if word == "tui"@ {
        Mode::Tui
    } else {
        Mode::Cli
    }
}

/// Whether `word` names a mode.
pub open spec fn is_mode_name(word: Seq<char>) -> bool {
    word == "cli"@ || word == "tui"@
}

/// The other mode: `tui` for `cli`, and `cli` for anything else.
pub open spec fn toggled(mode: Seq<char>) -> Seq<char> {
    if mode == "cli"@ {
        "tui"@
    } else {
        "cli"@
    }
}

/// What became of a request.
#[derive(Clone, Copy, Debug, PartialEq, Eq, Structural)]
pub enum ModeReply {
    /// Nothing was asked for: the mode is only shown.
    Current,
    /// The mode was set, and the record is to be stored.
    Changed,
    /// The word names no mode: the record is as before, and an error is
    /// reported.
    Invalid,
}

impl ModeReply {
    /// Whether the record is to be stored after this reply: only after a
    /// change.
    pub fn stores(self) -> (b: bool)
        ensures
            b == (self == ModeReply::Changed),
    {
        match self {
            ModeReply::Changed => true,
            _ => false,
        }
    }
}

/// The reply to a request.
pub open spec fn reply_to(request: Option<Seq<char>>) -> ModeReply {
    match request {
        None => ModeReply::Current,
        Some(word) => if is_mode_name(word) || word == "toggle"@ {
            ModeReply::Changed
        } else {
            ModeReply::Invalid
        },
    }
}

/// The mode after a request.
pub open spec fn mode_after(mode: Seq<char>, request: Option<Seq<char>>) -> Seq<char> {
    match request {
        None => mode,
        Some(word) => if is_mode_name(word) {
            word
        } else if word == "toggle"@ {
            toggled(mode)
        } else {
            mode
        },
    }
}

/// The model of a request that may be missing.
pub open spec fn request_model(request: Option<&str>) -> Option<Seq<char>> {
    match request {
        Some(word) => Some(word@),
        None => None,
    }
}

/// The three words of the `mode` command differ, so a request is read in one
/// way only.
pub proof fn lemma_mode_words_differ()
    ensures
        "cli"@ != "tui"@,
        "cli"@ != "toggle"@,
        "tui"@ != "toggle"@,
        !is_mode_name("toggle"@),
{
    reveal_strlit("cli");
    reveal_strlit("tui");
    reveal_strlit("toggle");
    assert("tui"@[0] == 't');
    assert("toggle"@.len() == 6);
}

/// Toggling turns `cli` into `tui` and `tui` into `cli`, so toggling a mode
/// twice gives it back. On the record it does what `Mode::other` does on
/// the mode that the record stands for.
pub proof fn lemma_toggle(mode: Seq<char>)
    ensures
        toggled("cli"@) == "tui"@,
        toggled("tui"@) == "cli"@,
        is_mode_name(toggled(mode)),
        is_mode_name(mode) ==> toggled(toggled(mode)) == mode,
        is_mode_name(mode) ==> preference_of(toggled(mode)) == preference_of(mode).other(),
        is_mode_name(mode) ==> preference_of(mode).name_of() == mode,
        mode_after(mode, Some("toggle"@)) == toggled(mode),
{
    lemma_mode_words_differ();
}

/// A word that names no mode and is not `toggle` leaves the mode as it is,
/// and is answered as invalid; every other request is not.
pub proof fn lemma_invalid_request_changes_nothing(mode: Seq<char>, request: Option<Seq<char>>)
    ensures
        reply_to(request) == ModeReply::Invalid ==> mode_after(mode, request) == mode,
        reply_to(request) == ModeReply::Current ==> mode_after(mode, request) == mode,
        reply_to(request) == ModeReply::Invalid <==> request is Some && !is_mode_name(
            request.unwrap(),
        ) && request.unwrap() != "toggle"@,
        reply_to(request) == ModeReply::Changed && is_mode_name(mode) ==> is_mode_name(
            mode_after(mode, request),
        ),
{
    lemma_mode_words_differ();
}

/// The line that answers a request, for the mode after it.
pub open spec fn mode_line_of(reply: ModeReply, mode: Seq<char>) -> Seq<Styled> {
    match reply {
        ModeReply::Current => seq![styled(Tone::Plain, "現在のモード: "@), styled(Tone::Cyan, mode)],
        ModeReply::Changed => seq![
            styled(Tone::Green, ">>"@),
            styled(Tone::Plain, " モードを "@),
            styled(Tone::Cyan, mode),
            styled(Tone::Plain, " に変更しました。"@),
        ],
        ModeReply::Invalid => seq![
            styled(Tone::Red, "!!"@),
            styled(
                Tone::Plain,
                " 無効なモードです。cli または tui を指定してください。toggleで切り替えることもできます。"@,
            ),
        ],
    }
}

/// The warning for a record that could not be loaded, with the reason.
pub open spec fn load_warning_of(reason: Seq<char>) -> Seq<Styled> {
    seq![
        styled(Tone::Yellow, "!!"@),
        styled(
            Tone::Plain,
            " 設定ファイルの読み込みに失敗しました。デフォルト値を使用します: "@ + reason,
        ),
    ]
}

impl HaoleConfig {
    /// The mode that the record stands for.
    pub fn preference(&self) -> (mode: Mode)
        ensures
            mode == preference_of(self.mode@),
    {
        if same_text(self.mode.as_str(), "tui") {
            Mode::Tui
        } else {
            Mode::Cli
        }
    }

    /// Whether the program starts the dashboard: the preference is `tui`
    /// and the command line holds the program's name and nothing else.
    pub fn launches_dashboard(&self, argc: usize) -> (b: bool)
        ensures
            b == (preference_of(self.mode@) == Mode::Tui && argc == 1),
            b == (self.mode@ == "tui"@ && argc == 1),
    {
        match self.preference() {
            Mode::Tui => argc == 1,
            Mode::Cli => false,
        }
    }

    /// Applies a request of the `mode` command: no word shows the mode,
    /// `cli` or `tui` sets it, `toggle` switches it, and any other word is
    /// invalid and changes nothing. The record is to be stored exactly where
    /// the reply is `Changed`.
    pub fn request(&mut self, new_mode: Option<&str>) -> (reply: ModeReply)
        ensures
            reply == reply_to(request_model(new_mode)),
            final(self).mode@ == mode_after(old(self).mode@, request_model(new_mode)),
    {
        match new_mode {
            None => ModeReply::Current,
            Some(word) => {
                if same_text(word, "cli") || same_text(word, "tui") {
                    self.mode = String::from_str(word);
                    ModeReply::Changed
                } else if same_text(word, "toggle") {
                    if same_text(self.mode.as_str(), "cli") {
                        self.mode = String::from_str("tui");
                    } else {
                        self.mode = String::from_str("cli");
                    }
                    ModeReply::Changed
                } else {
                    ModeReply::Invalid
                }
            },
        }
    }

    /// The line that answers a request, after the request was applied.
    pub fn reply_line(&self, reply: ModeReply) -> (line: Line)
        ensures
            line@ == mode_line_of(reply, self.mode@),
    {
        match reply {
            ModeReply::Current => {
                let mut line: Line = Line::of(Span::plain("現在のモード: "));
                line.push(Span::new(Tone::Cyan, self.mode.as_str()));
                line
            },
            ModeReply::Changed => {
                let mut line: Line = Line::of(Span::new(Tone::Green, ">>"));
                line.push(Span::plain(" モードを "));
                line.push(Span::new(Tone::Cyan, self.mode.as_str()));
                line.push(Span::plain(" に変更しました。"));
                line
            },
            ModeReply::Invalid => {
                let mut line: Line = Line::of(Span::new(Tone::Red, "!!"));
                line.push(
                    Span::plain(
                        " 無効なモードです。cli または tui を指定してください。toggleで切り替えることもできます。",
                    ),
                );
                line
            },
        }
    }
}

/// The preference that the program starts with, and the warning to print
/// where the stored one could not be used.
#[derive(Clone, Debug)]
pub struct Startup {
    pub cfg: HaoleConfig,
    pub warning: Option<Line>,
}

/// What the program starts with for the outcome of loading the record: the
/// record where it was loaded, else the default with a warning that bears
/// the reason.
pub fn startup(loaded: Result<HaoleConfig, String>) -> (start: Startup)
    ensures
        match loaded {
            Ok(cfg) => start.cfg.mode@ == cfg.mode@ && start.warning is None,
            Err(reason) => start.cfg.mode@ == "cli"@ && start.warning is Some
                && start.warning.unwrap()@ == load_warning_of(reason@),
        },
{
    match loaded {
        Ok(cfg) => Startup { cfg, warning: None },
        Err(reason) => Startup {
            cfg: HaoleConfig { mode: String::from_str("cli") },
            warning: Some(load_warning(reason.as_str())),
        },
    }
}

/// The warning for a record that could not be loaded; it goes to standard
/// error, and the program goes on with the default.
pub fn load_warning(reason: &str) -> (line: Line)
    ensures
        line@ == load_warning_of(reason@),
{
    let mut line: Line = Line::of(Span::new(Tone::Yellow, "!!"));
    line.push(
        Span::owned(
            join2(" 設定ファイルの読み込みに失敗しました。デフォルト値を使用します: ", reason),
        ),
    );
    line
}

} // verus!
