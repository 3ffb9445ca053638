//! The one-shot commands: which source each of them reads, and the lines
//! that it prints for what the source gave.
//!
//! Fetching is the caller's part. It asks [`Commands::source`] what a
//! command needs, gets it, and hands it to [`report`] as a [`Material`].

use crate::status::{HavenStatus, McStatusIOResponse, Players, StatusModel};
use crate::style::{styled, Line, Span, Styled, Tone};
use crate::text::{decimal, decimal_text};
use vstd::prelude::*;
use vstd::string::*;

verus! {

/// The server that the program reports on.
pub const SERVER_HOST: &'static str = "play.havenmc.jp";

/// Where the primary status report is fetched.
pub const STATUS_URL: &'static str = "https://api.havenmc.jp/status";

/// Where the secondary status report is fetched.
pub const LISTING_URL: &'static str = "https://api.mcstatus.io/v2/status/java/play.havenmc.jp";

/// The author of the program.
pub const AUTHOR: &'static str = "KoHaRxnP";

/// The name of the program, of its repository and of its binary.
pub const PROGRAM: &'static str = "haole";

/// The banner of the `version` command.
pub const LOGO: &'static str = "\n            _                _      \n            | |__   __ _  ___| | ___ \n            | '_ \\ / _` |/   \\ |/ _ \\\n            | | | | (_| |  | | |  __/\n            |_| |_|\\__,_|\\___|_|\\___|\n                ";

/// Said where the report holds an empty list of names.
pub const NO_PLAYERS: &'static str = "現在オンラインのプレイヤーはいません。";

/// Said where the report holds no list of names.
pub const NAMES_WITHHELD: &'static str = "プレイヤー名の取得が制限されているか、データがありません。";

/// What follows the numbers in the count line.
pub const PLAYERS_ONLINE: &'static str = " players online";

/// Said of a server that is online.
pub const SERVER_IS_ONLINE: &'static str = "サーバーはオンラインです。";

/// Said of a server that is offline.
pub const SERVER_IS_OFFLINE: &'static str = "サーバーはオフラインです。";

/// The answer of `is-online` for a server that is offline.
pub const SERVER_IS_OFFLINE_INDENTED: &'static str = " サーバーはオフラインです。";

/// The commands of the program.
#[derive(Clone, Debug)]
pub enum Commands {
    Author,
    Players,
    PlayerCount,
    PlayersAll,
    IsOnline,
    IsOffline,
    Version,
    ServerVersion,
    Ip,
    Host,
    Protocol,
    Port,
    Motd { raw: bool, clean: bool, html: bool },
    Mode { new_mode: Option<String> },
    Update,
    Ping,
}

/// What a command reads before it can print.
#[derive(Clone, Copy, Debug, PartialEq, Eq, Structural)]
pub enum Source {
    /// Nothing: the command prints what the program knows.
    Nothing,
    /// The primary status report.
    Status,
    /// The secondary status report.
    Listing,
    /// The persisted preference.
    Preference,
    /// The release source.
    Release,
    /// The `ping` utility of the system.
    Probe,
}

impl Commands {
    /// The source of a command.
    pub open spec fn source_of(self) -> Source {
        match self {
            Commands::Author | Commands::Version => Source::Nothing,
            Commands::Players
            | Commands::PlayerCount
            | Commands::PlayersAll
            | Commands::IsOnline
            | Commands::IsOffline
            | Commands::ServerVersion => Source::Status,
            Commands::Ip
            | Commands::Host
            | Commands::Protocol
            | Commands::Port
            | Commands::Motd { .. } => Source::Listing,
            Commands::Mode { .. } => Source::Preference,
            Commands::Update => Source::Release,
            Commands::Ping => Source::Probe,
        }
    }

    /// What the command reads before it can print.
    pub fn source(&self) -> (source: Source)
        ensures
            source == self.source_of(),
    {
        match self {
            Commands::Author | Commands::Version => Source::Nothing,
            Commands::Players
            | Commands::PlayerCount
            | Commands::PlayersAll
            | Commands::IsOnline
            | Commands::IsOffline
            | Commands::ServerVersion => Source::Status,
            Commands::Ip
            | Commands::Host
            | Commands::Protocol
            | Commands::Port
            | Commands::Motd { .. } => Source::Listing,
            Commands::Mode { .. } => Source::Preference,
            Commands::Update => Source::Release,
            Commands::Ping => Source::Probe,
        }
    }
}

/// The model of an [`McStatusIOResponse`].
pub struct ListingModel {
    pub host: Seq<char>,
    pub ip_address: Seq<char>,
    pub port: u16,
    pub protocol: u32,
    pub motd_raw: Seq<char>,
    pub motd_clean: Seq<char>,
    pub motd_html: Seq<char>,
}

impl View for McStatusIOResponse {
    type V = ListingModel;

    open spec fn view(&self) -> ListingModel {
        ListingModel {
            host: self.host@,
            ip_address: self.ip_address@,
            port: self.port,
            protocol: self.version.protocol,
            motd_raw: self.motd.raw@,
            motd_clean: self.motd.clean@,
            motd_html: self.motd.html@,
        }
    }
}

/// What was fetched for a command.
#[derive(Clone, Debug)]
pub enum Material {
    Nothing,
    Status(HavenStatus),
    Listing(McStatusIOResponse),
}

/// The model of a [`Material`].
pub enum MaterialModel {
    Nothing,
    Status(StatusModel),
    Listing(ListingModel),
}

impl View for Material {
    type V = MaterialModel;

    open spec fn view(&self) -> MaterialModel {
        match self {
            Material::Nothing => MaterialModel::Nothing,
            Material::Status(s) => MaterialModel::Status(s@),
            Material::Listing(l) => MaterialModel::Listing(l@),
        }
    }
}

/// A line of a plain label and a value in magenta.
pub open spec fn labelled(label: Seq<char>, value: Seq<char>) -> Seq<Styled> {
    seq![styled(Tone::Plain, label), styled(Tone::Magenta, value)]
}

/// A line of one span.
pub open spec fn toned(tone: Tone, text: Seq<char>) -> Seq<Styled> {
    seq![styled(tone, text)]
}

/// The line of one player.
pub open spec fn player_line_of(name: Seq<char>) -> Seq<Styled> {
    seq![styled(Tone::Plain, " - "@), styled(Tone::Cyan, name)]
}

/// The player list: a notice where the names are withheld, another where
/// nobody is online, else one line for each name in the order of the
/// report.
pub open spec fn player_lines_of(list: Option<Seq<Seq<char>>>) -> Seq<Seq<Styled>> {
    match list {
        None => seq![toned(Tone::Red, NAMES_WITHHELD@)],
        Some(names) => if names.len() == 0 {
            seq![toned(Tone::Yellow, NO_PLAYERS@)]
        } else {
            names.map_values(|name: Seq<char>| player_line_of(name))
        },
    }
}

/// The count as text: the players online, a slash, the most that the server
/// takes, and the words that follow.
pub open spec fn count_text(online: u32, max: u32) -> Seq<char> {
    decimal(online as nat) + "/"@ + decimal(max as nat) + PLAYERS_ONLINE@
}

/// The count line: set off by an empty line, marked by a green dot.
pub open spec fn count_line_of(online: u32, max: u32) -> Seq<Styled> {
    seq![
        styled(Tone::Plain, "\n"@),
        styled(Tone::Green, "●"@),
        styled(Tone::Plain, " "@),
        styled(Tone::Plain, count_text(online, max)),
    ]
}

/// The answer of `is-online`.
pub open spec fn is_online_line_of(online: bool) -> Seq<Styled> {
    if online {
        toned(Tone::Green, SERVER_IS_ONLINE@)
    } else {
        toned(Tone::Red, SERVER_IS_OFFLINE_INDENTED@)
    }
}

/// The answer of `is-offline`.
pub open spec fn is_offline_line_of(online: bool) -> Seq<Styled> {
    if !online {
        toned(Tone::Green, SERVER_IS_OFFLINE@)
    } else {
        toned(Tone::Red, SERVER_IS_ONLINE@)
    }
}

/// The encoding of the message of the day that the flags ask for.
#[derive(Clone, Copy, Debug, PartialEq, Eq, Structural)]
pub enum MotdChoice {
    Raw,
    Clean,
    Html,
    /// No flag: the clean encoding under the short label.
    Default,
}

/// The choice for the three flags: the first that is set, of raw, clean and
/// html in this order.
pub open spec fn motd_choice_of(raw: bool, clean: bool, html: bool) -> MotdChoice {
    if raw {
        MotdChoice::Raw
    } else if clean {
        MotdChoice::Clean
    } else if html {
        MotdChoice::Html
    } else {
        MotdChoice::Default
    }
}

/// The line of the message of the day for a choice.
pub open spec fn motd_line_of(listing: ListingModel, choice: MotdChoice) -> Seq<Styled> {
    match choice {
        MotdChoice::Raw => labelled("MOTD (Raw): "@, listing.motd_raw),
        MotdChoice::Clean => labelled("MOTD (Clean): "@, listing.motd_clean),
        MotdChoice::Html => labelled("MOTD (HTML): "@, listing.motd_html),
        MotdChoice::Default => labelled("MOTD: "@, listing.motd_clean),
    }
}

/// The lines of a command for what was fetched for it; nothing where the
/// material is not what the command reads, or the command needs more than a
/// fetch.
pub open spec fn report_of(
    cmd: Commands,
    material: MaterialModel,
    client_version: Seq<char>,
) -> Option<Seq<Seq<Styled>>> {
    match (cmd, material) {
        (Commands::Author, MaterialModel::Nothing) => Some(
            seq![labelled("Created by: "@, AUTHOR@)],
        ),
        (Commands::Version, MaterialModel::Nothing) => Some(
            seq![toned(Tone::BoldGreen, LOGO@), labelled("Haole Version: "@, client_version)],
        ),
        (Commands::Players, MaterialModel::Status(s)) => Some(player_lines_of(s.players.list)),
        (Commands::PlayerCount, MaterialModel::Status(s)) => Some(
            seq![count_line_of(s.players.online, s.players.max)],
        ),
        (Commands::PlayersAll, MaterialModel::Status(s)) => Some(
            player_lines_of(s.players.list).push(count_line_of(s.players.online, s.players.max)),
        ),
        (Commands::IsOnline, MaterialModel::Status(s)) => Some(seq![is_online_line_of(s.online)]),
        (Commands::IsOffline, MaterialModel::Status(s)) => Some(
            seq![is_offline_line_of(s.online)],
        ),
        (Commands::ServerVersion, MaterialModel::Status(s)) => Some(
            seq![labelled("Server Version: "@, s.version)],
        ),
        (Commands::Ip, MaterialModel::Listing(l)) => Some(
            seq![labelled("Server IP: "@, l.ip_address)],
        ),
        (Commands::Host, MaterialModel::Listing(l)) => Some(
            seq![labelled("Server Host: "@, l.host)],
        ),
        (Commands::Protocol, MaterialModel::Listing(l)) => Some(
            seq![labelled("Protocol Version: "@, decimal(l.protocol as nat))],
        ),
        (Commands::Port, MaterialModel::Listing(l)) => Some(
            seq![labelled("Server Port: "@, decimal(l.port as nat))],
        ),
        (Commands::Motd { raw, clean, html }, MaterialModel::Listing(l)) => Some(
            seq![motd_line_of(l, motd_choice_of(raw, clean, html))],
        ),
        _ => None,
    }
}

/// The player list in its three forms. Without names it is the notice that
/// they are withheld; with an empty list, the notice that nobody is online;
/// else it keeps the names of the report: as many lines as names, each with
/// its name, in the same order.
pub proof fn lemma_player_lines(names: Seq<Seq<char>>)
    ensures
        player_lines_of(None) == seq![toned(Tone::Red, NAMES_WITHHELD@)],
        names.len() == 0 ==> player_lines_of(Some(names)) == seq![
            toned(Tone::Yellow, NO_PLAYERS@),
        ],
        names.len() > 0 ==> player_lines_of(Some(names)).len() == names.len(),
        names.len() > 0 ==> forall|i: int|
            0 <= i < names.len() ==> (#[trigger] player_lines_of(Some(names))[i]) == player_line_of(
                names[i],
            ),
        names.len() > 0 ==> forall|i: int|
            0 <= i < names.len() ==> (#[trigger] player_lines_of(Some(names))[i])[1].text
                == names[i],
{
}

/// The lines of `players-all` are those of `players` followed by the line
/// of `player-count`.
pub proof fn lemma_players_all_is_list_then_count(
    status: StatusModel,
    client_version: Seq<char>,
)
    ensures
        report_of(Commands::PlayersAll, MaterialModel::Status(status), client_version).unwrap()
            == report_of(
            Commands::Players,
            MaterialModel::Status(status),
            client_version,
        ).unwrap() + report_of(
            Commands::PlayerCount,
            MaterialModel::Status(status),
            client_version,
        ).unwrap(),
{
    let list = player_lines_of(status.players.list);
    let count = count_line_of(status.players.online, status.players.max);
}

/// A report is made exactly where the material is what the command reads
/// and the command needs no more than a fetch.
pub proof fn lemma_report_is_made_for_its_source(
    cmd: Commands,
    material: MaterialModel,
    client_version: Seq<char>,
)
    ensures
        report_of(cmd, material, client_version) is Some <==> match material {
            MaterialModel::Nothing => cmd.source_of() == Source::Nothing,
            MaterialModel::Status(_) => cmd.source_of() == Source::Status,
            MaterialModel::Listing(_) => cmd.source_of() == Source::Listing,
        },
{
}

fn labelled_line(label: &str, value: &str) -> (line: Line)
    ensures
        line@ == labelled(label@, value@),
{
    let mut line: Line = Line::of(Span::plain(label));
    line.push(Span::new(Tone::Magenta, value));
    line
}

fn toned_line(tone: Tone, text: &str) -> (line: Line)
    ensures
        line@ == toned(tone, text@),
{
    Line::of(Span::new(tone, text))
}

fn single(line: Line) -> (lines: Vec<Line>)
    ensures
        lines.deep_view() == seq![line@],
{
    let mut lines: Vec<Line> = Vec::new();
    lines.push(line);
    lines
}

/// The lines of the player list.
pub fn player_lines(players: &Players) -> (lines: Vec<Line>)
    ensures
        lines.deep_view() == player_lines_of(players@.list),
{
    match &players.list {
        None => single(toned_line(Tone::Red, NAMES_WITHHELD)),
        Some(names) => {
            if names.len() == 0 {
                single(toned_line(Tone::Yellow, NO_PLAYERS))
            } else {
                let ghost model = names.deep_view();
                let mut lines: Vec<Line> = Vec::new();
                let mut i: usize = 0;
                while i < names.len()
                    invariant
                        i <= names.len(),
                        model == names.deep_view(),
                        lines.deep_view() == model.take(i as int).map_values(
                            |name: Seq<char>| player_line_of(name),
                        ),
                    decreases names.len() - i,
                {
                    let mut line: Line = Line::of(Span::plain(" - "));
                    line.push(Span::new(Tone::Cyan, names[i].as_str()));
                    assert(line@ == player_line_of(model[i as int]));
                    let ghost before = lines.deep_view();
                    lines.push(line);
                    assert(lines.deep_view() =~= before.push(line@));
                    i = i + 1;
                }
                lines
            }
        },
    }
}

/// The count line.
pub fn count_line(players: &Players) -> (line: Line)
    ensures
        line@ == count_line_of(players.online, players.max),
{
    let mut text: String = decimal_text(players.online as u64);
    text.append("/");
    let max: String = decimal_text(players.max as u64);
    text.append(max.as_str());
    text.append(PLAYERS_ONLINE);
    let mut line: Line = Line::of(Span::plain("\n"));
    line.push(Span::new(Tone::Green, "●"));
    line.push(Span::plain(" "));
    line.push(Span::owned(text));
    line
}

/// The choice of encoding for the flags of `motd`.
pub fn motd_choice(raw: bool, clean: bool, html: bool) -> (choice: MotdChoice)
    ensures
        choice == motd_choice_of(raw, clean, html),
{
    if raw {
        MotdChoice::Raw
    } else if clean {
        MotdChoice::Clean
    } else if html {
        MotdChoice::Html
    } else {
        MotdChoice::Default
    }
}

/// The line of the message of the day.
pub fn motd_line(listing: &McStatusIOResponse, choice: MotdChoice) -> (line: Line)
    ensures
        line@ == motd_line_of(listing@, choice),
{
    match choice {
        MotdChoice::Raw => labelled_line("MOTD (Raw): ", listing.motd.raw.as_str()),
        MotdChoice::Clean => labelled_line("MOTD (Clean): ", listing.motd.clean.as_str()),
        MotdChoice::Html => labelled_line("MOTD (HTML): ", listing.motd.html.as_str()),
        MotdChoice::Default => labelled_line("MOTD: ", listing.motd.clean.as_str()),
    }
}

fn status_report(cmd: &Commands, status: &HavenStatus, client_version: &str) -> (lines: Option<
    Vec<Line>,
>)
    ensures
        lines.deep_view() == report_of(*cmd, MaterialModel::Status(status@), client_version@),
{
    match cmd {
        Commands::Players => Some(player_lines(&status.players)),
        Commands::PlayerCount => Some(single(count_line(&status.players))),
        Commands::PlayersAll => {
            let mut lines: Vec<Line> = player_lines(&status.players);
            let count: Line = count_line(&status.players);
            lines.push(count);
            Some(lines)
        },
        Commands::IsOnline => {
            if status.online {
                Some(single(toned_line(Tone::Green, SERVER_IS_ONLINE)))
            } else {
                Some(single(toned_line(Tone::Red, SERVER_IS_OFFLINE_INDENTED)))
            }
        },
        Commands::IsOffline => {
            if !status.online {
                Some(single(toned_line(Tone::Green, SERVER_IS_OFFLINE)))
            } else {
                Some(single(toned_line(Tone::Red, SERVER_IS_ONLINE)))
            }
        },
        Commands::ServerVersion => Some(
            single(labelled_line("Server Version: ", status.version.as_str())),
        ),
        _ => None,
    }
}

fn listing_report(cmd: &Commands, listing: &McStatusIOResponse, client_version: &str) -> (lines:
    Option<Vec<Line>>)
    ensures
        lines.deep_view() == report_of(*cmd, MaterialModel::Listing(listing@), client_version@),
{
    match cmd {
        Commands::Ip => Some(single(labelled_line("Server IP: ", listing.ip_address.as_str()))),
        Commands::Host => Some(single(labelled_line("Server Host: ", listing.host.as_str()))),
        Commands::Protocol => {
            let number: String = decimal_text(listing.version.protocol as u64);
            Some(single(labelled_line("Protocol Version: ", number.as_str())))
        },
        Commands::Port => {
            let number: String = decimal_text(listing.port as u64);
            Some(single(labelled_line("Server Port: ", number.as_str())))
        },
        Commands::Motd { raw, clean, html } => Some(
            single(motd_line(listing, motd_choice(*raw, *clean, *html))),
        ),
        _ => None,
    }
}

/// The lines that a command prints for what was fetched for it, each to be
/// printed on a line of its own. `client_version` is the version of the
/// program. There is no report where the material is not what the command
/// reads, nor for `mode`, `update` and `ping`, which need more than a fetch.
pub fn report(cmd: &Commands, material: &Material, client_version: &str) -> (lines: Option<
    Vec<Line>,
>)
    ensures
        lines.deep_view() == report_of(*cmd, material@, client_version@),
        lines is Some <==> match material {
            Material::Nothing => cmd.source_of() == Source::Nothing,
            Material::Status(_) => cmd.source_of() == Source::Status,
            Material::Listing(_) => cmd.source_of() == Source::Listing,
        },
{
    match material {
        Material::Nothing => match cmd {
            Commands::Author => Some(single(labelled_line("Created by: ", AUTHOR))),
            Commands::Version => {
                let mut lines: Vec<Line> = single(toned_line(Tone::BoldGreen, LOGO));
                let line: Line = labelled_line("Haole Version: ", client_version);
                let ghost before = lines.deep_view();
                lines.push(line);
                assert(lines.deep_view() =~= before.push(line@));
                Some(lines)
            },
            _ => None,
        },
        Material::Status(status) => status_report(cmd, status, client_version),
        Material::Listing(listing) => listing_report(cmd, listing, client_version),
    }
}

} // verus!
