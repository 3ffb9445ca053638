use haole::command::{
    count_line, motd_choice, motd_line, player_lines, report, Commands, Material, MotdChoice,
    Source, AUTHOR, LISTING_URL, LOGO, PROGRAM, SERVER_HOST, STATUS_URL,
};
use haole::status::{
    HavenStatus, McStatusIOResponse, McStatusIOResponseMotd, McStatusIOResponseVersion, Players,
};
use haole::style::{Line, Tone};

fn spans(line: &Line) -> Vec<(Tone, String)> {
    line.spans.iter().map(|s| (s.tone, s.text.clone())).collect()
}

fn all_spans(lines: &[Line]) -> Vec<Vec<(Tone, String)>> {
    lines.iter().map(spans).collect()
}

fn one(tone: Tone, text: &str) -> Vec<(Tone, String)> {
    vec![(tone, text.to_string())]
}

fn labelled(label: &str, value: &str) -> Vec<(Tone, String)> {
    vec![(Tone::Plain, label.to_string()), (Tone::Magenta, value.to_string())]
}

fn count(text: &str) -> Vec<(Tone, String)> {
    vec![
        (Tone::Plain, "\n".to_string()),
        (Tone::Green, "●".to_string()),
        (Tone::Plain, " ".to_string()),
        (Tone::Plain, text.to_string()),
    ]
}

fn players(online: u32, max: u32, list: Option<Vec<&str>>) -> Players {
    Players { online, max, list: list.map(|l| l.into_iter().map(String::from).collect()) }
}

fn status(online: bool, p: Players) -> Material {
    Material::Status(HavenStatus { online, players: p, version: "Paper 1.21.4".to_string() })
}

fn listing() -> Material {
    Material::Listing(McStatusIOResponse {
        host: "play.havenmc.jp".to_string(),
        ip_address: "203.0.113.7".to_string(),
        port: 25565,
        version: McStatusIOResponseVersion { protocol: 769 },
        motd: McStatusIOResponseMotd {
            raw: "\u{a7}aHaven".to_string(),
            clean: "Haven".to_string(),
            html: "<span>Haven</span>".to_string(),
        },
    })
}

fn all_commands() -> Vec<Commands> {
    vec![
        Commands::Author,
        Commands::Players,
        Commands::PlayerCount,
        Commands::PlayersAll,
        Commands::IsOnline,
        Commands::IsOffline,
        Commands::Version,
        Commands::ServerVersion,
        Commands::Ip,
        Commands::Host,
        Commands::Protocol,
        Commands::Port,
        Commands::Motd { raw: false, clean: false, html: false },
        Commands::Mode { new_mode: None },
        Commands::Update,
        Commands::Ping,
    ]
}

#[test]
fn fixed_names_of_the_program() {
    assert_eq!(SERVER_HOST, "play.havenmc.jp");
    assert_eq!(STATUS_URL, "https://api.havenmc.jp/status");
    assert_eq!(LISTING_URL, "https://api.mcstatus.io/v2/status/java/play.havenmc.jp");
    assert_eq!(AUTHOR, "KoHaRxnP");
    assert_eq!(PROGRAM, "haole");
}

#[test]
fn each_command_reads_its_source() {
    let expected = [
        Source::Nothing,
        Source::Status,
        Source::Status,
        Source::Status,
        Source::Status,
        Source::Status,
        Source::Nothing,
        Source::Status,
        Source::Listing,
        Source::Listing,
        Source::Listing,
        Source::Listing,
        Source::Listing,
        Source::Preference,
        Source::Release,
        Source::Probe,
    ];
    for (cmd, source) in all_commands().iter().zip(expected.iter()) {
        assert_eq!(cmd.source(), *source);
    }
}

#[test]
fn report_is_made_only_for_the_material_of_the_command() {
    for cmd in all_commands() {
        let source = cmd.source();
        assert_eq!(report(&cmd, &Material::Nothing, "1.0.0").is_some(), source == Source::Nothing);
        assert_eq!(
            report(&cmd, &status(true, players(0, 20, None)), "1.0.0").is_some(),
            source == Source::Status
        );
        assert_eq!(report(&cmd, &listing(), "1.0.0").is_some(), source == Source::Listing);
    }
}

#[test]
fn author_names_the_author() {
    let lines = report(&Commands::Author, &Material::Nothing, "1.0.0").unwrap();
    assert_eq!(all_spans(&lines), vec![labelled("Created by: ", "KoHaRxnP")]);
}

#[test]
fn version_shows_the_logo_and_the_client_version() {
    let lines = report(&Commands::Version, &Material::Nothing, "0.3.1").unwrap();
    assert_eq!(
        all_spans(&lines),
        vec![one(Tone::BoldGreen, LOGO), labelled("Haole Version: ", "0.3.1")]
    );
    let rows: Vec<&str> = LOGO.split('\n').collect();
    assert_eq!(rows.len(), 7);
    assert_eq!(rows[0], "");
    assert_eq!(rows[1], "            _                _      ");
    assert_eq!(rows[3], "            | '_ \\ / _` |/   \\ |/ _ \\");
    assert_eq!(rows[5], "            |_| |_|\\__,_|\\___|_|\\___|");
    assert_eq!(rows[6], "                ");
}

#[test]
fn empty_player_list_says_nobody_is_online() {
    let lines = player_lines(&players(0, 20, Some(vec![])));
    assert_eq!(all_spans(&lines), vec![one(Tone::Yellow, "現在オンラインのプレイヤーはいません。")]);
}

#[test]
fn absent_player_list_says_names_are_withheld() {
    let lines = player_lines(&players(4, 20, None));
    assert_eq!(
        all_spans(&lines),
        vec![one(Tone::Red, "プレイヤー名の取得が制限されているか、データがありません。")]
    );
}

#[test]
fn player_list_has_one_line_per_name_in_order() {
    let lines = player_lines(&players(3, 20, Some(vec!["Zed", "alice", "Bob"])));
    assert_eq!(
        all_spans(&lines),
        vec![
            vec![(Tone::Plain, " - ".to_string()), (Tone::Cyan, "Zed".to_string())],
            vec![(Tone::Plain, " - ".to_string()), (Tone::Cyan, "alice".to_string())],
            vec![(Tone::Plain, " - ".to_string()), (Tone::Cyan, "Bob".to_string())],
        ]
    );
    let texts: Vec<String> = lines.iter().map(|l| l.plain_text()).collect();
    assert_eq!(texts, vec![" - Zed", " - alice", " - Bob"]);
}

#[test]
fn players_command_prints_the_list() {
    let m = status(true, players(2, 20, Some(vec!["A", "B"])));
    let lines = report(&Commands::Players, &m, "1.0.0").unwrap();
    let texts: Vec<String> = lines.iter().map(|l| l.plain_text()).collect();
    assert_eq!(texts, vec![" - A", " - B"]);
}

#[test]
fn playercount_prints_online_and_max() {
    let m = status(true, players(3, 20, Some(vec!["A", "B", "C"])));
    let lines = report(&Commands::PlayerCount, &m, "1.0.0").unwrap();
    assert_eq!(all_spans(&lines), vec![count("3/20 players online")]);
    assert_eq!(lines[0].spans[3].text, "3/20 players online");
}

#[test]
fn count_line_formats_any_numbers() {
    assert_eq!(spans(&count_line(&players(0, 0, None))), count("0/0 players online"));
    assert_eq!(spans(&count_line(&players(120, 100, None))), count("120/100 players online"));
    assert_eq!(
        spans(&count_line(&players(u32::MAX, u32::MAX, None))),
        count("4294967295/4294967295 players online")
    );
}

#[test]
fn playersall_prints_names_then_count() {
    let m = status(true, players(3, 20, Some(vec!["A", "B", "C"])));
    let lines = report(&Commands::PlayersAll, &m, "1.0.0").unwrap();
    assert_eq!(
        all_spans(&lines),
        vec![
            vec![(Tone::Plain, " - ".to_string()), (Tone::Cyan, "A".to_string())],
            vec![(Tone::Plain, " - ".to_string()), (Tone::Cyan, "B".to_string())],
            vec![(Tone::Plain, " - ".to_string()), (Tone::Cyan, "C".to_string())],
            count("3/20 players online"),
        ]
    );
}

#[test]
fn playersall_with_withheld_names_still_counts() {
    let m = status(true, players(7, 50, None));
    let lines = report(&Commands::PlayersAll, &m, "1.0.0").unwrap();
    assert_eq!(
        all_spans(&lines),
        vec![
            one(Tone::Red, "プレイヤー名の取得が制限されているか、データがありません。"),
            count("7/50 players online"),
        ]
    );
}

#[test]
fn playersall_is_players_followed_by_playercount() {
    for list in [None, Some(vec![]), Some(vec!["x", "y"])] {
        let m = status(true, players(2, 9, list));
        let mut expected = all_spans(&report(&Commands::Players, &m, "v").unwrap());
        expected.extend(all_spans(&report(&Commands::PlayerCount, &m, "v").unwrap()));
        assert_eq!(all_spans(&report(&Commands::PlayersAll, &m, "v").unwrap()), expected);
    }
}

#[test]
fn is_online_answers_for_both_states() {
    let up = status(true, players(0, 1, None));
    let down = status(false, players(0, 1, None));
    assert_eq!(
        all_spans(&report(&Commands::IsOnline, &up, "v").unwrap()),
        vec![one(Tone::Green, "サーバーはオンラインです。")]
    );
    assert_eq!(
        all_spans(&report(&Commands::IsOnline, &down, "v").unwrap()),
        vec![one(Tone::Red, " サーバーはオフラインです。")]
    );
}

#[test]
fn is_offline_answers_for_both_states() {
    let up = status(true, players(0, 1, None));
    let down = status(false, players(0, 1, None));
    assert_eq!(
        all_spans(&report(&Commands::IsOffline, &down, "v").unwrap()),
        vec![one(Tone::Green, "サーバーはオフラインです。")]
    );
    assert_eq!(
        all_spans(&report(&Commands::IsOffline, &up, "v").unwrap()),
        vec![one(Tone::Red, "サーバーはオンラインです。")]
    );
}

#[test]
fn server_version_prints_the_reported_version() {
    let m = status(true, players(0, 1, None));
    assert_eq!(
        all_spans(&report(&Commands::ServerVersion, &m, "v").unwrap()),
        vec![labelled("Server Version: ", "Paper 1.21.4")]
    );
}

#[test]
fn listing_commands_print_their_field() {
    let m = listing();
    assert_eq!(
        all_spans(&report(&Commands::Ip, &m, "v").unwrap()),
        vec![labelled("Server IP: ", "203.0.113.7")]
    );
    assert_eq!(
        all_spans(&report(&Commands::Host, &m, "v").unwrap()),
        vec![labelled("Server Host: ", "play.havenmc.jp")]
    );
    assert_eq!(
        all_spans(&report(&Commands::Protocol, &m, "v").unwrap()),
        vec![labelled("Protocol Version: ", "769")]
    );
    assert_eq!(
        all_spans(&report(&Commands::Port, &m, "v").unwrap()),
        vec![labelled("Server Port: ", "25565")]
    );
}

#[test]
fn motd_flags_choose_the_encoding() {
    assert_eq!(motd_choice(false, false, false), MotdChoice::Default);
    assert_eq!(motd_choice(true, false, false), MotdChoice::Raw);
    assert_eq!(motd_choice(false, true, false), MotdChoice::Clean);
    assert_eq!(motd_choice(false, false, true), MotdChoice::Html);
    assert_eq!(motd_choice(true, true, true), MotdChoice::Raw);
    assert_eq!(motd_choice(true, false, true), MotdChoice::Raw);
    assert_eq!(motd_choice(false, true, true), MotdChoice::Clean);
}

#[test]
fn motd_prints_the_chosen_encoding() {
    let m = listing();
    let motd = |raw, clean, html| {
        all_spans(&report(&Commands::Motd { raw, clean, html }, &m, "v").unwrap())
    };
    assert_eq!(motd(false, false, false), vec![labelled("MOTD: ", "Haven")]);
    assert_eq!(motd(true, false, false), vec![labelled("MOTD (Raw): ", "\u{a7}aHaven")]);
    assert_eq!(motd(false, true, false), vec![labelled("MOTD (Clean): ", "Haven")]);
    assert_eq!(motd(false, false, true), vec![labelled("MOTD (HTML): ", "<span>Haven</span>")]);
    if let Material::Listing(l) = &m {
        assert_eq!(spans(&motd_line(l, MotdChoice::Html)), labelled("MOTD (HTML): ", "<span>Haven</span>"));
    }
}
