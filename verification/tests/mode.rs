use haole::mode::{load_warning, startup, HaoleConfig, Mode, ModeReply};
use haole::style::{Line, Tone};

fn spans(line: &Line) -> Vec<(Tone, String)> {
    line.spans.iter().map(|s| (s.tone, s.text.clone())).collect()
}

fn config(mode: &str) -> HaoleConfig {
    HaoleConfig { mode: mode.to_string() }
}

#[test]
fn default_mode_is_cli() {
    assert_eq!(HaoleConfig::default().mode, "cli");
}

#[test]
fn toggle_from_cli_yields_tui() {
    let mut cfg = config("cli");
    assert_eq!(cfg.request(Some("toggle")), ModeReply::Changed);
    assert_eq!(cfg.mode, "tui");
}

#[test]
fn toggle_from_tui_yields_cli() {
    let mut cfg = config("tui");
    assert_eq!(cfg.request(Some("toggle")), ModeReply::Changed);
    assert_eq!(cfg.mode, "cli");
}

#[test]
fn toggle_twice_gives_the_mode_back() {
    for start in ["cli", "tui"] {
        let mut cfg = config(start);
        cfg.request(Some("toggle"));
        cfg.request(Some("toggle"));
        assert_eq!(cfg.mode, start);
    }
}

#[test]
fn toggle_from_an_unknown_word_yields_cli() {
    let mut cfg = config("gui");
    assert_eq!(cfg.request(Some("toggle")), ModeReply::Changed);
    assert_eq!(cfg.mode, "cli");
}

#[test]
fn a_mode_name_sets_the_mode() {
    let mut cfg = config("cli");
    assert_eq!(cfg.request(Some("tui")), ModeReply::Changed);
    assert_eq!(cfg.mode, "tui");
    assert_eq!(cfg.request(Some("tui")), ModeReply::Changed);
    assert_eq!(cfg.mode, "tui");
    assert_eq!(cfg.request(Some("cli")), ModeReply::Changed);
    assert_eq!(cfg.mode, "cli");
}

#[test]
fn an_invalid_word_leaves_the_mode_unchanged() {
    for word in ["", "gui", "CLI", "Tui", "toggle ", " cli", "clitui", "togglee"] {
        for start in ["cli", "tui"] {
            let mut cfg = config(start);
            assert_eq!(cfg.request(Some(word)), ModeReply::Invalid, "for {:?}", word);
            assert_eq!(cfg.mode, start);
        }
    }
}

#[test]
fn no_word_shows_the_mode() {
    let mut cfg = config("tui");
    assert_eq!(cfg.request(None), ModeReply::Current);
    assert_eq!(cfg.mode, "tui");
}

#[test]
fn dashboard_starts_for_tui_without_arguments() {
    assert!(config("tui").launches_dashboard(1));
    assert!(!config("tui").launches_dashboard(2));
    assert!(!config("tui").launches_dashboard(0));
    assert!(!config("cli").launches_dashboard(1));
    assert!(!config("TUI").launches_dashboard(1));
    assert!(!HaoleConfig::default().launches_dashboard(1));
}

#[test]
fn reply_lines_name_the_mode() {
    let cfg = config("tui");
    assert_eq!(
        spans(&cfg.reply_line(ModeReply::Current)),
        vec![(Tone::Plain, "現在のモード: ".to_string()), (Tone::Cyan, "tui".to_string())]
    );
    assert_eq!(
        spans(&cfg.reply_line(ModeReply::Changed)),
        vec![
            (Tone::Green, ">>".to_string()),
            (Tone::Plain, " モードを ".to_string()),
            (Tone::Cyan, "tui".to_string()),
            (Tone::Plain, " に変更しました。".to_string()),
        ]
    );
}

#[test]
fn invalid_request_is_reported_as_an_error() {
    let mut cfg = config("cli");
    let reply = cfg.request(Some("fast"));
    assert_eq!(
        spans(&cfg.reply_line(reply)),
        vec![
            (Tone::Red, "!!".to_string()),
            (
                Tone::Plain,
                " 無効なモードです。cli または tui を指定してください。toggleで切り替えることもできます。".to_string()
            ),
        ]
    );
}

#[test]
fn load_warning_carries_the_reason() {
    assert_eq!(
        spans(&load_warning("bad toml")),
        vec![
            (Tone::Yellow, "!!".to_string()),
            (
                Tone::Plain,
                " 設定ファイルの読み込みに失敗しました。デフォルト値を使用します: bad toml".to_string()
            ),
        ]
    );
}

#[test]
fn only_a_change_is_stored() {
    assert!(ModeReply::Changed.stores());
    assert!(!ModeReply::Current.stores());
    assert!(!ModeReply::Invalid.stores());
}

#[test]
fn startup_takes_the_loaded_record() {
    let start = startup(Ok(config("tui")));
    assert_eq!(start.cfg.mode, "tui");
    assert!(start.warning.is_none());
}

#[test]
fn startup_falls_back_to_cli_with_a_warning() {
    let start = startup(Err("permission denied".to_string()));
    assert_eq!(start.cfg.mode, "cli");
    assert_eq!(
        spans(&start.warning.unwrap()),
        vec![
            (Tone::Yellow, "!!".to_string()),
            (
                Tone::Plain,
                " 設定ファイルの読み込みに失敗しました。デフォルト値を使用します: permission denied".to_string()
            ),
        ]
    );
}

#[test]
fn modes_have_their_word_and_their_opposite() {
    assert_eq!(Mode::Cli.name(), "cli");
    assert_eq!(Mode::Tui.name(), "tui");
    assert_eq!(Mode::Cli.toggle(), Mode::Tui);
    assert_eq!(Mode::Tui.toggle(), Mode::Cli);
    assert_eq!(Mode::Cli.toggle().toggle(), Mode::Cli);
}

#[test]
fn record_stands_for_tui_only_by_its_word() {
    assert_eq!(config("tui").preference(), Mode::Tui);
    assert_eq!(config("cli").preference(), Mode::Cli);
    assert_eq!(config("").preference(), Mode::Cli);
    assert_eq!(config("TUI").preference(), Mode::Cli);
    assert_eq!(HaoleConfig::default().preference(), Mode::Cli);
}

#[test]
fn toggle_on_the_record_follows_toggle_on_the_mode() {
    for start in ["cli", "tui"] {
        let mut cfg = config(start);
        let before = cfg.preference();
        cfg.request(Some("toggle"));
        assert_eq!(cfg.preference(), before.toggle());
        assert_eq!(cfg.mode, before.toggle().name());
    }
}
