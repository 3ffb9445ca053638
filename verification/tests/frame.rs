use haole::frame::{player_items, status_bar, Frame};
use haole::history::{History, HistoryEntry};
use haole::status::{HavenStatus, Players};

fn status(online: bool, count: u32, max: u32, list: Option<Vec<&str>>) -> HavenStatus {
    HavenStatus {
        online,
        players: Players {
            online: count,
            max,
            list: list.map(|l| l.into_iter().map(String::from).collect()),
        },
        version: "1.21".to_string(),
    }
}

#[test]
fn status_bar_text_for_a_known_status() {
    let s = status(true, 3, 20, None);
    assert_eq!(status_bar(Some(&s)).plain_text(), " サーバー: ONLINE | オンライン: 3/20");
    let s = status(false, 0, 100, None);
    assert_eq!(status_bar(Some(&s)).plain_text(), " サーバー: OFFLINE | オンライン: 0/100");
}

#[test]
fn status_bar_text_without_a_status() {
    assert_eq!(status_bar(None).plain_text(), " !! データを取得中、または接続エラー...");
}

#[test]
fn player_items_follow_the_report() {
    let s = status(true, 2, 20, Some(vec!["Steve", "Alex"]));
    assert_eq!(player_items(Some(&s)), vec!["  • Steve", "  • Alex"]);
    let s = status(true, 2, 20, Some(vec![]));
    assert!(player_items(Some(&s)).is_empty());
    let s = status(true, 2, 20, None);
    assert!(player_items(Some(&s)).is_empty());
    assert!(player_items(None).is_empty());
}

#[test]
fn frame_is_made_of_status_and_history_alone() {
    let s = status(true, 11, 20, Some(vec!["Steve"]));
    let mut h = History::new();
    h.push(HistoryEntry { time: "09:00:00".to_string(), online: 4 });
    h.push(HistoryEntry { time: "09:00:05".to_string(), online: 11 });
    let f = Frame::of(Some(&s), &h);
    let g = Frame::of(Some(&s), &h);
    assert_eq!(f.status_bar.plain_text(), " サーバー: ONLINE | オンライン: 11/20");
    assert_eq!(f.players, vec!["  • Steve"]);
    assert_eq!(f.activity, vec![4u64, 11]);
    assert_eq!(f.activity_max, 16);
    assert_eq!(f.log, vec![" [09:00:05] 11 players", " [09:00:00] 4 players"]);
    assert_eq!(f.status_bar.plain_text(), g.status_bar.plain_text());
    assert_eq!(f.players, g.players);
    assert_eq!(f.activity, g.activity);
    assert_eq!(f.activity_max, g.activity_max);
    assert_eq!(f.log, g.log);
}
