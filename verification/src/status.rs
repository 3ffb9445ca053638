//! What the two status sources report, as plain values.

use vstd::prelude::*;

verus! {

/// The player section of the primary status report. `list` is absent where
/// the server does not give out names.
#[derive(Clone, Debug)]
pub struct Players {
    pub online: u32,
    pub max: u32,
    pub list: Option<Vec<String>>,
}

/// The model of [`Players`].
pub struct PlayersModel {
    pub online: u32,
    pub max: u32,
    pub list: Option<Seq<Seq<char>>>,
}

impl View for Players {
    type V = PlayersModel;

    open spec fn view(&self) -> PlayersModel {
        PlayersModel { online: self.online, max: self.max, list: self.list.deep_view() }
    }
}

/// The primary status report.
#[derive(Clone, Debug)]
pub struct HavenStatus {
    pub online: bool,
    pub players: Players,
    pub version: String,
}

/// The model of [`HavenStatus`].
pub struct StatusModel {
    pub online: bool,
    pub players: PlayersModel,
    pub version: Seq<char>,
}

impl View for HavenStatus {
    type V = StatusModel;

    open spec fn view(&self) -> StatusModel {
        StatusModel { online: self.online, players: self.players@, version: self.version@ }
    }
}

/// The model of a status that may be missing.
pub open spec fn status_model(status: Option<HavenStatus>) -> Option<StatusModel> {
    match status {
        Some(s) => Some(s@),
        None => None,
    }
}

/// The protocol section of the secondary status report.
#[derive(Clone, Debug)]
pub struct McStatusIOResponseVersion {
    pub protocol: u32,
}

/// The three encodings of the message of the day.
#[derive(Clone, Debug)]
pub struct McStatusIOResponseMotd {
    pub raw: String,
    pub clean: String,
    pub html: String,
}

/// The secondary status report.
#[derive(Clone, Debug)]
pub struct McStatusIOResponse {
    pub host: String,
    pub ip_address: String,
    pub port: u16,
    pub version: McStatusIOResponseVersion,
    pub motd: McStatusIOResponseMotd,
}

} // verus!
