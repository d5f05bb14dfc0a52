use vstd::prelude::*;
use vstd::string::StringExecFns;

use crate::data::Data;
use crate::text::{decimal, push_decimal};

verus! {

/// The lobby the user is in, with the text of its game.
#[derive(Debug, Clone, PartialEq, PartialOrd)]
pub struct LobbyInfo {
    pub lobby_id: String,
    pub data: Data,
}

/// A message from the client to the game server.
#[derive(Debug, Clone)]
pub enum WsMsg {
    /// Make a new group and join it.
    NewGroup,
    /// Join the group with the given id.
    JoinGroup(String),
    /// Leave the group the user is in.
    LeaveGroup,
    /// The user's speed, in tenths of a word per minute, and progress in percent.
    UpdateStats(u64, u8),
    /// Start the game (leader only).
    StartGame,
}

/// The wire text of a speed given in tenths: whole part, a dot, one decimal.
pub open spec fn tenths_text(tenths: nat) -> Seq<char> {
    decimal(tenths / 10) + "."@ + decimal(tenths % 10)
}

/// The wire text of a client message: the command, then its payloads separated
/// by spaces.
pub open spec fn ws_msg_text(m: WsMsg) -> Seq<char> {
    match m {
        WsMsg::NewGroup => "NewGroup"@,
        WsMsg::JoinGroup(group_id) => "JoinGroup "@ + group_id@,
        WsMsg::LeaveGroup => "LeaveGroup"@,
        WsMsg::UpdateStats(wpm_tenths, progress) => "UpdateStats "@ + tenths_text(wpm_tenths as nat) + " "@
            + decimal(progress as nat),
        WsMsg::StartGame => "StartGame"@,
    }
}

impl WsMsg {
    /// The text sent over the websocket for this message.
    pub fn to_string(&self) -> (r: String)
        ensures
            r@ == ws_msg_text(*self),
    {
        match self {
            WsMsg::NewGroup => String::from_str("NewGroup"),
            WsMsg::JoinGroup(group_id) => {
                let mut s = String::from_str("JoinGroup ");
                s.append(group_id.as_str());
                s
            },
            WsMsg::LeaveGroup => String::from_str("LeaveGroup"),
            WsMsg::UpdateStats(wpm_tenths, progress) => {
                let mut s = String::from_str("UpdateStats ");
                push_decimal(&mut s, *wpm_tenths / 10);
                s.append(".");
                push_decimal(&mut s, *wpm_tenths % 10);
                s.append(" ");
                push_decimal(&mut s, *progress as u64);
                assert(s@ =~= ws_msg_text(*self));
                s
            },
            WsMsg::StartGame => String::from_str("StartGame"),
        }
    }
}

} // verus!
