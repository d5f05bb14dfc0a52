use vstd::prelude::*;
use vstd::string::StringExecFns;

use crate::data::Data;
use crate::keys::{control_only, KeyCode, KeyEvent};
use crate::text::{join, lemma_join_split, lemma_split_first, lemma_split_nonempty, push_char, split, split_on, str_eq, strs_view};

use self::models::{LobbyInfo, WsMsg};

pub mod models;

verus! {

/// Where the game of the lobby stands.
#[derive(Debug, Clone, Copy, PartialEq, Eq, Structural)]
pub enum GameStatus {
    Waiting,
    Countdown(i8),
    Playing,
    End,
}

/// The lobby the user is in.
#[derive(Debug, Clone, PartialEq)]
pub struct Lobby {
    pub lobby_info: LobbyInfo,
}

/// What the client knows of the multiplayer game; `P` is the snapshot of the
/// players' stats that the server sends.
pub struct GameModel<P> {
    pub user_id: Option<String>,
    pub active_lobby_id: Option<String>,
    pub pending_join_lobby_id: Option<String>,
    pub players_info: Option<P>,
    pub lobby: Option<Lobby>,
    pub game_status: Option<GameStatus>,
}

impl<P> Default for GameModel<P> {
    fn default() -> (r: Self)
        ensures
            r.user_id is None,
            r.active_lobby_id is None,
            r.pending_join_lobby_id is None,
            r.players_info is None,
            r.lobby is None,
            r.game_status is None,
    {
        GameModel {
            user_id: None,
            active_lobby_id: None,
            pending_join_lobby_id: None,
            players_info: None,
            lobby: None,
            game_status: None,
        }
    }
}

/// A server message whose command was recognised, with its payload. The JSON
/// payloads are kept as text, to be decoded into [`WsEvent`]s.
#[derive(Debug, Clone)]
pub enum WsPayload {
    LobbyInfo(String),
    NewGame(String),
    EndGame(String),
    UserId(String),
    PlayersInfo(String),
    Countdown(i8),
}

/// The content of a [`WsPayload`].
pub enum WsPayloadView {
    LobbyInfo(Seq<char>),
    NewGame(Seq<char>),
    EndGame(Seq<char>),
    UserId(Seq<char>),
    PlayersInfo(Seq<char>),
    Countdown(i8),
}

impl View for WsPayload {
    type V = WsPayloadView;

    open spec fn view(&self) -> WsPayloadView {
        match self {
            WsPayload::LobbyInfo(s) => WsPayloadView::LobbyInfo(s@),
            WsPayload::NewGame(s) => WsPayloadView::NewGame(s@),
            WsPayload::EndGame(s) => WsPayloadView::EndGame(s@),
            WsPayload::UserId(s) => WsPayloadView::UserId(s@),
            WsPayload::PlayersInfo(s) => WsPayloadView::PlayersInfo(s@),
            WsPayload::Countdown(c) => WsPayloadView::Countdown(*c),
        }
    }
}

/// A decoded server message, ready to be applied to the [`GameModel`].
pub enum WsEvent<P> {
    LobbyInfo(LobbyInfo),
    NewGame { data: Data, players_info: P },
    EndGame(P),
    UserId(String),
    PlayersInfo(P),
    Countdown(i8),
}

/// What `serde_json::from_str::<i8>` gives for a text: the number, or the
/// error message.
pub uninterp spec fn json_i8(text: Seq<char>) -> Result<i8, Seq<char>>;

/// Reads a JSON number into an `i8` with `serde_json::from_str::<i8>`; an
/// error comes back as its message. The contract only ties the result to the
/// text through [`json_i8`]: which texts serde_json accepts is not restated.
#[verifier::external_body]
fn parse_i8_json(text: &str) -> (r: Result<i8, String>)
    ensures
        match r {
            Ok(v) => json_i8(text@) == Ok::<i8, Seq<char>>(v),
            Err(e) => json_i8(text@) == Err::<i8, Seq<char>>(e@),
        },
{
    match serde_json::from_str::<i8>(text) {
        Ok(v) => Ok(v),
        Err(e) => Err(e.to_string()),
    }
}

pub open spec fn no_cmd_error() -> Seq<char> {
    "msg did not contain a cmd"@
}

pub open spec fn no_payload_error() -> Seq<char> {
    "msg did not contain a payload"@
}

/// The payload of a message split into words: everything after the command,
/// joined back with spaces; none when there is nothing after the command.
pub open spec fn words_payload(words: Seq<Seq<char>>) -> Option<Seq<char>> {
    if words.len() < 2 {
        None
    } else {
        Some(join(words.drop_first(), ' '))
    }
}

/// The result of a countdown message whose payload decoded to `parsed`.
pub open spec fn countdown_result(parsed: Result<i8, Seq<char>>) -> Result<WsPayloadView, Seq<char>> {
    match parsed {
        Ok(v) => Ok(WsPayloadView::Countdown(v)),
        Err(e) => Err(e),
    }
}

/// What a server message with the (non-empty) command `cmd` and the payload
/// `payload` means.
pub open spec fn ws_dispatch(cmd: Seq<char>, payload: Option<Seq<char>>) -> Result<WsPayloadView, Seq<char>> {
    if cmd == "Error"@ {
        match payload {
            Some(p) => Err(p),
            None => Err(no_payload_error()),
        }
    } else if cmd == "LobbyInfo"@ || cmd == "NewGame"@ || cmd == "EndGame"@ || cmd == "UserId"@
        || cmd == "PlayersInfo"@ || cmd == "Countdown"@ {
        match payload {
            None => Err(no_payload_error()),
            Some(p) => if cmd == "LobbyInfo"@ {
                Ok(WsPayloadView::LobbyInfo(p))
            } else if cmd == "NewGame"@ {
                Ok(WsPayloadView::NewGame(p))
            } else if cmd == "EndGame"@ {
                Ok(WsPayloadView::EndGame(p))
            } else if cmd == "UserId"@ {
                Ok(WsPayloadView::UserId(p))
            } else if cmd == "PlayersInfo"@ {
                Ok(WsPayloadView::PlayersInfo(p))
            } else {
                countdown_result(json_i8(p))
            },
        }
    } else {
        Err("cmd "@ + cmd + " unsupported"@)
    }
}

/// How a server message is read: the first word is the command, the rest is
/// its payload.
pub open spec fn parsed_ws_msg(msg: Seq<char>) -> Result<WsPayloadView, Seq<char>> {
    let words = split(msg, ' ');
    if words.len() == 0 || words[0].len() == 0 {
        Err(no_cmd_error())
    } else {
        ws_dispatch(words[0], words_payload(words))
    }
}

/// A message made of a command, a space and a payload is read as that command
/// with exactly that payload, spaces inside the payload included.
pub proof fn lemma_ws_msg_with_payload(cmd: Seq<char>, payload: Seq<char>)
    requires
        cmd.len() > 0,
        !cmd.contains(' '),
    ensures
        parsed_ws_msg(cmd.push(' ') + payload) == ws_dispatch(cmd, Some(payload)),
{
    lemma_split_first(cmd, payload, ' ');
    lemma_join_split(payload, ' ');
    let words = split(cmd.push(' ') + payload, ' ');
    assert(words.drop_first() =~= split(payload, ' '));
    lemma_split_nonempty(payload, ' ');
}

/// A message that is a lone command is read as that command without payload.
pub proof fn lemma_ws_msg_without_payload(cmd: Seq<char>)
    requires
        cmd.len() > 0,
        !cmd.contains(' '),
    ensures
        parsed_ws_msg(cmd) == ws_dispatch(cmd, None),
{
    crate::text::lemma_split_no_sep(cmd, ' ');
}

/// The server's `UserId <id>` message hands back the id verbatim, and its
/// `Error <text>` message the text.
pub proof fn lemma_user_id_and_error_payloads(text: Seq<char>)
    ensures
        parsed_ws_msg("UserId "@ + text) == Ok::<WsPayloadView, Seq<char>>(WsPayloadView::UserId(text)),
        parsed_ws_msg("Error "@ + text) == Err::<WsPayloadView, Seq<char>>(text),
{
    reveal_strlit("UserId ");
    reveal_strlit("UserId");
    reveal_strlit("Error ");
    reveal_strlit("Error");
    let u = "UserId"@;
    let e = "Error"@;
    assert(!u.contains(' ')) by {
        if u.contains(' ') {
            let k = choose|k: int| 0 <= k < u.len() && u[k] == ' ';
        }
    }
    assert(!e.contains(' ')) by {
        if e.contains(' ') {
            let k = choose|k: int| 0 <= k < e.len() && e[k] == ' ';
        }
    }
    assert("UserId "@ =~= u.push(' '));
    assert("Error "@ =~= e.push(' '));
    lemma_ws_msg_with_payload(u, text);
    lemma_ws_msg_with_payload(e, text);
    reveal_strlit("LobbyInfo");
    reveal_strlit("NewGame");
    reveal_strlit("EndGame");
    assert(u != "Error"@);
    assert(u != "LobbyInfo"@);
    assert(u != "NewGame"@);
    assert(u != "EndGame"@);
}

/// The string after the command: the words after the first, joined with
/// spaces. An error when there is nothing after the command.
pub fn get_payload_from_words(words: &[&str]) -> (r: Result<String, String>)
    ensures
        match words_payload(strs_view(words@)) {
            Some(p) => r matches Ok(s) && s@ == p,
            None => r matches Err(e) && e@ == no_payload_error(),
        },
{
    if words.len() < 2 {
        return Err(String::from_str("msg did not contain a payload"));
    }
    let rest = vstd::slice::slice_subrange(words, 1, words.len());
    proof {
        reveal_strlit(" ");
        assert(strs_view(rest@) =~= strs_view(words@).drop_first());
    }
    let payload_str = crate::text::join_with(rest, " ");
    Ok(payload_str)
}

/// The result of a countdown message whose payload was decoded to `parsed`.
pub fn countdown_payload(parsed: Result<i8, String>) -> (r: Result<WsPayload, String>)
    ensures
        match r {
            Ok(p) => countdown_result(match parsed { Ok(v) => Ok(v), Err(e) => Err(e@) }) == Ok::<WsPayloadView, Seq<char>>(p@),
            Err(e) => countdown_result(match parsed { Ok(v) => Ok(v), Err(e) => Err(e@) }) == Err::<WsPayloadView, Seq<char>>(e@),
        },
{
    match parsed {
        Ok(v) => Ok(WsPayload::Countdown(v)),
        Err(e) => Err(e),
    }
}

/// Reads a message of the game server: its command and payload. Messages
/// with a JSON payload keep it as text; a countdown is decoded here; an
/// `Error` message comes back as an error carrying the server's text.
pub fn parse_ws_msg(msg: &str) -> (r: Result<WsPayload, String>)
    ensures
        match r {
            Ok(p) => parsed_ws_msg(msg@) == Ok::<WsPayloadView, Seq<char>>(p@),
            Err(e) => parsed_ws_msg(msg@) == Err::<WsPayloadView, Seq<char>>(e@),
        },
{
    let words = split_on(msg, ' ');
    let ghost wv = strs_view(words@);
    proof {
        lemma_split_nonempty(msg@, ' ');
        reveal_strlit("");
    }
    assert(wv == split(msg@, ' '));
    if words.len() == 0 || str_eq(words[0], "") {
        return Err(String::from_str("msg did not contain a cmd"));
    }
    let cmd = words[0];
    assert(cmd@ == wv[0]);
    assert(cmd@.len() != 0) by {
        if cmd@.len() == 0 {
            assert(cmd@ =~= ""@);
        }
    }
    if str_eq(cmd, "Error") {
        return match get_payload_from_words(words.as_slice()) {
            Ok(p) => Err(p),
            Err(e) => Err(e),
        };
    }
    let is_lobby = str_eq(cmd, "LobbyInfo");
    let is_new_game = str_eq(cmd, "NewGame");
    let is_end_game = str_eq(cmd, "EndGame");
    let is_user_id = str_eq(cmd, "UserId");
    let is_players = str_eq(cmd, "PlayersInfo");
    let is_countdown = str_eq(cmd, "Countdown");
    if is_lobby || is_new_game || is_end_game || is_user_id || is_players || is_countdown {
        let payload = match get_payload_from_words(words.as_slice()) {
            Ok(p) => p,
            Err(e) => {
                return Err(e);
            },
        };
        if is_lobby {
            Ok(WsPayload::LobbyInfo(payload))
        } else if is_new_game {
            Ok(WsPayload::NewGame(payload))
        } else if is_end_game {
            Ok(WsPayload::EndGame(payload))
        } else if is_user_id {
            Ok(WsPayload::UserId(payload))
        } else if is_players {
            Ok(WsPayload::PlayersInfo(payload))
        } else {
            countdown_payload(parse_i8_json(payload.as_str()))
        }
    } else {
        let mut e = String::from_str("cmd ");
        e.append(cmd);
        e.append(" unsupported");
        Err(e)
    }
}

impl<P> GameModel<P> {
    /// Applies a decoded server message: a lobby to wait in, the text and
    /// players of a new game, the final stats, the user's id, new stats, or
    /// the countdown.
    pub fn apply_ws_event(&mut self, event: WsEvent<P>)
        ensures
            match event {
                WsEvent::LobbyInfo(info) => {
                    &&& final(self).lobby == Some(Lobby { lobby_info: info })
                    &&& final(self).game_status == Some(GameStatus::Waiting)
                    &&& final(self).user_id == old(self).user_id
                    &&& final(self).players_info == old(self).players_info
                },
                WsEvent::NewGame { data, players_info } => {
                    &&& final(self).lobby == match old(self).lobby {
                        Some(l) => Some(Lobby { lobby_info: LobbyInfo { lobby_id: l.lobby_info.lobby_id, data } }),
                        None => None,
                    }
                    &&& final(self).players_info == Some(players_info)
                    &&& final(self).game_status == old(self).game_status
                    &&& final(self).user_id == old(self).user_id
                },
                WsEvent::EndGame(p) => {
                    &&& final(self).players_info == Some(p)
                    &&& final(self).game_status == Some(GameStatus::End)
                    &&& final(self).lobby == old(self).lobby
                    &&& final(self).user_id == old(self).user_id
                },
                WsEvent::UserId(u) => {
                    &&& final(self).user_id == Some(u)
                    &&& final(self).lobby == old(self).lobby
                    &&& final(self).players_info == old(self).players_info
                    &&& final(self).game_status == old(self).game_status
                },
                WsEvent::PlayersInfo(p) => {
                    &&& final(self).players_info == Some(p)
                    &&& final(self).lobby == old(self).lobby
                    &&& final(self).user_id == old(self).user_id
                    &&& final(self).game_status == old(self).game_status
                },
                WsEvent::Countdown(c) => {
                    &&& final(self).game_status == Some(GameStatus::Countdown(c))
                    &&& final(self).lobby == old(self).lobby
                    &&& final(self).user_id == old(self).user_id
                    &&& final(self).players_info == old(self).players_info
                },
            },
            final(self).active_lobby_id == old(self).active_lobby_id,
            final(self).pending_join_lobby_id == old(self).pending_join_lobby_id,
    {
        match event {
            WsEvent::LobbyInfo(lobby_info) => {
                self.lobby = Some(Lobby { lobby_info });
                self.game_status = Some(GameStatus::Waiting);
            },
            WsEvent::NewGame { data, players_info } => {
                let lobby = self.lobby.take();
                self.lobby = match lobby {
                    Some(l) => Some(Lobby { lobby_info: LobbyInfo { lobby_id: l.lobby_info.lobby_id, data } }),
                    None => None,
                };
                self.players_info = Some(players_info);
            },
            WsEvent::EndGame(p) => {
                self.players_info = Some(p);
                self.game_status = Some(GameStatus::End);
            },
            WsEvent::UserId(u) => {
                self.user_id = Some(u);
            },
            WsEvent::PlayersInfo(p) => {
                self.players_info = Some(p);
            },
            WsEvent::Countdown(c) => {
                self.game_status = Some(GameStatus::Countdown(c));
            },
        }
    }

    /// Records a message handed to the websocket writer: a join request that
    /// was sent leaves its group id pending.
    pub fn record_sent(&mut self, msg: &WsMsg, did_send: bool)
        ensures
            final(self).pending_join_lobby_id == match *msg {
                WsMsg::JoinGroup(id) => if did_send { Some(id) } else { old(self).pending_join_lobby_id },
                _ => old(self).pending_join_lobby_id,
            },
            final(self).user_id == old(self).user_id,
            final(self).active_lobby_id == old(self).active_lobby_id,
            final(self).players_info == old(self).players_info,
            final(self).lobby == old(self).lobby,
            final(self).game_status == old(self).game_status,
    {
        if did_send {
            if let WsMsg::JoinGroup(group_id) = msg {
                self.pending_join_lobby_id = Some(group_id.clone());
            }
        }
    }
}

/// The longest lobby id that can be typed.
pub const MAX_LOBBY_ID_LEN: usize = 6;

pub open spec fn is_lowercase_ascii(c: char) -> bool {
    'a' <= c <= 'z'
}

/// A lobby id being typed: at most six lowercase ASCII letters.
pub open spec fn valid_lobby_input(s: Seq<char>) -> bool {
    s.len() <= MAX_LOBBY_ID_LEN && forall|i: int| 0 <= i < s.len() ==> is_lowercase_ascii(#[trigger] s[i])
}

/// What a key does to the lobby id being typed, and the message to send, if any.
pub open spec fn lobby_input_after(input: Seq<char>, key: KeyEvent) -> Seq<char> {
    match key.code {
        KeyCode::Char(c) => if c == 'n' && control_only(key.modifiers) {
            input
        } else if !is_lowercase_ascii(c) || input.len() >= MAX_LOBBY_ID_LEN {
            input
        } else {
            input.push(c)
        },
        KeyCode::Backspace => if input.len() > 0 { input.drop_last() } else { input },
        _ => input,
    }
}

/// Handles a key on the lobby screen: control-n asks for a new group, a
/// lowercase letter extends the lobby id (up to six letters), backspace
/// removes the last letter, and enter asks to join the typed lobby.
pub fn update_lobby_input(input_lobby_id: &mut Vec<char>, key: KeyEvent) -> (r: Option<WsMsg>)
    ensures
        final(input_lobby_id)@ == lobby_input_after(old(input_lobby_id)@, key),
        match key.code {
            KeyCode::Char(c) => if c == 'n' && control_only(key.modifiers) {
                r matches Some(WsMsg::NewGroup)
            } else {
                r is None
            },
            KeyCode::Enter => r matches Some(WsMsg::JoinGroup(id)) && id@ == old(input_lobby_id)@,
            _ => r is None,
        },
        valid_lobby_input(old(input_lobby_id)@) ==> valid_lobby_input(final(input_lobby_id)@),
{
    match key.code {
        KeyCode::Char(c) => {
            if c == 'n' && key.modifiers.is_control_only() {
                return Some(WsMsg::NewGroup);
            }
            if !('a' <= c && c <= 'z') || input_lobby_id.len() >= MAX_LOBBY_ID_LEN {
                return None;
            }
            input_lobby_id.push(c);
            None
        },
        KeyCode::Backspace => {
            input_lobby_id.pop();
            None
        },
        KeyCode::Enter => {
            let mut lobby_id = String::new();
            let mut i: usize = 0;
            while i < input_lobby_id.len()
                invariant
                    i <= input_lobby_id@.len(),
                    lobby_id@ == input_lobby_id@.take(i as int),
                decreases input_lobby_id@.len() - i,
            {
                push_char(&mut lobby_id, input_lobby_id[i]);
                assert(input_lobby_id@.take(i + 1) =~= input_lobby_id@.take(i as int).push(input_lobby_id@[i as int]));
                i = i + 1;
            }
            assert(input_lobby_id@.take(i as int) =~= input_lobby_id@);
            Some(WsMsg::JoinGroup(lobby_id))
        },
        _ => None,
    }
}

/// Every lowercase ASCII letter is typed while the lobby id is shorter than six
/// letters (control-n excepted); any other character, or any letter once six
/// are typed, leaves the id as it is.
pub proof fn lemma_lobby_typing(input: Seq<char>, key: KeyEvent)
    ensures
        forall|c: char|
            key.code == KeyCode::Char(c) && 'a' <= c <= 'z' && input.len() < 6 && !(c == 'n' && control_only(
                key.modifiers,
            )) ==> lobby_input_after(input, key) == input.push(c),
        forall|c: char| key.code == KeyCode::Char(c) && !('a' <= c <= 'z') ==> lobby_input_after(input, key) == input,
        key.code is Char && input.len() >= 6 ==> lobby_input_after(input, key) == input,
        key.code is Backspace && input.len() > 0 ==> lobby_input_after(input, key) == input.drop_last(),
        key.code is Enter ==> lobby_input_after(input, key) == input,
{
}

} // verus!
