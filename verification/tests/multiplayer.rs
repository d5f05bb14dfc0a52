use typing_test_tui::data::Data;
use typing_test_tui::keys::{KeyCode, KeyEvent, KeyModifiers};
use typing_test_tui::multiplayer::models::{LobbyInfo, WsMsg};
use typing_test_tui::multiplayer::{
    countdown_payload, get_payload_from_words, parse_ws_msg, update_lobby_input, GameModel, GameStatus,
    Lobby, WsEvent, WsPayload,
};

/// Decodes the JSON payload of a `LobbyInfo` message, as the client does.
fn decode_lobby_info(json: &str) -> Result<LobbyInfo, String> {
    let v: serde_json::Value = serde_json::from_str(json).map_err(|e| e.to_string())?;
    let field = |obj: &serde_json::Value, name: &str| -> Result<String, String> {
        obj.get(name)
            .and_then(|x| x.as_str())
            .map(|x| x.to_string())
            .ok_or_else(|| format!("missing field `{}`", name))
    };
    let data = v.get("data").ok_or_else(|| "missing field `data`".to_string())?;
    Ok(LobbyInfo {
        lobby_id: field(&v, "lobby_id")?,
        data: Data { text: field(data, "text")?, source: field(data, "source")? },
    })
}

fn key(code: KeyCode) -> KeyEvent {
    KeyEvent { code, modifiers: KeyModifiers::none() }
}

#[test]
fn test_get_payload_from_words() {
    let s = "cmd asdfasdf".split(" ").collect::<Vec<&str>>();

    let res = get_payload_from_words(&s);

    assert_eq!(res.is_ok(), true)
}

#[test]
fn test_get_payload_from_words_no_payload() {
    let s = "cmd".split(" ").collect::<Vec<&str>>();

    let res = get_payload_from_words(&s);

    assert_eq!(res, Err("msg did not contain a payload".to_string()))
}

#[test]
fn test_parse_ws_msg_lobby_info() {
    let mut shared_model: GameModel<()> = GameModel::default();

    let json_str = r#"{"lobby_id":"some-id","data":{"source":"test source","text":"test text"}}"#;
    let msg = "LobbyInfo ".to_string() + json_str;

    let payload = match parse_ws_msg(&msg) {
        Ok(WsPayload::LobbyInfo(p)) => p,
        _ => panic!("not a lobby info message"),
    };
    let info = decode_lobby_info(&payload);
    assert!(info.is_ok());
    shared_model.apply_ws_event(WsEvent::LobbyInfo(info.unwrap()));

    assert_eq!(
        shared_model.lobby,
        Some(Lobby {
            lobby_info: LobbyInfo {
                lobby_id: "some-id".to_string(),
                data: Data { text: "test text".to_string(), source: "test source".to_string() }
            }
        })
    );
    assert_eq!(shared_model.game_status, Some(GameStatus::Waiting));
}

#[test]
fn test_parse_ws_msg_user_id() {
    let mut shared_model: GameModel<()> = GameModel::default();

    let payload = parse_ws_msg("UserId test-user-id");
    match payload {
        Ok(WsPayload::UserId(id)) => shared_model.apply_ws_event(WsEvent::UserId(id)),
        _ => panic!("not a user id message"),
    }
    assert_eq!(shared_model.user_id, Some("test-user-id".to_string()))
}

#[test]
fn test_wsmsg_to_string_1() {
    let msg = WsMsg::NewGroup;

    assert_eq!("NewGroup".to_string(), msg.to_string())
}

#[test]
fn test_wsmsg_to_string_2() {
    let msg = WsMsg::JoinGroup("asdfgh".to_string());

    assert_eq!("JoinGroup asdfgh".to_string(), msg.to_string())
}

#[test]
fn test_wsmsg_to_string_3() {
    // 10.123 words per minute, sent with one decimal.
    let msg = WsMsg::UpdateStats(101, 100);

    assert_eq!("UpdateStats 10.1 100".to_string(), msg.to_string())
}

#[test]
fn wsmsg_to_string_other_commands() {
    assert_eq!(WsMsg::LeaveGroup.to_string(), "LeaveGroup");
    assert_eq!(WsMsg::StartGame.to_string(), "StartGame");
    assert_eq!(WsMsg::UpdateStats(0, 0).to_string(), "UpdateStats 0.0 0");
    assert_eq!(WsMsg::UpdateStats(1234, 57).to_string(), "UpdateStats 123.4 57");
}

#[test]
fn payload_keeps_inner_spaces() {
    let s = "Error  two  spaces ".split(" ").collect::<Vec<&str>>();
    assert_eq!(get_payload_from_words(&s), Ok(" two  spaces ".to_string()));
}

#[test]
fn parse_ws_msg_errors() {
    assert_eq!(parse_ws_msg("").err(), Some("msg did not contain a cmd".to_string()));
    assert_eq!(parse_ws_msg(" UserId x").err(), Some("msg did not contain a cmd".to_string()));
    assert_eq!(parse_ws_msg("UserId").err(), Some("msg did not contain a payload".to_string()));
    assert_eq!(parse_ws_msg("Error").err(), Some("msg did not contain a payload".to_string()));
    assert_eq!(parse_ws_msg("Error lobby is full").err(), Some("lobby is full".to_string()));
    assert_eq!(parse_ws_msg("Hello there").err(), Some("cmd Hello unsupported".to_string()));
}

#[test]
fn parse_ws_msg_json_payloads_kept_as_text() {
    assert!(matches!(parse_ws_msg("NewGame {\"a\": 1}"), Ok(WsPayload::NewGame(p)) if p == "{\"a\": 1}"));
    assert!(matches!(parse_ws_msg("EndGame {}"), Ok(WsPayload::EndGame(p)) if p == "{}"));
    assert!(matches!(parse_ws_msg("PlayersInfo []"), Ok(WsPayload::PlayersInfo(p)) if p == "[]"));
}

#[test]
fn parse_ws_msg_countdown() {
    assert!(matches!(parse_ws_msg("Countdown 3"), Ok(WsPayload::Countdown(3))));
    assert!(matches!(parse_ws_msg("Countdown -2"), Ok(WsPayload::Countdown(-2))));
    assert!(parse_ws_msg("Countdown 300").is_err());
    assert!(parse_ws_msg("Countdown three").is_err());
}

#[test]
fn countdown_payload_passes_result_through() {
    assert!(matches!(countdown_payload(Ok(5)), Ok(WsPayload::Countdown(5))));
    assert_eq!(countdown_payload(Err("bad".to_string())).err(), Some("bad".to_string()));
}

#[test]
fn apply_events_update_game_model() {
    let mut m: GameModel<u32> = GameModel::default();
    // A new game before any lobby only records the players.
    m.apply_ws_event(WsEvent::NewGame { data: Data { text: "t".into(), source: "s".into() }, players_info: 1 });
    assert_eq!(m.lobby, None);
    assert_eq!(m.players_info, Some(1));

    m.apply_ws_event(WsEvent::LobbyInfo(LobbyInfo {
        lobby_id: "abc".into(),
        data: Data { text: "old".into(), source: "old source".into() },
    }));
    m.apply_ws_event(WsEvent::NewGame { data: Data { text: "new".into(), source: "new source".into() }, players_info: 2 });
    assert_eq!(m.lobby.as_ref().unwrap().lobby_info.lobby_id, "abc");
    assert_eq!(m.lobby.as_ref().unwrap().lobby_info.data.text, "new");
    assert_eq!(m.players_info, Some(2));
    assert_eq!(m.game_status, Some(GameStatus::Waiting));

    m.apply_ws_event(WsEvent::Countdown(3));
    assert_eq!(m.game_status, Some(GameStatus::Countdown(3)));
    m.apply_ws_event(WsEvent::PlayersInfo(4));
    assert_eq!(m.players_info, Some(4));
    m.apply_ws_event(WsEvent::EndGame(5));
    assert_eq!(m.players_info, Some(5));
    assert_eq!(m.game_status, Some(GameStatus::End));
}

#[test]
fn record_sent_join_only_when_sent() {
    let mut m: GameModel<()> = GameModel::default();
    m.record_sent(&WsMsg::JoinGroup("abc".into()), false);
    assert_eq!(m.pending_join_lobby_id, None);
    m.record_sent(&WsMsg::NewGroup, true);
    assert_eq!(m.pending_join_lobby_id, None);
    m.record_sent(&WsMsg::JoinGroup("abc".into()), true);
    assert_eq!(m.pending_join_lobby_id, Some("abc".to_string()));
}

#[test]
fn lobby_input_typing() {
    let mut input: Vec<char> = vec![];
    for c in "abcdefgh".chars() {
        assert!(update_lobby_input(&mut input, key(KeyCode::Char(c))).is_none());
    }
    // At most six letters.
    assert_eq!(input, vec!['a', 'b', 'c', 'd', 'e', 'f']);
    update_lobby_input(&mut input, key(KeyCode::Backspace));
    assert_eq!(input.len(), 5);
    // Upper case letters and digits are ignored.
    update_lobby_input(&mut input, key(KeyCode::Char('X')));
    update_lobby_input(&mut input, key(KeyCode::Char('1')));
    assert_eq!(input.len(), 5);
    match update_lobby_input(&mut input, key(KeyCode::Enter)) {
        Some(WsMsg::JoinGroup(id)) => assert_eq!(id, "abcde"),
        _ => panic!("enter should join"),
    }
    let ctrl_n = KeyEvent { code: KeyCode::Char('n'), modifiers: KeyModifiers::control() };
    assert!(matches!(update_lobby_input(&mut input, ctrl_n), Some(WsMsg::NewGroup)));
    assert_eq!(input.len(), 5);
    // A plain `n` is typed.
    update_lobby_input(&mut input, key(KeyCode::Char('n')));
    assert_eq!(input.last(), Some(&'n'));
    // Backspace on an empty input does nothing.
    let mut empty: Vec<char> = vec![];
    assert!(update_lobby_input(&mut empty, key(KeyCode::Backspace)).is_none());
    assert!(empty.is_empty());
}
