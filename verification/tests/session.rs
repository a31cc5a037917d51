use riichienv_core::action::{Action as EngineAction, ActionType as EngineType};
use riichienv_core::observation::Observation as EngineObservation;
use riichienv_core::types::{Meld as EngineMeld, MeldType as EngineMeldType};
use riichilab_agent::agent::{
    after_message, authorization, confirm_selection, decode_observation, endpoint, handle_message,
    load_token, on_frame, on_message, AgentError, FrameKind, QueueKind, SessionStep, TokenError,
};
use riichilab_agent::engine::{Action, ActionType, Meld, MeldType};
use riichilab_agent::logger::{log_file_name, reply_value, Direction, GameLogger, LogCommand};
use riichilab_agent::protocol::{IncomingMessage, ProtocolError};
use riichilab_agent::selection::{is_tsumogiri_discard, select_temporary_action};
use serde_json::Value;

fn engine_action(action_type: EngineType, tile: Option<u8>, consumed: Vec<u8>) -> EngineAction {
    EngineAction { action_type, tile, consume_tiles: consumed, actor: Some(1) }
}

fn engine_observation(actions: Vec<EngineAction>) -> EngineObservation {
    EngineObservation::new(
        1,
        [vec![], vec![0, 1, 5, 8], vec![], vec![135]],
        [
            vec![],
            vec![EngineMeld::new(EngineMeldType::Pon, vec![108, 109, 110], true, 2, Some(108))],
            vec![
                EngineMeld::new(EngineMeldType::Chi, vec![0, 4, 8], true, 1, None),
                EngineMeld::new(EngineMeldType::Daiminkan, vec![12, 13, 14, 15], true, 1, None),
                EngineMeld::new(EngineMeldType::Ankan, vec![20, 21, 22, 23], false, -1, None),
                EngineMeld::new(EngineMeldType::Kakan, vec![24, 25, 26, 27], true, 0, None),
            ],
            vec![],
        ],
        [vec![3], vec![7, 9], vec![], vec![11]],
        vec![50],
        [25000, 25000, 25000, 25000],
        [false, true, true, false],
        actions,
        vec![],
        0,
        0,
        2,
        3,
        0,
        vec![],
        false,
        [None, None, None, None],
        [None, None, None, None],
        None,
        None,
    )
}

fn message(kind: &str, fields: Vec<(&str, Value)>) -> IncomingMessage {
    let mut payload: serde_json::Map<String, Value> = serde_json::Map::new();
    for (name, value) in fields {
        payload.insert(name.to_string(), value);
    }
    IncomingMessage::new(kind.to_string(), payload)
}

fn request(possible: Vec<Value>, observation: &str) -> IncomingMessage {
    message(
        "request_action",
        vec![
            ("possible_actions", Value::Array(possible)),
            ("observation", Value::String(observation.to_string())),
        ],
    )
}

fn json(text: &str) -> Value {
    serde_json::from_str(text).unwrap()
}

#[test]
fn observations_are_decoded_field_by_field() {
    let types = [
        (EngineType::Discard, ActionType::Discard),
        (EngineType::Chi, ActionType::Chi),
        (EngineType::Pon, ActionType::Pon),
        (EngineType::Daiminkan, ActionType::Daiminkan),
        (EngineType::Ron, ActionType::Ron),
        (EngineType::Riichi, ActionType::Riichi),
        (EngineType::Tsumo, ActionType::Tsumo),
        (EngineType::Pass, ActionType::Pass),
        (EngineType::Ankan, ActionType::Ankan),
        (EngineType::Kakan, ActionType::Kakan),
        (EngineType::KyushuKyuhai, ActionType::KyushuKyuhai),
        (EngineType::Kita, ActionType::Kita),
    ];
    let mut actions = Vec::new();
    let mut expected = Vec::new();
    for (i, (engine, own)) in types.into_iter().enumerate() {
        let tile = i as u8;
        actions.push(engine_action(engine, Some(tile), vec![9, tile]));
        expected.push(Action {
            action_type: own,
            tile: Some(tile),
            consume_tiles: vec![9, tile],
            actor: Some(1),
        });
    }
    let encoded = engine_observation(actions).serialize_to_base64().unwrap();
    let observation = decode_observation(&encoded).unwrap();
    assert_eq!(observation.legal_actions, expected);
    assert_eq!(observation.player_id, 1);
    assert_eq!(observation.hands, [vec![], vec![0u32, 1, 5, 8], vec![], vec![135]]);
    assert_eq!(observation.discards, [vec![3u32], vec![7, 9], vec![], vec![11]]);
    assert_eq!(observation.dora_indicators, vec![50u32]);
    assert_eq!(observation.riichi_declared, [false, true, true, false]);
    assert_eq!(observation.round_wind, 2);
    assert_eq!(observation.oya, 3);
    let meld = |meld_type: MeldType, tiles: Vec<u8>| Meld { meld_type, tiles };
    assert_eq!(
        observation.melds,
        [
            vec![],
            vec![meld(MeldType::Pon, vec![108, 109, 110])],
            vec![
                meld(MeldType::Chi, vec![0, 4, 8]),
                meld(MeldType::Daiminkan, vec![12, 13, 14, 15]),
                meld(MeldType::Ankan, vec![20, 21, 22, 23]),
                meld(MeldType::Kakan, vec![24, 25, 26, 27]),
            ],
            vec![],
        ]
    );
}

#[test]
fn texts_that_encode_no_observation_are_refused() {
    for text in ["", "ZmFrZQ==", "not base64!"] {
        let error = decode_observation(text).unwrap_err();
        assert!(matches!(error, AgentError::Observation(_)));
        assert_eq!(error.to_string(), "failed to decode 4-player observation");
    }
}

#[test]
fn a_request_is_answered_with_a_possible_action() {
    let encoded = engine_observation(vec![
        engine_action(EngineType::Pass, None, vec![]),
        engine_action(EngineType::Discard, Some(16), vec![]),
        engine_action(EngineType::Discard, Some(0), vec![]),
    ])
    .serialize_to_base64()
    .unwrap();
    let possible = json(r#"[{"type":"none","actor":1},{"pai":"5mr","actor":1,"type":"dahai"}]"#);
    let possible = possible.as_array().unwrap().clone();
    let reply = handle_message(&request(possible, &encoded)).unwrap().unwrap();
    assert_eq!(json(&reply), json(r#"{"type":"dahai","actor":1,"pai":"5mr"}"#));
}

#[test]
fn every_type_of_action_is_written_in_mjai() {
    let cases = [
        (EngineType::Discard, "dahai"),
        (EngineType::Chi, "chi"),
        (EngineType::Pon, "pon"),
        (EngineType::Daiminkan, "daiminkan"),
        (EngineType::Ron, "hora"),
        (EngineType::Riichi, "reach"),
        (EngineType::Tsumo, "hora"),
        (EngineType::Pass, "none"),
        (EngineType::Ankan, "ankan"),
        (EngineType::Kakan, "kakan"),
        (EngineType::KyushuKyuhai, "ryukyoku"),
        (EngineType::Kita, "kita"),
    ];
    for (engine, name) in cases {
        let action = engine_action(engine, Some(52), vec![108, 0]);
        let text = action.to_mjai();
        let encoded = engine_observation(vec![action]).serialize_to_base64().unwrap();
        let reply = handle_message(&request(vec![json(&text)], &encoded)).unwrap();
        assert_eq!(reply, Some(text.clone()));
        assert_eq!(json(&text)["type"].as_str(), Some(name));
    }
}

#[test]
fn an_action_that_is_not_possible_is_refused() {
    let encoded = engine_observation(vec![engine_action(EngineType::Discard, Some(0), vec![])])
        .serialize_to_base64()
        .unwrap();
    let error = handle_message(&request(vec![json(r#"{"type":"none"}"#)], &encoded)).unwrap_err();
    let text = match &error {
        AgentError::NotPossible(text) => text.clone(),
        other => panic!("unexpected error: {other:?}"),
    };
    assert_eq!(json(&text), json(r#"{"type":"dahai","actor":1,"pai":"1m"}"#));
    assert_eq!(
        error.to_string(),
        format!("selected action not present in request_action.possible_actions: {text}")
    );
    assert!(handle_message(&request(vec![], &encoded)).is_err());
}

#[test]
fn requests_without_an_answer_are_errors() {
    let encoded = engine_observation(vec![]).serialize_to_base64().unwrap();
    let error = handle_message(&request(vec![], &encoded)).unwrap_err();
    assert!(matches!(error, AgentError::NoLegalActions));
    assert_eq!(error.to_string(), "request_action contained no legal actions");
    let error = handle_message(&request(vec![], "ZmFrZQ==")).unwrap_err();
    let engine_error = EngineObservation::deserialize_from_base64("ZmFrZQ==").unwrap_err();
    match error {
        AgentError::Observation(cause) => {
            assert_eq!(cause.to_string(), engine_error.to_string());
        }
        other => panic!("unexpected error: {other:?}"),
    }
    let error = handle_message(&message("request_action", vec![])).unwrap_err();
    assert!(matches!(
        error,
        AgentError::Protocol(ProtocolError::MissingField("possible_actions"))
    ));
    assert_eq!(error.to_string(), "missing field: possible_actions");
    assert!(handle_message(&message("tsumo", vec![])).unwrap().is_none());
}

#[test]
fn a_selection_is_confirmed_by_value() {
    let possible = [json("1"), json(r#"{"a":1,"b":[2]}"#)];
    let value = json(r#"{"b":[2],"a":1}"#);
    let reply = confirm_selection(&possible, "text".to_string(), &value).unwrap();
    assert_eq!(reply, Some("text".to_string()));
    assert!(confirm_selection(&possible, "text".to_string(), &json("2")).is_err());
}

#[test]
fn the_temporary_selection_goes_by_type() {
    let action = |action_type: ActionType, tile: Option<u8>| Action {
        action_type,
        tile,
        consume_tiles: vec![],
        actor: None,
    };
    let mut actions = vec![action(ActionType::Kita, None)];
    assert_eq!(select_temporary_action(&[]), None);
    assert_eq!(select_temporary_action(&actions).unwrap().action_type, ActionType::Kita);
    actions.push(action(ActionType::Pass, None));
    assert_eq!(select_temporary_action(&actions).unwrap().action_type, ActionType::Pass);
    actions.push(action(ActionType::Discard, None));
    assert_eq!(select_temporary_action(&actions).unwrap().action_type, ActionType::Pass);
    assert!(!is_tsumogiri_discard(&actions[2]));
    actions.push(action(ActionType::Discard, Some(3)));
    actions.push(action(ActionType::Discard, Some(4)));
    assert!(is_tsumogiri_discard(&actions[3]));
    assert_eq!(select_temporary_action(&actions).unwrap().tile, Some(3));
    actions.push(action(ActionType::Riichi, None));
    assert_eq!(select_temporary_action(&actions).unwrap().action_type, ActionType::Riichi);
    actions.push(action(ActionType::Ron, Some(8)));
    actions.push(action(ActionType::Tsumo, Some(9)));
    assert_eq!(select_temporary_action(&actions).unwrap().action_type, ActionType::Ron);
}

#[test]
fn the_session_follows_the_frames() {
    assert!(matches!(on_frame(None), SessionStep::Stop));
    assert!(matches!(on_frame(Some(FrameKind::Close)), SessionStep::Stop));
    assert!(matches!(on_frame(Some(FrameKind::Text)), SessionStep::Read));
    assert!(matches!(on_frame(Some(FrameKind::Ping)), SessionStep::SendPong));
    for kind in [FrameKind::Binary, FrameKind::Pong, FrameKind::Raw] {
        assert!(matches!(on_frame(Some(kind)), SessionStep::Receive));
    }
    let result = message("validation_result", vec![]);
    assert!(matches!(on_message(&result), Ok(SessionStep::Stop)));
    assert!(matches!(after_message(&result), SessionStep::Stop));
    let draw = message("tsumo", vec![]);
    assert!(matches!(on_message(&draw), Ok(SessionStep::Receive)));
    assert!(matches!(after_message(&draw), SessionStep::Receive));
    assert!(on_message(&message("request_action", vec![])).is_err());
    let pass = engine_action(EngineType::Pass, None, vec![]);
    let text = pass.to_mjai();
    let encoded = engine_observation(vec![pass]).serialize_to_base64().unwrap();
    let asked = request(vec![json(&text)], &encoded);
    match on_message(&asked) {
        Ok(SessionStep::SendReply(reply)) => assert_eq!(reply, text),
        other => panic!("unexpected step: {other:?}"),
    }
    assert!(matches!(after_message(&asked), SessionStep::Receive));
}

#[test]
fn the_token_comes_from_the_argument_or_the_environment() {
    let some = |text: &str| Some(text.to_string());
    assert_eq!(load_token(some("a"), some("b")), Ok("a".to_string()));
    assert_eq!(load_token(some(""), some("b")), Ok("".to_string()));
    assert_eq!(load_token(None, some("b")), Ok("b".to_string()));
    assert_eq!(load_token(None, some("")), Err(TokenError::Empty));
    assert_eq!(load_token(None, None), Err(TokenError::Missing));
    assert_eq!(TokenError::Empty.to_string(), "RIICHILAB_BOT_TOKEN is empty");
    assert_eq!(
        TokenError::Missing.to_string(),
        "missing bot token: pass --token or set RIICHILAB_BOT_TOKEN"
    );
}

#[test]
fn the_address_is_the_given_one_or_that_of_the_queue() {
    assert_eq!(QueueKind::Validate.default_url(), "wss://game.riichi.dev/ws/validate");
    assert_eq!(QueueKind::Ranked.default_url(), "wss://game.riichi.dev/ws/ranked");
    assert_eq!(endpoint(None, QueueKind::Ranked), "wss://game.riichi.dev/ws/ranked");
    assert_eq!(endpoint(Some("ws://x".to_string()), QueueKind::Ranked), "ws://x");
    assert_eq!(authorization("abc"), "Bearer abc");
}

fn carry_out(logger: &mut GameLogger, commands: &[LogCommand]) {
    for command in commands {
        logger.announce(*command);
        logger.succeed(*command);
    }
}

#[test]
fn each_game_is_logged_to_its_own_file() {
    let mut logger = GameLogger::new();
    let record = LogCommand::WriteRecord(Direction::Incoming);
    assert!(logger.log_incoming(&message("tsumo", vec![])).is_empty());

    let commands = logger.log_incoming(&message("start_game", vec![]));
    assert_eq!(commands, vec![LogCommand::CreateDirectory, LogCommand::CreateFile, record]);
    carry_out(&mut logger, &commands);
    assert_eq!(logger, GameLogger { open: true, game_index: 1 });

    assert_eq!(logger.log_incoming(&message("tsumo", vec![])), vec![record]);
    let commands = logger.log_incoming(&message("start_game", vec![]));
    assert_eq!(
        commands,
        vec![
            LogCommand::CloseFile,
            LogCommand::CreateDirectory,
            LogCommand::CreateFile,
            record
        ]
    );
    carry_out(&mut logger, &commands);
    assert_eq!(logger, GameLogger { open: true, game_index: 2 });

    let commands = logger.log_incoming(&message("end_game", vec![]));
    assert_eq!(commands, vec![record, LogCommand::CloseFile]);
    carry_out(&mut logger, &commands);
    assert_eq!(logger, GameLogger { open: false, game_index: 2 });
    assert!(logger.log_incoming(&message("end_game", vec![])).is_empty());
}

#[test]
fn failures_leave_the_logger_without_a_file() {
    let mut logger = GameLogger { open: true, game_index: 6 };
    logger.announce(LogCommand::CloseFile);
    assert_eq!(logger, GameLogger { open: false, game_index: 6 });
    logger.announce(LogCommand::CreateFile);
    assert_eq!(logger, GameLogger { open: false, game_index: 7 });
    logger.announce(LogCommand::CreateDirectory);
    logger.succeed(LogCommand::CreateDirectory);
    assert_eq!(logger, GameLogger { open: false, game_index: 7 });
}

#[test]
fn closing_twice_closes_once() {
    let mut logger = GameLogger { open: true, game_index: 6 };
    assert_eq!(logger.close(), vec![LogCommand::CloseFile]);
    logger.announce(LogCommand::CloseFile);
    assert_eq!(logger, GameLogger { open: false, game_index: 6 });
    assert!(logger.close().is_empty());
    logger.succeed(LogCommand::CloseFile);
    assert_eq!(logger, GameLogger { open: false, game_index: 6 });
    assert!(logger.close().is_empty());
}

#[test]
fn replies_are_recorded_as_json() {
    let discard = engine_action(EngineType::Discard, Some(16), vec![]);
    let text = discard.to_mjai();
    let encoded = engine_observation(vec![discard]).serialize_to_base64().unwrap();
    let reply = handle_message(&request(vec![json(&text)], &encoded)).unwrap().unwrap();
    assert_eq!(reply, text);
    assert_eq!(reply_value(&reply).unwrap()["pai"].as_str(), Some("5mr"));
    assert!(reply_value("dahai").unwrap_err().is_syntax());
}

#[test]
fn replies_are_logged_while_a_file_is_open() {
    let open = GameLogger { open: true, game_index: 1 };
    let closed = GameLogger { open: false, game_index: 1 };
    let asked = request(vec![], "");
    assert_eq!(
        open.log_outgoing(&asked),
        Ok(vec![LogCommand::WriteRecord(Direction::Outgoing)])
    );
    assert_eq!(closed.log_outgoing(&asked), Ok(vec![]));
    assert_eq!(open.log_outgoing(&message("tsumo", vec![])), Ok(vec![]));
    assert_eq!(
        open.log_outgoing(&message("request_action", vec![])),
        Err(ProtocolError::MissingField("possible_actions"))
    );
    assert_eq!(Direction::Incoming.as_str(), "in");
    assert_eq!(Direction::Outgoing.as_str(), "out");
}

#[test]
fn log_files_are_named_by_time_and_number() {
    assert_eq!(log_file_name(1700000000, 3), "game-1700000000-0003.jsonl");
    assert_eq!(log_file_name(0, 12345), "game-0-12345.jsonl");
    assert_ne!(log_file_name(1, 11), log_file_name(11, 1));
}
