use riichilab_agent::agent::read_frame;
use riichilab_agent::mjai::{Action, Event, ExtraFields, Seat, Suit, Tile};
use riichilab_agent::protocol::{IncomingMessage, ProtocolError};
use serde_json::Value;

fn read(text: &str) -> IncomingMessage {
    let mut payload: serde_json::Map<String, Value> = serde_json::from_str(text).unwrap();
    let kind = payload.remove("type").unwrap();
    IncomingMessage::new(kind.as_str().unwrap().to_string(), payload)
}

fn read_action(value: &Value) -> Action {
    match value["type"].as_str().unwrap() {
        "dahai" => Action::Dahai {
            actor: Seat::new(value["actor"].as_u64().unwrap() as u8).unwrap(),
            pai: Tile::from_str(value["pai"].as_str().unwrap()).unwrap(),
            tsumogiri: value["tsumogiri"].as_bool().unwrap_or(false),
        },
        "none" => Action::Pass,
        other => panic!("unexpected action: {other}"),
    }
}

#[test]
fn parses_request_action() {
    let message = read(
        r#"{
            "type": "request_action",
            "possible_actions": [
                {"type":"none"},
                {"type":"dahai","actor":0,"pai":"3m","tsumogiri":true}
            ],
            "observation": "ZmFrZQ=="
        }"#,
    );

    let request = message.request_action().unwrap().unwrap();
    assert_eq!(request.observation, "ZmFrZQ==");
    assert_eq!(request.possible_actions.len(), 2);
    assert_eq!(request.possible_actions[1]["pai"].as_str(), Some("3m"));
}

#[test]
fn identifies_boundary_events() {
    let start = read(r#"{"type":"start_game","id":0}"#);
    let end = read(r#"{"type":"end_game","scores":[25000,25000,25000,25000]}"#);

    assert!(start.is_start_game());
    assert!(end.is_end_game());
    assert!(!start.is_end_game());
    assert!(!end.is_start_game());
    assert!(!start.is_validation_result());
}

#[test]
fn request_action_deserializes() {
    let json = r#"{
        "type": "request_action",
        "possible_actions": [
            {"type":"dahai","actor":0,"pai":"3m","tsumogiri":true},
            {"type":"none"}
        ],
        "observation": "ZmFrZQ=="
    }"#;

    let message = read(json);
    let request = message.request_action().unwrap().unwrap();
    let known = ["type", "possible_actions", "observation"];
    let extra: ExtraFields = read_frame(json)
        .unwrap()
        .as_object()
        .unwrap()
        .iter()
        .filter(|(name, _)| !known.contains(&name.as_str()))
        .map(|(name, value)| (name.clone(), value.clone()))
        .collect();
    let event = Event::RequestAction {
        possible_actions: request.possible_actions.iter().map(read_action).collect(),
        observation: request.observation.to_string(),
        extra,
    };
    match event {
        Event::RequestAction { possible_actions, observation, extra } => {
            assert_eq!(possible_actions.len(), 2);
            assert_eq!(observation, "ZmFrZQ==");
            assert!(extra.is_empty());
            assert_eq!(
                possible_actions[0],
                Action::Dahai {
                    actor: Seat::new(0).unwrap(),
                    pai: Tile::Suited { suit: Suit::Man, rank: 3, red: false },
                    tsumogiri: true,
                }
            );
            assert_eq!(possible_actions[1], Action::Pass);
        }
        other => panic!("unexpected event: {other:?}"),
    }
}

#[test]
fn frames_are_read_as_json() {
    let value = read_frame(r#" {"type":"tsumo","actor":[1,2.5]} "#).unwrap();
    assert_eq!(value["type"].as_str(), Some("tsumo"));
    assert_eq!(value["actor"][0].as_u64(), Some(1));
    let error = read_frame("{\"type\": tsumo}").unwrap_err();
    assert_eq!(error.message, "invalid json frame: {\"type\": tsumo}");
    assert!(error.cause.is_syntax());
    assert_eq!((error.cause.line(), error.cause.column()), (1, 11));
    assert_eq!(read_frame("").unwrap_err().message, "invalid json frame: ");
}

#[test]
fn messages_can_be_copied() {
    let message = read(r#"{"type":"request_action","possible_actions":[1],"observation":"a"}"#);
    let copy = message.clone();
    assert_eq!(copy, message);
    let request = copy.request_action().unwrap().unwrap();
    assert_eq!(request.observation, "a");
    assert_eq!(request.possible_actions.len(), 1);
}

#[test]
fn other_messages_request_nothing() {
    let message = read(r#"{"type":"tsumo","actor":0,"pai":"?","possible_actions":3}"#);
    assert_eq!(message.request_action(), Ok(None));
    assert!(read(r#"{"type":"validation_result","passed":true}"#).is_validation_result());
}

#[test]
fn malformed_requests_are_refused() {
    let cases = [
        (r#"{"type":"request_action"}"#, ProtocolError::MissingField("possible_actions")),
        (
            r#"{"type":"request_action","observation":"a"}"#,
            ProtocolError::MissingField("possible_actions"),
        ),
        (
            r#"{"type":"request_action","possible_actions":{}}"#,
            ProtocolError::InvalidFieldType("possible_actions"),
        ),
        (
            r#"{"type":"request_action","possible_actions":[]}"#,
            ProtocolError::MissingField("observation"),
        ),
        (
            r#"{"type":"request_action","possible_actions":[],"observation":["a"]}"#,
            ProtocolError::InvalidFieldType("observation"),
        ),
    ];
    for (text, error) in cases {
        assert_eq!(read(text).request_action(), Err(error));
    }
    assert_eq!(
        ProtocolError::MissingField("observation").to_string(),
        "missing field: observation"
    );
    assert_eq!(
        ProtocolError::InvalidFieldType("possible_actions").to_string(),
        "invalid field type: possible_actions"
    );
}
