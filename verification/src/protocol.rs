//! Messages of the server.

use crate::json::{
    array_items, object_clone, object_fields, object_get, string_text, value_as_array, value_as_str,
};
use crate::text::{join, same_text};
use vstd::prelude::*;

verus! {

/// A message of the server: its type and the other fields.
#[derive(Debug, PartialEq)]
pub struct IncomingMessage {
    kind: String,
    payload: serde_json::Map<String, serde_json::Value>,
}

/// The contents of an [`IncomingMessage`].
pub struct IncomingMessageView {
    pub kind: Seq<char>,
    pub payload: Map<Seq<char>, serde_json::Value>,
}

impl View for IncomingMessage {
    type V = IncomingMessageView;

    closed spec fn view(&self) -> IncomingMessageView {
        IncomingMessageView { kind: self.kind@, payload: object_fields(self.payload) }
    }
}

impl Clone for IncomingMessage {
    fn clone(&self) -> (copy: Self)
        ensures
            copy@ == self@,
    {
        IncomingMessage { kind: self.kind.clone(), payload: object_clone(&self.payload) }
    }
}

impl IncomingMessageView {
    /// Whether the message announces a game.
    pub open spec fn starts_game(self) -> bool {
        self.kind == "start_game"@
    }

    /// Whether the message ends a game.
    pub open spec fn ends_game(self) -> bool {
        self.kind == "end_game"@
    }

    /// Whether the message reports the result of a validation.
    pub open spec fn reports_validation(self) -> bool {
        self.kind == "validation_result"@
    }
}

/// A request for an action: the actions to choose from, and the encoded observation.
#[derive(Debug, Clone, Copy, PartialEq)]
pub struct RequestAction<'a> {
    pub possible_actions: &'a [serde_json::Value],
    pub observation: &'a str,
}

/// The contents of a [`RequestAction`].
pub struct RequestActionView {
    pub possible_actions: Seq<serde_json::Value>,
    pub observation: Seq<char>,
}

impl<'a> View for RequestAction<'a> {
    type V = RequestActionView;

    open spec fn view(&self) -> RequestActionView {
        RequestActionView {
            possible_actions: self.possible_actions@,
            observation: self.observation@,
        }
    }
}

/// What is wrong with a request for an action.
#[derive(Debug, Clone, Copy, PartialEq, Eq)]
pub enum ProtocolError {
    /// A field is missing.
    MissingField(&'static str),
    /// A field holds a value of another type.
    InvalidFieldType(&'static str),
}

/// The contents of a [`ProtocolError`].
pub enum ProtocolErrorView {
    MissingField(Seq<char>),
    InvalidFieldType(Seq<char>),
}

impl View for ProtocolError {
    type V = ProtocolErrorView;

    open spec fn view(&self) -> ProtocolErrorView {
        match self {
            ProtocolError::MissingField(field) => ProtocolErrorView::MissingField(field@),
            ProtocolError::InvalidFieldType(field) => ProtocolErrorView::InvalidFieldType(field@),
        }
    }
}

impl ProtocolErrorView {
    /// The message of the error.
    pub open spec fn message(self) -> Seq<char> {
        match self {
            ProtocolErrorView::MissingField(field) => "missing field: "@ + field,
            ProtocolErrorView::InvalidFieldType(field) => "invalid field type: "@ + field,
        }
    }
}

impl ProtocolError {
    /// Writes the message of the error.
    pub fn to_string(&self) -> (text: String)
        ensures
            text@ == self@.message(),
    {
        match self {
            ProtocolError::MissingField(field) => join("missing field: ", field),
            ProtocolError::InvalidFieldType(field) => join("invalid field type: ", field),
        }
    }
}

/// What a message requests: nothing unless it is of the requesting type; then the actions in the
/// array `possible_actions` and the text `observation`. The first of these two fields that is
/// missing or of another type is the error.
pub open spec fn requested_action(message: IncomingMessageView) -> Result<
    Option<RequestActionView>,
    ProtocolErrorView,
> {
    let actions_field = "possible_actions"@;
    let observation_field = "observation"@;
    if message.kind != "request_action"@ {
        Ok(None)
    } else if !message.payload.contains_key(actions_field) {
        Err(ProtocolErrorView::MissingField(actions_field))
    } else {
        match array_items(message.payload[actions_field]) {
            None => Err(ProtocolErrorView::InvalidFieldType(actions_field)),
            Some(possible_actions) => if !message.payload.contains_key(observation_field) {
                Err(ProtocolErrorView::MissingField(observation_field))
            } else {
                match string_text(message.payload[observation_field]) {
                    None => Err(ProtocolErrorView::InvalidFieldType(observation_field)),
                    Some(observation) => Ok(
                        Some(RequestActionView { possible_actions, observation }),
                    ),
                }
            },
        }
    }
}

/// The contents of an optional request or of the error in its place.
pub open spec fn request_view(
    request: Result<Option<RequestAction<'_>>, ProtocolError>,
) -> Result<Option<RequestActionView>, ProtocolErrorView> {
    match request {
        Ok(Some(r)) => Ok(Some(r@)),
        Ok(None) => Ok(None),
        Err(e) => Err(e@),
    }
}

impl IncomingMessage {
    /// Makes a message of its type and its other fields.
    pub fn new(
        kind: String,
        payload: serde_json::Map<String, serde_json::Value>,
    ) -> (message: IncomingMessage)
        ensures
            message@ == (IncomingMessageView { kind: kind@, payload: object_fields(payload) }),
    {
        IncomingMessage { kind, payload }
    }

    /// Whether the message announces a game.
    pub fn is_start_game(&self) -> (yes: bool)
        ensures
            yes == (self@.kind == "start_game"@),
            yes == self@.starts_game(),
    {
        same_text(self.kind.as_str(), "start_game")
    }

    /// Whether the message ends a game.
    pub fn is_end_game(&self) -> (yes: bool)
        ensures
            yes == (self@.kind == "end_game"@),
            yes == self@.ends_game(),
    {
        same_text(self.kind.as_str(), "end_game")
    }

    /// Whether the message reports the result of a validation.
    pub fn is_validation_result(&self) -> (yes: bool)
        ensures
            yes == (self@.kind == "validation_result"@),
            yes == self@.reports_validation(),
    {
        same_text(self.kind.as_str(), "validation_result")
    }

    /// What the message requests.
    pub fn request_action(&self) -> (request: Result<Option<RequestAction<'_>>, ProtocolError>)
        ensures
            request_view(request) == requested_action(self@),
    {
        if !same_text(self.kind.as_str(), "request_action") {
            return Ok(None);
        }
        let possible_actions = match object_get(&self.payload, "possible_actions") {
            None => return Err(ProtocolError::MissingField("possible_actions")),
            Some(value) => match value_as_array(value) {
                None => return Err(ProtocolError::InvalidFieldType("possible_actions")),
                Some(items) => items.as_slice(),
            },
        };
        let observation = match object_get(&self.payload, "observation") {
            None => return Err(ProtocolError::MissingField("observation")),
            Some(value) => match value_as_str(value) {
                None => return Err(ProtocolError::InvalidFieldType("observation")),
                Some(text) => text,
            },
        };
        Ok(Some(RequestAction { possible_actions, observation }))
    }
}

/// A message is of one type at most: one that starts a game neither ends it, nor reports a
/// validation, nor requests an action, and so on.
pub proof fn law_message_types_exclude_each_other(message: IncomingMessageView)
    ensures
        message.kind == "start_game"@ ==> message.kind != "end_game"@ && message.kind
            != "validation_result"@ && requested_action(message) == Ok::<
            Option<RequestActionView>,
            ProtocolErrorView,
        >(None),
        message.kind == "end_game"@ ==> message.kind != "validation_result"@ && requested_action(
            message,
        ) == Ok::<Option<RequestActionView>, ProtocolErrorView>(None),
        message.kind == "validation_result"@ ==> requested_action(message) == Ok::<
            Option<RequestActionView>,
            ProtocolErrorView,
        >(None),
{
    reveal_strlit("start_game");
    reveal_strlit("end_game");
    reveal_strlit("validation_result");
    reveal_strlit("request_action");
    assert("start_game"@.len() == 10);
    assert("end_game"@.len() == 8);
    assert("validation_result"@.len() == 17);
    assert("request_action"@.len() == 14);
}

/// What makes a request: a message of another type requests nothing. One of the type
/// `request_action` lacks the field `possible_actions`, holds no array in it, lacks the field
/// `observation` or holds no string in it, in this order, or else requests just what the two fields
/// hold.
pub proof fn law_fields_of_a_request(message: IncomingMessageView)
    ensures
        message.kind != "request_action"@ ==> requested_action(message) == Ok::<
            Option<RequestActionView>,
            ProtocolErrorView,
        >(None),
        message.kind == "request_action"@ && !message.payload.contains_key("possible_actions"@)
            ==> requested_action(message) == Err::<Option<RequestActionView>, ProtocolErrorView>(
            ProtocolErrorView::MissingField("possible_actions"@),
        ),
        message.kind == "request_action"@ && message.payload.contains_key("possible_actions"@)
            && array_items(message.payload["possible_actions"@]) is None ==> requested_action(
            message,
        ) == Err::<Option<RequestActionView>, ProtocolErrorView>(
            ProtocolErrorView::InvalidFieldType("possible_actions"@),
        ),
        message.kind == "request_action"@ && message.payload.contains_key("possible_actions"@)
            && array_items(message.payload["possible_actions"@]) is Some
            && !message.payload.contains_key("observation"@) ==> requested_action(message) == Err::<
            Option<RequestActionView>,
            ProtocolErrorView,
        >(ProtocolErrorView::MissingField("observation"@)),
        message.kind == "request_action"@ && message.payload.contains_key("possible_actions"@)
            && array_items(message.payload["possible_actions"@]) is Some
            && message.payload.contains_key("observation"@) && string_text(
            message.payload["observation"@],
        ) is None ==> requested_action(message) == Err::<
            Option<RequestActionView>,
            ProtocolErrorView,
        >(ProtocolErrorView::InvalidFieldType("observation"@)),
        message.kind == "request_action"@ && message.payload.contains_key("possible_actions"@)
            && message.payload.contains_key("observation"@) ==> match (
            array_items(message.payload["possible_actions"@]),
            string_text(message.payload["observation"@]),
        ) {
            (Some(possible_actions), Some(observation)) => {
                &&& requested_action(message) matches Ok(Some(request))
                &&& request.possible_actions == possible_actions
                &&& request.observation == observation
            },
            _ => requested_action(message) is Err,
        },
{
}

/// What a message requests depends on its type and on the two fields of a request alone.
pub proof fn law_other_fields_do_not_matter(
    message: IncomingMessageView,
    field: Seq<char>,
    value: serde_json::Value,
)
    requires
        field != "possible_actions"@,
        field != "observation"@,
    ensures
        requested_action(
            IncomingMessageView { payload: message.payload.insert(field, value), ..message },
        ) == requested_action(message),
{
}

/// The messages of the errors name what is wrong and the field.
pub proof fn law_request_error_messages(field: Seq<char>)
    ensures
        ProtocolErrorView::MissingField(field).message() == "missing field: "@ + field,
        ProtocolErrorView::InvalidFieldType(field).message() == "invalid field type: "@ + field,
{
}

/// The type alone tells what a message announces, ends or reports: two messages of one type agree in
/// it, and only the types `start_game`, `end_game` and `validation_result` do any of these.
pub proof fn law_type_tells_what_a_message_does(
    message: IncomingMessageView,
    other: IncomingMessageView,
)
    ensures
        message.kind == other.kind ==> message.starts_game() == other.starts_game()
            && message.ends_game() == other.ends_game() && message.reports_validation()
            == other.reports_validation(),
        message.starts_game() <==> message.kind == "start_game"@,
        message.ends_game() <==> message.kind == "end_game"@,
        message.reports_validation() <==> message.kind == "validation_result"@,
{
}

} // verus!
