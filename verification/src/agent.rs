//! The agent's side of a session with the server: where to connect, what to do with each frame,
//! and how to answer a request.

use crate::engine::{
    decode_base64, decoded_observation, mjai_text, write_mjai, ActionView, Observation,
    ObservationView,
};
use crate::json::{json_reading, parse_value, parsed_json, same_value};
use crate::protocol::{
    law_message_types_exclude_each_other, requested_action, IncomingMessage, IncomingMessageView,
    ProtocolError, ProtocolErrorView, RequestActionView,
};
use crate::selection::{
    law_temporary_choice_is_possible, select_temporary_action, temporary_choice,
};
use crate::text::join;
use vstd::prelude::*;

verus! {

/// The address of the validation queue.
pub const VALIDATE_ENDPOINT: &'static str = "wss://game.riichi.dev/ws/validate";

/// The address of the ranked queue.
pub const RANKED_ENDPOINT: &'static str = "wss://game.riichi.dev/ws/ranked";

/// The environment variable that holds the bot token.
pub const TOKEN_ENV: &'static str = "RIICHILAB_BOT_TOKEN";

/// The queue that the agent plays in.
#[derive(Debug, Clone, Copy, PartialEq, Eq, Structural)]
pub enum QueueKind {
    Validate,
    Ranked,
}

impl QueueKind {
    /// The address of the queue.
    pub open spec fn url(self) -> Seq<char> {
        match self {
            QueueKind::Validate => "wss://game.riichi.dev/ws/validate"@,
            QueueKind::Ranked => "wss://game.riichi.dev/ws/ranked"@,
        }
    }

    /// The address of the queue.
    pub fn default_url(self) -> (url: &'static str)
        ensures
            url@ == self.url(),
    {
        match self {
            QueueKind::Validate => VALIDATE_ENDPOINT,
            QueueKind::Ranked => RANKED_ENDPOINT,
        }
    }
}

/// Chooses the address to connect to: the given one, or else that of the queue.
pub fn endpoint(url: Option<String>, queue: QueueKind) -> (address: String)
    ensures
        address@ == match url {
            Some(given) => given@,
            None => queue.url(),
        },
{
    match url {
        Some(given) => given,
        None => queue.default_url().to_owned(),
    }
}

/// Writes the value of the authorization header.
pub fn authorization(token: &str) -> (header: String)
    ensures
        header@ == "Bearer "@ + token@,
{
    join("Bearer ", token)
}

/// Why there is no bot token.
#[derive(Debug, Clone, Copy, PartialEq, Eq, Structural)]
pub enum TokenError {
    /// The environment variable is empty.
    Empty,
    /// No token was given, and the environment variable is not set.
    Missing,
}

impl TokenError {
    /// The message of the error.
    pub open spec fn message(self) -> Seq<char> {
        match self {
            TokenError::Empty => "RIICHILAB_BOT_TOKEN is empty"@,
            TokenError::Missing =>
                "missing bot token: pass --token or set RIICHILAB_BOT_TOKEN"@,
        }
    }

    /// Writes the message of the error.
    pub fn to_string(&self) -> (text: String)
        ensures
            text@ == self.message(),
    {
        match self {
            TokenError::Empty => "RIICHILAB_BOT_TOKEN is empty".to_owned(),
            TokenError::Missing =>
                "missing bot token: pass --token or set RIICHILAB_BOT_TOKEN".to_owned(),
        }
    }
}

/// The contents of an optional text.
pub open spec fn text_view(text: Option<String>) -> Option<Seq<char>> {
    match text {
        Some(t) => Some(t@),
        None => None,
    }
}

/// The contents of a token, or the error in its place.
pub open spec fn token_view(token: Result<String, TokenError>) -> Result<Seq<char>, TokenError> {
    match token {
        Ok(t) => Ok(t@),
        Err(e) => Err(e),
    }
}

/// The bot token: the given one, or else the value of the environment variable unless it is empty.
pub open spec fn chosen_token(given: Option<Seq<char>>, environment: Option<Seq<char>>) -> Result<
    Seq<char>,
    TokenError,
> {
    match given {
        Some(token) => Ok(token),
        None => match environment {
            Some(value) => if value.len() > 0 {
                Ok(value)
            } else {
                Err(TokenError::Empty)
            },
            None => Err(TokenError::Missing),
        },
    }
}

/// Chooses the bot token: the given one, even if it is empty, or else the value of the environment
/// variable, which must not be empty.
pub fn load_token(token_arg: Option<String>, environment: Option<String>) -> (token: Result<
    String,
    TokenError,
>)
    ensures
        token_view(token) == chosen_token(text_view(token_arg), text_view(environment)),
        token_arg matches Some(given) ==> token == Ok::<String, TokenError>(given),
        token_arg is None ==> match environment {
            Some(value) => if value@.len() > 0 {
                token == Ok::<String, TokenError>(value)
            } else {
                token == Err::<String, TokenError>(TokenError::Empty)
            },
            None => token == Err::<String, TokenError>(TokenError::Missing),
        },
{
    if let Some(given) = token_arg {
        return Ok(given);
    }
    match environment {
        Some(value) => if value.as_str().is_empty() {
            Err(TokenError::Empty)
        } else {
            Ok(value)
        },
        None => Err(TokenError::Missing),
    }
}

/// A kind of frame that arrives from the server.
#[derive(Debug, Clone, Copy, PartialEq, Eq, Structural)]
pub enum FrameKind {
    Text,
    Binary,
    Ping,
    Pong,
    Close,
    Raw,
}

/// Why a text frame could not be read: a message that repeats the text, and the error of the JSON
/// reader.
#[derive(Debug)]
pub struct FrameError {
    pub message: String,
    pub cause: serde_json::Error,
}

/// Reads the JSON value in a text frame.
pub fn read_frame(text: &str) -> (value: Result<serde_json::Value, FrameError>)
    ensures
        value matches Ok(v) ==> parsed_json(text@) == Some(v),
        value matches Err(e) ==> {
            &&& parsed_json(text@) is None
            &&& e.message@ == "invalid json frame: "@ + text@
            &&& json_reading(text@) == Err::<serde_json::Value, serde_json::Error>(e.cause)
        },
{
    match parse_value(text) {
        Ok(value) => Ok(value),
        Err(cause) => Err(FrameError { message: join("invalid json frame: ", text), cause }),
    }
}

/// Why a message could not be answered.
#[derive(Debug)]
pub enum AgentError {
    /// The request is malformed.
    Protocol(ProtocolError),
    /// The observation in the request cannot be decoded.
    Observation(riichienv_core::errors::RiichiError),
    /// The observation lists no legal action.
    NoLegalActions,
    /// The selected action, given in mjai, is not one of the possible actions of the request.
    NotPossible(String),
}

/// What becomes of a message.
pub enum Outcome {
    /// It asks for no answer.
    NoReply,
    /// It is answered with a text.
    Reply(Seq<char>),
    /// It is malformed.
    Protocol(ProtocolErrorView),
    /// Its observation cannot be decoded.
    Observation(riichienv_core::errors::RiichiError),
    /// Its observation lists no legal action.
    NoLegalActions,
    /// The selected action is not one of its possible actions.
    NotPossible(Seq<char>),
}

/// The outcome that a reply, or the error in its place, stands for.
pub open spec fn outcome_of(reply: Result<Option<String>, AgentError>) -> Outcome {
    match reply {
        Ok(None) => Outcome::NoReply,
        Ok(Some(text)) => Outcome::Reply(text@),
        Err(error) => error.outcome(),
    }
}

impl AgentError {
    /// The outcome that the error stands for.
    pub open spec fn outcome(self) -> Outcome {
        match self {
            AgentError::Protocol(error) => Outcome::Protocol(error@),
            AgentError::Observation(error) => Outcome::Observation(error),
            AgentError::NoLegalActions => Outcome::NoLegalActions,
            AgentError::NotPossible(text) => Outcome::NotPossible(text@),
        }
    }

    /// The message of the error.
    pub open spec fn message(self) -> Seq<char> {
        match self {
            AgentError::Protocol(error) => error@.message(),
            AgentError::Observation(_) => "failed to decode 4-player observation"@,
            AgentError::NoLegalActions => "request_action contained no legal actions"@,
            AgentError::NotPossible(text) =>
                "selected action not present in request_action.possible_actions: "@ + text@,
        }
    }

    /// Writes the message of the error.
    pub fn to_string(&self) -> (text: String)
        ensures
            text@ == self.message(),
    {
        match self {
            AgentError::Protocol(error) => error.to_string(),
            AgentError::Observation(_) => "failed to decode 4-player observation".to_owned(),
            AgentError::NoLegalActions => "request_action contained no legal actions".to_owned(),
            AgentError::NotPossible(text) => join(
                "selected action not present in request_action.possible_actions: ",
                text.as_str(),
            ),
        }
    }
}

/// Decodes the observation in a request. The error hands on the engine's own.
pub fn decode_observation(encoded: &str) -> (observation: Result<Observation, AgentError>)
    ensures
        observation matches Ok(o) ==> decoded_observation(encoded@) == Ok::<
            ObservationView,
            riichienv_core::errors::RiichiError,
        >(o@),
        observation matches Err(e) ==> {
            &&& e matches AgentError::Observation(cause)
            &&& decoded_observation(encoded@) == Err::<
                ObservationView,
                riichienv_core::errors::RiichiError,
            >(cause)
        },
{
    match decode_base64(encoded) {
        Ok(observation) => Ok(observation),
        Err(error) => Err(AgentError::Observation(error)),
    }
}

/// The outcome once an action is selected and written in mjai: the text is the reply if the value
/// that it denotes is among the possible actions.
pub open spec fn outcome_of_selection(
    possible_actions: Seq<serde_json::Value>,
    text: Seq<char>,
    value: serde_json::Value,
) -> Outcome {
    if possible_actions.contains(value) {
        Outcome::Reply(text)
    } else {
        Outcome::NotPossible(text)
    }
}

/// Replies with an action written in mjai if the value that it denotes is among the possible
/// actions.
pub fn confirm_selection(
    possible_actions: &[serde_json::Value],
    text: String,
    value: &serde_json::Value,
) -> (reply: Result<Option<String>, AgentError>)
    ensures
        outcome_of(reply) == outcome_of_selection(possible_actions@, text@, *value),
{
    let mut i: usize = 0;
    while i < possible_actions.len()
        invariant
            i <= possible_actions@.len(),
            forall|j: int| 0 <= j < i ==> #[trigger] possible_actions@[j] != *value,
        decreases possible_actions.len() - i,
    {
        if same_value(&possible_actions[i], value) {
            assert(possible_actions@[i as int] == *value);
            return Ok(Some(text));
        }
        i = i + 1;
    }
    Err(AgentError::NotPossible(text))
}

/// The outcome once the observation is decoded: it rests on the action selected among the legal
/// actions.
pub open spec fn outcome_of_observation(
    possible_actions: Seq<serde_json::Value>,
    observation: ObservationView,
) -> Outcome {
    match temporary_choice(observation.legal_actions) {
        None => Outcome::NoLegalActions,
        Some(action) => match parsed_json(mjai_text(action)) {
            Some(value) => outcome_of_selection(possible_actions, mjai_text(action), value),
            None => Outcome::NotPossible(mjai_text(action)),
        },
    }
}

/// Selects a legal action of an observation and replies with it if it is a possible action.
pub fn answer_observation(
    possible_actions: &[serde_json::Value],
    observation: &Observation,
) -> (reply: Result<Option<String>, AgentError>)
    ensures
        outcome_of(reply) == outcome_of_observation(possible_actions@, observation@),
        reply matches Ok(Some(text)) ==> parsed_json(text@) is Some,
{
    match select_temporary_action(observation.legal_actions.as_slice()) {
        None => Err(AgentError::NoLegalActions),
        Some(action) => {
            let text = write_mjai(&action);
            let value = parse_value(text.as_str()).expect("action mjai must be valid json");
            confirm_selection(possible_actions, text, &value)
        },
    }
}

/// What becomes of a message.
pub open spec fn outcome_of_message(message: IncomingMessageView) -> Outcome {
    match requested_action(message) {
        Err(error) => Outcome::Protocol(error),
        Ok(None) => Outcome::NoReply,
        Ok(Some(request)) => match decoded_observation(request.observation) {
            Err(error) => Outcome::Observation(error),
            Ok(observation) => outcome_of_observation(request.possible_actions, observation),
        },
    }
}

/// Answers a message: a request for an action with one of its possible actions, any other message
/// not at all.
pub fn handle_message(message: &IncomingMessage) -> (reply: Result<Option<String>, AgentError>)
    ensures
        outcome_of(reply) == outcome_of_message(message@),
        reply matches Ok(Some(text)) ==> parsed_json(text@) is Some,
{
    let request = match message.request_action() {
        Err(error) => return Err(AgentError::Protocol(error)),
        Ok(None) => return Ok(None),
        Ok(Some(request)) => request,
    };
    match decode_observation(request.observation) {
        Err(error) => Err(error),
        Ok(observation) => answer_observation(request.possible_actions, &observation),
    }
}

/// A reply is the mjai text of a legal action of the observation in the request. It is JSON, and
/// what it denotes is one of the possible actions of the request.
pub proof fn law_reply_is_legal_and_possible(message: IncomingMessageView)
    ensures
        outcome_of_message(message) matches Outcome::Reply(text) ==> {
            &&& requested_action(message) matches Ok(Some(request))
            &&& decoded_observation(request.observation) matches Ok(observation)
            &&& exists|action: ActionView| #[trigger]
                observation.legal_actions.contains(action) && mjai_text(action) == text
            &&& parsed_json(text) matches Some(value)
            &&& request.possible_actions.contains(value)
        },
{
    if let Ok(Some(request)) = requested_action(message) {
        if let Ok(observation) = decoded_observation(request.observation) {
            law_temporary_choice_is_possible(observation.legal_actions);
        }
    }
}

/// Exactly the messages of another type than a request are left without a reply and without an
/// error.
pub proof fn law_only_requests_are_answered(message: IncomingMessageView)
    ensures
        outcome_of_message(message) is NoReply <==> message.kind != "request_action"@,
{
}

/// A request with an empty list of possible actions is never replied to.
pub proof fn law_nothing_possible_is_refused(message: IncomingMessageView)
    ensures
        requested_action(message) matches Ok(Some(request)) && request.possible_actions.len() == 0
            ==> !(outcome_of_message(message) is Reply),
{
}

/// What the agent does next in a session.
#[derive(Debug)]
pub enum SessionStep {
    /// Wait for a frame.
    Receive,
    /// Read the message in a text frame and log it.
    Read,
    /// Send the payload of a frame back.
    SendPong,
    /// Log a reply and send it.
    SendReply(String),
    /// End the session.
    Stop,
}

/// What follows a frame, or the end of the stream of frames.
pub open spec fn step_after_frame(frame: Option<FrameKind>) -> SessionStep {
    match frame {
        None | Some(FrameKind::Close) => SessionStep::Stop,
        Some(FrameKind::Text) => SessionStep::Read,
        Some(FrameKind::Ping) => SessionStep::SendPong,
        Some(FrameKind::Binary) | Some(FrameKind::Pong) | Some(FrameKind::Raw) =>
            SessionStep::Receive,
    }
}

/// Decides what follows a frame, or the end of the stream of frames.
pub fn on_frame(frame: Option<FrameKind>) -> (step: SessionStep)
    ensures
        step == step_after_frame(frame),
        step == match frame {
            None | Some(FrameKind::Close) => SessionStep::Stop,
            Some(FrameKind::Text) => SessionStep::Read,
            Some(FrameKind::Ping) => SessionStep::SendPong,
            Some(FrameKind::Binary) | Some(FrameKind::Pong) | Some(FrameKind::Raw) =>
                SessionStep::Receive,
        },
{
    match frame {
        None => SessionStep::Stop,
        Some(kind) => match kind {
            FrameKind::Text => SessionStep::Read,
            FrameKind::Close => SessionStep::Stop,
            FrameKind::Ping => SessionStep::SendPong,
            FrameKind::Binary | FrameKind::Pong | FrameKind::Raw => SessionStep::Receive,
        },
    }
}

/// What follows a message that is settled: the result of a validation ends the session.
pub open spec fn step_after_message(message: IncomingMessageView) -> SessionStep {
    if message.kind == "validation_result"@ {
        SessionStep::Stop
    } else {
        SessionStep::Receive
    }
}

/// Decides what follows a message that is settled, which has no reply or whose reply has been sent:
/// the result of a validation ends the session.
pub fn after_message(message: &IncomingMessage) -> (step: SessionStep)
    ensures
        step == step_after_message(message@),
        step == if message@.kind == "validation_result"@ {
            SessionStep::Stop
        } else {
            SessionStep::Receive
        },
{
    if message.is_validation_result() {
        SessionStep::Stop
    } else {
        SessionStep::Receive
    }
}

/// Decides what follows a message that has been read and logged: its reply, if it has one.
pub fn on_message(message: &IncomingMessage) -> (step: Result<SessionStep, AgentError>)
    ensures
        match step {
            Ok(SessionStep::SendReply(text)) => {
                &&& outcome_of_message(message@) == Outcome::Reply(text@)
                &&& parsed_json(text@) is Some
            },
            Ok(other) => {
                &&& outcome_of_message(message@) is NoReply
                &&& other == step_after_message(message@)
                &&& other == if message@.kind == "validation_result"@ {
                    SessionStep::Stop
                } else {
                    SessionStep::Receive
                }
            },
            Err(error) => outcome_of_message(message@) == error.outcome(),
        },
{
    match handle_message(message) {
        Err(error) => Err(error),
        Ok(Some(reply)) => Ok(SessionStep::SendReply(reply)),
        Ok(None) => Ok(after_message(message)),
    }
}

/// A message that is replied to does not end the session.
pub proof fn law_reply_never_ends_the_session(message: IncomingMessageView)
    ensures
        outcome_of_message(message) is Reply ==> message.kind != "validation_result"@,
{
    law_message_types_exclude_each_other(message);
}

/// The addresses of the queues.
pub proof fn law_queue_addresses()
    ensures
        QueueKind::Validate.url() == "wss://game.riichi.dev/ws/validate"@,
        QueueKind::Ranked.url() == "wss://game.riichi.dev/ws/ranked"@,
{
}

/// The messages of the errors about the token.
pub proof fn law_token_error_messages()
    ensures
        TokenError::Empty.message() == "RIICHILAB_BOT_TOKEN is empty"@,
        TokenError::Missing.message()
            == "missing bot token: pass --token or set RIICHILAB_BOT_TOKEN"@,
{
}

/// Each error stands for the outcome of its name and has its own message.
pub proof fn law_errors_and_their_outcomes(
    error: ProtocolError,
    cause: riichienv_core::errors::RiichiError,
    text: String,
)
    ensures
        AgentError::Protocol(error).outcome() == Outcome::Protocol(error@),
        AgentError::Protocol(error).message() == error@.message(),
        AgentError::Observation(cause).outcome() == Outcome::Observation(cause),
        AgentError::Observation(cause).message() == "failed to decode 4-player observation"@,
        AgentError::NoLegalActions.outcome() == Outcome::NoLegalActions,
        AgentError::NoLegalActions.message() == "request_action contained no legal actions"@,
        AgentError::NotPossible(text).outcome() == Outcome::NotPossible(text@),
        AgentError::NotPossible(text).message()
            == "selected action not present in request_action.possible_actions: "@ + text@,
{
}

/// A reply stands for its text, no reply for none, and an error for its outcome.
pub proof fn law_replies_and_their_outcomes(text: String, error: AgentError)
    ensures
        outcome_of(Ok(None)) == Outcome::NoReply,
        outcome_of(Ok(Some(text))) == Outcome::Reply(text@),
        outcome_of(Err(error)) == error.outcome(),
{
}

/// A malformed request is refused with its error; one whose observation cannot be decoded with the
/// engine's error; and one without legal actions for that reason.
pub proof fn law_what_is_refused(message: IncomingMessageView)
    ensures
        requested_action(message) matches Err(error) ==> outcome_of_message(message)
            == Outcome::Protocol(error),
        requested_action(message) matches Ok(Some(request)) ==> match decoded_observation(
            request.observation,
        ) {
            Err(error) => outcome_of_message(message) == Outcome::Observation(error),
            Ok(observation) => outcome_of_message(message) == Outcome::NoLegalActions
                <==> observation.legal_actions.len() == 0,
        },
{
    if let Ok(Some(request)) = requested_action(message) {
        if let Ok(observation) = decoded_observation(request.observation) {
            law_temporary_choice_is_possible(observation.legal_actions);
        }
    }
}

/// The selected legal action settles a request, and no other is put in its place: its mjai text is
/// the reply if it is JSON that denotes one of the possible actions, and is refused otherwise.
pub proof fn law_selected_action_settles_the_request(
    message: IncomingMessageView,
    request: RequestActionView,
    observation: ObservationView,
    action: ActionView,
)
    requires
        requested_action(message) == Ok::<Option<RequestActionView>, ProtocolErrorView>(
            Some(request),
        ),
        decoded_observation(request.observation) == Ok::<
            ObservationView,
            riichienv_core::errors::RiichiError,
        >(observation),
        temporary_choice(observation.legal_actions) == Some(action),
    ensures
        (exists|i: int|
            0 <= i < request.possible_actions.len() && parsed_json(mjai_text(action)) == Some(
                #[trigger] request.possible_actions[i],
            )) ==> outcome_of_message(message) == Outcome::Reply(mjai_text(action)),
        (forall|i: int|
            0 <= i < request.possible_actions.len() ==> parsed_json(mjai_text(action)) != Some(
                #[trigger] request.possible_actions[i],
            )) ==> outcome_of_message(message) == Outcome::NotPossible(mjai_text(action)),
{
}

/// A given token is taken whatever the environment holds; without one the environment decides, and
/// only an empty value or none is refused.
pub proof fn law_given_token_comes_first(
    given: Seq<char>,
    environment: Option<Seq<char>>,
    value: Seq<char>,
)
    ensures
        chosen_token(Some(given), environment) == Ok::<Seq<char>, TokenError>(given),
        chosen_token(None, Some(value)) == Ok::<Seq<char>, TokenError>(value) <==> value
            != Seq::<char>::empty(),
        chosen_token(None, Some(Seq::empty())) == Err::<Seq<char>, TokenError>(TokenError::Empty),
        chosen_token(None, None) == Err::<Seq<char>, TokenError>(TokenError::Missing),
{
    if value.len() == 0 {
        assert(value =~= Seq::<char>::empty());
    }
}

/// The session ends with the stream of frames, with a closing frame or with the result of a
/// validation, and with nothing else; only a text frame is read, and only a ping is sent back.
pub proof fn law_what_ends_the_session(frame: Option<FrameKind>, message: IncomingMessageView)
    ensures
        step_after_frame(frame) is Stop <==> frame is None || frame == Some(FrameKind::Close),
        step_after_frame(frame) is Read <==> frame == Some(FrameKind::Text),
        step_after_frame(frame) is SendPong <==> frame == Some(FrameKind::Ping),
        !(step_after_frame(frame) is SendReply),
        step_after_message(message) is Stop <==> message.kind == "validation_result"@,
        step_after_message(message) is Receive <==> message.kind != "validation_result"@,
{
}

} // verus!
