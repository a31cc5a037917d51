//! The log of the games: one file per game, one record per message.
//!
//! [`GameLogger`] decides what is to be done; the caller does it. It announces each command to the
//! logger before carrying it out, and reports it when it has succeeded.

use crate::json::{json_reading, parse_value, parsed_json};
use crate::protocol::{
    requested_action, IncomingMessage, IncomingMessageView, ProtocolError, ProtocolErrorView,
};
use crate::text::{
    decimal, decimal_text, lemma_decimal, lemma_padded_decimal, padded_decimal,
    padded_decimal_text,
};
use vstd::prelude::*;
use vstd::string::*;

verus! {

/// Where a logged message goes.
#[derive(Debug, Clone, Copy, PartialEq, Eq, Structural)]
pub enum Direction {
    Incoming,
    Outgoing,
}

impl Direction {
    /// The name of the direction in a record.
    pub open spec fn name(self) -> Seq<char> {
        match self {
            Direction::Incoming => "in"@,
            Direction::Outgoing => "out"@,
        }
    }

    /// Writes the name of the direction in a record.
    pub fn as_str(self) -> (text: &'static str)
        ensures
            text@ == self.name(),
    {
        match self {
            Direction::Incoming => "in",
            Direction::Outgoing => "out",
        }
    }
}

/// What the caller is to do.
#[derive(Debug, Clone, Copy, PartialEq, Eq, Structural)]
pub enum LogCommand {
    /// Flush and close the open file.
    CloseFile,
    /// Create the directory of the log, if it does not exist.
    CreateDirectory,
    /// Create the file of the next game and keep it open.
    CreateFile,
    /// Append a record to the open file.
    WriteRecord(Direction),
}

/// Keeps track of whether a file is open, and of how many games have been given one.
#[derive(Debug, PartialEq, Eq, Structural)]
pub struct GameLogger {
    pub open: bool,
    pub game_index: u64,
}

/// The commands that close the file, if one is open.
pub open spec fn closing_commands(open: bool) -> Seq<LogCommand> {
    if open {
        seq![LogCommand::CloseFile]
    } else {
        Seq::empty()
    }
}

/// The commands that open a file for a new game.
pub open spec fn opening_commands(open: bool) -> Seq<LogCommand> {
    closing_commands(open) + seq![LogCommand::CreateDirectory, LogCommand::CreateFile]
}

/// The commands for a message of the server: a new file at the start of a game, a record while a
/// file is open, and the file closed at the end of a game.
pub open spec fn incoming_commands(open: bool, message: IncomingMessageView) -> Seq<LogCommand> {
    let starts = message.kind == "start_game"@;
    let ends = message.kind == "end_game"@;
    let recording = starts || open;
    (if starts {
        opening_commands(open)
    } else {
        Seq::empty()
    }) + (if recording {
        seq![LogCommand::WriteRecord(Direction::Incoming)]
    } else {
        Seq::empty()
    }) + (if ends {
        closing_commands(recording)
    } else {
        Seq::empty()
    })
}

/// The commands for a reply to a message of the server: a record if the message requests an action
/// and a file is open.
pub open spec fn outgoing_commands(open: bool, cause: IncomingMessageView) -> Result<
    Seq<LogCommand>,
    ProtocolErrorView,
> {
    match requested_action(cause) {
        Err(error) => Err(error),
        Ok(None) => Ok(Seq::empty()),
        Ok(Some(_)) => Ok(
            if open {
                seq![LogCommand::WriteRecord(Direction::Outgoing)]
            } else {
                Seq::empty()
            },
        ),
    }
}

/// The logger once a command has been announced: a file counts as closed even if closing it fails,
/// and a game counts even if its file cannot be created.
pub open spec fn announced(logger: GameLogger, command: LogCommand) -> GameLogger {
    match command {
        LogCommand::CloseFile => GameLogger { open: false, ..logger },
        LogCommand::CreateFile => GameLogger {
            game_index: (logger.game_index + 1) as u64,
            ..logger
        },
        _ => logger,
    }
}

/// The logger once a command has succeeded.
pub open spec fn succeeded(logger: GameLogger, command: LogCommand) -> GameLogger {
    match command {
        LogCommand::CreateFile => GameLogger { open: true, ..logger },
        _ => logger,
    }
}

impl GameLogger {
    /// A logger without an open file that has seen no game.
    pub fn new() -> (logger: GameLogger)
        ensures
            logger == (GameLogger { open: false, game_index: 0 }),
    {
        GameLogger { open: false, game_index: 0 }
    }

    /// Lists the commands that close the file, if one is open.
    pub fn close(&self) -> (commands: Vec<LogCommand>)
        ensures
            commands@ == closing_commands(self.open),
    {
        let mut commands: Vec<LogCommand> = Vec::new();
        if self.open {
            commands.push(LogCommand::CloseFile);
        }
        assert(commands@ =~= closing_commands(self.open));
        commands
    }

    /// Lists the commands for a message of the server.
    pub fn log_incoming(&self, message: &IncomingMessage) -> (commands: Vec<LogCommand>)
        ensures
            commands@ == incoming_commands(self.open, message@),
    {
        let mut commands: Vec<LogCommand> = Vec::new();
        let starts = message.is_start_game();
        let recording = starts || self.open;
        if starts {
            commands = self.close();
            commands.push(LogCommand::CreateDirectory);
            commands.push(LogCommand::CreateFile);
        }
        if recording {
            commands.push(LogCommand::WriteRecord(Direction::Incoming));
        }
        if message.is_end_game() && recording {
            commands.push(LogCommand::CloseFile);
        }
        assert(commands@ =~= incoming_commands(self.open, message@));
        commands
    }

    /// Lists the commands for a reply to a message of the server.
    pub fn log_outgoing(&self, cause: &IncomingMessage) -> (commands: Result<
        Vec<LogCommand>,
        ProtocolError,
    >)
        ensures
            commands matches Ok(list) ==> outgoing_commands(self.open, cause@) == Ok::<
                Seq<LogCommand>,
                ProtocolErrorView,
            >(list@),
            commands matches Err(error) ==> outgoing_commands(self.open, cause@) == Err::<
                Seq<LogCommand>,
                ProtocolErrorView,
            >(error@),
    {
        let mut commands: Vec<LogCommand> = Vec::new();
        match cause.request_action() {
            Err(error) => return Err(error),
            Ok(None) => {},
            Ok(Some(_)) => {
                if self.open {
                    commands.push(LogCommand::WriteRecord(Direction::Outgoing));
                }
            },
        }
        assert(outgoing_commands(self.open, cause@)->Ok_0 =~= commands@);
        Ok(commands)
    }

    /// Takes note of a command that is about to be carried out.
    pub fn announce(&mut self, command: LogCommand)
        requires
            command == LogCommand::CreateFile ==> old(self).game_index < u64::MAX,
        ensures
            *final(self) == announced(*old(self), command),
    {
        match command {
            LogCommand::CloseFile => {
                self.open = false;
            },
            LogCommand::CreateFile => {
                self.game_index = self.game_index + 1;
            },
            LogCommand::CreateDirectory | LogCommand::WriteRecord(_) => {},
        }
    }

    /// Takes note of a command that has succeeded.
    pub fn succeed(&mut self, command: LogCommand)
        ensures
            *final(self) == succeeded(*old(self), command),
    {
        match command {
            LogCommand::CreateFile => {
                self.open = true;
            },
            LogCommand::CloseFile
            | LogCommand::CreateDirectory
            | LogCommand::WriteRecord(_) => {},
        }
    }
}

/// Reads the JSON value in a reply, to be recorded.
pub fn reply_value(outbound: &str) -> (value: Result<serde_json::Value, serde_json::Error>)
    ensures
        value matches Ok(v) ==> parsed_json(outbound@) == Some(v),
        value is Err ==> parsed_json(outbound@) is None,
        value == json_reading(outbound@),
{
    parse_value(outbound)
}

/// The logger after an attempt to carry out a list of commands, and whether all of them succeeded.
/// `works` says of each place in the list whether its command succeeds; the first failure ends the
/// attempt.
pub open spec fn attempted(
    logger: GameLogger,
    commands: Seq<LogCommand>,
    works: spec_fn(int) -> bool,
) -> (GameLogger, bool)
    decreases commands.len(),
{
    if commands.len() == 0 {
        (logger, true)
    } else {
        let (before, good) = attempted(logger, commands.drop_last(), works);
        if !good {
            (before, false)
        } else if works(commands.len() - 1) {
            (succeeded(announced(before, commands.last()), commands.last()), true)
        } else {
            (announced(before, commands.last()), false)
        }
    }
}

/// Closing leaves no open file and keeps the number of the game, whether it succeeds or fails. It
/// succeeds and changes nothing where no file is open; so closing again right afterwards always
/// succeeds and changes nothing.
pub proof fn law_closing_leaves_no_file(
    logger: GameLogger,
    works: spec_fn(int) -> bool,
    works_again: spec_fn(int) -> bool,
)
    ensures
        ({
            let (after, good) = attempted(logger, closing_commands(logger.open), works);
            &&& !after.open
            &&& after.game_index == logger.game_index
            &&& !logger.open ==> good && after == logger
            &&& attempted(after, closing_commands(after.open), works_again) == (after, true)
        }),
{
    reveal_with_fuel(attempted, 2);
    assert(seq![LogCommand::CloseFile].drop_last() =~= Seq::empty());
}

/// Where every command of a list succeeds, the attempt carries the whole list out.
pub proof fn law_attempt_without_failure(
    logger: GameLogger,
    commands: Seq<LogCommand>,
    works: spec_fn(int) -> bool,
)
    requires
        forall|i: int| 0 <= i < commands.len() ==> #[trigger] works(i),
    ensures
        attempted(logger, commands, works) == (carried_out(logger, commands), true),
    decreases commands.len(),
{
    if commands.len() > 0 {
        law_attempt_without_failure(logger, commands.drop_last(), works);
    }
}

/// The logger once all commands of a list have succeeded.
pub open spec fn carried_out(logger: GameLogger, commands: Seq<LogCommand>) -> GameLogger
    decreases commands.len(),
{
    if commands.len() == 0 {
        logger
    } else {
        let before = carried_out(logger, commands.drop_last());
        succeeded(announced(before, commands.last()), commands.last())
    }
}

/// Whether a command fits the logger: only an open file is written to or closed, and only without
/// an open file is one created.
pub open spec fn fits(logger: GameLogger, command: LogCommand) -> bool {
    match command {
        LogCommand::CloseFile | LogCommand::WriteRecord(_) => logger.open,
        LogCommand::CreateFile => !logger.open,
        LogCommand::CreateDirectory => true,
    }
}

/// Whether every command of a list fits the logger by the time it is carried out.
pub open spec fn all_fit(logger: GameLogger, commands: Seq<LogCommand>) -> bool
    decreases commands.len(),
{
    commands.len() > 0 ==> {
        &&& all_fit(logger, commands.drop_last())
        &&& fits(carried_out(logger, commands.drop_last()), commands.last())
    }
}

proof fn lemma_one_more(logger: GameLogger, commands: Seq<LogCommand>, command: LogCommand)
    ensures
        carried_out(logger, commands.push(command)) == succeeded(
            announced(carried_out(logger, commands), command),
            command,
        ),
        all_fit(logger, commands.push(command)) == (all_fit(logger, commands) && fits(
            carried_out(logger, commands),
            command,
        )),
{
    assert(commands.push(command).drop_last() =~= commands);
}

/// Carrying out the commands for a message of the server never writes to a file that is not open.
/// Afterwards a file is open exactly if one was open or the message starts a game, and the message
/// does not end a game; and the message has been recorded exactly if a file was open for it.
pub proof fn law_incoming_commands_fit(logger: GameLogger, message: IncomingMessageView)
    requires
        message.kind == "start_game"@ ==> logger.game_index < u64::MAX,
    ensures
        all_fit(logger, incoming_commands(logger.open, message)),
        carried_out(logger, incoming_commands(logger.open, message)).open <==> (logger.open
            || message.kind == "start_game"@) && message.kind != "end_game"@,
        carried_out(logger, incoming_commands(logger.open, message)).game_index
            == logger.game_index + if message.kind == "start_game"@ {
            1int
        } else {
            0int
        },
        incoming_commands(logger.open, message).contains(
            LogCommand::WriteRecord(Direction::Incoming),
        ) <==> (logger.open || message.kind == "start_game"@),
{
    let starts = message.kind == "start_game"@;
    let ends = message.kind == "end_game"@;
    let none = Seq::<LogCommand>::empty();
    let all = incoming_commands(logger.open, message);
    let create = none.push(LogCommand::CreateDirectory).push(LogCommand::CreateFile);
    let reopen = none.push(LogCommand::CloseFile).push(LogCommand::CreateDirectory).push(
        LogCommand::CreateFile,
    );
    let record = LogCommand::WriteRecord(Direction::Incoming);
    lemma_one_more(logger, none, LogCommand::CreateDirectory);
    lemma_one_more(
        logger,
        none.push(LogCommand::CreateDirectory),
        LogCommand::CreateFile,
    );
    lemma_one_more(logger, none, LogCommand::CloseFile);
    lemma_one_more(logger, none.push(LogCommand::CloseFile), LogCommand::CreateDirectory);
    lemma_one_more(
        logger,
        none.push(LogCommand::CloseFile).push(LogCommand::CreateDirectory),
        LogCommand::CreateFile,
    );
    let opened = if starts {
        if logger.open {
            reopen
        } else {
            create
        }
    } else {
        none
    };
    lemma_one_more(logger, opened, record);
    lemma_one_more(logger, opened.push(record), LogCommand::CloseFile);
    if starts || logger.open {
        assert(opened.push(record)[opened.len() as int] == record);
        if ends {
            assert(all =~= opened.push(record).push(LogCommand::CloseFile));
            assert(all[opened.len() as int] == record);
        } else {
            assert(all =~= opened.push(record));
            assert(all[opened.len() as int] == record);
        }
    } else {
        assert(all =~= none);
    }
}

/// A reply is recorded only while a file is open, and recording it changes nothing else.
pub proof fn law_outgoing_commands_fit(logger: GameLogger, cause: IncomingMessageView)
    ensures
        outgoing_commands(logger.open, cause) matches Ok(commands) ==> {
            &&& all_fit(logger, commands)
            &&& carried_out(logger, commands) == logger
        },
{
    let none = Seq::<LogCommand>::empty();
    let record = LogCommand::WriteRecord(Direction::Outgoing);
    lemma_one_more(logger, none, record);
    assert(none.push(record) =~= seq![record]);
}

/// The name of the log file of a game: the time at which it started and its number, with at least
/// four digits.
pub open spec fn log_file_name_of(timestamp: nat, game_index: nat) -> Seq<char> {
    "game-"@ + decimal(timestamp) + "-"@ + padded_decimal(game_index, 4) + ".jsonl"@
}

/// Writes the name of the log file of a game.
pub fn log_file_name(timestamp: u64, game_index: u64) -> (name: String)
    ensures
        name@ == log_file_name_of(timestamp as nat, game_index as nat),
{
    let mut name = "game-".to_owned();
    name.append(decimal_text(timestamp).as_str());
    name.append("-");
    name.append(padded_decimal_text(game_index, 4).as_str());
    name.append(".jsonl");
    name
}

/// Games with different start times or different numbers have different log files.
pub proof fn law_log_file_names_differ(
    timestamp: nat,
    game_index: nat,
    other_timestamp: nat,
    other_index: nat,
)
    requires
        log_file_name_of(timestamp, game_index) == log_file_name_of(other_timestamp, other_index),
    ensures
        timestamp == other_timestamp,
        game_index == other_index,
{
    reveal_strlit("game-");
    reveal_strlit("-");
    reveal_strlit(".jsonl");
    lemma_decimal(timestamp);
    lemma_decimal(other_timestamp);
    lemma_padded_decimal(game_index, 4);
    lemma_padded_decimal(other_index, 4);
    let name = log_file_name_of(timestamp, game_index);
    let other = log_file_name_of(other_timestamp, other_index);
    let (a, b) = (decimal(timestamp), decimal(other_timestamp));
    let (c, d) = (padded_decimal(game_index, 4), padded_decimal(other_index, 4));
    assert(name[5 + a.len() as int] == '-');
    assert(other[5 + b.len() as int] == '-');
    if a.len() < b.len() {
        assert(other[5 + a.len() as int] == b[a.len() as int]);
    }
    if b.len() < a.len() {
        assert(name[5 + b.len() as int] == a[b.len() as int]);
    }
    assert forall|i: int| 0 <= i < a.len() implies a[i] == b[i] by {
        assert(name[5 + i] == a[i]);
        assert(other[5 + i] == b[i]);
    }
    assert(a =~= b);
    assert(name.len() == 12 + a.len() + c.len());
    assert(other.len() == 12 + b.len() + d.len());
    assert forall|i: int| 0 <= i < c.len() implies c[i] == d[i] by {
        assert(name[6 + a.len() + i] == c[i]);
        assert(other[6 + a.len() + i] == d[i]);
    }
    assert(c =~= d);
}

/// The names of the directions in a record.
pub proof fn law_direction_names()
    ensures
        Direction::Incoming.name() == "in"@,
        Direction::Outgoing.name() == "out"@,
{
}

/// What is done for a message of the server, in order: a game that starts closes the file that may
/// be open, creates the directory and a file, and is recorded; any other message is recorded while a
/// file is open; the end of a game then closes that file; and without an open file nothing is done.
pub proof fn law_commands_for_a_message(message: IncomingMessageView)
    ensures
        message.kind == "start_game"@ ==> {
            &&& incoming_commands(true, message) == seq![
                LogCommand::CloseFile,
                LogCommand::CreateDirectory,
                LogCommand::CreateFile,
                LogCommand::WriteRecord(Direction::Incoming),
            ]
            &&& incoming_commands(false, message) == seq![
                LogCommand::CreateDirectory,
                LogCommand::CreateFile,
                LogCommand::WriteRecord(Direction::Incoming),
            ]
        },
        message.kind == "end_game"@ ==> {
            &&& incoming_commands(true, message) == seq![
                LogCommand::WriteRecord(Direction::Incoming),
                LogCommand::CloseFile,
            ]
            &&& incoming_commands(false, message) == Seq::<LogCommand>::empty()
        },
        message.kind != "start_game"@ && message.kind != "end_game"@ ==> {
            &&& incoming_commands(true, message) == seq![
                LogCommand::WriteRecord(Direction::Incoming),
            ]
            &&& incoming_commands(false, message) == Seq::<LogCommand>::empty()
        },
{
    reveal_strlit("start_game");
    reveal_strlit("end_game");
    assert("start_game"@.len() == 10);
    assert("end_game"@.len() == 8);
    if message.kind == "start_game"@ {
        assert(incoming_commands(true, message) =~= seq![
            LogCommand::CloseFile,
            LogCommand::CreateDirectory,
            LogCommand::CreateFile,
            LogCommand::WriteRecord(Direction::Incoming),
        ]);
        assert(incoming_commands(false, message) =~= seq![
            LogCommand::CreateDirectory,
            LogCommand::CreateFile,
            LogCommand::WriteRecord(Direction::Incoming),
        ]);
    } else if message.kind == "end_game"@ {
        assert(incoming_commands(true, message) =~= seq![
            LogCommand::WriteRecord(Direction::Incoming),
            LogCommand::CloseFile,
        ]);
        assert(incoming_commands(false, message) =~= Seq::<LogCommand>::empty());
    } else {
        assert(incoming_commands(true, message) =~= seq![
            LogCommand::WriteRecord(Direction::Incoming),
        ]);
        assert(incoming_commands(false, message) =~= Seq::<LogCommand>::empty());
    }
}

/// What is done for a reply: it is recorded as outgoing if its cause requests an action and a file is
/// open; a malformed cause is an error.
pub proof fn law_commands_for_a_reply(cause: IncomingMessageView, open: bool)
    ensures
        requested_action(cause) matches Err(error) ==> outgoing_commands(open, cause) == Err::<
            Seq<LogCommand>,
            ProtocolErrorView,
        >(error),
        requested_action(cause) matches Ok(request) ==> {
            &&& outgoing_commands(open, cause) matches Ok(commands)
            &&& request is Some && open ==> commands == seq![
                LogCommand::WriteRecord(Direction::Outgoing),
            ]
            &&& request is None || !open ==> commands.len() == 0
        },
{
}

/// How commands change the logger: only closing and creating a file do. A file is closed and a game
/// is counted from the announcement on, a file is open once its creation has succeeded.
pub proof fn law_effects_of_commands(logger: GameLogger, direction: Direction)
    requires
        logger.game_index < u64::MAX,
    ensures
        announced(logger, LogCommand::CloseFile) == (GameLogger {
            open: false,
            game_index: logger.game_index,
        }),
        announced(logger, LogCommand::CreateFile).open == logger.open,
        announced(logger, LogCommand::CreateFile).game_index == logger.game_index + 1,
        announced(logger, LogCommand::CreateDirectory) == logger,
        announced(logger, LogCommand::WriteRecord(direction)) == logger,
        succeeded(logger, LogCommand::CreateFile) == (GameLogger {
            open: true,
            game_index: logger.game_index,
        }),
        succeeded(logger, LogCommand::CloseFile) == logger,
        succeeded(logger, LogCommand::CreateDirectory) == logger,
        succeeded(logger, LogCommand::WriteRecord(direction)) == logger,
{
}

/// A log file is named `game-`, the time, a dash, the number of the game and `.jsonl`; a number below
/// ten thousand takes four digits.
pub proof fn law_parts_of_a_log_file_name(timestamp: nat, game_index: nat)
    ensures
        log_file_name_of(timestamp, game_index) == "game-"@ + decimal(timestamp) + "-"@
            + padded_decimal(game_index, 4) + ".jsonl"@,
        game_index < 10000 ==> padded_decimal(game_index, 4).len() == 4,
{
    reveal_with_fuel(decimal, 5);
}

} // verus!
