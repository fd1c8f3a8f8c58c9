//! The line protocol: which commands there are, and what each line asks of
//! the command reader and of the worker's queue.

use vstd::prelude::*;
use vstd::slice::slice_subrange;
use crate::engine_thread_manager::{EngineThreadManager, MessageToEngine};

verus! {

/// The commands that the engine knows by their leading token.
#[derive(Clone, Copy, Debug, PartialEq, Eq, Structural)]
pub enum Command {
    Debug,
    Go,
    IsReady,
    PonderHit,
    Position,
    Quit,
    Register,
    SetOption,
    Stop,
    Uci,
    UciNewGame,
}

/// What is left for the command reader to do once a line is handled.
#[derive(Clone, Copy, Debug, PartialEq, Eq, Structural)]
pub enum Reaction {
    /// Read the next line.
    Nothing,
    /// Print the identification lines, then read the next line.
    Identify,
    /// End the process.
    Quit,
}

/// The command that a leading token names, if any.
pub open spec fn command_named(token: Seq<char>) -> Option<Command> {
    if token == "debug"@ {
        Some(Command::Debug)
    } else if token == "go"@ {
        Some(Command::Go)
    } else if token == "isready"@ {
        Some(Command::IsReady)
    } else if token == "ponderhit"@ {
        Some(Command::PonderHit)
    } else if token == "position"@ {
        Some(Command::Position)
    } else if token == "quit"@ {
        Some(Command::Quit)
    } else if token == "register"@ {
        Some(Command::Register)
    } else if token == "setoption"@ {
        Some(Command::SetOption)
    } else if token == "stop"@ {
        Some(Command::Stop)
    } else if token == "uci"@ {
        Some(Command::Uci)
    } else if token == "ucinewgame"@ {
        Some(Command::UciNewGame)
    } else {
        None
    }
}

/// The command of a line given by its tokens: the one that the first token
/// names. An empty line and a line with an unknown first token have none.
pub open spec fn leading_command(tokens: Seq<String>) -> Option<Command> {
    if tokens.len() == 0 {
        None
    } else {
        command_named(tokens[0]@)
    }
}

/// The signal that a command sends to the worker, if it sends one.
pub open spec fn message_for(command: Option<Command>) -> Option<MessageToEngine> {
    match command {
        Some(Command::IsReady) => Some(MessageToEngine::IsReady),
        Some(Command::PonderHit) => Some(MessageToEngine::PonderHit),
        Some(Command::Stop) => Some(MessageToEngine::Stop),
        _ => None,
    }
}

/// What a command leaves for the command reader to do.
pub open spec fn reaction_for(command: Option<Command>) -> Reaction {
    match command {
        Some(Command::Quit) => Reaction::Quit,
        Some(Command::Uci) => Reaction::Identify,
        _ => Reaction::Nothing,
    }
}

/// Whether the token is exactly `word`.
fn is_word(token: &String, word: &str) -> (r: bool)
    ensures
        r == (token@ == word@),
{
    let word = word.to_owned();
    *token == word
}

/// Tells which command a leading token names.
pub fn recognize(token: &String) -> (r: Option<Command>)
    ensures
        r == command_named(token@),
{
    if is_word(token, "debug") {
        Some(Command::Debug)
    } else if is_word(token, "go") {
        Some(Command::Go)
    } else if is_word(token, "isready") {
        Some(Command::IsReady)
    } else if is_word(token, "ponderhit") {
        Some(Command::PonderHit)
    } else if is_word(token, "position") {
        Some(Command::Position)
    } else if is_word(token, "quit") {
        Some(Command::Quit)
    } else if is_word(token, "register") {
        Some(Command::Register)
    } else if is_word(token, "setoption") {
        Some(Command::SetOption)
    } else if is_word(token, "stop") {
        Some(Command::Stop)
    } else if is_word(token, "uci") {
        Some(Command::Uci)
    } else if is_word(token, "ucinewgame") {
        Some(Command::UciNewGame)
    } else {
        None
    }
}

/// The three lines that answer `uci`, in the order in which they are
/// printed: the engine's name, its author, and the confirmation.
pub fn identification() -> (r: [&'static str; 3])
    ensures
        r@[0]@ == "id name farce"@,
        r@[1]@ == "id author Kef Schecter"@,
        r@[2]@ == "uciok"@,
{
    ["id name farce", "id author Kef Schecter", "uciok"]
}

impl EngineThreadManager {
    /// Handles one input line, given by its tokens. A line whose first
    /// token names no command is dropped whole. A control command puts its
    /// signal at the back of the worker's queue; every other line leaves
    /// the queue as it is. The result says what is left for the reader.
    pub fn handle_line(&mut self, tokens: &Vec<String>) -> (r: Reaction)
        ensures
            r == reaction_for(leading_command(tokens@)),
            final(self)@ == match message_for(leading_command(tokens@)) {
                Some(message) => old(self)@.push(message),
                None => old(self)@,
            },
    {
        if tokens.len() == 0 {
            return Reaction::Nothing;
        }
        let rest = slice_subrange(tokens.as_slice(), 1, tokens.len());
        match recognize(&tokens[0]) {
            Some(Command::Go) => {
                self.cmd_go(rest);
                Reaction::Nothing
            },
            Some(Command::IsReady) => {
                self.cmd_isready();
                Reaction::Nothing
            },
            Some(Command::PonderHit) => {
                self.cmd_ponderhit();
                Reaction::Nothing
            },
            Some(Command::Position) => {
                self.cmd_position(rest);
                Reaction::Nothing
            },
            Some(Command::SetOption) => {
                self.cmd_setoption(rest);
                Reaction::Nothing
            },
            Some(Command::Stop) => {
                self.cmd_stop();
                Reaction::Nothing
            },
            Some(Command::Quit) => Reaction::Quit,
            Some(Command::Uci) => Reaction::Identify,
            Some(Command::Debug) | Some(Command::Register) | Some(Command::UciNewGame) | None => {
                Reaction::Nothing
            },
        }
    }
}

} // verus!
