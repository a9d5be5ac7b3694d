//! What a newcomer is told.

use crate::model::{AddOutcome, StateObservation, StorageError};
use vstd::prelude::*;

verus! {

/// How a newcomer is greeted.
#[derive(Clone, Copy, Debug, PartialEq, Eq, Structural)]
pub enum Greeting {
    /// The newcomer was registered just now.
    Welcome,
    /// The newcomer was registered before.
    WelcomeBack,
    /// The registration could not be stored.
    Unconfirmed,
}

/// One message of the reply to a newcomer.
#[derive(Clone, Copy, Debug, PartialEq, Eq, Structural)]
pub enum Line {
    /// The greeting.
    Greet { greeting: Greeting },
    /// The facility's status as it was last observed.
    Status { open: bool },
}

/// The greeting that the answer of the subscriber store calls for.
pub open spec fn greeting_for(added: Result<AddOutcome, StorageError>) -> Greeting {
    match added {
        Ok(AddOutcome::Inserted) => Greeting::Welcome,
        Ok(AddOutcome::AlreadyExists) => Greeting::WelcomeBack,
        Err(_) => Greeting::Unconfirmed,
    }
}

/// The messages that a newcomer gets, in the order in which they are sent: the
/// greeting, then the last observed status where there is one.
pub open spec fn reply_lines(
    added: Result<AddOutcome, StorageError>,
    last: Result<Option<StateObservation>, StorageError>,
) -> Seq<Line> {
    match last {
        Ok(Some(observation)) => seq![
            Line::Greet { greeting: greeting_for(added) },
            Line::Status { open: observation.status },
        ],
        _ => seq![Line::Greet { greeting: greeting_for(added) }],
    }
}

/// The text of one message of the reply.
///
/// A newcomer is greeted with the bot's name and its promise to tell when the
/// laboratory opens or closes; one who was registered before is told so in
/// addition. A registration that could not be stored is greeted like a new one and
/// claims nothing about an earlier one. The status reads "attualmente aperto"
/// (open at present) or "attualmente chiuso" (closed at present).
pub open spec fn text_of_line(line: Line) -> Seq<char> {
    match line {
        Line::Greet { greeting: Greeting::WelcomeBack } =>
            "Ciao, sono il bot HLCS 🦀. Ti avviserò quando il laboratorio sarà aperto o chiuso, ti avverto che eri già iscritto"@,
        Line::Greet { greeting } =>
            "Ciao, sono il bot HLCS 🦀. Ti avviserò quando il laboratorio sarà aperto o chiuso"@,
        Line::Status { open } => if open {
            "Il laboratorio è attualmente aperto"@
        } else {
            "Il laboratorio è attualmente chiuso"@
        },
    }
}

/// Writes one message of the reply.
pub fn line_text(line: Line) -> (text: &'static str)
    ensures
        text@ == text_of_line(line),
{
    match line {
        Line::Greet { greeting: Greeting::WelcomeBack } => {
            "Ciao, sono il bot HLCS 🦀. Ti avviserò quando il laboratorio sarà aperto o chiuso, ti avverto che eri già iscritto"
        },
        Line::Greet { greeting } => {
            "Ciao, sono il bot HLCS 🦀. Ti avviserò quando il laboratorio sarà aperto o chiuso"
        },
        Line::Status { open } => {
            if open {
                "Il laboratorio è attualmente aperto"
            } else {
                "Il laboratorio è attualmente chiuso"
            }
        },
    }
}

/// Chooses the greeting from what the subscriber store answered.
///
/// A subscriber that was stored already is told so; a failure of the store is told
/// apart from both other answers.
pub fn greet(added: &Result<AddOutcome, StorageError>) -> (greeting: Greeting)
    ensures
        greeting == greeting_for(*added),
{
    match added {
        Ok(AddOutcome::Inserted) => Greeting::Welcome,
        Ok(AddOutcome::AlreadyExists) => Greeting::WelcomeBack,
        Err(_) => Greeting::Unconfirmed,
    }
}

/// Plans the reply to a newcomer from the answers of the two stores.
///
/// The greeting always comes first. The status follows where the state store
/// holds an observation; where it holds none or could not be read, the greeting
/// stands alone.
pub fn plan_reply(
    added: &Result<AddOutcome, StorageError>,
    last: &Result<Option<StateObservation>, StorageError>,
) -> (lines: Vec<Line>)
    ensures
        lines@ == reply_lines(*added, *last),
{
    let mut lines: Vec<Line> = Vec::new();
    lines.push(Line::Greet { greeting: greet(added) });
    match last {
        Ok(Some(observation)) => {
            lines.push(Line::Status { open: observation.status });
        },
        _ => {},
    }
    lines
}

} // verus!
