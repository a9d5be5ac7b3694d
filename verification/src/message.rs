//! The text of a notification.

use crate::clock::Timestamp;
use crate::model::option_text;
use vstd::prelude::*;
use vstd::string::StringExecFns;

verus! {

/// The text that announces a status, given the time of day and the date as they are
/// to be shown. The subscribers are written to in Italian: the laboratory "è stato
/// chiuso" (was closed) or "è stato aperto" (was opened) "alle" (at) a time "del"
/// (on) a date, and where the actor is known, "da" (by) that actor.
pub open spec fn announcement(
    status: bool,
    actor: Option<Seq<char>>,
    time_of_day: Seq<char>,
    date: Seq<char>,
) -> Seq<char> {
    if !status {
        "Il laboratorio è stato chiuso alle "@ + time_of_day + " del "@ + date
    } else {
        match actor {
            Some(name) => "Il laboratorio è stato aperto alle "@ + time_of_day + " del "@ + date
                + " da "@ + name,
            None => "Il laboratorio è stato aperto alle "@ + time_of_day + " del "@ + date,
        }
    }
}

/// The notification for a status that was observed at `now`.
pub open spec fn rendering(status: bool, actor: Option<Seq<char>>, now: Timestamp) -> Seq<char> {
    announcement(status, actor, now.time_of_day_text(), now.calendar_date_text())
}

/// Writes the announcement of a status around a time of day and a date that are
/// already formatted.
///
/// A closed facility is announced without an actor, whether one is given or not.
pub fn announce(status: bool, actor: Option<&str>, time_of_day: &str, date: &str) -> (res: String)
    ensures
        res@ == announcement(
            status,
            match actor {
                Some(name) => Some(name@),
                None => None,
            },
            time_of_day@,
            date@,
        ),
{
    let head = if status {
        "Il laboratorio è stato aperto alle "
    } else {
        "Il laboratorio è stato chiuso alle "
    };
    let mut text = String::from_str(head);
    text.append(time_of_day);
    text.append(" del ");
    text.append(date);
    if status {
        match actor {
            Some(name) => {
                text.append(" da ");
                text.append(name);
            },
            None => {},
        }
    }
    text
}

/// Renders the notification for a status that was observed at `now`.
///
/// The time of day reads `HH:MM:SS` and the date `DD/MM/YYYY`, both at the offset
/// that `now` carries.
pub fn render(status: bool, actor: &Option<String>, now: &Timestamp) -> (res: String)
    ensures
        res@ == rendering(status, option_text(*actor), *now),
{
    let time_of_day = now.time_of_day();
    let date = now.calendar_date();
    let name: Option<&str> = match actor {
        Some(s) => Some(s.as_str()),
        None => None,
    };
    announce(status, name, time_of_day.as_str(), date.as_str())
}

} // verus!
