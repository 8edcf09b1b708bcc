//! What the command-line tool decides: which subcommand was asked for, and
//! what the table of checks shows.
//!
//! The table has two columns, the name of a check and the time of its last
//! ping. The service gives that time in the format of RFC 3339; the table
//! shows it in the format of RFC 2822, and a hyphen for a check that was never
//! pinged.

use vstd::prelude::*;
use vstd::string::*;

verus! {

/// The title of the first column.
pub const COLUMN_NAME: &'static str = "Name";

/// The title of the second column.
pub const COLUMN_LAST_PING: &'static str = "Last Ping";

/// The one subcommand that the tool knows.
pub const LIST_SUBCOMMAND: &'static str = "list";

/// What the tool can be asked to do.
#[derive(Clone, Copy, Debug, PartialEq, Eq, Structural)]
pub enum Command {
    /// Print the checks of the account with the time of their last ping.
    List,
}

/// Why the tool did nothing.
#[derive(Clone, Debug, PartialEq, Eq)]
pub enum CliError {
    /// The subcommand, held here as it was given, is not one the tool knows.
    UnknownSubcommand(String),
}

impl CliError {
    /// The text of the error, as a reader is shown it.
    pub open spec fn message_text(self) -> Seq<char> {
        match self {
            CliError::UnknownSubcommand(given) => "unknown subcommand: "@ + given@,
        }
    }

    /// The text of the error, as a reader is shown it.
    pub fn message(&self) -> (text: String)
        ensures
            text@ == self.message_text(),
    {
        match self {
            CliError::UnknownSubcommand(given) => {
                let mut text = String::from_str("unknown subcommand: ");
                text.append(given.as_str());
                text
            },
        }
    }
}

/// Tells which command the subcommand `name` asks for. Only `list` is known;
/// every other name is handed back inside the error.
pub fn parse_command(name: &str) -> (parsed: Result<Command, CliError>)
    ensures
        parsed is Ok <==> name@ == LIST_SUBCOMMAND@,
        parsed matches Ok(command) ==> command == Command::List,
        parsed matches Err(error) ==> error matches CliError::UnknownSubcommand(given)
            && given@ == name@,
{
    let given = String::from_str(name);
    let known = String::from_str(LIST_SUBCOMMAND);
    if given == known {
        Ok(Command::List)
    } else {
        Err(CliError::UnknownSubcommand(given))
    }
}

/// What the second column shows for a check that was never pinged.
pub const NEVER_PINGED: &'static str = "-";

/// What chrono makes of a time given in the format of RFC 3339: the same
/// instant and offset written in the format of RFC 2822, or nothing where the
/// text is no such time.
pub uninterp spec fn rfc2822_of_rfc3339(text: Seq<char>) -> Option<Seq<char>>;

/// Reads `text` with `chrono::DateTime::parse_from_rfc3339` and, where that
/// succeeds, writes the time with `DateTime::to_rfc2822`.
///
/// Trusted: the outcome depends on `text` alone, since the parser keeps the
/// offset that the text names and the writer uses English names whatever the
/// machine's locale. The parser takes years of four digits only, so the
/// writer, which refuses years outside 0 to 9999, always has a year it can
/// write.
#[verifier::external_body]
fn rfc3339_to_rfc2822(text: &str) -> (written: Option<String>)
    ensures
        match written {
            Some(date) => rfc2822_of_rfc3339(text@) == Some(date@),
            None => rfc2822_of_rfc3339(text@) is None,
        },
{
    match chrono::DateTime::parse_from_rfc3339(text) {
        Ok(instant) => Some(instant.to_rfc2822()),
        Err(_) => None,
    }
}

/// Why no table was made.
#[derive(Clone, Debug, PartialEq, Eq)]
pub enum ListError {
    /// The time of a last ping, held here as the service gave it, is not in
    /// the format of RFC 3339.
    InvalidTimestamp(String),
}

impl ListError {
    /// The text of the error, as a reader is shown it.
    pub open spec fn message_text(self) -> Seq<char> {
        match self {
            ListError::InvalidTimestamp(given) => "invalid timestamp: "@ + given@,
        }
    }

    /// The text of the error, as a reader is shown it.
    pub fn message(&self) -> (text: String)
        ensures
            text@ == self.message_text(),
    {
        match self {
            ListError::InvalidTimestamp(given) => {
                let mut text = String::from_str("invalid timestamp: ");
                text.append(given.as_str());
                text
            },
        }
    }
}

/// What the second column shows for the time `given`, once its conversion
/// came out as `written`: the converted time, or the error that holds the
/// text that could not be read.
pub open spec fn shown_time(given: Seq<char>, written: Option<Seq<char>>) -> Result<
    Seq<char>,
    Seq<char>,
> {
    match written {
        Some(date) => Ok(date),
        None => Err(given),
    }
}

/// What the second column shows for a check whose last ping the service
/// gives as `last_ping`.
pub open spec fn last_ping_cell_text(last_ping: Option<Seq<char>>) -> Result<
    Seq<char>,
    Seq<char>,
> {
    match last_ping {
        None => Ok(NEVER_PINGED@),
        Some(given) => shown_time(given, rfc2822_of_rfc3339(given)),
    }
}

/// Whether `cell` holds the outcome `text`: the same cell, or the error that
/// carries the same unreadable time.
pub open spec fn cell_is(cell: Result<String, ListError>, text: Result<Seq<char>, Seq<char>>) -> bool {
    match cell {
        Ok(shown) => text == Ok::<Seq<char>, Seq<char>>(shown@),
        Err(ListError::InvalidTimestamp(given)) => text == Err::<Seq<char>, Seq<char>>(given@),
    }
}

/// Decides what to show for the time `given` from what its conversion gave.
pub fn time_cell(given: &str, written: Option<String>) -> (cell: Result<String, ListError>)
    ensures
        cell_is(
            cell,
            shown_time(
                given@,
                match written {
                    Some(date) => Some(date@),
                    None => None,
                },
            ),
        ),
{
    match written {
        Some(date) => Ok(date),
        None => Err(ListError::InvalidTimestamp(String::from_str(given))),
    }
}

/// What the second column shows for a check whose last ping the service
/// gives as `last_ping`: a hyphen where there was none, else the time in the
/// format of RFC 2822, or an error where the time cannot be read.
pub fn last_ping_cell(last_ping: Option<&str>) -> (cell: Result<String, ListError>)
    ensures
        cell_is(
            cell,
            last_ping_cell_text(
                match last_ping {
                    Some(given) => Some(given@),
                    None => None,
                },
            ),
        ),
{
    match last_ping {
        None => Ok(String::from_str(NEVER_PINGED)),
        Some(given) => time_cell(given, rfc3339_to_rfc2822(given)),
    }
}

/// What [`Check`] stands for.
pub ghost struct CheckView {
    pub name: Seq<char>,
    pub last_ping: Option<Seq<char>>,
}

/// One check of an account, as far as the table shows it.
#[derive(Clone, Debug, PartialEq, Eq)]
pub struct Check {
    /// The name that the owner gave the check.
    pub name: String,
    /// The time of the last ping in the format of RFC 3339, if there was one.
    pub last_ping: Option<String>,
}

impl View for Check {
    type V = CheckView;

    open spec fn view(&self) -> CheckView {
        CheckView {
            name: self.name@,
            last_ping: match self.last_ping {
                Some(given) => Some(given@),
                None => None,
            },
        }
    }
}

/// What [`Row`] stands for.
pub ghost struct RowView {
    pub name: Seq<char>,
    pub last_ping: Seq<char>,
}

/// One line of the table.
#[derive(Clone, Debug, PartialEq, Eq)]
pub struct Row {
    /// The first column.
    pub name: String,
    /// The second column.
    pub last_ping: String,
}

impl View for Row {
    type V = RowView;

    open spec fn view(&self) -> RowView {
        RowView { name: self.name@, last_ping: self.last_ping@ }
    }
}

/// The line of the table for `check`, where its time can be shown.
pub open spec fn row_of(check: CheckView) -> RowView
    recommends
        last_ping_cell_text(check.last_ping) is Ok,
{
    RowView { name: check.name, last_ping: last_ping_cell_text(check.last_ping)->Ok_0 }
}

/// Whether `at` is the place of the first check whose time cannot be read.
pub open spec fn is_first_unreadable(checks: Seq<Check>, at: int) -> bool {
    &&& 0 <= at < checks.len()
    &&& last_ping_cell_text(checks[at]@.last_ping) is Err
    &&& forall|j: int| 0 <= j < at ==> last_ping_cell_text((#[trigger] checks[j])@.last_ping) is Ok
}

/// The lines of the table for `checks`, one for each check and in their
/// order. Where the time of a check cannot be read there is no table: the
/// error holds the time of the first such check.
pub fn table_rows(checks: &Vec<Check>) -> (table: Result<Vec<Row>, ListError>)
    ensures
        match table {
            Ok(rows) => {
                &&& rows@.len() == checks@.len()
                &&& forall|i: int|
                    0 <= i < checks@.len() ==> {
                        &&& last_ping_cell_text((#[trigger] checks@[i])@.last_ping) is Ok
                        &&& rows@[i]@ == row_of(checks@[i]@)
                    }
            },
            Err(ListError::InvalidTimestamp(given)) => exists|at: int|
                {
                    &&& #[trigger] is_first_unreadable(checks@, at)
                    &&& checks@[at]@.last_ping == Some(given@)
                },
        },
{
    let mut rows: Vec<Row> = Vec::new();
    let mut i: usize = 0;
    while i < checks.len()
        invariant
            i <= checks@.len(),
            rows@.len() == i,
            forall|j: int|
                0 <= j < i ==> {
                    &&& last_ping_cell_text((#[trigger] checks@[j])@.last_ping) is Ok
                    &&& rows@[j]@ == row_of(checks@[j]@)
                },
        decreases checks@.len() - i,
    {
        let check = &checks[i];
        let cell = match &check.last_ping {
            Some(given) => last_ping_cell(Some(given.as_str())),
            None => last_ping_cell(None),
        };
        match cell {
            Ok(shown) => {
                rows.push(Row { name: check.name.clone(), last_ping: shown });
            },
            Err(error) => {
                proof {
                    assert(is_first_unreadable(checks@, i as int));
                }
                return Err(error);
            },
        }
        i += 1;
    }
    Ok(rows)
}

} // verus!
