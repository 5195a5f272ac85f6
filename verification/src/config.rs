//! What the server is started with.

use vstd::prelude::*;
use vstd::string::StringExecFns;

verus! {

/// The most connections to the store that are open at one time.
pub const MAX_CONNECTIONS: u32 = 5;

/// The port that the server listens on, on every address of the machine.
pub const LISTEN_PORT: u16 = 8080;

/// The pattern of the files that hold the templates.
pub open spec fn template_glob_of() -> Seq<char> {
    "templates/**/*"@
}

/// The pattern of the files that the templates are loaded from at startup.
pub fn template_glob() -> (pattern: &'static str)
    ensures
        pattern@ == template_glob_of(),
{
    "templates/**/*"
}

/// The endings of the template names whose output is escaped.
pub fn autoescape_suffixes() -> (suffixes: Vec<&'static str>)
    ensures
        suffixes@.len() == 2,
        suffixes@[0]@ == ".html"@,
        suffixes@[1]@ == ".sql"@,
{
    let mut suffixes: Vec<&'static str> = Vec::new();
    suffixes.push(".html");
    suffixes.push(".sql");
    suffixes
}

/// The status with which the process ends where it does not start.
pub const ABORT_EXIT_CODE: i32 = 1;

/// What the process does once the templates were loaded.
#[derive(Debug)]
pub enum Startup {
    /// Every template was parsed: the server starts.
    Serve,
    /// A template was not parsed: the process prints the line and ends; no
    /// request is ever served.
    Abort(String),
}

/// What the line that reports templates that were not parsed starts with.
pub open spec fn abort_line_prefix() -> Seq<char> {
    "Parsing error(s): "@
}

/// Decides the start: with no failure the server starts; with one the
/// process is to end at once, and the line to print holds the failure.
pub fn startup_after_loading(parse_failure: Option<String>) -> (startup: Startup)
    ensures
        parse_failure is None <==> startup is Serve,
        parse_failure matches Some(failure) ==> (startup matches Startup::Abort(line) && line@
            == abort_line_prefix() + failure@),
{
    match parse_failure {
        None => Startup::Serve,
        Some(failure) => {
            let mut line = String::from_str("Parsing error(s): ");
            line.append(failure.as_str());
            Startup::Abort(line)
        },
    }
}

/// The address of the store for the user `user` with the password
/// `password` and the database `database`.
pub open spec fn connection_string_of(
    user: Seq<char>,
    password: Seq<char>,
    database: Seq<char>,
) -> Seq<char> {
    "postgres://"@ + user + ":"@ + password + "@host.docker.internal:5432/"@ + database
}

/// The address under which the store is reached. The three parts are put
/// in as they are.
pub fn connection_string(user: &str, password: &str, database: &str) -> (address: String)
    ensures
        address@ == connection_string_of(user@, password@, database@),
{
    let mut address = String::from_str("postgres://");
    address.append(user);
    address.append(":");
    address.append(password);
    address.append("@host.docker.internal:5432/");
    address.append(database);
    address
}

} // verus!
