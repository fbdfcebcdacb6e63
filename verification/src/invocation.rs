//! The command line that serves each request.
//!
//! Every request to the tool is one run of the `rss2cloud` program. The
//! functions here work out the argument vector of that run and leave the run
//! itself to the host.

use crate::text::{decimal, decimal_string};
use vstd::prelude::*;
use vstd::string::StringExecFns;

verus! {

/// A process to start: the program and the arguments it is given, in order.
#[derive(Debug, Clone, PartialEq, Eq)]
pub struct Invocation {
    pub program: String,
    pub arguments: Vec<String>,
}

/// An [`Invocation`] as sequences of characters.
pub struct InvocationView {
    pub program: Seq<char>,
    pub arguments: Seq<Seq<char>>,
}

impl View for Invocation {
    type V = InvocationView;

    open spec fn view(&self) -> InvocationView {
        InvocationView {
            program: self.program@,
            arguments: self.arguments@.map_values(|argument: String| argument@),
        }
    }
}

/// A run of the tool with the given arguments.
pub open spec fn rss2cloud(arguments: Seq<Seq<char>>) -> InvocationView {
    InvocationView { program: "rss2cloud"@, arguments }
}

/// The arguments that submit a feed: the address after `-u`, and `--no-cache`
/// after it exactly when the cache is to be bypassed.
pub open spec fn add_rss_task_arguments(url: Seq<char>, no_cache: bool) -> Seq<Seq<char>> {
    if no_cache {
        seq!["-u"@, url, "--no-cache"@]
    } else {
        seq!["-u"@, url]
    }
}

/// The arguments that start the server mode: `server` alone, or followed by
/// `--port` and the port directly after it where one is given.
pub open spec fn start_server_arguments(port: Option<Seq<char>>) -> Seq<Seq<char>> {
    match port {
        Some(number) => seq!["server"@, "--port"@, number],
        None => seq!["server"@],
    }
}

/// Builds the run of the tool with arguments that are already in order.
fn run_tool(arguments: Vec<String>) -> (run: Invocation)
    ensures
        run@ == rss2cloud(arguments@.map_values(|argument: String| argument@)),
{
    Invocation { program: String::from_str("rss2cloud"), arguments }
}

/// Starts a login by QR code: `rss2cloud -q`.
pub fn login_with_qr() -> (run: Invocation)
    ensures
        run@ == rss2cloud(seq!["-q"@]),
{
    let mut arguments: Vec<String> = Vec::new();
    arguments.push(String::from_str("-q"));
    assert(arguments@.map_values(|argument: String| argument@) =~= seq!["-q"@]);
    run_tool(arguments)
}

/// Logs in with the cookies of a browser session:
/// `rss2cloud --cookies <cookies>`.
pub fn login_with_cookies(cookies: String) -> (run: Invocation)
    ensures
        run@ == rss2cloud(seq!["--cookies"@, cookies@]),
{
    let ghost given = cookies@;
    let mut arguments: Vec<String> = Vec::new();
    arguments.push(String::from_str("--cookies"));
    arguments.push(cookies);
    assert(arguments@.map_values(|argument: String| argument@) =~= seq!["--cookies"@, given]);
    run_tool(arguments)
}

/// Asks whether the tool holds a valid login: `rss2cloud --check-login`.
pub fn check_login_status() -> (run: Invocation)
    ensures
        run@ == rss2cloud(seq!["--check-login"@]),
{
    let mut arguments: Vec<String> = Vec::new();
    arguments.push(String::from_str("--check-login"));
    assert(arguments@.map_values(|argument: String| argument@) =~= seq!["--check-login"@]);
    run_tool(arguments)
}

/// Submits a feed for download: `rss2cloud -u <url>`, with `--no-cache` at the
/// end exactly when `no_cache` is set.
pub fn add_rss_task(url: String, no_cache: bool) -> (run: Invocation)
    ensures
        run@ == rss2cloud(add_rss_task_arguments(url@, no_cache)),
{
    let ghost given = url@;
    let mut arguments: Vec<String> = Vec::new();
    arguments.push(String::from_str("-u"));
    arguments.push(url);
    if no_cache {
        arguments.push(String::from_str("--no-cache"));
    }
    assert(arguments@.map_values(|argument: String| argument@) =~= add_rss_task_arguments(
        given,
        no_cache,
    ));
    run_tool(arguments)
}

/// Clears the tasks of one category:
/// `rss2cloud --clear-task-type <category>`, the category in decimal.
pub fn clear_tasks(task_type: i32) -> (run: Invocation)
    ensures
        run@ == rss2cloud(seq!["--clear-task-type"@, decimal(task_type as int)]),
{
    let mut arguments: Vec<String> = Vec::new();
    arguments.push(String::from_str("--clear-task-type"));
    arguments.push(decimal_string(task_type));
    assert(arguments@.map_values(|argument: String| argument@) =~= seq![
        "--clear-task-type"@,
        decimal(task_type as int),
    ]);
    run_tool(arguments)
}

/// Lists the task queue: `rss2cloud --list-tasks`.
pub fn get_tasks() -> (run: Invocation)
    ensures
        run@ == rss2cloud(seq!["--list-tasks"@]),
{
    let mut arguments: Vec<String> = Vec::new();
    arguments.push(String::from_str("--list-tasks"));
    assert(arguments@.map_values(|argument: String| argument@) =~= seq!["--list-tasks"@]);
    run_tool(arguments)
}

/// Adds a magnet link to a cloud folder:
/// `rss2cloud magnet --link <link> --cid <cid>`.
pub fn add_magnet(link: String, cid: String) -> (run: Invocation)
    ensures
        run@ == rss2cloud(seq!["magnet"@, "--link"@, link@, "--cid"@, cid@]),
{
    let ghost given_link = link@;
    let ghost given_cid = cid@;
    let mut arguments: Vec<String> = Vec::new();
    arguments.push(String::from_str("magnet"));
    arguments.push(String::from_str("--link"));
    arguments.push(link);
    arguments.push(String::from_str("--cid"));
    arguments.push(cid);
    assert(arguments@.map_values(|argument: String| argument@) =~= seq![
        "magnet"@,
        "--link"@,
        given_link,
        "--cid"@,
        given_cid,
    ]);
    run_tool(arguments)
}

/// Starts the server mode: `rss2cloud server`, followed by `--port <port>`
/// exactly when a port is given.
pub fn start_server(port: Option<String>) -> (run: Invocation)
    ensures
        run@ == rss2cloud(
            start_server_arguments(
                match port {
                    Some(number) => Some(number@),
                    None => None,
                },
            ),
        ),
{
    let mut arguments: Vec<String> = Vec::new();
    arguments.push(String::from_str("server"));
    match port {
        Some(number) => {
            let ghost given = number@;
            arguments.push(String::from_str("--port"));
            arguments.push(number);
            assert(arguments@.map_values(|argument: String| argument@) =~= seq![
                "server"@,
                "--port"@,
                given,
            ]);
        },
        None => {
            assert(arguments@.map_values(|argument: String| argument@) =~= seq!["server"@]);
        },
    }
    run_tool(arguments)
}

/// Lists the folders of the cloud drive: `rss2cloud --list-folders`.
pub fn get_folder_list() -> (run: Invocation)
    ensures
        run@ == rss2cloud(seq!["--list-folders"@]),
{
    let mut arguments: Vec<String> = Vec::new();
    arguments.push(String::from_str("--list-folders"));
    assert(arguments@.map_values(|argument: String| argument@) =~= seq!["--list-folders"@]);
    run_tool(arguments)
}

} // verus!
