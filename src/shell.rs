//! The `exec` tool: the guard against foreground server commands, the
//! choice between foreground and background runs, and the texts of their
//! results.

use crate::args::{flag_field, number_field, text_field, ToolArgs};
use crate::effects::CommandOutput;
use crate::process::{label_text, process_label, record_in, spawned, ProcessManager};
use crate::result::{ToolResult, ToolStatus};
use crate::text::{
    contains, decimal, decimal_text, escape_quotes, lower_of, lowercase, quotes_escaped,
    signed_decimal, signed_decimal_text, str_contains,
};
use vstd::prelude::*;

verus! {

/// Command fragments that mark a long-running server.
pub open spec fn server_patterns() -> Seq<Seq<char>> {
    seq![
        "npm start"@,
        "npm run dev"@,
        "npm run serve"@,
        "yarn start"@,
        "yarn dev"@,
        "node index.js"@,
        "node server.js"@,
        "node app.js"@,
        "python -m http.server"@,
        "python manage.py runserver"@,
        "flask run"@,
        "cargo run"@,
        "go run"@,
        "rails server"@,
        "rails s"@,
    ]
}

/// The lower-cased command holds one of the server fragments.
pub open spec fn is_server_text(lowered: Seq<char>) -> bool {
    exists|i: int| 0 <= i < server_patterns().len() && contains(lowered, #[trigger] server_patterns()[i])
}

fn patterns() -> (r: Vec<&'static str>)
    ensures
        r@.len() == server_patterns().len(),
        forall|i: int| 0 <= i < r@.len() ==> (#[trigger] r@[i])@ == server_patterns()[i],
{
    let r = vec![
        "npm start",
        "npm run dev",
        "npm run serve",
        "yarn start",
        "yarn dev",
        "node index.js",
        "node server.js",
        "node app.js",
        "python -m http.server",
        "python manage.py runserver",
        "flask run",
        "cargo run",
        "go run",
        "rails server",
        "rails s",
    ];
    assert forall|i: int| 0 <= i < r@.len() implies (#[trigger] r@[i])@ == server_patterns()[i] by {
    }
    r
}

/// Whether an already lower-cased command looks like a long-running server.
pub fn is_server_lowered(lowered: &str) -> (r: bool)
    ensures
        r == is_server_text(lowered@),
{
    let ps = patterns();
    let mut i: usize = 0;
    while i < ps.len()
        invariant
            ps@.len() == server_patterns().len(),
            forall|k: int| 0 <= k < ps@.len() ==> (#[trigger] ps@[k])@ == server_patterns()[k],
            i <= ps@.len(),
            forall|k: int| 0 <= k < i ==> !contains(lowered@, #[trigger] server_patterns()[k]),
        decreases ps@.len() - i,
    {
        if str_contains(lowered, ps[i]) {
            assert(contains(lowered@, server_patterns()[i as int]));
            return true;
        }
        i = i + 1;
    }
    false
}

/// Whether a command looks like a long-running server, ignoring letter case.
/// A heuristic: a server it does not know passes.
pub fn is_server_command(command: &str) -> (r: bool)
    ensures
        r == is_server_text(lower_of(command@)),
{
    let lowered = lowercase(command);
    is_server_lowered(lowered.as_str())
}

/// The text that refuses a server command run in the foreground and shows
/// how to run it in the background.
pub open spec fn refusal_text(command: Seq<char>) -> Seq<char> {
    "Detected server/long-running command: `"@ + command
        + "`\n\nServer commands run indefinitely and will block or timeout.\nTo run this command, use `background: true` to run it asynchronously.\n\nExample:\n```json\n{\n  \"command\": \""@
        + quotes_escaped(command) + "\",\n  \"background\": true\n}\n```"@
}

fn refusal(command: &str) -> (r: String)
    ensures
        r@ == refusal_text(command@),
{
    let mut r = String::from_str("Detected server/long-running command: `");
    r.append(command);
    r.append(
        "`\n\nServer commands run indefinitely and will block or timeout.\nTo run this command, use `background: true` to run it asynchronously.\n\nExample:\n```json\n{\n  \"command\": \"",
    );
    let escaped = escape_quotes(command);
    r.append(escaped.as_str());
    r.append("\",\n  \"background\": true\n}\n```");
    r
}

/// The foreground time limit a call asks for: 60 seconds by default, at
/// most 300.
pub open spec fn timeout_of(args: ToolArgs) -> u64 {
    match number_field(args, "timeout"@) {
        Some(t) => if t > 300 {
            300
        } else {
            t
        },
        None => 60,
    }
}

/// The command a call names, or the empty command.
pub open spec fn command_of(args: ToolArgs) -> Seq<char> {
    match text_field(args, "command"@) {
        Some(c) => c,
        None => Seq::empty(),
    }
}

/// The call asks for a background run.
pub open spec fn wants_background(args: ToolArgs) -> bool {
    flag_field(args, "background"@) == Some(true)
}

/// What an `exec` call decides.
pub enum ExecPlan {
    /// Refused: the text says why and how to retry.
    Refused(String),
    /// Start the command in the background.
    Background(String),
    /// Run the command in the foreground within this many seconds.
    Foreground(String, u64),
}

/// `p` is what an `exec` call with these arguments decides, given the
/// lower-cased form of its command.
pub open spec fn exec_planned(args: ToolArgs, lowered: Seq<char>, p: ExecPlan) -> bool {
    let command = command_of(args);
    if is_server_text(lowered) && !wants_background(args) {
        p matches ExecPlan::Refused(t) && t@ == refusal_text(command)
    } else if wants_background(args) {
        p matches ExecPlan::Background(c) && c@ == command
    } else {
        p matches ExecPlan::Foreground(c, t) && c@ == command && t == timeout_of(args)
    }
}

/// Decides an `exec` call, given the lower-cased form of its command: a
/// server command in the foreground is refused and never run.
pub fn plan_exec_lowered(args: &ToolArgs, lowered: &str) -> (r: ExecPlan)
    ensures
        exec_planned(*args, lowered@, r),
{
    let command = match args.text("command") {
        Some(c) => c,
        None => String::new(),
    };
    let background = match args.flag("background") {
        Some(b) => b,
        None => false,
    };
    if is_server_lowered(lowered) && !background {
        return ExecPlan::Refused(refusal(command.as_str()));
    }
    if background {
        ExecPlan::Background(command)
    } else {
        let timeout_secs: u64 = match args.number("timeout") {
            Some(t) => if t > 300 {
                300
            } else {
                t
            },
            None => 60,
        };
        ExecPlan::Foreground(command, timeout_secs)
    }
}

/// Decides an `exec` call.
pub fn plan_exec(args: &ToolArgs) -> (r: ExecPlan)
    ensures
        exec_planned(*args, lower_of(command_of(*args)), r),
{
    let command = match args.text("command") {
        Some(c) => c,
        None => String::new(),
    };
    let lowered = lowercase(command.as_str());
    plan_exec_lowered(args, lowered.as_str())
}

/// The text of a finished foreground command: its standard output, then
/// its error output after a marker, or the exit code when both are empty.
pub open spec fn shell_text(stdout: Seq<char>, stderr: Seq<char>, exit_code: Option<i32>) -> Seq<char> {
    let joined = if stderr.len() == 0 {
        stdout
    } else if stdout.len() == 0 {
        stderr
    } else {
        stdout + "\n[stderr]: "@ + stderr
    };
    if joined.len() == 0 {
        "Command completed with exit code "@ + signed_decimal(
            match exit_code {
                Some(c) => c as int,
                None => -1,
            },
        )
    } else {
        joined
    }
}

/// The result of a finished foreground command; an exit code other than
/// zero, or none, is an error.
pub fn shell_result(out: &CommandOutput) -> (r: ToolResult)
    ensures
        r.text@ == shell_text(out.stdout@, out.stderr@, out.exit_code),
        r.status == (if out.exit_code == Some(0i32) {
            ToolStatus::Success
        } else {
            ToolStatus::Error
        }),
{
    let mut text = out.stdout.clone();
    if out.stderr.as_str().unicode_len() > 0 {
        if text.as_str().unicode_len() > 0 {
            text.append("\n[stderr]: ");
        }
        text.append(out.stderr.as_str());
    }
    if text.as_str().unicode_len() == 0 {
        let code: i64 = match out.exit_code {
            Some(c) => c as i64,
            None => -1,
        };
        text = String::from_str("Command completed with exit code ");
        let digits = signed_decimal_text(code);
        text.append(digits.as_str());
    }
    if out.exit_code == Some(0i32) {
        ToolResult::success(text)
    } else {
        ToolResult::error(text)
    }
}

/// The text that announces a started background process.
pub open spec fn started_text(id: u64, pid: u32, command: Seq<char>) -> Seq<char> {
    "Started background process\nProcess ID: "@ + process_label(id) + "\nPID: "@ + decimal(pid as nat)
        + "\nCommand: "@ + command + "\n\nUse `process_status` tool with process_id=\""@ + process_label(id)
        + "\" to check status or get output."@
}

/// Records a process that the operating system started under reserved id
/// `id`, and announces it.
pub fn record_spawn(procs: &mut ProcessManager, id: u64, command: &str, pid: u32) -> (r: ToolResult)
    requires
        old(procs).wf(),
    ensures
        final(procs).wf(),
        final(procs).last_id() == old(procs).last_id(),
        if 1 <= id <= old(procs).last_id() && record_in(old(procs).records(), id) is None {
            &&& spawned(old(procs).records(), final(procs).records(), id, pid, command@)
            &&& r.status == ToolStatus::Success
            &&& r.text@ == started_text(id, pid, command@)
        } else {
            &&& final(procs).records() == old(procs).records()
            &&& r.status == ToolStatus::Error
        },
{
    if procs.spawn(id, pid, String::from_str(command)) {
        let label = label_text(id);
        let mut text = String::from_str("Started background process\nProcess ID: ");
        text.append(label.as_str());
        text.append("\nPID: ");
        let digits = decimal_text(pid as u64);
        text.append(digits.as_str());
        text.append("\nCommand: ");
        text.append(command);
        text.append("\n\nUse `process_status` tool with process_id=\"");
        text.append(label.as_str());
        text.append("\" to check status or get output.");
        ToolResult::success(text)
    } else {
        ToolResult::error(String::from_str("Failed to record background process: its id is not reserved"))
    }
}

} // verus!
