//! The `process_status` tool: status, output, kill and list over the table
//! of background processes.

use crate::args::{number_field, text_field, ToolArgs};
use crate::process::{
    as_killed, record_in, spawned, last_lines, output_of, process_label, record_labelled, updated, BackgroundProcess,
    ProcessManager,
};
use crate::effects::{Dispatch, Effect};
use crate::result::{ToolResult, ToolStatus};
use crate::text::{
    decimal, decimal_text, join, joined, preview, preview_text, signed_decimal, signed_decimal_text,
};
use vstd::prelude::*;

verus! {

/// "running" or "completed".
pub open spec fn state_word(p: BackgroundProcess) -> Seq<char> {
    if p.completed {
        "completed"@
    } else {
        "running"@
    }
}

fn state_text(p: &BackgroundProcess) -> (r: &'static str)
    ensures
        r@ == state_word(*p),
{
    if p.completed {
        "completed"
    } else {
        "running"
    }
}

/// The text of a status report.
pub open spec fn status_text(p: BackgroundProcess) -> Seq<char> {
    "Process: "@ + process_label(p.id) + "\nStatus: "@ + state_word(p) + "\nPID: "@ + decimal(p.pid as nat)
        + "\nCommand: "@ + p.command@ + match p.exit_code {
        Some(c) => "\nExit code: "@ + signed_decimal(c as int),
        None => Seq::empty(),
    }
}

/// The text of an output report of these lines.
pub open spec fn output_text(label: Seq<char>, lines: Seq<Seq<char>>) -> Seq<char> {
    "Output from process '"@ + label + "' (last "@ + decimal(lines.len()) + " lines):\n\n"@ + joined(lines, "\n"@)
}

/// One entry of the process list.
pub open spec fn list_entry(p: BackgroundProcess) -> Seq<char> {
    "- "@ + process_label(p.id) + " (PID "@ + decimal(p.pid as nat) + "): "@ + state_word(p) + "\n  Command: "@
        + preview(p.command@, 50) + "\n\n"@
}

/// The entries of the process list, in table order.
pub open spec fn list_entries(records: Seq<BackgroundProcess>) -> Seq<char>
    decreases records.len(),
{
    if records.len() == 0 {
        Seq::empty()
    } else {
        list_entries(records.drop_last()) + list_entry(records.last())
    }
}

/// The text of the process list.
pub open spec fn list_text(records: Seq<BackgroundProcess>) -> Seq<char> {
    if records.len() == 0 {
        "No background processes found."@
    } else {
        "Background processes:\n\n"@ + list_entries(records)
    }
}

/// "Process '<label>' not found".
pub open spec fn not_found_text(label: Seq<char>) -> Seq<char> {
    "Process '"@ + label + "' not found"@
}

/// The number of output lines a call asks for: 50 by default.
pub open spec fn lines_wanted(args: ToolArgs) -> nat {
    match number_field(args, "lines"@) {
        Some(n) => if n > usize::MAX {
            usize::MAX as nat
        } else {
            n as nat
        },
        None => 50,
    }
}

/// The operation a call names: "list" by default.
pub open spec fn operation_of(args: ToolArgs) -> Seq<char> {
    match text_field(args, "operation"@) {
        Some(op) => op,
        None => "list"@,
    }
}

/// `r` is an error whose text is `text`.
pub open spec fn is_error(r: ToolResult, text: Seq<char>) -> bool {
    r.status == ToolStatus::Error && r.text@ == text
}

/// `r` is a success whose text is `text`.
pub open spec fn is_success(r: ToolResult, text: Seq<char>) -> bool {
    r.status == ToolStatus::Success && r.text@ == text
}

/// `p` is what a `process_status` call with these arguments decides over
/// these records.
pub open spec fn status_planned(args: ToolArgs, records: Seq<BackgroundProcess>, p: Dispatch) -> bool {
    let op = operation_of(args);
    let id = text_field(args, "process_id"@);
    if op == "status"@ || op == "output"@ || op == "kill"@ {
        match id {
            None => p matches Dispatch::Done(r) && is_error(
                r,
                "Error: process_id is required for '"@ + op + "' operation"@,
            ),
            Some(label) => match record_labelled(records, label) {
                None => p matches Dispatch::Done(r) && is_error(r, not_found_text(label)),
                Some(rec) => if op == "status"@ {
                    p matches Dispatch::Done(r) && is_success(r, status_text(rec))
                } else if op == "output"@ {
                    p matches Dispatch::Done(r) && if rec.output@.len() == 0 {
                        is_success(r, "No output captured yet for process '"@ + label + "'"@)
                    } else {
                        is_success(r, output_text(label, last_lines(output_of(rec), lines_wanted(args))))
                    }
                } else {
                    p matches Dispatch::Needs(Effect::Kill { id: k }) && k == rec.id
                },
            },
        }
    } else if op == "list"@ {
        p matches Dispatch::Done(r) && is_success(r, list_text(records))
    } else {
        p matches Dispatch::Done(r) && is_error(
            r,
            "Unknown operation '"@ + op + "'. Use: status, output, kill, or list"@,
        )
    }
}

/// A status call on a process that was just spawned answers that it runs,
/// with its pid and command; after a reported kill, that it is completed.
pub proof fn lemma_status_after_spawn_and_kill(
    args: ToolArgs,
    before: Seq<BackgroundProcess>,
    after: Seq<BackgroundProcess>,
    id: u64,
    pid: u32,
    command: Seq<char>,
    running: Dispatch,
    killed: Dispatch,
)
    requires
        record_in(before, id) is None,
        spawned(before, after, id, pid, command),
        operation_of(args) == "status"@,
        text_field(args, "process_id"@) == Some(process_label(id)),
        status_planned(args, after, running),
        status_planned(args, updated(after, id, |p: BackgroundProcess| as_killed(p)), killed),
    ensures
        running matches Dispatch::Done(r) && is_success(
            r,
            "Process: "@ + process_label(id) + "\nStatus: "@ + "running"@ + "\nPID: "@ + decimal(pid as nat) + "\nCommand: "@
                + command,
        ),
        killed matches Dispatch::Done(r) && is_success(
            r,
            "Process: "@ + process_label(id) + "\nStatus: "@ + "completed"@ + "\nPID: "@ + decimal(pid as nat) + "\nCommand: "@
                + command,
        ),
{
    crate::process::lemma_label_after_spawn_and_kill(before, after, id, pid, command);
    reveal_strlit("status");
    reveal_strlit("output");
    reveal_strlit("kill");
    assert("status"@ != "output"@ && "status"@ != "kill"@) by {
        assert("status"@[0] != "output"@[0]);
    }
    let p = record_labelled(after, process_label(id))->0;
    assert(status_text(p) =~= "Process: "@ + process_label(id) + "\nStatus: "@ + "running"@ + "\nPID: "@ + decimal(pid as nat)
        + "\nCommand: "@ + command);
    let q = record_labelled(updated(after, id, |p: BackgroundProcess| as_killed(p)), process_label(id))->0;
    assert(status_text(q) =~= "Process: "@ + process_label(id) + "\nStatus: "@ + "completed"@ + "\nPID: "@ + decimal(pid as nat)
        + "\nCommand: "@ + command);
}

fn append_decimal(text: &mut String, n: u64)
    ensures
        final(text)@ == old(text)@ + decimal(n as nat),
{
    let digits = decimal_text(n);
    text.append(digits.as_str());
}

fn render_status(p: &BackgroundProcess) -> (r: String)
    ensures
        r@ == status_text(*p),
{
    let mut text = String::from_str("Process: ");
    let label = crate::process::label_text(p.id);
    text.append(label.as_str());
    text.append("\nStatus: ");
    text.append(state_text(p));
    text.append("\nPID: ");
    append_decimal(&mut text, p.pid as u64);
    text.append("\nCommand: ");
    text.append(p.command.as_str());
    match p.exit_code {
        Some(c) => {
            text.append("\nExit code: ");
            let digits = signed_decimal_text(c as i64);
            text.append(digits.as_str());
        },
        None => {
            assert(text@ =~= text@ + Seq::<char>::empty());
        },
    }
    text
}

fn render_list(records: &Vec<BackgroundProcess>) -> (r: String)
    ensures
        r@ == list_text(records@),
{
    if records.len() == 0 {
        return String::from_str("No background processes found.");
    }
    let mut text = String::from_str("Background processes:\n\n");
    let mut i: usize = 0;
    while i < records.len()
        invariant
            i <= records@.len(),
            text@ == "Background processes:\n\n"@ + list_entries(records@.subrange(0, i as int)),
        decreases records@.len() - i,
    {
        let p = &records[i];
        let ghost before = text@;
        text.append("- ");
        let label = crate::process::label_text(p.id);
        text.append(label.as_str());
        text.append(" (PID ");
        append_decimal(&mut text, p.pid as u64);
        text.append("): ");
        text.append(state_text(p));
        text.append("\n  Command: ");
        let short = preview_text(p.command.as_str(), 50);
        text.append(short.as_str());
        text.append("\n\n");
        proof {
            let next = records@.subrange(0, i + 1);
            assert(next.drop_last() =~= records@.subrange(0, i as int));
            assert(text@ =~= before + list_entry(records@[i as int]));
        }
        i = i + 1;
    }
    assert(records@.subrange(0, records@.len() as int) =~= records@);
    text
}

fn quoted(prefix: &str, label: &str, suffix: &str) -> (r: String)
    ensures
        r@ == prefix@ + label@ + suffix@,
{
    let mut t = String::from_str(prefix);
    t.append(label);
    t.append(suffix);
    t
}

/// Decides a `process_status` call over the table.
pub fn plan_process_status(args: &ToolArgs, procs: &ProcessManager) -> (r: Dispatch)
    ensures
        status_planned(*args, procs.records(), r),
{
    let op = match args.text("operation") {
        Some(op) => op,
        None => String::from_str("list"),
    };
    let is_status = crate::text::str_eq(op.as_str(), "status");
    let is_output = crate::text::str_eq(op.as_str(), "output");
    let is_kill = crate::text::str_eq(op.as_str(), "kill");
    if is_status || is_output || is_kill {
        let label = match args.text("process_id") {
            Some(l) => l,
            None => {
                return Dispatch::Done(ToolResult::error(quoted("Error: process_id is required for '", op.as_str(), "' operation")));
            },
        };
        let i = match procs.position_of_label(label.as_str()) {
            Some(i) => i,
            None => {
                return Dispatch::Done(ToolResult::error(quoted("Process '", label.as_str(), "' not found")));
            },
        };
        let p = &procs.processes()[i];
        if is_status {
            Dispatch::Done(ToolResult::success(render_status(p)))
        } else if is_output {
            if p.output.len() == 0 {
                Dispatch::Done(ToolResult::success(quoted("No output captured yet for process '", label.as_str(), "'")))
            } else {
                let wanted: usize = match args.number("lines") {
                    Some(n) => if n > usize::MAX as u64 {
                        usize::MAX
                    } else {
                        n as usize
                    },
                    None => 50,
                };
                let lines = crate::process::last_of(&p.output, wanted);
                let mut text = quoted("Output from process '", label.as_str(), "' (last ");
                append_decimal(&mut text, lines.len() as u64);
                text.append(" lines):\n\n");
                let body = join(&lines, "\n");
                text.append(body.as_str());
                Dispatch::Done(ToolResult::success(text))
            }
        } else {
            Dispatch::Needs(Effect::Kill { id: p.id })
        }
    } else if crate::text::str_eq(op.as_str(), "list") {
        Dispatch::Done(ToolResult::success(render_list(procs.processes())))
    } else {
        Dispatch::Done(ToolResult::error(quoted("Unknown operation '", op.as_str(), "'. Use: status, output, kill, or list")))
    }
}

/// Settles a kill once the operating system has answered: on success the
/// record is marked completed, whether or not the process is gone yet.
pub fn finish_kill(procs: &mut ProcessManager, id: u64, outcome: Result<(), String>) -> (r: ToolResult)
    requires
        old(procs).wf(),
    ensures
        final(procs).wf(),
        final(procs).last_id() == old(procs).last_id(),
        match outcome {
            Ok(()) => final(procs).records() == updated(old(procs).records(), id, |p: BackgroundProcess| as_killed(p))
                && is_success(r, "Process '"@ + process_label(id) + "' has been killed"@),
            Err(e) => final(procs).records() == old(procs).records() && is_error(
                r,
                "Failed to kill process '"@ + process_label(id) + "': "@ + e@,
            ),
        },
{
    let label = crate::process::label_text(id);
    match outcome {
        Ok(()) => {
            procs.mark_killed(id);
            ToolResult::success(quoted("Process '", label.as_str(), "' has been killed"))
        },
        Err(e) => {
            let mut t = quoted("Failed to kill process '", label.as_str(), "': ");
            t.append(e.as_str());
            ToolResult::error(t)
        },
    }
}

} // verus!
