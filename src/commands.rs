//! The `git`, `glob` and `grep` tools: each runs one program in the
//! workspace with arguments built from the call, and renders its output.

use crate::args::{flag_field, list_field, text_field, ToolArgs};
use crate::effects::{CommandOutput, Dispatch, Effect};
use crate::result::{ToolResult, ToolStatus};
use crate::text::{decimal, decimal_text, views};
use vstd::prelude::*;

verus! {

/// The text of field `key`, or `default`.
pub open spec fn text_or(args: ToolArgs, key: Seq<char>, default: Seq<char>) -> Seq<char> {
    match text_field(args, key) {
        Some(t) => t,
        None => default,
    }
}

/// The git operation a call names, or the empty operation.
pub open spec fn git_operation(args: ToolArgs) -> Seq<char> {
    text_or(args, "operation"@, Seq::empty())
}

/// The files a `git add` call names.
pub open spec fn git_files(args: ToolArgs) -> Seq<Seq<char>> {
    match list_field(args, "files"@) {
        Some(f) => f,
        None => Seq::empty(),
    }
}

/// The arguments that `git` runs with for a call, or `None` when the call
/// is refused.
pub open spec fn git_argv(args: ToolArgs) -> Option<Seq<Seq<char>>> {
    let op = git_operation(args);
    if op == "status"@ {
        Some(seq!["status"@, "--porcelain"@])
    } else if op == "diff"@ {
        Some(seq!["diff"@])
    } else if op == "log"@ {
        Some(seq!["log"@, "--oneline"@, "-10"@])
    } else if op == "init"@ {
        Some(seq!["init"@])
    } else if op == "add"@ {
        if git_files(args).len() == 0 {
            None
        } else {
            Some(seq!["add"@] + git_files(args))
        }
    } else if op == "commit"@ {
        Some(seq!["commit"@, "-m"@, text_or(args, "message"@, "Update"@)])
    } else if op == "branch"@ {
        match text_field(args, "branch"@) {
            Some(b) => Some(seq!["branch"@, b]),
            None => Some(seq!["branch"@, "-a"@]),
        }
    } else if op == "checkout"@ {
        let b = text_or(args, "branch"@, "main"@);
        if flag_field(args, "create"@) == Some(true) {
            Some(seq!["checkout"@, "-b"@, b])
        } else {
            Some(seq!["checkout"@, b])
        }
    } else {
        None
    }
}

/// The text of a refused git call.
pub open spec fn git_refusal(args: ToolArgs) -> Seq<char> {
    let op = git_operation(args);
    if op == "add"@ {
        "Error: No files specified for git add"@
    } else {
        "Unknown git operation: "@ + op
    }
}

fn push_text(v: &mut Vec<String>, s: &str)
    ensures
        views(final(v)@) == views(old(v)@).push(s@),
{
    let t = String::from_str(s);
    v.push(t);
    assert(views(v@) =~= views(old(v)@).push(s@));
}

fn push_owned(v: &mut Vec<String>, s: String)
    ensures
        views(final(v)@) == views(old(v)@).push(s@),
{
    let ghost t = s@;
    v.push(s);
    assert(views(v@) =~= views(old(v)@).push(t));
}

fn no_texts() -> (r: Vec<String>)
    ensures
        views(r@) == Seq::<Seq<char>>::empty(),
{
    let r: Vec<String> = Vec::new();
    assert(views(r@) =~= Seq::<Seq<char>>::empty());
    r
}

fn argv1(a: &str) -> (r: Vec<String>)
    ensures
        views(r@) == seq![a@],
{
    let mut v = no_texts();
    push_text(&mut v, a);
    v
}

fn argv2(a: &str, b: &str) -> (r: Vec<String>)
    ensures
        views(r@) == seq![a@, b@],
{
    let mut v = argv1(a);
    push_text(&mut v, b);
    v
}

fn argv3(a: &str, b: &str, c: &str) -> (r: Vec<String>)
    ensures
        views(r@) == seq![a@, b@, c@],
{
    let mut v = argv2(a, b);
    push_text(&mut v, c);
    v
}

/// Decides a `git` call.
pub fn plan_git(args: &ToolArgs) -> (r: Dispatch)
    ensures
        match git_argv(*args) {
            Some(argv) => r matches Dispatch::Needs(Effect::Run { program: p, args: v }) && p@ == "git"@ && views(v@) == argv,
            None => r matches Dispatch::Done(t) && t.status == ToolStatus::Error && t.text@ == git_refusal(*args),
        },
{
    let op = match args.text("operation") {
        Some(op) => op,
        None => String::new(),
    };
    let o = op.as_str();
    let v = if crate::text::str_eq(o, "status") {
        argv2("status", "--porcelain")
    } else if crate::text::str_eq(o, "diff") {
        argv1("diff")
    } else if crate::text::str_eq(o, "log") {
        argv3("log", "--oneline", "-10")
    } else if crate::text::str_eq(o, "init") {
        argv1("init")
    } else if crate::text::str_eq(o, "add") {
        let files = match args.texts("files") {
            Some(f) => f,
            None => Vec::new(),
        };
        if files.len() == 0 {
            return Dispatch::Done(ToolResult::error(String::from_str("Error: No files specified for git add")));
        }
        let mut v = argv1("add");
        let mut i: usize = 0;
        while i < files.len()
            invariant
                i <= files@.len(),
                views(v@) == seq!["add"@] + views(files@).subrange(0, i as int),
            decreases files@.len() - i,
        {
            let ghost prev = views(v@);
            let f = files[i].clone();
            push_owned(&mut v, f);
            assert(views(v@) =~= prev.push(f@));
            assert(seq!["add"@] + views(files@).subrange(0, i + 1) =~= (seq!["add"@] + views(files@).subrange(
                0,
                i as int,
            )).push(f@));
            i = i + 1;
        }
        assert(views(files@).subrange(0, files@.len() as int) =~= views(files@));
        v
    } else if crate::text::str_eq(o, "commit") {
        let message = match args.text("message") {
            Some(m) => m,
            None => String::from_str("Update"),
        };
        let mut v = argv2("commit", "-m");
        push_owned(&mut v, message);
        v
    } else if crate::text::str_eq(o, "branch") {
        match args.text("branch") {
            Some(b) => {
                let mut v = argv1("branch");
                push_owned(&mut v, b);
                v
            },
            None => argv2("branch", "-a"),
        }
    } else if crate::text::str_eq(o, "checkout") {
        let branch = match args.text("branch") {
            Some(b) => b,
            None => String::from_str("main"),
        };
        let create = match args.flag("create") {
            Some(c) => c,
            None => false,
        };
        let mut v = if create {
            argv2("checkout", "-b")
        } else {
            argv1("checkout")
        };
        push_owned(&mut v, branch);
        v
    } else {
        let mut t = String::from_str("Unknown git operation: ");
        t.append(o);
        return Dispatch::Done(ToolResult::error(t));
    };
    proof {
        assert(views(v@) =~= git_argv(*args)->0);
    }
    Dispatch::Needs(Effect::Run { program: String::from_str("git"), args: v })
}

/// The text of a finished git run: a staged `add` reports how many files it
/// staged; a failed one, like a commit, reports what git printed.
pub open spec fn git_text(args: ToolArgs, stdout: Seq<char>, stderr: Seq<char>, exit_code: Option<i32>) -> Seq<char> {
    let op = git_operation(args);
    if op == "add"@ && exit_code == Some(0i32) {
        "Staged "@ + decimal(git_files(args).len()) + " file(s)"@
    } else if op == "commit"@ || op == "add"@ {
        stdout + stderr
    } else if stdout.len() == 0 && stderr.len() == 0 {
        "Git "@ + op + " completed successfully"@
    } else {
        stdout + stderr
    }
}

/// The result of a git run; an exit code other than zero is an error.
pub fn git_result(args: &ToolArgs, outcome: Result<CommandOutput, String>) -> (r: ToolResult)
    ensures
        match outcome {
            Ok(out) => r.text@ == git_text(*args, out.stdout@, out.stderr@, out.exit_code) && r.status == (if out.exit_code
                == Some(0i32) {
                ToolStatus::Success
            } else {
                ToolStatus::Error
            }),
            Err(e) => r.status == ToolStatus::Error && r.text@ == "Git error: "@ + e@,
        },
{
    match outcome {
        Ok(out) => {
            let op = match args.text("operation") {
                Some(op) => op,
                None => String::new(),
            };
            let is_add = crate::text::str_eq(op.as_str(), "add");
            let text = if is_add && out.exit_code == Some(0i32) {
                let n = match args.texts("files") {
                    Some(f) => f.len(),
                    None => 0,
                };
                let mut t = String::from_str("Staged ");
                let digits = decimal_text(n as u64);
                t.append(digits.as_str());
                t.append(" file(s)");
                t
            } else if !is_add && !crate::text::str_eq(op.as_str(), "commit") && out.stdout.as_str().unicode_len() == 0
                && out.stderr.as_str().unicode_len() == 0 {
                let mut t = String::from_str("Git ");
                t.append(op.as_str());
                t.append(" completed successfully");
                t
            } else {
                let mut t = out.stdout.clone();
                t.append(out.stderr.as_str());
                t
            };
            if out.exit_code == Some(0i32) {
                ToolResult::success(text)
            } else {
                ToolResult::error(text)
            }
        },
        Err(e) => {
            let mut t = String::from_str("Git error: ");
            t.append(e.as_str());
            ToolResult::error(t)
        },
    }
}

/// The arguments that `find` runs with for a `glob` call.
pub open spec fn glob_argv(args: ToolArgs) -> Seq<Seq<char>> {
    seq!["."@, "-name"@, text_or(args, "pattern"@, "*"@), "-type"@, "f"@]
}

/// Builds the `find` arguments of a `glob` call.
pub fn plan_glob(args: &ToolArgs) -> (r: Vec<String>)
    ensures
        views(r@) == glob_argv(*args),
{
    let pattern = match args.text("pattern") {
        Some(p) => p,
        None => String::from_str("*"),
    };
    let mut v = argv2(".", "-name");
    push_owned(&mut v, pattern);
    push_text(&mut v, "-type");
    push_text(&mut v, "f");
    assert(views(v@) =~= glob_argv(*args));
    v
}

/// The arguments that `grep` runs with for a `grep` call.
pub open spec fn grep_argv(args: ToolArgs) -> Seq<Seq<char>> {
    seq!["-rn"@, text_or(args, "pattern"@, Seq::empty()), text_or(args, "path"@, "."@)]
}

/// Builds the `grep` arguments of a `grep` call.
pub fn plan_grep(args: &ToolArgs) -> (r: Vec<String>)
    ensures
        views(r@) == grep_argv(*args),
{
    let pattern = match args.text("pattern") {
        Some(p) => p,
        None => String::new(),
    };
    let path = match args.text("path") {
        Some(p) => p,
        None => String::from_str("."),
    };
    let mut v = argv1("-rn");
    push_owned(&mut v, pattern);
    push_owned(&mut v, path);
    assert(views(v@) =~= grep_argv(*args));
    v
}

/// The result of a search run: its standard output, or `empty_text` when it
/// printed nothing.
pub fn search_result(outcome: Result<CommandOutput, String>, empty_text: &str) -> (r: ToolResult)
    ensures
        match outcome {
            Ok(out) => r.status == ToolStatus::Success && r.text@ == (if out.stdout@.len() == 0 {
                empty_text@
            } else {
                out.stdout@
            }),
            Err(e) => r.status == ToolStatus::Error && r.text@ == "Error: "@ + e@,
        },
{
    match outcome {
        Ok(out) => {
            if out.stdout.as_str().unicode_len() == 0 {
                ToolResult::success(String::from_str(empty_text))
            } else {
                ToolResult::success(out.stdout)
            }
        },
        Err(e) => {
            let mut t = String::from_str("Error: ");
            t.append(e.as_str());
            ToolResult::error(t)
        },
    }
}

} // verus!
