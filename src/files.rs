//! The `read_file`, `write_file` and `list_files` tools: paths are taken
//! relative to the workspace root, and the results rendered for the model.

use crate::args::ToolArgs;
use crate::commands::text_or;
use crate::effects::{DirEntry, WriteFailure};
use crate::result::{ToolResult, ToolStatus};
use crate::text::{decimal, decimal_text, join, joined, sort_texts, sorted, views};
use vstd::prelude::*;

verus! {

/// The path a call names, or `default`.
pub open spec fn path_of(args: ToolArgs, default: Seq<char>) -> Seq<char> {
    text_or(args, "path"@, default)
}

fn text_arg_or(args: &ToolArgs, key: &str, default: &str) -> (r: String)
    ensures
        r@ == text_or(*args, key@, default@),
{
    match args.text(key) {
        Some(t) => t,
        None => String::from_str(default),
    }
}

/// The path of a `read_file` call.
pub fn read_path(args: &ToolArgs) -> (r: String)
    ensures
        r@ == path_of(*args, Seq::empty()),
{
    proof {
        reveal_strlit("");
    }
    text_arg_or(args, "path", "")
}

/// The result of reading a file: its content exactly, or the error.
pub fn read_result(outcome: Result<String, String>) -> (r: ToolResult)
    ensures
        match outcome {
            Ok(c) => r.status == ToolStatus::Success && r.text == c,
            Err(e) => r.status == ToolStatus::Error && r.text@ == "Error reading file: "@ + e@,
        },
{
    match outcome {
        Ok(content) => ToolResult::success(content),
        Err(e) => {
            let mut t = String::from_str("Error reading file: ");
            t.append(e.as_str());
            ToolResult::error(t)
        },
    }
}

/// The path and content of a `write_file` call.
pub fn write_request(args: &ToolArgs) -> (r: (String, String))
    ensures
        r.0@ == path_of(*args, Seq::empty()),
        r.1@ == text_or(*args, "content"@, Seq::empty()),
{
    proof {
        reveal_strlit("");
    }
    (text_arg_or(args, "path", ""), text_arg_or(args, "content", ""))
}

/// The number of bytes that `s` takes in UTF-8.
pub open spec fn utf8_len(s: Seq<char>) -> nat {
    vstd::utf8::encode_utf8(s).len()
}

/// The result of writing `content` to `path`.
pub fn write_result(path: &str, content: &str, outcome: Result<(), WriteFailure>) -> (r: ToolResult)
    ensures
        match outcome {
            Ok(()) => r.status == ToolStatus::Success && r.text@ == "Successfully wrote "@ + decimal(
                utf8_len(content@),
            ) + " bytes to "@ + path@,
            Err(WriteFailure::CreateDirs(e)) => r.status == ToolStatus::Error && r.text@
                == "Error creating directories: "@ + e@,
            Err(WriteFailure::Write(e)) => r.status == ToolStatus::Error && r.text@ == "Error writing file: "@
                + e@,
        },
{
    match outcome {
        Ok(()) => {
            let mut t = String::from_str("Successfully wrote ");
            let digits = decimal_text(content.as_bytes().len() as u64);
            t.append(digits.as_str());
            t.append(" bytes to ");
            t.append(path);
            ToolResult::success(t)
        },
        Err(WriteFailure::CreateDirs(e)) => {
            let mut t = String::from_str("Error creating directories: ");
            t.append(e.as_str());
            ToolResult::error(t)
        },
        Err(WriteFailure::Write(e)) => {
            let mut t = String::from_str("Error writing file: ");
            t.append(e.as_str());
            ToolResult::error(t)
        },
    }
}

/// The directory of a `list_files` call: the workspace root by default.
pub fn list_path(args: &ToolArgs) -> (r: String)
    ensures
        r@ == path_of(*args, "."@),
{
    text_arg_or(args, "path", ".")
}

/// How an entry is shown: directories end with '/'.
pub open spec fn shown(e: DirEntry) -> Seq<char> {
    if e.is_dir {
        e.name@ + "/"@
    } else {
        e.name@
    }
}

/// `text` lists these entries, one per line, sorted.
pub open spec fn is_listing(entries: Seq<DirEntry>, text: Seq<char>) -> bool {
    exists|names: Seq<Seq<char>>|
        sorted(names) && names.to_multiset() == entries.map_values(|e: DirEntry| shown(e)).to_multiset()
            && text == joined(names, "\n"@)
}

/// The result of listing a directory.
pub fn list_result(outcome: Result<Vec<DirEntry>, String>) -> (r: ToolResult)
    ensures
        match outcome {
            Ok(entries) => r.status == ToolStatus::Success && is_listing(entries@, r.text@),
            Err(e) => r.status == ToolStatus::Error && r.text@ == "Error listing directory: "@ + e@,
        },
{
    match outcome {
        Ok(entries) => {
            let mut names: Vec<String> = Vec::new();
            let mut i: usize = 0;
            while i < entries.len()
                invariant
                    i <= entries@.len(),
                    views(names@) == entries@.subrange(0, i as int).map_values(|e: DirEntry| shown(e)),
                decreases entries@.len() - i,
            {
                let e = &entries[i];
                let mut n = e.name.clone();
                if e.is_dir {
                    n.append("/");
                }
                let ghost prev = views(names@);
                let ghost nv = n@;
                names.push(n);
                assert(views(names@) =~= prev.push(nv));
                assert(entries@.subrange(0, i + 1).map_values(|e: DirEntry| shown(e)) =~= entries@.subrange(
                    0,
                    i as int,
                ).map_values(|e: DirEntry| shown(e)).push(shown(entries@[i as int])));
                i = i + 1;
            }
            assert(entries@.subrange(0, entries@.len() as int) =~= entries@);
            let sorted_names = sort_texts(&names);
            let text = join(&sorted_names, "\n");
            assert(sorted(views(sorted_names@)));
            assert(is_listing(entries@, text@));
            ToolResult::success(text)
        },
        Err(e) => {
            let mut t = String::from_str("Error listing directory: ");
            t.append(e.as_str());
            ToolResult::error(t)
        },
    }
}

} // verus!
