//! The tools the agent knows and the catalog offered to the model.

use crate::schema::{
    catalog_wf, schema_wf, ParamType, PropertySchema, ToolDefinition, ToolInputSchema,
};
use crate::text::views;
use vstd::prelude::*;

verus! {

/// Each tool that this library implements.
#[derive(Clone, Copy, Debug, PartialEq, Eq, Structural)]
pub enum ToolKind {
    ReadFile,
    WriteFile,
    ListFiles,
    Exec,
    ProcessStatus,
    Git,
    Glob,
    Grep,
    TokenLookup,
}

/// The name under which a tool is published.
pub open spec fn kind_name(k: ToolKind) -> Seq<char> {
    match k {
        ToolKind::ReadFile => "read_file"@,
        ToolKind::WriteFile => "write_file"@,
        ToolKind::ListFiles => "list_files"@,
        ToolKind::Exec => "exec"@,
        ToolKind::ProcessStatus => "process_status"@,
        ToolKind::Git => "git"@,
        ToolKind::Glob => "glob"@,
        ToolKind::Grep => "grep"@,
        ToolKind::TokenLookup => "token_lookup"@,
    }
}

/// Distinct tools are published under distinct names.
pub proof fn lemma_kind_names_distinct(a: ToolKind, b: ToolKind)
    ensures
        kind_name(a) == kind_name(b) ==> a == b,
{
    reveal_strlit("read_file");
    reveal_strlit("write_file");
    reveal_strlit("list_files");
    reveal_strlit("exec");
    reveal_strlit("process_status");
    reveal_strlit("git");
    reveal_strlit("glob");
    reveal_strlit("grep");
    reveal_strlit("token_lookup");
    if kind_name(a) == kind_name(b) {
        assert(kind_name(a).len() == kind_name(b).len());
        assert(kind_name(a)[0] == kind_name(b)[0]);
        assert(kind_name(a)[1] == kind_name(b)[1]);
    }
}

impl ToolKind {
    /// The name under which this tool is published.
    pub fn name(&self) -> (r: &'static str)
        ensures
            r@ == kind_name(*self),
    {
        match self {
            ToolKind::ReadFile => "read_file",
            ToolKind::WriteFile => "write_file",
            ToolKind::ListFiles => "list_files",
            ToolKind::Exec => "exec",
            ToolKind::ProcessStatus => "process_status",
            ToolKind::Git => "git",
            ToolKind::Glob => "glob",
            ToolKind::Grep => "grep",
            ToolKind::TokenLookup => "token_lookup",
        }
    }
}

/// A property with no default, element type or value limit.
pub fn property(name: &str, schema_type: ParamType, description: &str) -> (r: PropertySchema)
    ensures
        r.name@ == name@,
        r.schema_type == schema_type,
        r.description@ == description@,
        r.default is None,
        r.items is None,
        r.enum_values is None,
{
    PropertySchema {
        name: String::from_str(name),
        schema_type,
        description: String::from_str(description),
        default: None,
        items: None,
        enum_values: None,
    }
}

/// A string property limited to the given values.
pub fn choice_property(name: &str, description: &str, values: Vec<String>) -> (r: PropertySchema)
    ensures
        r.name@ == name@,
        r.schema_type == ParamType::Text,
        r.description@ == description@,
        r.default is None,
        r.items is None,
        r.enum_values == Some(values),
{
    PropertySchema {
        name: String::from_str(name),
        schema_type: ParamType::Text,
        description: String::from_str(description),
        default: None,
        items: None,
        enum_values: Some(values),
    }
}

fn definition(kind: ToolKind, description: &str, properties: Vec<PropertySchema>, required: Vec<String>) -> (r: ToolDefinition)
    ensures
        r.name@ == kind_name(kind),
        r.description@ == description@,
        r.input_schema.properties == properties,
        r.input_schema.required == required,
{
    ToolDefinition {
        name: String::from_str(kind.name()),
        description: String::from_str(description),
        input_schema: ToolInputSchema { properties, required },
    }
}

fn names(items: Vec<&str>) -> (r: Vec<String>)
    ensures
        r@.len() == items@.len(),
        forall|i: int| 0 <= i < items@.len() ==> r@[i]@ == items@[i]@,
{
    let mut r: Vec<String> = Vec::new();
    let mut i: usize = 0;
    while i < items.len()
        invariant
            i <= items@.len(),
            r@.len() == i,
            forall|j: int| 0 <= j < i ==> r@[j]@ == items@[j]@,
        decreases items@.len() - i,
    {
        r.push(String::from_str(items[i]));
        i = i + 1;
    }
    r
}

/// `p` is the parameter `name` of this type and description, with no
/// default, these allowed values if any, and this element type if any.
pub open spec fn is_param(
    p: PropertySchema,
    name: Seq<char>,
    schema_type: ParamType,
    description: Seq<char>,
    allowed: Option<Seq<Seq<char>>>,
    items: Option<ParamType>,
) -> bool {
    &&& p.name@ == name
    &&& p.schema_type == schema_type
    &&& p.description@ == description
    &&& p.default is None
    &&& p.items == items
    &&& match (p.enum_values, allowed) {
        (Some(v), Some(a)) => views(v@) =~= a,
        (None, None) => true,
        _ => false,
    }
}

/// The description and parameters of the `i`-th tool of the
/// code-engineering catalog.
pub open spec fn code_engineer_entry(i: int, d: ToolDefinition) -> bool {
    if i == 0 {
        &&& d.description@ == "Read the contents of a file. Use this to examine existing code or files."@
        &&& d.input_schema.properties@.len() == 1
        &&& views(d.input_schema.required@) =~= seq!["path"@]
        &&& is_param(d.input_schema.properties@[0], "path"@, ParamType::Text, "Path to the file to read (relative to workspace)"@, None, None)
    } else if i == 1 {
        &&& d.description@ == "Create or overwrite a file with the given content. Use this to create new files or completely replace file contents."@
        &&& d.input_schema.properties@.len() == 2
        &&& views(d.input_schema.required@) =~= seq!["path"@, "content"@]
        &&& is_param(d.input_schema.properties@[0], "path"@, ParamType::Text, "Path to the file to write (relative to workspace)"@, None, None)
        &&& is_param(d.input_schema.properties@[1], "content"@, ParamType::Text, "Content to write to the file"@, None, None)
    } else if i == 2 {
        &&& d.description@ == "List files and directories in a path."@
        &&& d.input_schema.properties@.len() == 1
        &&& views(d.input_schema.required@) =~= Seq::<Seq<char>>::empty()
        &&& is_param(d.input_schema.properties@[0], "path"@, ParamType::Text, "Directory path to list (relative to workspace, default: '.')"@, None, None)
    } else if i == 3 {
        &&& d.description@ == "Execute a shell command. Use for npm, cargo, git, and other CLI tools. Commands run in the workspace directory. Use background: true for long-running commands like servers."@
        &&& d.input_schema.properties@.len() == 3
        &&& views(d.input_schema.required@) =~= seq!["command"@]
        &&& is_param(d.input_schema.properties@[0], "command"@, ParamType::Text, "The shell command to execute"@, None, None)
        &&& is_param(d.input_schema.properties@[1], "timeout"@, ParamType::Integer, "Timeout in seconds (default: 60, max: 300)"@, None, None)
        &&& is_param(d.input_schema.properties@[2], "background"@, ParamType::Boolean, "Run command in background, returns immediately with process ID. Use for servers and long-running commands."@, None, None)
    } else if i == 4 {
        &&& d.description@ == "Check status, get output, or manage background processes started with exec background: true."@
        &&& d.input_schema.properties@.len() == 3
        &&& views(d.input_schema.required@) =~= seq!["operation"@]
        &&& is_param(d.input_schema.properties@[0], "operation"@, ParamType::Text, "Operation: status (check process), output (get recent output), kill (terminate), list (show all)"@, Some(seq!["status"@, "output"@, "kill"@, "list"@]), None)
        &&& is_param(d.input_schema.properties@[1], "process_id"@, ParamType::Text, "The process ID (e.g., 'proc_1') from exec background mode"@, None, None)
        &&& is_param(d.input_schema.properties@[2], "lines"@, ParamType::Integer, "Number of output lines to retrieve (default: 50)"@, None, None)
    } else if i == 5 {
        &&& d.description@ == "Execute git operations. Supports: status, diff, log, add, commit, branch, checkout, init."@
        &&& d.input_schema.properties@.len() == 5
        &&& views(d.input_schema.required@) =~= seq!["operation"@]
        &&& is_param(d.input_schema.properties@[0], "operation"@, ParamType::Text, "Git operation to perform"@, Some(seq!["status"@, "diff"@, "log"@, "add"@, "commit"@, "branch"@, "checkout"@, "init"@]), None)
        &&& is_param(d.input_schema.properties@[1], "files"@, ParamType::Array, "Files to operate on (for add, diff)"@, None, Some(ParamType::Text))
        &&& is_param(d.input_schema.properties@[2], "message"@, ParamType::Text, "Commit message (for commit operation)"@, None, None)
        &&& is_param(d.input_schema.properties@[3], "branch"@, ParamType::Text, "Branch name (for checkout, branch)"@, None, None)
        &&& is_param(d.input_schema.properties@[4], "create"@, ParamType::Boolean, "Create new branch (for checkout)"@, None, None)
    } else if i == 6 {
        &&& d.description@ == "Find files matching a glob pattern."@
        &&& d.input_schema.properties@.len() == 1
        &&& views(d.input_schema.required@) =~= seq!["pattern"@]
        &&& is_param(d.input_schema.properties@[0], "pattern"@, ParamType::Text, "Glob pattern like '**/*.ts' or 'src/**/*.js'"@, None, None)
    } else if i == 7 {
        &&& d.description@ == "Search for a pattern in files."@
        &&& d.input_schema.properties@.len() == 2
        &&& views(d.input_schema.required@) =~= seq!["pattern"@]
        &&& is_param(d.input_schema.properties@[0], "pattern"@, ParamType::Text, "Regex pattern to search for"@, None, None)
        &&& is_param(d.input_schema.properties@[1], "path"@, ParamType::Text, "Directory or file to search in"@, None, None)
    } else {
        false
    }
}

/// The tools in the code-engineering catalog, in the order offered.
pub open spec fn code_engineer_kinds() -> Seq<ToolKind> {
    seq![
        ToolKind::ReadFile,
        ToolKind::WriteFile,
        ToolKind::ListFiles,
        ToolKind::Exec,
        ToolKind::ProcessStatus,
        ToolKind::Git,
        ToolKind::Glob,
        ToolKind::Grep,
    ]
}

fn read_file_tool() -> (r: ToolDefinition)
    ensures
        code_engineer_entry(0, r),
        r.name@ == kind_name(ToolKind::ReadFile),
        schema_wf(r.input_schema),
{
    let props = vec![
        property("path", ParamType::Text, "Path to the file to read (relative to workspace)"),
    ];
    let required = names(vec!["path"]);
    definition(
        ToolKind::ReadFile,
        "Read the contents of a file. Use this to examine existing code or files.",
        props,
        required,
    )
}

fn write_file_tool() -> (r: ToolDefinition)
    ensures
        code_engineer_entry(1, r),
        r.name@ == kind_name(ToolKind::WriteFile),
        schema_wf(r.input_schema),
{
    let props = vec![
        property("path", ParamType::Text, "Path to the file to write (relative to workspace)"),
        property("content", ParamType::Text, "Content to write to the file"),
    ];
    let required = names(vec!["path", "content"]);
    let r = definition(
        ToolKind::WriteFile,
        "Create or overwrite a file with the given content. Use this to create new files or completely replace file contents.",
        props,
        required,
    );
    proof {
        reveal_strlit("path");
        reveal_strlit("content");
        assert("path"@.len() == 4);
        assert("content"@.len() == 7);
        assert(r.input_schema.properties@[0].name@ == r.input_schema.required@[0]@);
        assert(r.input_schema.properties@[1].name@ == r.input_schema.required@[1]@);
    }
    r
}

fn list_files_tool() -> (r: ToolDefinition)
    ensures
        code_engineer_entry(2, r),
        r.name@ == kind_name(ToolKind::ListFiles),
        schema_wf(r.input_schema),
{
    let props = vec![
        property("path", ParamType::Text, "Directory path to list (relative to workspace, default: '.')"),
    ];
    let required: Vec<String> = Vec::new();
    definition(ToolKind::ListFiles, "List files and directories in a path.", props, required)
}

fn exec_tool() -> (r: ToolDefinition)
    ensures
        code_engineer_entry(3, r),
        r.name@ == kind_name(ToolKind::Exec),
        schema_wf(r.input_schema),
{
    let props = vec![
        property("command", ParamType::Text, "The shell command to execute"),
        property("timeout", ParamType::Integer, "Timeout in seconds (default: 60, max: 300)"),
        property(
            "background",
            ParamType::Boolean,
            "Run command in background, returns immediately with process ID. Use for servers and long-running commands.",
        ),
    ];
    let required = names(vec!["command"]);
    let r = definition(
        ToolKind::Exec,
        "Execute a shell command. Use for npm, cargo, git, and other CLI tools. Commands run in the workspace directory. Use background: true for long-running commands like servers.",
        props,
        required,
    );
    proof {
        reveal_strlit("command");
        reveal_strlit("timeout");
        reveal_strlit("background");
        assert("command"@.len() == 7);
        assert("timeout"@.len() == 7);
        assert("background"@.len() == 10);
        assert("command"@[0] != "timeout"@[0]);
        assert(r.input_schema.properties@[0].name@ == r.input_schema.required@[0]@);
    }
    r
}

fn process_status_tool() -> (r: ToolDefinition)
    ensures
        code_engineer_entry(4, r),
        r.name@ == kind_name(ToolKind::ProcessStatus),
        schema_wf(r.input_schema),
{
    let ops = names(vec!["status", "output", "kill", "list"]);
    let props = vec![
        choice_property(
            "operation",
            "Operation: status (check process), output (get recent output), kill (terminate), list (show all)",
            ops,
        ),
        property("process_id", ParamType::Text, "The process ID (e.g., 'proc_1') from exec background mode"),
        property("lines", ParamType::Integer, "Number of output lines to retrieve (default: 50)"),
    ];
    let required = names(vec!["operation"]);
    let r = definition(
        ToolKind::ProcessStatus,
        "Check status, get output, or manage background processes started with exec background: true.",
        props,
        required,
    );
    proof {
        reveal_strlit("operation");
        reveal_strlit("process_id");
        reveal_strlit("lines");
        assert("operation"@.len() == 9);
        assert("process_id"@.len() == 10);
        assert("lines"@.len() == 5);
        assert(r.input_schema.properties@[0].name@ == r.input_schema.required@[0]@);
    }
    r
}

fn git_tool() -> (r: ToolDefinition)
    ensures
        code_engineer_entry(5, r),
        r.name@ == kind_name(ToolKind::Git),
        schema_wf(r.input_schema),
{
    let ops = names(vec!["status", "diff", "log", "add", "commit", "branch", "checkout", "init"]);
    let mut files = property("files", ParamType::Array, "Files to operate on (for add, diff)");
    files.items = Some(ParamType::Text);
    let props = vec![
        choice_property("operation", "Git operation to perform", ops),
        files,
        property("message", ParamType::Text, "Commit message (for commit operation)"),
        property("branch", ParamType::Text, "Branch name (for checkout, branch)"),
        property("create", ParamType::Boolean, "Create new branch (for checkout)"),
    ];
    let required = names(vec!["operation"]);
    let r = definition(
        ToolKind::Git,
        "Execute git operations. Supports: status, diff, log, add, commit, branch, checkout, init.",
        props,
        required,
    );
    proof {
        reveal_strlit("operation");
        reveal_strlit("files");
        reveal_strlit("message");
        reveal_strlit("branch");
        reveal_strlit("create");
        assert("operation"@.len() == 9);
        assert("files"@.len() == 5);
        assert("message"@.len() == 7);
        assert("branch"@.len() == 6);
        assert("create"@.len() == 6);
        assert("branch"@[0] != "create"@[0]);
        assert(r.input_schema.properties@[0].name@ == r.input_schema.required@[0]@);
    }
    r
}

fn glob_tool() -> (r: ToolDefinition)
    ensures
        code_engineer_entry(6, r),
        r.name@ == kind_name(ToolKind::Glob),
        schema_wf(r.input_schema),
{
    let props = vec![
        property("pattern", ParamType::Text, "Glob pattern like '**/*.ts' or 'src/**/*.js'"),
    ];
    let required = names(vec!["pattern"]);
    definition(ToolKind::Glob, "Find files matching a glob pattern.", props, required)
}

fn grep_tool() -> (r: ToolDefinition)
    ensures
        code_engineer_entry(7, r),
        r.name@ == kind_name(ToolKind::Grep),
        schema_wf(r.input_schema),
{
    let props = vec![
        property("pattern", ParamType::Text, "Regex pattern to search for"),
        property("path", ParamType::Text, "Directory or file to search in"),
    ];
    let required = names(vec!["pattern"]);
    let r = definition(
        ToolKind::Grep,
        "Search for a pattern in files.",
        props,
        required,
    );
    proof {
        reveal_strlit("pattern");
        reveal_strlit("path");
        assert("pattern"@.len() == 7);
        assert("path"@.len() == 4);
        assert(r.input_schema.properties@[0].name@ == r.input_schema.required@[0]@);
    }
    r
}

/// The code-engineering catalog: file reading, writing and listing, shell
/// execution, background-process management, git, glob and grep.
pub fn get_code_engineer_tools() -> (r: Vec<ToolDefinition>)
    ensures
        catalog_wf(r@),
        r@.len() == code_engineer_kinds().len(),
        forall|i: int| 0 <= i < r@.len() ==> r@[i].name@ == kind_name(#[trigger] code_engineer_kinds()[i]),
        forall|i: int| 0 <= i < r@.len() ==> code_engineer_entry(i, #[trigger] r@[i]),
{
    let r = vec![
        read_file_tool(),
        write_file_tool(),
        list_files_tool(),
        exec_tool(),
        process_status_tool(),
        git_tool(),
        glob_tool(),
        grep_tool(),
    ];
    proof {
        assert forall|i: int, j: int| 0 <= i < j < r@.len() implies r@[i].name@ != r@[j].name@ by {
            lemma_kind_names_distinct(code_engineer_kinds()[i], code_engineer_kinds()[j]);
        }
    }
    r
}

} // verus!
