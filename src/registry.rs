//! The tool registry: a well-formed catalog, dispatch of a tool call to the
//! tool it names, and the completion of calls that needed outside work.

use crate::args::{decoded_args, ToolArgs};
use crate::catalog::{get_code_engineer_tools, kind_name, ToolKind};
use crate::commands::{git_argv, git_refusal, git_text, glob_argv, grep_argv, plan_git, plan_glob, plan_grep, search_result, git_result};
use crate::effects::{CommandOutput, Dispatch, Effect, Outcome};
use crate::files::{is_listing, list_path, list_result, path_of, read_path, read_result, utf8_len, write_request, write_result};
use crate::message::ToolCallRequest;
use crate::process::{as_killed, process_label, record_in, spawned, updated, BackgroundProcess, ProcessManager};
use crate::process_tool::{finish_kill, plan_process_status, status_planned};
use crate::registers::{RegisterEntry, RegisterStore};
use crate::result::{ToolResult, ToolStatus};
use crate::schema::{args_valid, catalog_wf, schema_wf, validate, ArgError, ParamType, ToolDefinition};
use crate::shell::{command_of, plan_exec, record_spawn, refusal_text, shell_result, shell_text, started_text, timeout_of, wants_background, is_server_text, ExecPlan};
use crate::text::{lower_of, str_eq};
use crate::token_lookup::{lookup_call, TokenLookupTool, TokenTable};
use vstd::prelude::*;

verus! {

/// The tool published under `name`, if any.
pub open spec fn kind_of_name(name: Seq<char>) -> Option<ToolKind> {
    if name == kind_name(ToolKind::ReadFile) {
        Some(ToolKind::ReadFile)
    } else if name == kind_name(ToolKind::WriteFile) {
        Some(ToolKind::WriteFile)
    } else if name == kind_name(ToolKind::ListFiles) {
        Some(ToolKind::ListFiles)
    } else if name == kind_name(ToolKind::Exec) {
        Some(ToolKind::Exec)
    } else if name == kind_name(ToolKind::ProcessStatus) {
        Some(ToolKind::ProcessStatus)
    } else if name == kind_name(ToolKind::Git) {
        Some(ToolKind::Git)
    } else if name == kind_name(ToolKind::Glob) {
        Some(ToolKind::Glob)
    } else if name == kind_name(ToolKind::Grep) {
        Some(ToolKind::Grep)
    } else if name == kind_name(ToolKind::TokenLookup) {
        Some(ToolKind::TokenLookup)
    } else {
        None
    }
}

fn kind_named(name: &str) -> (r: Option<ToolKind>)
    ensures
        r == kind_of_name(name@),
{
    if str_eq(name, ToolKind::ReadFile.name()) {
        Some(ToolKind::ReadFile)
    } else if str_eq(name, ToolKind::WriteFile.name()) {
        Some(ToolKind::WriteFile)
    } else if str_eq(name, ToolKind::ListFiles.name()) {
        Some(ToolKind::ListFiles)
    } else if str_eq(name, ToolKind::Exec.name()) {
        Some(ToolKind::Exec)
    } else if str_eq(name, ToolKind::ProcessStatus.name()) {
        Some(ToolKind::ProcessStatus)
    } else if str_eq(name, ToolKind::Git.name()) {
        Some(ToolKind::Git)
    } else if str_eq(name, ToolKind::Glob.name()) {
        Some(ToolKind::Glob)
    } else if str_eq(name, ToolKind::Grep.name()) {
        Some(ToolKind::Grep)
    } else if str_eq(name, ToolKind::TokenLookup.name()) {
        Some(ToolKind::TokenLookup)
    } else {
        None
    }
}

/// The first definition in `catalog` named `name`.
pub open spec fn definition_named(catalog: Seq<ToolDefinition>, name: Seq<char>) -> Option<ToolDefinition>
    decreases catalog.len(),
{
    if catalog.len() == 0 {
        None
    } else if catalog[0].name@ == name {
        Some(catalog[0])
    } else {
        definition_named(catalog.drop_first(), name)
    }
}

/// How a parameter type is named in messages.
pub open spec fn type_word(t: ParamType) -> Seq<char> {
    match t {
        ParamType::Text => "a string"@,
        ParamType::Integer => "an integer"@,
        ParamType::Boolean => "a boolean"@,
        ParamType::Array => "an array"@,
    }
}

/// What an argument error says.
pub open spec fn arg_error_text(e: ArgError) -> Seq<char> {
    match e {
        ArgError::NotAnObject => "expected a JSON object"@,
        ArgError::Missing(n) => "missing required field `"@ + n@ + "`"@,
        ArgError::WrongType(n, t) => "field `"@ + n@ + "` must be "@ + type_word(t),
        ArgError::NotAllowed(n, v) => "field `"@ + n@ + "` does not allow `"@ + v@ + "`"@,
    }
}

/// The text of a call whose arguments do not fit the tool.
pub open spec fn invalid_text(name: Seq<char>, e: ArgError) -> Seq<char> {
    "Invalid arguments for "@ + name + ": "@ + arg_error_text(e)
}

/// Why a catalog is refused.
#[derive(Debug)]
pub enum CatalogError {
    /// Two tools share this name.
    DuplicateTool(String),
    /// A tool declares this property twice.
    DuplicateProperty(String, String),
    /// A tool requires a property it does not declare.
    UndeclaredRequired(String, String),
}

/// `e` names a real fault of tool `tool`'s own contract.
pub open spec fn tool_fault(tool: ToolDefinition, e: CatalogError) -> bool {
    let props = tool.input_schema.properties@;
    let required = tool.input_schema.required@;
    match e {
        CatalogError::DuplicateTool(_) => false,
        CatalogError::DuplicateProperty(t, p) => t@ == tool.name@ && exists|a: int, b: int|
            0 <= a < b < props.len() && props[a].name@ == p@ && props[b].name@ == p@,
        CatalogError::UndeclaredRequired(t, n) => t@ == tool.name@ && exists|k: int|
            0 <= k < required.len() && required[k]@ == n@ && !crate::schema::declares(tool.input_schema, n@),
    }
}

/// `e` names a real fault of `tools`.
pub open spec fn catalog_fault(tools: Seq<ToolDefinition>, e: CatalogError) -> bool {
    match e {
        CatalogError::DuplicateTool(n) => exists|i: int, j: int|
            0 <= i < j < tools.len() && tools[i].name@ == n@ && tools[j].name@ == n@,
        _ => exists|i: int| 0 <= i < tools.len() && tool_fault(tools[i], e),
    }
}

/// A catalog of tools, resolved once, and the tools' implementations.
pub struct Registry {
    tools: Vec<ToolDefinition>,
    token_lookup: TokenLookupTool,
}

/// The result of a call that was refused before any work: an error with
/// this text, and nothing else changed.
pub open spec fn refused_with(
    d: Dispatch,
    text: Seq<char>,
    regs0: Seq<RegisterEntry>,
    regs1: Seq<RegisterEntry>,
    procs0: ProcessManager,
    procs1: ProcessManager,
) -> bool {
    &&& d matches Dispatch::Done(r) && r.status == ToolStatus::Error && r.text@ == text
    &&& regs1 == regs0
    &&& procs1 == procs0
}

/// What dispatching a valid call to tool `kind` does. A background run
/// reserves the next process id; if the process then fails to start,
/// [`completed`] gives the id back while it is still the last one.
pub open spec fn tool_dispatched(
    kind: ToolKind,
    args: ToolArgs,
    table: TokenTable,
    regs0: Seq<RegisterEntry>,
    regs1: Seq<RegisterEntry>,
    procs0: ProcessManager,
    procs1: ProcessManager,
    d: Dispatch,
) -> bool {
    match kind {
        ToolKind::TokenLookup => procs1 == procs0 && (d matches Dispatch::Done(r) && lookup_call(
            table,
            args,
            match crate::args::text_field(args, "symbol"@) {
                Some(s) => crate::text::upper_of(s),
                None => Seq::empty(),
            },
            regs0,
            regs1,
            r,
        )),
        ToolKind::Exec => {
            let command = command_of(args);
            &&& regs1 == regs0
            &&& if is_server_text(lower_of(command)) && !wants_background(args) {
                d matches Dispatch::Done(r) && r.status == ToolStatus::Error && r.text@ == refusal_text(command)
                    && procs1 == procs0
            } else if wants_background(args) {
                if procs0.last_id() < u64::MAX {
                    &&& d matches Dispatch::Needs(Effect::Spawn { command: c, id }) && c@ == command && id
                        == procs0.last_id() + 1
                    &&& procs1.records() == procs0.records()
                    &&& procs1.last_id() == procs0.last_id() + 1
                } else {
                    d matches Dispatch::Done(r) && r.status == ToolStatus::Error && procs1 == procs0
                }
            } else {
                d matches Dispatch::Needs(Effect::Shell { command: c, timeout_secs: t }) && c@ == command && t
                    == timeout_of(args) && procs1 == procs0
            }
        },
        _ => {
            &&& regs1 == regs0
            &&& procs1 == procs0
            &&& match kind {
                ToolKind::ReadFile => d matches Dispatch::Needs(Effect::ReadFile { path }) && path@ == path_of(
                    args,
                    Seq::empty(),
                ),
                ToolKind::WriteFile => d matches Dispatch::Needs(Effect::WriteFile { path, content }) && path@
                    == path_of(args, Seq::empty()) && content@ == crate::commands::text_or(
                    args,
                    "content"@,
                    Seq::empty(),
                ),
                ToolKind::ListFiles => d matches Dispatch::Needs(Effect::ListDir { path }) && path@ == path_of(
                    args,
                    "."@,
                ),
                ToolKind::ProcessStatus => status_planned(args, procs0.records(), d),
                ToolKind::Git => match git_argv(args) {
                    Some(argv) => d matches Dispatch::Needs(Effect::Run { program, args: v }) && program@
                        == "git"@ && crate::text::views(v@) == argv,
                    None => d matches Dispatch::Done(r) && r.status == ToolStatus::Error && r.text@
                        == git_refusal(args),
                },
                ToolKind::Glob => d matches Dispatch::Needs(Effect::Run { program, args: v }) && program@
                    == "find"@ && crate::text::views(v@) == glob_argv(args),
                _ => d matches Dispatch::Needs(Effect::Run { program, args: v }) && program@ == "grep"@
                    && crate::text::views(v@) == grep_argv(args),
            }
        },
    }
}

impl Registry {
    /// The catalog, in the order offered to the model.
    pub closed spec fn catalog(&self) -> Seq<ToolDefinition> {
        self.tools@
    }

    /// The table that token lookups consult.
    pub closed spec fn tokens(&self) -> TokenTable {
        self.token_lookup.table()
    }

    /// Tool names are unique and each tool's required parameters are
    /// declared.
    pub open spec fn wf(&self) -> bool {
        catalog_wf(self.catalog())
    }

    /// What dispatching `call` does.
    pub open spec fn dispatched(
        &self,
        call: ToolCallRequest,
        regs0: Seq<RegisterEntry>,
        regs1: Seq<RegisterEntry>,
        procs0: ProcessManager,
        procs1: ProcessManager,
        d: Dispatch,
    ) -> bool {
        let name = call.name@;
        match definition_named(self.catalog(), name) {
            None => refused_with(d, "Unknown tool: "@ + name, regs0, regs1, procs0, procs1),
            Some(def) => match kind_of_name(name) {
                None => refused_with(d, "Tool '"@ + name + "' has no implementation"@, regs0, regs1, procs0, procs1),
                Some(kind) => match decoded_args(call.arguments@) {
                    None => refused_with(d, invalid_text(name, ArgError::NotAnObject), regs0, regs1, procs0, procs1),
                    Some(args) => if args_valid(def.input_schema, args) {
                        tool_dispatched(kind, args, self.tokens(), regs0, regs1, procs0, procs1, d)
                    } else {
                        exists|e: ArgError|
                            crate::schema::describes(def.input_schema, args, e) && refused_with(
                                d,
                                invalid_text(name, e),
                                regs0,
                                regs1,
                                procs0,
                                procs1,
                            )
                    },
                },
            },
        }
    }
}

/// The text of an outcome that does not answer the work requested.
pub open spec fn mismatch_text() -> Seq<char> {
    "No result arrived for the requested work"@
}

/// What completing a call of tool `kind`, whose arguments decoded to
/// `args`, does once `effect` came back with `outcome`.
pub open spec fn completed(
    kind: Option<ToolKind>,
    args: Option<ToolArgs>,
    effect: Effect,
    outcome: Outcome,
    procs0: ProcessManager,
    procs1: ProcessManager,
    r: ToolResult,
) -> bool {
    match effect {
        Effect::Spawn { command, id } => match outcome {
            Outcome::Spawned(Ok(pid)) => {
                &&& procs1.last_id() == procs0.last_id()
                &&& if 1 <= id <= procs0.last_id() && record_in(procs0.records(), id) is None {
                    &&& spawned(procs0.records(), procs1.records(), id, pid, command@)
                    &&& r.status == ToolStatus::Success
                    &&& r.text@ == started_text(id, pid, command@)
                } else {
                    procs1.records() == procs0.records() && r.status == ToolStatus::Error
                }
            },
            Outcome::Spawned(Err(e)) => {
                &&& procs1.records() == procs0.records()
                &&& procs1.last_id() == (if id >= 1 && id == procs0.last_id() && record_in(procs0.records(), id) is None {
                    (id - 1) as u64
                } else {
                    procs0.last_id()
                })
                &&& r.status == ToolStatus::Error
                &&& r.text@ == "Failed to start background process: "@ + e@
            },
            _ => procs1 == procs0 && r.status == ToolStatus::Error && r.text@ == mismatch_text(),
        },
        Effect::Kill { id } => match outcome {
            Outcome::Killed(Ok(())) => {
                &&& procs1.last_id() == procs0.last_id()
                &&& procs1.records() == updated(procs0.records(), id, |p: BackgroundProcess| as_killed(p))
                &&& r.status == ToolStatus::Success
                &&& r.text@ == "Process '"@ + process_label(id) + "' has been killed"@
            },
            Outcome::Killed(Err(e)) => {
                &&& procs1.last_id() == procs0.last_id()
                &&& procs1.records() == procs0.records()
                &&& r.status == ToolStatus::Error
                &&& r.text@ == "Failed to kill process '"@ + process_label(id) + "': "@ + e@
            },
            _ => procs1 == procs0 && r.status == ToolStatus::Error && r.text@ == mismatch_text(),
        },
        _ => procs1 == procs0 && match (effect, outcome) {
            (Effect::ReadFile { .. }, Outcome::Read(Ok(c))) => r.status == ToolStatus::Success && r.text == c,
            (Effect::ReadFile { .. }, Outcome::Read(Err(e))) => r.status == ToolStatus::Error && r.text@
                == "Error reading file: "@ + e@,
            (Effect::WriteFile { path, content }, Outcome::Written(Ok(()))) => r.status == ToolStatus::Success
                && r.text@ == "Successfully wrote "@ + crate::text::decimal(utf8_len(content@)) + " bytes to "@
                + path@,
            (Effect::WriteFile { .. }, Outcome::Written(Err(crate::effects::WriteFailure::CreateDirs(e)))) => r.status
                == ToolStatus::Error && r.text@ == "Error creating directories: "@ + e@,
            (Effect::WriteFile { .. }, Outcome::Written(Err(crate::effects::WriteFailure::Write(e)))) => r.status
                == ToolStatus::Error && r.text@ == "Error writing file: "@ + e@,
            (Effect::ListDir { .. }, Outcome::Listed(Ok(entries))) => r.status == ToolStatus::Success && is_listing(
                entries@,
                r.text@,
            ),
            (Effect::ListDir { .. }, Outcome::Listed(Err(e))) => r.status == ToolStatus::Error && r.text@
                == "Error listing directory: "@ + e@,
            (Effect::Shell { .. }, Outcome::Ran(Ok(out))) => r.text@ == shell_text(
                out.stdout@,
                out.stderr@,
                out.exit_code,
            ) && r.status == (if out.exit_code == Some(0i32) {
                ToolStatus::Success
            } else {
                ToolStatus::Error
            }),
            (Effect::Shell { .. }, Outcome::Ran(Err(e))) => r.status == ToolStatus::Error && r.text@
                == "Failed to execute command: "@ + e@,
            (Effect::Run { .. }, Outcome::Ran(o)) => match (kind, args) {
                (Some(ToolKind::Git), Some(a)) => match o {
                    Ok(out) => r.text@ == git_text(a, out.stdout@, out.stderr@, out.exit_code) && r.status == (if out.exit_code
                        == Some(0i32) {
                        ToolStatus::Success
                    } else {
                        ToolStatus::Error
                    }),
                    Err(e) => r.status == ToolStatus::Error && r.text@ == "Git error: "@ + e@,
                },
                (Some(ToolKind::Glob), _) => searched(o, "No files found matching pattern"@, r),
                (Some(ToolKind::Grep), _) => searched(o, "No matches found"@, r),
                _ => r.status == ToolStatus::Error && r.text@ == mismatch_text(),
            },
            _ => r.status == ToolStatus::Error && r.text@ == mismatch_text(),
        },
    }
}

/// The result of a search run: its output, or `empty_text` when it printed
/// nothing.
pub open spec fn searched(o: Result<CommandOutput, String>, empty_text: Seq<char>, r: ToolResult) -> bool {
    match o {
        Ok(out) => r.status == ToolStatus::Success && r.text@ == (if out.stdout@.len() == 0 {
            empty_text
        } else {
            out.stdout@
        }),
        Err(e) => r.status == ToolStatus::Error && r.text@ == "Error: "@ + e@,
    }
}

fn mismatch() -> (r: ToolResult)
    ensures
        r.status == ToolStatus::Error,
        r.text@ == mismatch_text(),
{
    ToolResult::error(String::from_str("No result arrived for the requested work"))
}

fn prefixed(prefix: &str, e: &str) -> (r: ToolResult)
    ensures
        r.status == ToolStatus::Error,
        r.text@ == prefix@ + e@,
{
    let mut t = String::from_str(prefix);
    t.append(e);
    ToolResult::error(t)
}

/// In every registry, tool names are unique and each tool's required
/// parameters are among its declared properties.
pub proof fn lemma_catalog_names_unique(reg: Registry)
    requires
        reg.wf(),
    ensures
        forall|i: int, j: int|
            0 <= i < reg.catalog().len() && 0 <= j < reg.catalog().len() && i != j ==> reg.catalog()[i].name@
                != reg.catalog()[j].name@,
        forall|i: int, k: int|
            0 <= i < reg.catalog().len() && 0 <= k < reg.catalog()[i].input_schema.required@.len()
                ==> crate::schema::declares(
                reg.catalog()[i].input_schema,
                reg.catalog()[i].input_schema.required@[k]@,
            ),
{
    assert forall|i: int, j: int|
        0 <= i < reg.catalog().len() && 0 <= j < reg.catalog().len() && i != j implies reg.catalog()[i].name@
            != reg.catalog()[j].name@ by {
        if j < i {
            assert(reg.catalog()[j].name@ != reg.catalog()[i].name@);
        }
    }
    assert forall|i: int, k: int|
        0 <= i < reg.catalog().len() && 0 <= k < reg.catalog()[i].input_schema.required@.len() implies crate::schema::declares(
            reg.catalog()[i].input_schema,
            reg.catalog()[i].input_schema.required@[k]@,
        ) by {
        assert(schema_wf(reg.catalog()[i].input_schema));
    }
}

/// Dispatching a name that the catalog lacks gives an error result that
/// names it, and changes nothing.
pub proof fn lemma_unknown_tool(
    reg: Registry,
    call: ToolCallRequest,
    regs0: Seq<RegisterEntry>,
    regs1: Seq<RegisterEntry>,
    procs0: ProcessManager,
    procs1: ProcessManager,
    d: Dispatch,
)
    requires
        forall|i: int| 0 <= i < reg.catalog().len() ==> reg.catalog()[i].name@ != call.name@,
        reg.dispatched(call, regs0, regs1, procs0, procs1, d),
    ensures
        d matches Dispatch::Done(r) && r.status == ToolStatus::Error && r.text@ == "Unknown tool: "@ + call.name@,
        regs1 == regs0,
        procs1 == procs0,
{
    lemma_definition_absent(reg.catalog(), call.name@);
}

/// A server-like command asked for without the background flag never
/// runs: dispatch answers at once, leaving the registers and the process
/// table as they were; with arguments that fit, the answer is the refusal
/// that shows how to retry in the background.
pub proof fn lemma_server_command_refused(
    reg: Registry,
    call: ToolCallRequest,
    args: ToolArgs,
    regs0: Seq<RegisterEntry>,
    regs1: Seq<RegisterEntry>,
    procs0: ProcessManager,
    procs1: ProcessManager,
    d: Dispatch,
)
    requires
        call.name@ == kind_name(ToolKind::Exec),
        decoded_args(call.arguments@) == Some(args),
        is_server_text(lower_of(command_of(args))),
        !wants_background(args),
        reg.dispatched(call, regs0, regs1, procs0, procs1, d),
    ensures
        d is Done,
        regs1 == regs0,
        procs1 == procs0,
        (definition_named(reg.catalog(), call.name@) matches Some(def) && args_valid(def.input_schema, args))
            ==> (d matches Dispatch::Done(r) && r.status == ToolStatus::Error && r.text@ == refusal_text(
            command_of(args),
        )),
{
    crate::catalog::lemma_kind_names_distinct(ToolKind::Exec, ToolKind::ReadFile);
    crate::catalog::lemma_kind_names_distinct(ToolKind::Exec, ToolKind::WriteFile);
    crate::catalog::lemma_kind_names_distinct(ToolKind::Exec, ToolKind::ListFiles);
    assert(kind_of_name(call.name@) == Some(ToolKind::Exec));
}

proof fn lemma_definition_absent(catalog: Seq<ToolDefinition>, name: Seq<char>)
    requires
        forall|i: int| 0 <= i < catalog.len() ==> catalog[i].name@ != name,
    ensures
        definition_named(catalog, name) is None,
    decreases catalog.len(),
{
    if catalog.len() > 0 {
        let rest = catalog.drop_first();
        assert forall|i: int| 0 <= i < rest.len() implies rest[i].name@ != name by {
            assert(rest[i] == catalog[i + 1]);
        }
        lemma_definition_absent(rest, name);
    }
}

fn type_text(t: ParamType) -> (r: &'static str)
    ensures
        r@ == type_word(t),
{
    match t {
        ParamType::Text => "a string",
        ParamType::Integer => "an integer",
        ParamType::Boolean => "a boolean",
        ParamType::Array => "an array",
    }
}

fn invalid_message(name: &str, e: &ArgError) -> (r: String)
    ensures
        r@ == invalid_text(name@, *e),
{
    let mut t = String::from_str("Invalid arguments for ");
    t.append(name);
    t.append(": ");
    match e {
        ArgError::NotAnObject => t.append("expected a JSON object"),
        ArgError::Missing(n) => {
            t.append("missing required field `");
            t.append(n.as_str());
            t.append("`");
        },
        ArgError::WrongType(n, ty) => {
            t.append("field `");
            t.append(n.as_str());
            t.append("` must be ");
            t.append(type_text(*ty));
        },
        ArgError::NotAllowed(n, v) => {
            t.append("field `");
            t.append(n.as_str());
            t.append("` does not allow `");
            t.append(v.as_str());
            t.append("`");
        },
    }
    t
}

fn refuse(prefix: &str, name: &str, suffix: &str) -> (r: Dispatch)
    ensures
        r matches Dispatch::Done(t) && t.status == ToolStatus::Error && t.text@ == prefix@ + name@ + suffix@,
{
    let mut t = String::from_str(prefix);
    t.append(name);
    t.append(suffix);
    Dispatch::Done(ToolResult::error(t))
}

fn check_schema(tool: &ToolDefinition) -> (r: Result<(), CatalogError>)
    ensures
        r is Ok <==> schema_wf(tool.input_schema),
        r matches Err(e) ==> tool_fault(*tool, e),
{
    let props = &tool.input_schema.properties;
    let mut i: usize = 0;
    while i < props.len()
        invariant
            props == &tool.input_schema.properties,
            i <= props@.len(),
            forall|a: int, b: int| 0 <= a < b < i ==> props@[a].name@ != props@[b].name@,
        decreases props@.len() - i,
    {
        let mut j: usize = 0;
        while j < i
            invariant
                props == &tool.input_schema.properties,
                i < props@.len(),
                j <= i,
                forall|a: int| 0 <= a < j ==> props@[a].name@ != props@[i as int].name@,
            decreases i - j,
        {
            if str_eq(props[j].name.as_str(), props[i].name.as_str()) {
                assert(props@[j as int].name@ == props@[i as int].name@);
                return Err(CatalogError::DuplicateProperty(tool.name.clone(), props[i].name.clone()));
            }
            j = j + 1;
        }
        i = i + 1;
    }
    let required = &tool.input_schema.required;
    let mut k: usize = 0;
    while k < required.len()
        invariant
            props == &tool.input_schema.properties,
            required == &tool.input_schema.required,
            k <= required@.len(),
            forall|a: int| 0 <= a < k ==> crate::schema::declares(tool.input_schema, #[trigger] required@[a]@),
        decreases required@.len() - k,
    {
        let mut found = false;
        let mut j: usize = 0;
        while j < props.len()
            invariant
                props == &tool.input_schema.properties,
                required == &tool.input_schema.required,
                j <= props@.len(),
                k < required@.len(),
                found ==> crate::schema::declares(tool.input_schema, required@[k as int]@),
                !found ==> forall|a: int| 0 <= a < j ==> props@[a].name@ != required@[k as int]@,
            decreases props@.len() - j,
        {
            if str_eq(props[j].name.as_str(), required[k].as_str()) {
                assert(props@[j as int].name@ == required@[k as int]@);
                found = true;
            }
            j = j + 1;
        }
        if !found {
            assert(!crate::schema::declares(tool.input_schema, required@[k as int]@));
            return Err(CatalogError::UndeclaredRequired(tool.name.clone(), required[k].clone()));
        }
        k = k + 1;
    }
    Ok(())
}

impl Registry {
    /// A registry over `tools`, refused when two tools share a name, a tool
    /// declares a property twice, or requires one it does not declare.
    pub fn new(tools: Vec<ToolDefinition>, token_lookup: TokenLookupTool) -> (r: Result<Registry, CatalogError>)
        ensures
            match r {
                Ok(reg) => reg.catalog() == tools@ && reg.tokens() == token_lookup.table() && reg.wf(),
                Err(e) => !catalog_wf(tools@) && catalog_fault(tools@, e),
            },
    {
        let mut i: usize = 0;
        while i < tools.len()
            invariant
                i <= tools@.len(),
                forall|a: int, b: int| 0 <= a < b < i ==> tools@[a].name@ != tools@[b].name@,
                forall|a: int| 0 <= a < i ==> schema_wf(#[trigger] tools@[a].input_schema),
            decreases tools@.len() - i,
        {
            match check_schema(&tools[i]) {
                Ok(()) => {},
                Err(e) => {
                    assert(tool_fault(tools@[i as int], e));
                    return Err(e);
                },
            }
            let mut j: usize = 0;
            while j < i
                invariant
                    i < tools@.len(),
                    j <= i,
                    forall|a: int| 0 <= a < j ==> tools@[a].name@ != tools@[i as int].name@,
                decreases i - j,
            {
                if str_eq(tools[j].name.as_str(), tools[i].name.as_str()) {
                    let e = CatalogError::DuplicateTool(tools[i].name.clone());
                    assert(tools@[j as int].name@ == tools@[i as int].name@);
                    return Err(e);
                }
                j = j + 1;
            }
            i = i + 1;
        }
        Ok(Registry { tools, token_lookup })
    }

    /// The code-engineering catalog, with token lookups served from
    /// `token_lookup`'s table.
    pub fn code_engineer(token_lookup: TokenLookupTool) -> (r: Registry)
        ensures
            r.wf(),
            r.tokens() == token_lookup.table(),
            r.catalog().len() == crate::catalog::code_engineer_kinds().len(),
            forall|i: int|
                0 <= i < r.catalog().len() ==> r.catalog()[i].name@ == kind_name(
                    #[trigger] crate::catalog::code_engineer_kinds()[i],
                ),
            forall|i: int|
                0 <= i < r.catalog().len() ==> crate::catalog::code_engineer_entry(i, #[trigger] r.catalog()[i]),
    {
        Registry { tools: get_code_engineer_tools(), token_lookup }
    }

    /// The catalog, in the order offered to the model.
    pub fn definitions(&self) -> (r: &Vec<ToolDefinition>)
        ensures
            r@ == self.catalog(),
    {
        &self.tools
    }

    fn position(&self, name: &str) -> (r: Option<usize>)
        ensures
            match r {
                Some(i) => i < self.catalog().len() && definition_named(self.catalog(), name@) == Some(
                    self.catalog()[i as int],
                ),
                None => definition_named(self.catalog(), name@) is None,
            },
    {
        let mut i: usize = 0;
        assert(self.tools@.skip(0) =~= self.tools@);
        while i < self.tools.len()
            invariant
                i <= self.tools@.len(),
                definition_named(self.tools@, name@) == definition_named(self.tools@.skip(i as int), name@),
            decreases self.tools@.len() - i,
        {
            assert(self.tools@.skip(i as int).drop_first() =~= self.tools@.skip(i + 1));
            if str_eq(self.tools[i].name.as_str(), name) {
                return Some(i);
            }
            i = i + 1;
        }
        None
    }

    /// Hands a tool call to the tool it names. Whatever the call, this
    /// gives a result or a piece of work: an unknown name, a payload that is
    /// not a JSON object, or arguments that do not fit the tool's schema
    /// give an error result naming the problem.
    pub fn dispatch(&self, call: &ToolCallRequest, registers: &mut RegisterStore, procs: &mut ProcessManager) -> (d: Dispatch)
        requires
            old(procs).wf(),
        ensures
            final(procs).wf(),
            self.dispatched(*call, old(registers).entries(), final(registers).entries(), *old(procs), *final(procs), d),
    {
        let name = call.name.as_str();
        let i = match self.position(name) {
            Some(i) => i,
            None => {
                proof {
                    reveal_strlit("");
                    assert("Unknown tool: "@ + name@ + ""@ =~= "Unknown tool: "@ + name@);
                }
                return refuse("Unknown tool: ", name, "");
            },
        };
        let kind = match kind_named(name) {
            Some(k) => k,
            None => {
                return refuse("Tool '", name, "' has no implementation");
            },
        };
        let args = match ToolArgs::decode(call.arguments.as_str()) {
            Some(a) => a,
            None => {
                return Dispatch::Done(ToolResult::error(invalid_message(name, &ArgError::NotAnObject)));
            },
        };
        match validate(&self.tools[i].input_schema, &args) {
            Ok(()) => {},
            Err(e) => {
                return Dispatch::Done(ToolResult::error(invalid_message(name, &e)));
            },
        }
        let ghost regs0 = registers.entries();
        let ghost procs0 = *procs;
        let d = match kind {
            ToolKind::ReadFile => Dispatch::Needs(Effect::ReadFile { path: read_path(&args) }),
            ToolKind::WriteFile => {
                let (path, content) = write_request(&args);
                Dispatch::Needs(Effect::WriteFile { path, content })
            },
            ToolKind::ListFiles => Dispatch::Needs(Effect::ListDir { path: list_path(&args) }),
            ToolKind::Exec => match plan_exec(&args) {
                ExecPlan::Refused(t) => Dispatch::Done(ToolResult::error(t)),
                ExecPlan::Background(command) => match procs.reserve_id() {
                    Some(id) => Dispatch::Needs(Effect::Spawn { command, id }),
                    None => Dispatch::Done(
                        ToolResult::error(String::from_str("Failed to start background process: no process ids left")),
                    ),
                },
                ExecPlan::Foreground(command, timeout_secs) => Dispatch::Needs(Effect::Shell { command, timeout_secs }),
            },
            ToolKind::ProcessStatus => plan_process_status(&args, procs),
            ToolKind::Git => plan_git(&args),
            ToolKind::Glob => Dispatch::Needs(Effect::Run { program: String::from_str("find"), args: plan_glob(&args) }),
            ToolKind::Grep => Dispatch::Needs(Effect::Run { program: String::from_str("grep"), args: plan_grep(&args) }),
            ToolKind::TokenLookup => Dispatch::Done(self.token_lookup.execute(&args, registers)),
        };
        assert(tool_dispatched(kind, args, self.tokens(), regs0, registers.entries(), procs0, *procs, d));
        d
    }

    /// Completes a call once the work it asked for came back: renders the
    /// outcome for the model, and records a started or killed process.
    pub fn complete(&self, call: &ToolCallRequest, effect: &Effect, outcome: Outcome, procs: &mut ProcessManager) -> (r: ToolResult)
        requires
            old(procs).wf(),
        ensures
            final(procs).wf(),
            completed(kind_of_name(call.name@), decoded_args(call.arguments@), *effect, outcome, *old(procs), *final(procs), r),
    {
        match effect {
            Effect::Spawn { command, id } => match outcome {
                Outcome::Spawned(Ok(pid)) => record_spawn(procs, *id, command.as_str(), pid),
                Outcome::Spawned(Err(e)) => {
                    procs.release_id(*id);
                    prefixed("Failed to start background process: ", e.as_str())
                },
                _ => mismatch(),
            },
            Effect::Kill { id } => match outcome {
                Outcome::Killed(o) => finish_kill(procs, *id, o),
                _ => mismatch(),
            },
            Effect::ReadFile { .. } => match outcome {
                Outcome::Read(o) => read_result(o),
                _ => mismatch(),
            },
            Effect::WriteFile { path, content } => match outcome {
                Outcome::Written(o) => write_result(path.as_str(), content.as_str(), o),
                _ => mismatch(),
            },
            Effect::ListDir { .. } => match outcome {
                Outcome::Listed(o) => list_result(o),
                _ => mismatch(),
            },
            Effect::Shell { .. } => match outcome {
                Outcome::Ran(Ok(out)) => shell_result(&out),
                Outcome::Ran(Err(e)) => prefixed("Failed to execute command: ", e.as_str()),
                _ => mismatch(),
            },
            Effect::Run { .. } => match outcome {
                Outcome::Ran(o) => match kind_named(call.name.as_str()) {
                    Some(ToolKind::Git) => match ToolArgs::decode(call.arguments.as_str()) {
                        Some(args) => git_result(&args, o),
                        None => mismatch(),
                    },
                    Some(ToolKind::Glob) => search_result(o, "No files found matching pattern"),
                    Some(ToolKind::Grep) => search_result(o, "No matches found"),
                    _ => mismatch(),
                },
                _ => mismatch(),
            },
        }
    }
}

} // verus!
