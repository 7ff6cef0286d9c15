use stark_backend::args::ToolArgs;
use stark_backend::catalog::get_code_engineer_tools;
use stark_backend::effects::{CommandOutput, DirEntry, Dispatch, Effect, Outcome, WriteFailure};
use stark_backend::message::ToolCallRequest;
use stark_backend::models::{default_archetype, default_max_tokens, prepare_chat_messages, preview_key, ApiKey, ApiKeyResponse, ChatMessage};
use stark_backend::process::ProcessManager;
use stark_backend::prompt::{get_system_prompt, skill_name};
use stark_backend::registers::RegisterStore;
use stark_backend::registry::{CatalogError, Registry};
use stark_backend::result::ToolStatus;
use stark_backend::shell::is_server_command;
use stark_backend::text::{decimal_text, signed_decimal_text};
use stark_backend::token_lookup::TokenLookupTool;

fn call(name: &str, arguments: &str) -> ToolCallRequest {
    ToolCallRequest { id: "id".to_string(), name: name.to_string(), arguments: arguments.to_string() }
}

fn done(d: Dispatch) -> stark_backend::result::ToolResult {
    match d {
        Dispatch::Done(r) => r,
        Dispatch::Needs(e) => panic!("unexpected work {:?}", e),
    }
}

fn setup() -> (Registry, RegisterStore, ProcessManager) {
    (Registry::code_engineer(TokenLookupTool::new()), RegisterStore::new(), ProcessManager::new())
}

#[test]
fn catalog_names_are_unique() {
    let tools = get_code_engineer_tools();
    let names: Vec<_> = tools.iter().map(|t| t.name.clone()).collect();
    assert_eq!(names, vec!["read_file", "write_file", "list_files", "exec", "process_status", "git", "glob", "grep"]);
    assert!(Registry::new(get_code_engineer_tools(), TokenLookupTool::new()).is_ok());
    let mut dup = get_code_engineer_tools();
    dup.push(get_code_engineer_tools().remove(0));
    assert!(matches!(Registry::new(dup, TokenLookupTool::new()), Err(CatalogError::DuplicateTool(n)) if n == "read_file"));
    let mut twice = get_code_engineer_tools();
    let again = twice[1].input_schema.properties[0].clone();
    twice[1].input_schema.properties.push(again);
    assert!(matches!(Registry::new(twice, TokenLookupTool::new()), Err(CatalogError::DuplicateProperty(t, p)) if t == "write_file" && p == "path"));
    let mut bad = get_code_engineer_tools();
    bad[0].input_schema.required.push("nope".to_string());
    assert!(matches!(Registry::new(bad, TokenLookupTool::new()), Err(CatalogError::UndeclaredRequired(_, n)) if n == "nope"));
}

#[test]
fn unknown_tool_is_an_error_result() {
    let (reg, mut regs, mut procs) = setup();
    let r = done(reg.dispatch(&call("teleport", "{}"), &mut regs, &mut procs));
    assert_eq!(r.status, ToolStatus::Error);
    assert_eq!(r.text, "Unknown tool: teleport");
}

#[test]
fn argument_errors_are_results() {
    let (reg, mut regs, mut procs) = setup();
    let r = done(reg.dispatch(&call("read_file", "not json"), &mut regs, &mut procs));
    assert_eq!(r.text, "Invalid arguments for read_file: expected a JSON object");
    let r = done(reg.dispatch(&call("read_file", "{}"), &mut regs, &mut procs));
    assert_eq!(r.text, "Invalid arguments for read_file: missing required field `path`");
    let r = done(reg.dispatch(&call("exec", r#"{"command":"ls","background":"yes"}"#), &mut regs, &mut procs));
    assert_eq!(r.text, "Invalid arguments for exec: field `background` must be a boolean");
    let r = done(reg.dispatch(&call("git", r#"{"operation":"push"}"#), &mut regs, &mut procs));
    assert_eq!(r.text, "Invalid arguments for git: field `operation` does not allow `push`");
    assert_eq!(r.status, ToolStatus::Error);
}

#[test]
fn decode_reads_json_fields() {
    let a = ToolArgs::decode(r#"{"s":"x","n":5,"b":true,"l":["p",1,"q"]}"#).unwrap();
    assert_eq!(a.text("s").unwrap(), "x");
    assert_eq!(a.number("n"), Some(5));
    assert_eq!(a.flag("b"), Some(true));
    assert_eq!(a.texts("l").unwrap(), vec!["p", "q"]);
    assert!(a.text("n").is_none());
    assert!(ToolArgs::decode("[1,2]").is_none());
}

#[test]
fn file_tools_results() {
    let (reg, mut regs, mut procs) = setup();
    let c = call("write_file", r#"{"path":"d/é.txt","content":"héllo"}"#);
    let Dispatch::Needs(e) = reg.dispatch(&c, &mut regs, &mut procs) else { panic!() };
    let r = reg.complete(&c, &e, Outcome::Written(Ok(())), &mut procs);
    assert_eq!(r.text, "Successfully wrote 6 bytes to d/é.txt");
    let r = reg.complete(&c, &e, Outcome::Written(Err(WriteFailure::CreateDirs("denied".to_string()))), &mut procs);
    assert_eq!(r.text, "Error creating directories: denied");
    let r = reg.complete(&c, &e, Outcome::Written(Err(WriteFailure::Write("full".to_string()))), &mut procs);
    assert_eq!(r.text, "Error writing file: full");
    let r = reg.complete(&c, &e, Outcome::Read(Ok("x".to_string())), &mut procs);
    assert_eq!(r.text, "No result arrived for the requested work");

    let rd = call("read_file", r#"{"path":"missing"}"#);
    let Dispatch::Needs(e) = reg.dispatch(&rd, &mut regs, &mut procs) else { panic!() };
    let r = reg.complete(&rd, &e, Outcome::Read(Err("not found".to_string())), &mut procs);
    assert_eq!(r.text, "Error reading file: not found");
    assert_eq!(r.status, ToolStatus::Error);

    let ls = call("list_files", "{}");
    let Dispatch::Needs(e) = reg.dispatch(&ls, &mut regs, &mut procs) else { panic!() };
    assert!(matches!(&e, Effect::ListDir { path } if path == "."));
    let entries = vec![
        DirEntry { name: "src".to_string(), is_dir: true },
        DirEntry { name: "Cargo.toml".to_string(), is_dir: false },
        DirEntry { name: "README.md".to_string(), is_dir: false },
    ];
    let r = reg.complete(&ls, &e, Outcome::Listed(Ok(entries)), &mut procs);
    assert_eq!(r.text, "Cargo.toml\nREADME.md\nsrc/");
    let r = reg.complete(&ls, &e, Outcome::Listed(Err("nope".to_string())), &mut procs);
    assert_eq!(r.text, "Error listing directory: nope");
}

#[test]
fn git_tool_arguments_and_results() {
    let (reg, mut regs, mut procs) = setup();
    let add = call("git", r#"{"operation":"add","files":["a","b"]}"#);
    let Dispatch::Needs(Effect::Run { program, args }) = reg.dispatch(&add, &mut regs, &mut procs) else { panic!() };
    assert_eq!(program, "git");
    assert_eq!(args, vec!["add", "a", "b"]);
    let e = Effect::Run { program, args };
    let ok = CommandOutput { stdout: String::new(), stderr: String::new(), exit_code: Some(0) };
    let r = reg.complete(&add, &e, Outcome::Ran(Ok(ok)), &mut procs);
    assert_eq!(r.text, "Staged 2 file(s)");
    let failed = CommandOutput { stdout: String::new(), stderr: "fatal: not a git repository".to_string(), exit_code: Some(128) };
    let r = reg.complete(&add, &e, Outcome::Ran(Ok(failed)), &mut procs);
    assert_eq!(r.text, "fatal: not a git repository");
    assert_eq!(r.status, ToolStatus::Error);
    let r = reg.complete(&add, &e, Outcome::Ran(Err("no git".to_string())), &mut procs);
    assert_eq!(r.text, "Git error: no git");

    let r = done(reg.dispatch(&call("git", r#"{"operation":"add"}"#), &mut regs, &mut procs));
    assert_eq!(r.text, "Error: No files specified for git add");

    let co = call("git", r#"{"operation":"checkout","branch":"dev","create":true}"#);
    let Dispatch::Needs(Effect::Run { args, .. }) = reg.dispatch(&co, &mut regs, &mut procs) else { panic!() };
    assert_eq!(args, vec!["checkout", "-b", "dev"]);
    let st = call("git", r#"{"operation":"status"}"#);
    let Dispatch::Needs(e) = reg.dispatch(&st, &mut regs, &mut procs) else { panic!() };
    let quiet = CommandOutput { stdout: String::new(), stderr: String::new(), exit_code: Some(0) };
    assert_eq!(reg.complete(&st, &e, Outcome::Ran(Ok(quiet)), &mut procs).text, "Git status completed successfully");
    let cm = call("git", r#"{"operation":"commit"}"#);
    let Dispatch::Needs(Effect::Run { args, .. }) = reg.dispatch(&cm, &mut regs, &mut procs) else { panic!() };
    assert_eq!(args, vec!["commit", "-m", "Update"]);
}

#[test]
fn search_tools() {
    let (reg, mut regs, mut procs) = setup();
    let g = call("glob", r#"{"pattern":"*.rs"}"#);
    let Dispatch::Needs(e) = reg.dispatch(&g, &mut regs, &mut procs) else { panic!() };
    assert!(matches!(&e, Effect::Run { program, args } if program == "find" && args == &vec![".", "-name", "*.rs", "-type", "f"]));
    let empty = CommandOutput { stdout: String::new(), stderr: String::new(), exit_code: Some(0) };
    assert_eq!(reg.complete(&g, &e, Outcome::Ran(Ok(empty)), &mut procs).text, "No files found matching pattern");
    let gr = call("grep", r#"{"pattern":"fn main"}"#);
    let Dispatch::Needs(e) = reg.dispatch(&gr, &mut regs, &mut procs) else { panic!() };
    assert!(matches!(&e, Effect::Run { program, args } if program == "grep" && args == &vec!["-rn", "fn main", "."]));
    let hit = CommandOutput { stdout: "src/main.rs:1:fn main".to_string(), stderr: String::new(), exit_code: Some(0) };
    assert_eq!(reg.complete(&gr, &e, Outcome::Ran(Ok(hit)), &mut procs).text, "src/main.rs:1:fn main");
    let r = reg.complete(&gr, &e, Outcome::Ran(Err("boom".to_string())), &mut procs);
    assert_eq!(r.text, "Error: boom");
}

#[test]
fn process_status_errors() {
    let (reg, mut regs, mut procs) = setup();
    let r = done(reg.dispatch(&call("process_status", r#"{"operation":"status"}"#), &mut regs, &mut procs));
    assert_eq!(r.text, "Error: process_id is required for 'status' operation");
    let r = done(reg.dispatch(&call("process_status", r#"{"operation":"output","process_id":"proc_9"}"#), &mut regs, &mut procs));
    assert_eq!(r.text, "Process 'proc_9' not found");
    let id = procs.reserve_id().unwrap();
    procs.spawn(id, 5, "x".repeat(60));
    let r = done(reg.dispatch(&call("process_status", r#"{"operation":"output","process_id":"proc_1"}"#), &mut regs, &mut procs));
    assert_eq!(r.text, "No output captured yet for process 'proc_1'");
    for l in ["a", "b", "c"] {
        procs.append_output(id, l.to_string());
    }
    let r = done(reg.dispatch(&call("process_status", r#"{"operation":"output","process_id":"proc_1","lines":2}"#), &mut regs, &mut procs));
    assert_eq!(r.text, "Output from process 'proc_1' (last 2 lines):\n\nb\nc");
    let r = done(reg.dispatch(&call("process_status", "{}"), &mut regs, &mut procs));
    assert_eq!(r.text, "Invalid arguments for process_status: missing required field `operation`");
    let r = done(reg.dispatch(&call("process_status", r#"{"operation":"list"}"#), &mut regs, &mut procs));
    assert_eq!(r.text, format!("Background processes:\n\n- proc_1 (PID 5): running\n  Command: {}...\n\n", "x".repeat(47)));
}

#[test]
fn token_lookup_through_registry() {
    let mut tools = get_code_engineer_tools();
    tools.push(TokenLookupTool::new().definition().clone());
    let reg = Registry::new(tools, TokenLookupTool::new()).unwrap();
    let mut regs = RegisterStore::new();
    let mut procs = ProcessManager::new();
    let r = done(reg.dispatch(&call("token_lookup", r#"{"symbol":"eth","cache_as":"buy"}"#), &mut regs, &mut procs));
    assert_eq!(r.status, ToolStatus::Success);
    assert_eq!(regs.get("buy").unwrap(), "0xEeeeeEeeeEeEeeEeEeEeeEEEeeeeEeeeeeeeEEeE");
    let r = done(reg.dispatch(&call("token_lookup", r#"{"symbol":"eth","network":"polygon"}"#), &mut regs, &mut procs));
    assert_eq!(r.text, "Invalid arguments for token_lookup: field `network` does not allow `polygon`");
}

#[test]
fn server_detection_ignores_case() {
    assert!(is_server_command("cd app && NPM Run Dev"));
    assert!(is_server_command("python manage.py runserver 0.0.0.0:8000"));
    assert!(!is_server_command("npm install"));
}

#[test]
fn numbers_render_in_decimal() {
    assert_eq!(decimal_text(0), "0");
    assert_eq!(decimal_text(40000), "40000");
    assert_eq!(decimal_text(u64::MAX), "18446744073709551615");
    assert_eq!(signed_decimal_text(-1), "-1");
    assert_eq!(signed_decimal_text(i64::MIN), "-9223372036854775808");
}

#[test]
fn system_prompt_lists_skills() {
    let p = get_system_prompt("/tmp/ws", &vec![]);
    assert!(p.starts_with("You are a CodeEngineer agent that builds software. Your workspace is: /tmp/ws\n\n## Available Tools"));
    assert!(p.contains("## Skills Available\nNone\n\nBuild what the user asks for."));
    let p = get_system_prompt("/w", &vec!["rust".to_string(), "web".to_string()]);
    assert!(p.contains("## Skills Available\nrust, web\n\n"));
    assert_eq!(skill_name("rust.md").unwrap(), "rust");
    assert!(skill_name(".md").is_none());
    assert!(skill_name("notes.txt").is_none());
}

#[test]
fn models_defaults_and_masking() {
    assert_eq!(default_archetype(), "kimi");
    assert_eq!(default_max_tokens(), 40000);
    assert_eq!(preview_key("sk-abcdefghijklmnop"), "sk-a...mnop");
    assert_eq!(preview_key("short"), "****");
    let key = ApiKey { id: 1, service_name: "anthropic".to_string(), api_key: "0123456789abcdef".to_string(), created_at: 1, updated_at: 2 };
    let shown = ApiKeyResponse::from(key);
    assert_eq!(shown.key_preview, "0123...cdef");
    assert_eq!(shown.updated_at, 2);
}

#[test]
fn chat_gets_default_system_message() {
    let msgs = vec![ChatMessage { role: "user".to_string(), content: "hi".to_string() }];
    let out = prepare_chat_messages(&msgs);
    assert_eq!(out.len(), 2);
    assert_eq!(out[0].role, stark_backend::message::Role::System);
    assert_eq!(out[1].content.as_deref(), Some("hi"));
    let msgs = vec![
        ChatMessage { role: "system".to_string(), content: "be brief".to_string() },
        ChatMessage { role: "assistant".to_string(), content: "ok".to_string() },
    ];
    let out = prepare_chat_messages(&msgs);
    assert_eq!(out.len(), 2);
    assert_eq!(out[1].role, stark_backend::message::Role::Assistant);
}

#[test]
fn failed_spawn_and_kill_are_reported() {
    let (reg, mut regs, mut procs) = setup();
    let c = call("exec", r#"{"command":"sleep 100","background":true}"#);
    let Dispatch::Needs(e) = reg.dispatch(&c, &mut regs, &mut procs) else { panic!() };
    let r = reg.complete(&c, &e, Outcome::Spawned(Err("no bash".to_string())), &mut procs);
    assert_eq!(r.text, "Failed to start background process: no bash");
    assert!(procs.processes().is_empty());
    let c2 = call("exec", r#"{"command":"sleep 100","background":true}"#);
    let Dispatch::Needs(e2) = reg.dispatch(&c2, &mut regs, &mut procs) else { panic!() };
    assert!(matches!(&e2, Effect::Spawn { id: 1, .. }));
    reg.complete(&c2, &e2, Outcome::Spawned(Ok(77)), &mut procs);
    let k = call("process_status", r#"{"operation":"kill","process_id":"proc_1"}"#);
    let Dispatch::Needs(ke) = reg.dispatch(&k, &mut regs, &mut procs) else { panic!() };
    let r = reg.complete(&k, &ke, Outcome::Killed(Err("permission denied".to_string())), &mut procs);
    assert_eq!(r.text, "Failed to kill process 'proc_1': permission denied");
    assert_eq!(r.status, ToolStatus::Error);
    assert!(!procs.processes()[0].completed);
}
