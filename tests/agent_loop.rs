use std::collections::HashMap;

use stark_backend::agent::{AgentRun, LoopError, ModelReply, Step};
use stark_backend::effects::{CommandOutput, Dispatch, Effect, Outcome};
use stark_backend::message::{Role, ToolCallRequest};
use stark_backend::process::ProcessManager;
use stark_backend::registers::RegisterStore;
use stark_backend::registry::Registry;
use stark_backend::result::ToolStatus;
use stark_backend::token_lookup::TokenLookupTool;

fn call(id: &str, name: &str, arguments: &str) -> ToolCallRequest {
    ToolCallRequest { id: id.to_string(), name: name.to_string(), arguments: arguments.to_string() }
}

fn reply(content: Option<&str>, calls: Vec<ToolCallRequest>) -> ModelReply {
    ModelReply { content: content.map(|c| c.to_string()), tool_calls: calls }
}

fn perform(effect: &Effect, files: &mut HashMap<String, String>) -> Outcome {
    match effect {
        Effect::WriteFile { path, content } => {
            files.insert(path.clone(), content.clone());
            Outcome::Written(Ok(()))
        }
        Effect::ReadFile { path } => match files.get(path) {
            Some(c) => Outcome::Read(Ok(c.clone())),
            None => Outcome::Read(Err("No such file or directory".to_string())),
        },
        other => panic!("unexpected work: {:?}", other),
    }
}

fn last_content(run: &AgentRun) -> String {
    run.messages().last().unwrap().content.clone().unwrap()
}

#[test]
fn write_then_read_then_answer() {
    let registry = Registry::code_engineer(TokenLookupTool::new());
    let mut procs = ProcessManager::new();
    let mut files: HashMap<String, String> = HashMap::new();
    let mut run = AgentRun::new("system".to_string(), "make a file".to_string(), 10);
    assert!(matches!(run.start(), Step::CallModel));

    let step = run.on_model_reply(
        reply(None, vec![call("c1", "write_file", r#"{"path":"a.txt","content":"hi"}"#)]),
        &registry,
        &mut procs,
    );
    let Step::Perform(effect) = step else { panic!("expected work") };
    let outcome = perform(&effect, &mut files);
    assert!(matches!(run.on_outcome(outcome, &registry, &mut procs), Step::CallModel));
    assert_eq!(last_content(&run), "Successfully wrote 2 bytes to a.txt");

    let step = run.on_model_reply(reply(None, vec![call("c2", "read_file", r#"{"path":"a.txt"}"#)]), &registry, &mut procs);
    let Step::Perform(effect) = step else { panic!("expected work") };
    let outcome = perform(&effect, &mut files);
    assert!(matches!(run.on_outcome(outcome, &registry, &mut procs), Step::CallModel));
    assert_eq!(last_content(&run), "hi");

    match run.on_model_reply(reply(Some("Done"), vec![]), &registry, &mut procs) {
        Step::Finished(answer) => assert_eq!(answer, "Done"),
        other => panic!("expected the answer, got {:?}", other),
    }
    assert_eq!(run.iterations(), 3);
    let m = run.messages();
    assert_eq!(m[2].role, Role::Assistant);
    assert!(m[2].tool_call_id.is_none() && m[2].name.is_none());
    assert_eq!(m[3].tool_call_id.as_deref(), Some("c1"));
    assert_eq!(m[0].content.as_deref(), Some("system"));
    assert!(m[0].tool_calls.is_none() && m[1].tool_call_id.is_none());
}

#[test]
fn tool_messages_follow_call_order() {
    let registry = Registry::code_engineer(TokenLookupTool::new());
    let mut procs = ProcessManager::new();
    let mut run = AgentRun::new("s".to_string(), "q".to_string(), 5);
    run.start();
    let calls = vec![
        call("a", "no_such_tool", "{}"),
        call("b", "exec", r#"{"command":"npm start"}"#),
        call("c", "process_status", r#"{"operation":"list"}"#),
    ];
    assert!(matches!(run.on_model_reply(reply(Some("thinking"), calls), &registry, &mut procs), Step::CallModel));
    let m = run.messages();
    assert_eq!(m.len(), 6);
    assert_eq!(m[2].role, Role::Assistant);
    assert_eq!(m[2].tool_calls.as_ref().unwrap().len(), 3);
    assert_eq!(m[2].content.as_deref(), Some("thinking"));
    let ids: Vec<_> = m[3..].iter().map(|x| x.tool_call_id.clone().unwrap()).collect();
    assert_eq!(ids, vec!["a", "b", "c"]);
    assert!(m[3..].iter().all(|x| x.role == Role::Tool));
    assert_eq!(m[3].content.as_deref(), Some("Unknown tool: no_such_tool"));
    assert_eq!(m[5].content.as_deref(), Some("No background processes found."));
}

#[test]
fn stops_at_iteration_bound() {
    let registry = Registry::code_engineer(TokenLookupTool::new());
    let mut procs = ProcessManager::new();
    let mut run = AgentRun::new("s".to_string(), "q".to_string(), 2);
    assert!(matches!(run.start(), Step::CallModel));
    let c = || vec![call("x", "process_status", r#"{"operation":"list"}"#)];
    assert!(matches!(run.on_model_reply(reply(None, c()), &registry, &mut procs), Step::CallModel));
    match run.on_model_reply(reply(None, c()), &registry, &mut procs) {
        Step::Failed(LoopError::MaxIterationsExceeded(n)) => assert_eq!(n, 2),
        other => panic!("expected the bound, got {:?}", other),
    }
    assert_eq!(run.iterations(), 2);
}

#[test]
fn zero_bound_fails_at_once() {
    let mut run = AgentRun::new("s".to_string(), "q".to_string(), 0);
    assert!(matches!(run.start(), Step::Failed(LoopError::MaxIterationsExceeded(0))));
}

#[test]
fn provider_error_is_fatal() {
    let mut run = AgentRun::new("s".to_string(), "q".to_string(), 3);
    run.start();
    match run.on_model_error("API error 500: boom".to_string()) {
        Step::Failed(LoopError::Provider(e)) => assert_eq!(e, "API error 500: boom"),
        other => panic!("{:?}", other),
    }
}

#[test]
fn server_command_is_refused_without_background() {
    let registry = Registry::code_engineer(TokenLookupTool::new());
    let mut procs = ProcessManager::new();
    let mut regs = RegisterStore::new();
    let d = registry.dispatch(&call("1", "exec", r#"{"command":"npm start"}"#), &mut regs, &mut procs);
    let Dispatch::Done(r) = d else { panic!("the command must not run") };
    assert_eq!(r.status, ToolStatus::Error);
    assert!(r.text.starts_with("Detected server/long-running command: `npm start`"));
    assert!(r.text.contains("use `background: true`"));
    assert!(r.text.contains("\"command\": \"npm start\",\n  \"background\": true"));
    assert!(procs.processes().is_empty());
}

#[test]
fn server_command_in_background_is_spawned() {
    let registry = Registry::code_engineer(TokenLookupTool::new());
    let mut procs = ProcessManager::new();
    let mut regs = RegisterStore::new();
    let c = call("1", "exec", r#"{"command":"NPM START","background":true}"#);
    let Dispatch::Needs(Effect::Spawn { command, id }) = registry.dispatch(&c, &mut regs, &mut procs) else {
        panic!("expected a spawn")
    };
    assert_eq!(command, "NPM START");
    let effect = Effect::Spawn { command, id };
    let r = registry.complete(&c, &effect, Outcome::Spawned(Ok(4242)), &mut procs);
    assert_eq!(r.status, ToolStatus::Success);
    assert_eq!(
        r.text,
        "Started background process\nProcess ID: proc_1\nPID: 4242\nCommand: NPM START\n\nUse `process_status` tool with process_id=\"proc_1\" to check status or get output."
    );
    let st = call("2", "process_status", r#"{"operation":"status","process_id":"proc_1"}"#);
    let Dispatch::Done(s) = registry.dispatch(&st, &mut regs, &mut procs) else { panic!() };
    assert_eq!(s.text, "Process: proc_1\nStatus: running\nPID: 4242\nCommand: NPM START");
    let kill = call("3", "process_status", r#"{"operation":"kill","process_id":"proc_1"}"#);
    let Dispatch::Needs(k) = registry.dispatch(&kill, &mut regs, &mut procs) else { panic!() };
    let r = registry.complete(&kill, &k, Outcome::Killed(Ok(())), &mut procs);
    assert_eq!(r.text, "Process 'proc_1' has been killed");
    let Dispatch::Done(s) = registry.dispatch(&st, &mut regs, &mut procs) else { panic!() };
    assert!(s.text.contains("Status: completed"));
}

#[test]
fn foreground_command_output_is_merged() {
    let registry = Registry::code_engineer(TokenLookupTool::new());
    let mut procs = ProcessManager::new();
    let mut regs = RegisterStore::new();
    let c = call("1", "exec", r#"{"command":"ls","timeout":900}"#);
    let Dispatch::Needs(effect) = registry.dispatch(&c, &mut regs, &mut procs) else { panic!() };
    assert!(matches!(&effect, Effect::Shell { timeout_secs: 300, .. }));
    let out = CommandOutput { stdout: "a\n".to_string(), stderr: "warn".to_string(), exit_code: Some(0) };
    let r = registry.complete(&c, &effect, Outcome::Ran(Ok(out)), &mut procs);
    assert_eq!(r.text, "a\n\n[stderr]: warn");
    assert_eq!(r.status, ToolStatus::Success);
    let quiet = CommandOutput { stdout: String::new(), stderr: String::new(), exit_code: Some(3) };
    let r = registry.complete(&c, &effect, Outcome::Ran(Ok(quiet)), &mut procs);
    assert_eq!(r.text, "Command completed with exit code 3");
    assert_eq!(r.status, ToolStatus::Error);
}

#[test]
fn loop_errors_read_as_text() {
    assert_eq!(LoopError::MaxIterationsExceeded(25).message(), "Max iterations (25) reached");
    assert_eq!(LoopError::Provider("API error 401: no".to_string()).message(), "API error 401: no");
}
