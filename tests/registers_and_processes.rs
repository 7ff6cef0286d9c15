use stark_backend::process::{label_text, ProcessManager};
use stark_backend::registers::RegisterStore;

#[test]
fn last_write_wins() {
    let mut regs = RegisterStore::new();
    regs.set("x", "v1".to_string(), "t");
    regs.set("x", "v2".to_string(), "t");
    assert_eq!(regs.get("x").unwrap(), "v2");
    assert!(regs.get("y").is_none());
}

#[test]
fn spawn_status_kill() {
    let mut procs = ProcessManager::new();
    let a = procs.reserve_id().unwrap();
    assert!(procs.spawn(a, 100, "sleep 10".to_string()));
    let b = procs.reserve_id().unwrap();
    assert_ne!(a, b);
    assert!(procs.spawn(b, 101, "sleep 20".to_string()));
    assert!(!procs.spawn(b, 102, "again".to_string()));
    let st = procs.status(a).unwrap();
    assert!(st.running);
    assert_eq!(st.pid, 100);
    assert_eq!(st.command, "sleep 10");
    assert!(procs.mark_killed(a));
    assert!(!procs.status(a).unwrap().running);
    assert!(procs.status(999).is_none());
    assert!(procs.processes()[0].completed);
    assert!(!procs.processes()[1].completed);
    assert!(!procs.mark_killed(999));
    assert_eq!(label_text(a), "proc_1");
}

#[test]
fn output_returns_last_lines_in_order() {
    let mut procs = ProcessManager::new();
    let id = procs.reserve_id().unwrap();
    assert!(procs.spawn(id, 7, "server".to_string()));
    for line in ["a", "b", "c"] {
        assert!(procs.append_output(id, line.to_string()));
    }
    assert_eq!(procs.output(id, 2).unwrap(), vec!["b", "c"]);
    assert_eq!(procs.output(id, 10).unwrap(), vec!["a", "b", "c"]);
    assert!(procs.output(id + 1, 2).is_none());
}

#[test]
fn exit_records_code() {
    let mut procs = ProcessManager::new();
    let id = procs.reserve_id().unwrap();
    assert!(procs.spawn(id, 7, "make".to_string()));
    assert!(procs.mark_exited(id, Some(2)));
    assert_eq!(procs.processes()[0].exit_code, Some(2));
    assert!(procs.processes()[0].completed);
}
