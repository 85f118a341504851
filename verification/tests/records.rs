use vcli::commands::session::{indices_where, pick_current, session_file, CurrentSession};
use vcli::history::{
    keep_last, select_cmd_entries, skill_history_file, CmdEntry, SkillEntry, CMD_HISTORY_FILE,
    HISTORY_SUBDIR, MAX_OUTPUT_CHARS,
};
use vcli::rpc::schema::{standard_schema, Method, Param, RpcSchema, STANDARD_METHOD_COUNT};
use vcli::session::heartbeat::{
    stale_flag_file, stale_sessions, SessionHeartbeat, SessionHeartbeatState,
};

fn cmd(ts: &str, session: Option<&str>) -> CmdEntry {
    CmdEntry::record(ts.to_string(), &["vcli".to_string(), ts.to_string()], session, 0)
}

#[test]
fn skill_entry_keeps_first_chars_of_output() {
    let long: String = "é".repeat(600);
    let e = SkillEntry::record("t".to_string(), "1+1", false, &long);
    assert_eq!(e.output.chars().count(), MAX_OUTPUT_CHARS);
    assert_eq!(e.output, "é".repeat(512));
    assert_eq!(e.skill, "1+1");
    assert!(!e.ok);
    assert_eq!(e.ts, "t");
    let short = SkillEntry::record("t".to_string(), "x", true, "2");
    assert_eq!(short.output, "2");
    let exact = SkillEntry::record("t".to_string(), "x", true, &"a".repeat(512));
    assert_eq!(exact.output.len(), 512);
}

#[test]
fn cmd_entry_copies_args() {
    let args = vec!["vcli".to_string(), "session".to_string(), "list".to_string()];
    let e = CmdEntry::record("now".to_string(), &args, Some("s1"), 3);
    assert_eq!(e.cmd, args);
    assert_eq!(e.session.as_deref(), Some("s1"));
    assert_eq!(e.exit_code, 3);
    let none = CmdEntry::record("now".to_string(), &[], None, -1);
    assert!(none.cmd.is_empty());
    assert_eq!(none.session, None);
}

#[test]
fn select_cmd_entries_filters_and_limits() {
    let all = vec![
        cmd("1", Some("a")),
        cmd("2", None),
        cmd("3", Some("b")),
        cmd("4", Some("a")),
        cmd("5", Some("a")),
    ];
    let a: Vec<String> = select_cmd_entries(all.clone(), Some("a"), 0).into_iter().map(|e| e.ts).collect();
    assert_eq!(a, vec!["1", "4", "5"]);
    let a2: Vec<String> = select_cmd_entries(all.clone(), Some("a"), 2).into_iter().map(|e| e.ts).collect();
    assert_eq!(a2, vec!["4", "5"]);
    let every: Vec<String> = select_cmd_entries(all.clone(), None, 10).into_iter().map(|e| e.ts).collect();
    assert_eq!(every, vec!["1", "2", "3", "4", "5"]);
    let last: Vec<String> = select_cmd_entries(all.clone(), None, 1).into_iter().map(|e| e.ts).collect();
    assert_eq!(last, vec!["5"]);
    assert!(select_cmd_entries(all, Some("zzz"), 0).is_empty());
}

#[test]
fn keep_last_keeps_tail() {
    assert_eq!(keep_last(vec![1, 2, 3, 4], 2), vec![3, 4]);
    assert_eq!(keep_last(vec![1, 2, 3, 4], 0), vec![1, 2, 3, 4]);
    assert_eq!(keep_last(vec![1, 2], 5), vec![1, 2]);
    assert_eq!(keep_last(Vec::<u8>::new(), 3), Vec::<u8>::new());
}

#[test]
fn history_file_names() {
    assert_eq!(skill_history_file("sess1"), "sess1.jsonl");
    assert_eq!(CMD_HISTORY_FILE, "cmd.jsonl");
    assert_eq!(HISTORY_SUBDIR, ".cache/virtuoso_bridge/history");
    assert_eq!(session_file("abc"), "abc.json");
    assert_eq!(stale_flag_file("abc"), "abc.stale");
}

#[test]
fn pick_current_cases() {
    assert!(matches!(pick_current(&[]), CurrentSession::NoLive));
    assert!(matches!(pick_current(&[false, false]), CurrentSession::NoLive));
    assert!(matches!(pick_current(&[false, true, false]), CurrentSession::Single(1)));
    match pick_current(&[true, false, true, true]) {
        CurrentSession::Ambiguous(v) => assert_eq!(v, vec![0, 2, 3]),
        _ => panic!("expected several live sessions"),
    }
}

#[test]
fn indices_where_splits_live_and_dead() {
    let flags = [true, false, false, true];
    assert_eq!(indices_where(&flags, true), vec![0, 3]);
    assert_eq!(indices_where(&flags, false), vec![1, 2]);
}

#[test]
fn heartbeat_states_and_stop() {
    let now = std::time::SystemTime::now();
    let ok = SessionHeartbeatState::observed("a", now, true);
    let bad = SessionHeartbeatState::observed("b", now, false);
    assert_eq!(ok.session_id, "a");
    assert!(!ok.is_stale);
    assert!(bad.is_stale);
    assert_eq!(bad.last_heartbeat, now);
    assert_eq!(stale_sessions(&[ok, bad]), vec![1]);
    let hb = SessionHeartbeat::new(30);
    assert_eq!(hb.interval_secs(), 30);
    assert!(!hb.stop_flag().load(std::sync::atomic::Ordering::SeqCst));
    hb.stop();
    assert!(hb.stop_flag().load(std::sync::atomic::Ordering::SeqCst));
}

#[test]
fn standard_schema_contents() {
    let schema = standard_schema();
    assert_eq!(schema.version, "1.0");
    assert_eq!(schema.methods.len(), STANDARD_METHOD_COUNT);
    assert_eq!(schema.methods[0].name, "schematic.open_cell_view");
    assert_eq!(schema.methods[0].params.len(), 3);
    assert!(schema.methods[0].params[0].required);
    assert!(!schema.methods[0].params[2].required);
    assert_eq!(schema.methods[10].returns_text, "JSON object of param name→value");
    assert_eq!(schema.methods[24].name, "maestro.export");
    assert_eq!(schema.methods[24].params[2].name, "test_name");
    let names: Vec<&str> = schema.methods.iter().map(|m| m.name.as_str()).collect();
    for n in &names {
        let domain = n.split('.').next().unwrap();
        assert!(["schematic", "window", "cell", "maestro"].contains(&domain), "{n}");
    }
    let caps = vcli::capability::CapabilitySet::all_but_admin();
    assert!(names.iter().all(|n| caps.permits_method(n)));
}

#[test]
fn rpc_schema_new_sets_version() {
    let m = Method {
        name: "x.y".to_string(),
        summary: "s".to_string(),
        params: vec![Param {
            name: "p".to_string(),
            ptype: "string".to_string(),
            description: "d".to_string(),
            required: true,
        }],
        returns_text: "r".to_string(),
    };
    let s = RpcSchema::new(vec![m]);
    assert_eq!(s.version, "1.0");
    assert_eq!(s.methods.len(), 1);
    assert_eq!(s.methods[0].params[0].name, "p");
}
