use gigui_sidecar::endpoint::Endpoint;
use gigui_sidecar::http::{build_request, classify, Operation};
use gigui_sidecar::paths::resolve_path;
use gigui_sidecar::retry::RpcOutcome;
use gigui_sidecar::settings::{resolve_input_paths, Settings};

#[test]
fn relative_paths_resolve_against_cwd() {
    assert_eq!(resolve_path("/home/u/work", "."), "/home/u/work");
    assert_eq!(resolve_path("/home/u/work", ""), "/home/u/work");
    assert_eq!(resolve_path("/home/u/work", "./"), "/home/u/work");
    assert_eq!(resolve_path("/home/u/work", "././."), "/home/u/work");
    assert_eq!(resolve_path("/home/u/work", "repo"), "/home/u/work/repo");
    assert_eq!(resolve_path("/home/u/work", "./repo/sub"), "/home/u/work/repo/sub");
    assert_eq!(resolve_path("/home/u/work", "../other"), "/home/u/work/../other");
    assert_eq!(resolve_path("/", "repo"), "/repo");
    assert_eq!(resolve_path("C:\\Users\\u\\", "repo"), "C:\\Users\\u\\repo");
}

#[test]
fn absolute_paths_are_kept() {
    assert_eq!(resolve_path("/home/u", "/srv/repo"), "/srv/repo");
    assert_eq!(resolve_path("/home/u", "C:\\repo"), "C:\\repo");
    assert_eq!(resolve_path("/home/u", "D:/repo"), "D:/repo");
    assert_eq!(resolve_path("/home/u", "\\\\server\\share"), "\\\\server\\share");
}

#[test]
fn default_settings_hold_the_engine_defaults() {
    let s = Settings::default();
    assert!(s.input_fstrs.is_empty());
    assert_eq!(s.depth, 5);
    assert_eq!(s.n_files, 5);
    assert_eq!(s.extensions.len(), 14);
    assert_eq!(s.extensions[0], "c");
    assert_eq!(s.extensions[13], "ts");
    assert_eq!(s.outfile_base, "gitinspect");
    assert_eq!(s.fix, "prefix");
    assert_eq!(s.file_formats, vec!["html"]);
    assert_eq!(s.view, "auto");
    assert_eq!(s.copy_move, 1);
    assert!(s.multithread);
    assert_eq!(s.col_percent, 75);
    assert_eq!(s.excel_max_rows, 1048576);
    assert_eq!(s.server_port, 8000);
    assert_eq!(s.server_host, "localhost");
    assert_eq!(s.memory_limit_mb, 1024);
    assert!(s.follow_renames);
    assert!(!s.ignore_merge_commits);
}

#[test]
fn execute_analysis_sends_cwd_for_dot() {
    let mut s = Settings::default();
    s.input_fstrs = vec![".".to_string(), "/abs/repo".to_string(), "rel".to_string()];
    let r = resolve_input_paths(s, "/home/u/project");
    assert_eq!(r.input_fstrs, vec!["/home/u/project", "/abs/repo", "/home/u/project/rel"]);
    assert_eq!(r.depth, 5);
    assert_eq!(r.outfile_base, "gitinspect");
}

#[test]
fn settings_pass_through_unchanged() {
    let mut s = Settings::default();
    s.input_fstrs = vec!["/a".to_string(), "/b".to_string()];
    s.ex_authors = vec!["z".to_string(), "a".to_string()];
    s.depth = 9;
    let r = resolve_input_paths(s.clone(), "/cwd");
    assert_eq!(r.input_fstrs, s.input_fstrs);
    assert_eq!(r.ex_authors, s.ex_authors);
    assert_eq!(r.depth, 9);
    let encoded = b"{\"depth\":9,\"ex_authors\":[\"z\",\"a\"]}".to_vec();
    let ep = Endpoint { host: "localhost".to_string(), port: 8000 };
    let req = build_request(Operation::SaveSettings, &ep, encoded.clone());
    assert_eq!(req.body, encoded);
    let mut reply = b"HTTP/1.1 200 OK\r\nContent-Type: application/json\r\n\r\n".to_vec();
    reply.extend_from_slice(&encoded);
    match classify(Ok(reply)) {
        RpcOutcome::Success(b) => assert_eq!(b, encoded),
        _ => panic!("expected the stored settings back"),
    }
}
