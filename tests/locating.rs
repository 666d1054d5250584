use gigui_sidecar::endpoint::Endpoint;
use gigui_sidecar::locator::{candidate_list, invocation, locate, Candidate, EntryKind};

fn cands() -> Vec<Candidate> {
    vec![
        Candidate { path: "A".to_string(), kind: EntryKind::Executable },
        Candidate { path: "B".to_string(), kind: EntryKind::Script },
        Candidate { path: "C".to_string(), kind: EntryKind::Script },
    ]
}

#[test]
fn first_existing_candidate_wins() {
    let found = locate(&cands(), &vec![false, true, true]).unwrap();
    assert_eq!(found.path, "B");
    assert_eq!(found.kind, EntryKind::Script);
    let first = locate(&cands(), &vec![true, true, true]).unwrap();
    assert_eq!(first.path, "A");
}

#[test]
fn not_found_lists_every_probed_path() {
    let e = locate(&cands(), &vec![false, false, false]).unwrap_err();
    assert_eq!(e.probed, vec!["A", "B", "C"]);
    assert_eq!(e.message(), "backend entry point not found; probed: A, B, C");
    assert!(locate(&vec![], &vec![]).is_err());
}

#[test]
fn candidates_in_order_of_preference() {
    let c = candidate_list("/opt/app/resources", "gigui-backend", Some("/home/dev/gigui"));
    assert_eq!(c.len(), 3);
    assert_eq!(c[0].path, "/opt/app/resources/gigui-backend");
    assert_eq!(c[0].kind, EntryKind::Executable);
    assert_eq!(c[1].path, "/opt/app/resources/src-python/main.py");
    assert_eq!(c[1].kind, EntryKind::Script);
    assert_eq!(c[2].path, "/home/dev/gigui/src-tauri/src-python/main.py");
    let packaged = candidate_list("/res/", "backend.exe", None);
    assert_eq!(packaged.len(), 2);
    assert_eq!(packaged[0].path, "/res/backend.exe");
}

#[test]
fn invocation_passes_endpoint_flags() {
    let ep = Endpoint { host: "127.0.0.1".to_string(), port: 8080 };
    let exe = invocation(&Candidate { path: "/r/backend".to_string(), kind: EntryKind::Executable }, &ep, "python3");
    assert_eq!(exe.program, "/r/backend");
    assert_eq!(exe.args, vec!["--host=127.0.0.1", "--port=8080"]);
    let script = invocation(&Candidate { path: "/r/main.py".to_string(), kind: EntryKind::Script }, &ep, "python3");
    assert_eq!(script.program, "python3");
    assert_eq!(script.args, vec!["/r/main.py", "--host=127.0.0.1", "--port=8080"]);
}

#[test]
fn endpoint_urls() {
    let ep = Endpoint::local_default();
    assert_eq!(ep.base_url(), "http://127.0.0.1:8000");
    assert_eq!(ep.authority(), "127.0.0.1:8000");
}
