use server_supervisor::locate::{candidate_paths, locate, parent_dir, Candidate, SupervisorError};

fn candidate(path: &str, exists: bool) -> Candidate {
    Candidate { path: String::from(path), exists }
}

#[test]
fn no_candidate_reports_all_probed_paths() {
    let candidates = vec![
        candidate("/work/Server/bin/Release/net10.0/Server.dll", false),
        candidate("/work/Server/bin/Debug/net10.0/Server.dll", false),
    ];
    match locate(&candidates) {
        Err(SupervisorError::ArtifactNotFound { probed }) => {
            assert_eq!(
                probed,
                vec![
                    String::from("/work/Server/bin/Release/net10.0/Server.dll"),
                    String::from("/work/Server/bin/Debug/net10.0/Server.dll"),
                ]
            );
        }
        _ => panic!("expected ArtifactNotFound"),
    }
}

#[test]
fn release_preferred_when_both_exist() {
    let candidates = vec![candidate("release", true), candidate("debug", true)];
    assert_eq!(locate(&candidates), Ok(String::from("release")));
}

#[test]
fn debug_taken_when_release_missing() {
    let candidates = vec![candidate("release", false), candidate("debug", true)];
    assert_eq!(locate(&candidates), Ok(String::from("debug")));
}

#[test]
fn no_candidates_at_all() {
    let none: Vec<Candidate> = Vec::new();
    match locate(&none) {
        Err(SupervisorError::ArtifactNotFound { probed }) => assert!(probed.is_empty()),
        _ => panic!("expected ArtifactNotFound"),
    }
}

#[test]
fn candidate_paths_follow_convention() {
    let (release, debug) = candidate_paths("/home/me/app");
    assert_eq!(release, "/home/me/app/Server/bin/Release/net10.0/Server.dll");
    assert_eq!(debug, "/home/me/app/Server/bin/Debug/net10.0/Server.dll");
}

#[test]
fn parent_of_nested_path() {
    assert_eq!(parent_dir("/a/b/c.txt"), Some(String::from("/a/b")));
}

#[test]
fn parent_of_bare_name_is_absent() {
    assert_eq!(parent_dir("Server.dll"), None);
}

#[test]
fn parent_of_located_artifact_is_its_build_directory() {
    let (release, _) = candidate_paths("/srv/host");
    assert_eq!(
        parent_dir(&release),
        Some(String::from("/srv/host/Server/bin/Release/net10.0"))
    );
}

#[test]
fn artifact_not_found_message_lists_both_paths() {
    let candidates = vec![candidate("/x/release.dll", false), candidate("/x/debug.dll", false)];
    let err = locate(&candidates).unwrap_err();
    assert_eq!(
        err.message(),
        "Server not found at /x/release.dll or /x/debug.dll. Please build the server first."
    );
}

#[test]
fn spawn_failed_message_carries_reason() {
    let err = SupervisorError::SpawnFailed { reason: String::from("permission denied") };
    assert_eq!(err.message(), "Failed to start server: permission denied");
}
