use sidecar_supervisor::launch::{
    resolve, resolve_project_root, worker_binary_name, HostPath, Platform, ResolveError, RunMode,
};

fn path(parts: &[&str]) -> HostPath {
    HostPath { parts: parts.iter().map(|p| p.to_string()).collect() }
}

fn parts(p: &HostPath) -> Vec<&str> {
    p.parts.iter().map(|s| s.as_str()).collect()
}

#[test]
fn binary_name_depends_on_platform() {
    assert_eq!(worker_binary_name(Platform::Windows), "rag_api_server.exe");
    assert_eq!(worker_binary_name(Platform::Other), "rag_api_server");
}

#[test]
fn project_root_walks_up_from_host_sources() {
    let r = resolve_project_root(&path(&["/", "home", "me", "proj", "src-tauri"]));
    assert_eq!(parts(&r), vec!["/", "home", "me", "proj"]);
    let r = resolve_project_root(&path(&["/", "home", "me", "proj"]));
    assert_eq!(parts(&r), vec!["/", "home", "me", "proj"]);
    let r = resolve_project_root(&path(&[]));
    assert!(r.parts.is_empty());
}

#[test]
fn development_runs_entry_script_with_interpreter() {
    let cwd = path(&["/", "home", "me", "proj", "src-tauri"]);
    let spec = resolve(RunMode::Development, Platform::Other, &cwd, Err("unused".to_string())).unwrap();
    assert_eq!(parts(&spec.executable), vec!["python"]);
    assert_eq!(spec.arguments.len(), 1);
    assert_eq!(parts(&spec.arguments[0]), vec!["/", "home", "me", "proj", "rag", "rag_api_server.py"]);
    assert_eq!(parts(&spec.working_directory), vec!["/", "home", "me", "proj"]);
    assert!(!spec.hide_console_window);
}

#[test]
fn production_runs_binary_in_its_directory() {
    let cwd = path(&["C:", "\\"]);
    let bin = path(&["C:", "\\", "Program Files", "App", "rag_api_server.exe"]);
    let spec = resolve(RunMode::Production, Platform::Windows, &cwd, Ok(bin)).unwrap();
    assert_eq!(parts(&spec.executable), vec!["C:", "\\", "Program Files", "App", "rag_api_server.exe"]);
    assert!(spec.arguments.is_empty());
    assert_eq!(parts(&spec.working_directory), vec!["C:", "\\", "Program Files", "App"]);
    assert!(spec.hide_console_window);
}

#[test]
fn production_lookup_failure_is_an_error() {
    let cwd = path(&["/"]);
    match resolve(RunMode::Production, Platform::Other, &cwd, Err("not bundled".to_string())) {
        Err(ResolveError::ResourceUnavailable(m)) => assert_eq!(m, "not bundled"),
        other => panic!("unexpected {:?}", other),
    }
    match resolve(RunMode::Production, Platform::Other, &cwd, Ok(path(&["rag_api_server"]))) {
        Err(ResolveError::NoContainingDirectory) => {}
        other => panic!("unexpected {:?}", other),
    }
}

#[test]
fn resolving_twice_gives_the_same_spec() {
    let cwd = path(&["/", "srv", "proj"]);
    let a = resolve(RunMode::Development, Platform::Windows, &cwd, Err(String::new())).unwrap();
    let b = resolve(RunMode::Development, Platform::Windows, &cwd, Err(String::new())).unwrap();
    assert_eq!(format!("{:?}", a), format!("{:?}", b));
}
