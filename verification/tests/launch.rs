use backend_shell::launch::{
    interpreter_command, plan_launch, resolve_backend_dir, Layout, Platform,
};
use backend_shell::registry::Registry;

#[test]
fn development_layout_resolves_to_sibling_of_manifest_dir() {
    let layout = Layout::Development { manifest_dir: String::from("/repo/app/src-tauri") };
    assert_eq!(resolve_backend_dir(&layout), "/repo/app/backend");
}

#[test]
fn packaged_layout_resolves_under_resource_dir() {
    let layout = Layout::Packaged { resource_dir: String::from("/usr/lib/app/resources") };
    assert_eq!(resolve_backend_dir(&layout), "/usr/lib/app/resources/backend");
}

#[test]
fn interpreter_is_system_python_on_unix_platforms() {
    assert_eq!(interpreter_command(Platform::Linux, "/r/backend"), "python3");
    assert_eq!(interpreter_command(Platform::MacOs, "/r/backend"), "python3");
}

#[test]
fn interpreter_is_bundled_executable_on_windows() {
    assert_eq!(
        interpreter_command(Platform::Windows, "/r/backend"),
        "/r/backend/python-embed/python.exe"
    );
}

#[test]
fn missing_directory_fails_with_attempted_path() {
    let err = plan_launch("/r/backend", Platform::Linux, false, false).unwrap_err();
    assert_eq!(err, "Backend directory not found at: /r/backend");
    assert!(err.contains("/r/backend"));
}

#[test]
fn missing_entry_script_fails_with_its_path() {
    let err = plan_launch("/r/backend", Platform::Linux, true, false).unwrap_err();
    assert_eq!(err, "api.py not found at: /r/backend/api.py");
}

#[test]
fn successful_plan_has_fixed_command_line() {
    let plan = plan_launch("/r/backend", Platform::Linux, true, true).unwrap();
    assert_eq!(plan.program, "python3");
    assert_eq!(
        plan.args,
        vec!["-m", "uvicorn", "api:app", "--host", "127.0.0.1", "--port", "8000"]
    );
    assert_eq!(plan.working_dir, "/r/backend");
}

#[test]
fn launch_succeeds_and_registers_when_everything_is_present() {
    let layout = Layout::Development { manifest_dir: String::from("/repo/src-tauri") };
    let dir = resolve_backend_dir(&layout);
    assert_eq!(dir, "/repo/backend");

    let plan = plan_launch(&dir, Platform::Linux, true, true).unwrap();
    assert_eq!(plan.working_dir, "/repo/backend");
    let host_pos = plan.args.iter().position(|a| a == "--host").unwrap();
    assert_eq!(plan.args[host_pos + 1], "127.0.0.1");
    let port_pos = plan.args.iter().position(|a| a == "--port").unwrap();
    assert_eq!(plan.args[port_pos + 1], "8000");

    let mut registry = Registry::new();
    registry.register(4242);
    assert_eq!(registry.current(), Some(4242));
}

#[test]
fn missing_directory_leaves_nothing_registered() {
    let layout = Layout::Packaged { resource_dir: String::from("/opt/app/resources") };
    let dir = resolve_backend_dir(&layout);

    let registry = Registry::new();
    match plan_launch(&dir, Platform::Linux, false, false) {
        Ok(_) => panic!("launch must fail when the backend directory is missing"),
        Err(err) => assert!(err.contains("/opt/app/resources/backend")),
    }
    assert_eq!(registry.current(), None);
}
