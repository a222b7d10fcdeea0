use sidecar::launch::{
    binary_name, join, launch_plan, not_started_message, server_env, server_path, server_url,
    started_message, stopped_message, Platform, SERVER_PORT, STARTUP_DELAY_MS,
};

#[test]
fn binary_name_on_windows() {
    assert_eq!(binary_name(Platform::Windows), "server.exe");
}

#[test]
fn binary_name_elsewhere() {
    assert_eq!(binary_name(Platform::Other), "server");
}

#[test]
fn scenario_unix_resource_dir() {
    let plan = launch_plan("/app/resources", Platform::Other);
    assert_eq!(plan.program, "/app/resources/bin/server");
    let env: Vec<(String, String)> =
        plan.env.iter().map(|e| (e.name.clone(), e.value.clone())).collect();
    assert_eq!(
        env,
        vec![
            ("PORT".to_string(), "8880".to_string()),
            ("ENV".to_string(), "desktop".to_string())
        ]
    );
    assert!(started_message().contains("http://localhost:8880"));
}

#[test]
fn windows_resource_dir() {
    assert_eq!(server_path("C:\\App", Platform::Windows), "C:\\App\\bin\\server.exe");
}

#[test]
fn resource_dir_with_trailing_separator() {
    assert_eq!(server_path("/app/resources/", Platform::Other), "/app/resources/bin/server");
    assert_eq!(server_path("C:/App/", Platform::Windows), "C:/App/bin\\server.exe");
}

#[test]
fn backslash_is_no_separator_elsewhere() {
    assert_eq!(join("a\\", "b", Platform::Other), "a\\/b");
}

#[test]
fn empty_resource_dir() {
    assert_eq!(server_path("", Platform::Other), "bin/server");
}

#[test]
fn environment_is_the_same_on_every_platform() {
    let a = launch_plan("/x", Platform::Windows);
    let b = launch_plan("/x", Platform::Other);
    assert_eq!(a.env.len(), 2);
    for (x, y) in a.env.iter().zip(b.env.iter()) {
        assert_eq!(x.name, y.name);
        assert_eq!(x.value, y.value);
    }
    let env = server_env();
    assert_eq!(env[0].name, "PORT");
    assert_eq!(env[0].value, SERVER_PORT.to_string());
    assert_eq!(env[1].name, "ENV");
    assert_eq!(env[1].value, "desktop");
}

#[test]
fn diagnostics() {
    assert_eq!(server_url(), "http://localhost:8880");
    assert_eq!(started_message(), "Go server started on http://localhost:8880");
    assert_eq!(
        not_started_message("No such file or directory (os error 2)"),
        "Note: Go server not started (No such file or directory (os error 2)). Run it separately in dev mode."
    );
    assert_eq!(stopped_message(), "Go server stopped");
    assert_eq!(STARTUP_DELAY_MS, 500);
}
