use openwork_engine_info::status::{
    get_opencode_service_info, start_bridge_server, OpencodeServiceInfo, StatusRegister,
};

fn active(url: &str, port: u16, dir: &str) -> OpencodeServiceInfo {
    OpencodeServiceInfo {
        running: true,
        base_url: Some(url.to_string()),
        port: Some(port),
        project_dir: Some(dir.to_string()),
    }
}

#[test]
fn new_register_reports_stopped() {
    let reg = StatusRegister::new();
    let s = reg.get_status();
    assert!(!s.running);
    assert_eq!(s.base_url, None);
    assert_eq!(s.port, None);
    assert_eq!(s.project_dir, None);
}

#[test]
fn get_after_set_returns_the_value_set() {
    let mut reg = StatusRegister::new();
    reg.set_status(active("http://localhost", 8001, "/work"));
    let s = reg.get_status();
    assert_eq!(s, active("http://localhost", 8001, "/work"));
}

#[test]
fn last_of_many_updates_wins() {
    let mut reg = StatusRegister::new();
    reg.set_status(active("http://a", 1, "/a"));
    reg.set_status(OpencodeServiceInfo::stopped());
    reg.set_status(active("http://b", 2, "/b"));
    let s = reg.get_status();
    assert_eq!(s, active("http://b", 2, "/b"));
}

#[test]
fn set_replaces_the_whole_snapshot() {
    let mut reg = StatusRegister::new();
    reg.set_status(active("http://a", 1, "/a"));
    let starting = OpencodeServiceInfo {
        running: true,
        base_url: None,
        port: None,
        project_dir: Some("/a".to_string()),
    };
    reg.set_status(starting);
    let s = reg.get_status();
    assert!(s.running);
    assert_eq!(s.base_url, None);
    assert_eq!(s.port, None);
    assert_eq!(s.project_dir, Some("/a".to_string()));
}

#[test]
fn service_info_is_a_copy_of_the_register() {
    let mut reg = StatusRegister::new();
    reg.set_status(active("http://127.0.0.1", 4096, "/tmp/proj"));
    let info = get_opencode_service_info(&reg);
    assert_eq!(info, active("http://127.0.0.1", 4096, "/tmp/proj"));
    assert_eq!(reg.get_status(), info);
}

#[test]
fn bridge_server_reports_success() {
    let reg = StatusRegister::new();
    assert_eq!(start_bridge_server(&reg), Ok(()));
}

#[test]
fn duplicate_keeps_every_field() {
    let a = active("http://x", 9, "/y");
    assert_eq!(a.duplicate(), a);
}
