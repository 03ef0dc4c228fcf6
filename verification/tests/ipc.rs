use synoplayer::ipc::protocol::{IpcData, IpcResponse};
use synoplayer::ipc::socket::{socket_path, SocketGuard};

#[test]
fn error_response() {
    let resp = IpcResponse::err("not playing");
    assert!(!resp.ok);
    assert_eq!(resp.message, "not playing");
}

#[test]
fn response_ok_without_data() {
    let resp = IpcResponse::ok("Paused");
    assert!(resp.ok);
    assert_eq!(resp.message, "Paused");
    assert!(resp.data.is_none());
}

#[test]
fn response_with_queue_list() {
    let resp = IpcResponse::ok_with_data("0 tracks", IpcData::QueueList { current_index: 0, tracks: vec![] });
    assert!(resp.ok);
    assert!(matches!(resp.data, Some(IpcData::QueueList { current_index: 0, .. })));
}

#[test]
fn socket_path_is_absolute() {
    let path = socket_path();
    assert!(path.starts_with('/'));
    assert!(path.contains("synoplayer.sock"));
    assert!(path.ends_with("synoplayer.sock"));
}

#[test]
fn socket_guard_keeps_path() {
    let g = SocketGuard::new("/tmp/x.sock".to_string());
    assert_eq!(g.path, "/tmp/x.sock");
}
