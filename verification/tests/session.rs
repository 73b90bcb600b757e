use toph_proto::session::{
    connection_debug_info, connection_type, ConnectionType, PathAddr, PathInfo,
};

fn paths() -> Vec<PathInfo> {
    vec![
        PathInfo { active: false, addr: PathAddr::Ip("10.0.0.2:4433".to_string()) },
        PathInfo { active: true, addr: PathAddr::Relay("https://relay.example/".to_string()) },
        PathInfo { active: true, addr: PathAddr::Ip("192.0.2.7:51820".to_string()) },
        PathInfo { active: false, addr: PathAddr::Relay("https://other.example/".to_string()) },
        PathInfo { active: true, addr: PathAddr::Other },
    ]
}

#[test]
fn debug_info_sorts_paths() {
    let info = connection_debug_info(Some(&paths())).unwrap();
    assert_eq!(info.conn_type, "direct");
    assert_eq!(info.direct_active, vec!["192.0.2.7:51820".to_string()]);
    assert_eq!(info.direct_idle, vec!["10.0.0.2:4433".to_string()]);
    assert_eq!(info.relay_active, vec!["https://relay.example/".to_string()]);
    assert_eq!(info.relay_idle, vec!["https://other.example/".to_string()]);
    assert_eq!(connection_type(Some(&paths())), Some(ConnectionType::Direct));
}

#[test]
fn idle_direct_paths_mean_relay() {
    let ps: Vec<PathInfo> = paths().into_iter().filter(|p| !(p.active && matches!(p.addr, PathAddr::Ip(_)))).collect();
    let info = connection_debug_info(Some(&ps)).unwrap();
    assert_eq!(info.conn_type, "relay");
    assert!(info.direct_active.is_empty());
    assert_eq!(connection_type(Some(&ps)), Some(ConnectionType::Relay));
}

#[test]
fn unknown_peer_has_no_info() {
    assert!(connection_debug_info(None).is_none());
    assert_eq!(connection_type(None), None);
    let empty: Vec<PathInfo> = Vec::new();
    assert_eq!(connection_type(Some(&empty)), None);
    assert_eq!(connection_debug_info(Some(&empty)).unwrap().conn_type, "relay");
}

#[test]
fn no_active_path_has_no_connection_type() {
    let idle: Vec<PathInfo> = paths().into_iter().filter(|p| !p.active).collect();
    assert_eq!(idle.len(), 2);
    assert_eq!(connection_type(Some(&idle)), None);
    let info = connection_debug_info(Some(&idle)).unwrap();
    assert_eq!(info.conn_type, "relay");
    assert_eq!(info.direct_idle.len() + info.relay_idle.len(), 2);
}
