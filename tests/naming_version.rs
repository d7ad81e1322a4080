use waitress::naming::{container_name, id_string, script_path, volume_path};
use waitress::version::{ServerError, ServerVersionInfo, Version, VersionManifest};

const ID: u128 = 0x67e5_5044_10b1_426f_9247_bb68_0e5f_e0c8;

#[test]
fn id_text_is_hyphenated_lowercase() {
    assert_eq!(id_string(ID), "67e55044-10b1-426f-9247-bb680e5fe0c8");
}

#[test]
fn derived_names() {
    assert_eq!(container_name(ID), "waitress-67e55044-10b1-426f-9247-bb680e5fe0c8");
    assert_eq!(volume_path(ID), "volumes/waitress-67e55044-10b1-426f-9247-bb680e5fe0c8");
    assert_eq!(
        script_path(ID),
        "volumes/waitress-67e55044-10b1-426f-9247-bb680e5fe0c8/provision.sh"
    );
}

fn manifest() -> VersionManifest {
    VersionManifest {
        versions: vec![
            Version { id: "1.20.4".to_string(), url: "https://example.test/a.json".to_string() },
            Version { id: "1.20.3".to_string(), url: "https://example.test/b.json".to_string() },
            Version { id: "1.20.4".to_string(), url: "https://example.test/c.json".to_string() },
        ],
    }
}

#[test]
fn get_version_finds_first_match() {
    let m = manifest();
    let v = m.get_version("1.20.4").unwrap();
    assert_eq!(v.url, "https://example.test/a.json");
    let v = m.get_version("1.20.3").unwrap();
    assert_eq!(v.url, "https://example.test/b.json");
}

#[test]
fn get_version_trims_input() {
    let m = manifest();
    let v = m.get_version("  1.20.3\n").unwrap();
    assert_eq!(v.id, "1.20.3");
}

#[test]
fn get_version_unknown_is_none() {
    let m = manifest();
    assert!(m.get_version("9.9.9").is_none());
    assert!(VersionManifest { versions: vec![] }.get_version("1.20.4").is_none());
}

#[test]
fn server_info_present() {
    let info = ServerVersionInfo {
        server_url: Some("https://example.test/server.jar".to_string()),
        java_version: 17,
    };
    let jar = info.get_server_info().unwrap();
    assert_eq!(jar.url, "https://example.test/server.jar");
    assert_eq!(jar.java_version, 17);
}

#[test]
fn server_info_missing() {
    let info = ServerVersionInfo { server_url: None, java_version: 8 };
    assert!(matches!(info.get_server_info(), Err(ServerError::ServerInfoNotFound)));
}
