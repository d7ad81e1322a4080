use waitress::record::{validate_request, RecordError, Server, ServerTable};

fn server(id: u128, owner: u128, name: &str, port: u16) -> Server {
    Server {
        id,
        created_at: 1_700_000_000_000_000,
        owner,
        port,
        name: name.to_string(),
        docker_image: "openjdk:17".to_string(),
    }
}

#[test]
fn name_length_rules() {
    assert_eq!(validate_request("", 25600), Err(RecordError::InvalidName));
    assert_eq!(validate_request(&"a".repeat(129), 25600), Err(RecordError::InvalidName));
    assert_eq!(validate_request(&"a".repeat(128), 25600), Ok(()));
    assert_eq!(validate_request("demo", 25600), Ok(()));
    // 128 characters of two bytes each are still 128 characters
    assert_eq!(validate_request(&"é".repeat(128), 25600), Ok(()));
    assert_eq!(validate_request(&"é".repeat(129), 25600), Err(RecordError::InvalidName));
}

#[test]
fn port_range_rules() {
    assert_eq!(validate_request("demo", 1023), Err(RecordError::InvalidPort));
    assert_eq!(validate_request("demo", 0), Err(RecordError::InvalidPort));
    assert_eq!(validate_request("demo", 1024), Ok(()));
    assert_eq!(validate_request("demo", 65535), Ok(()));
    // the name is checked first
    assert_eq!(validate_request("", 80), Err(RecordError::InvalidName));
}

#[test]
fn insert_and_port_reuse() {
    let mut t = ServerTable::new();
    assert_eq!(t.insert(server(1, 10, "demo", 25600)), Ok(()));
    assert_eq!(t.len(), 1);
    assert!(t.port_in_use(25600));
    assert_eq!(t.insert(server(2, 10, "other", 25600)), Err(RecordError::PortAlreadyAllocated));
    assert_eq!(t.len(), 1);
    assert_eq!(t.insert(server(1, 10, "again", 25601)), Err(RecordError::DuplicateId));
    assert_eq!(t.insert(server(3, 10, "", 25602)), Err(RecordError::InvalidName));
    assert_eq!(t.insert(server(3, 10, "x", 1000)), Err(RecordError::InvalidPort));
    assert_eq!(t.len(), 1);
    assert_eq!(t.insert(server(3, 11, "third", 25602)), Ok(()));
    assert_eq!(t.len(), 2);
}

#[test]
fn lookups() {
    let mut t = ServerTable::new();
    t.insert(server(1, 10, "a", 30001)).unwrap();
    t.insert(server(2, 20, "b", 30002)).unwrap();
    t.insert(server(3, 10, "c", 30003)).unwrap();
    assert_eq!(t.get_by_id(2).unwrap().name, "b");
    assert!(t.get_by_id(9).is_none());
    let mine: Vec<String> = t.get_all_by_owner(10).into_iter().map(|s| s.name).collect();
    assert_eq!(mine, vec!["a", "c"]);
    assert!(t.get_all_by_owner(99).is_empty());
    let all: Vec<u128> = t.list_all().into_iter().map(|s| s.id).collect();
    assert_eq!(all, vec![1, 2, 3]);
}

#[test]
fn delete_is_idempotent() {
    let mut t = ServerTable::new();
    t.insert(server(1, 10, "a", 30001)).unwrap();
    t.insert(server(2, 10, "b", 30002)).unwrap();
    assert!(t.delete(1));
    assert!(t.get_by_id(1).is_none());
    assert!(!t.port_in_use(30001));
    assert!(!t.delete(1));
    assert_eq!(t.len(), 1);
    assert_eq!(t.insert(server(4, 10, "c", 30001)), Ok(()));
}

#[test]
fn copied_keeps_fields() {
    let s = server(5, 6, "copy", 30005);
    let c = s.copied();
    assert_eq!(c.id, 5);
    assert_eq!(c.owner, 6);
    assert_eq!(c.port, 30005);
    assert_eq!(c.name, "copy");
    assert_eq!(c.docker_image, "openjdk:17");
    assert_eq!(c.created_at, s.created_at);
}
