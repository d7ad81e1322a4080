use waitress::lifecycle::{
    admit_request, delete_step, jar_for_create, resolve_version, restore_action, CreateFlow,
    CreateStage, CreateStep, DaemonReply, DeleteProgress, DeleteStage, RestoreAction,
    ServerCreationError, ServerDeletionError, ServerProvisionError,
};
use waitress::provision::ProvisionStep;
use waitress::record::{RecordError, Server, ServerTable};
use waitress::version::{ServerVersionInfo, Version, VersionManifest};

fn server(id: u128, port: u16) -> Server {
    Server {
        id,
        created_at: 0,
        owner: 7,
        port,
        name: "demo".to_string(),
        docker_image: "openjdk:17".to_string(),
    }
}

#[test]
fn admit_checks_name_port_and_allocation() {
    let mut t = ServerTable::new();
    t.begin_create(server(1, 25600)).unwrap();
    assert_eq!(admit_request(&t, "", 25601), Err(ServerCreationError::InvalidName));
    assert_eq!(admit_request(&t, &"a".repeat(129), 25601), Err(ServerCreationError::InvalidName));
    assert_eq!(admit_request(&t, "demo", 100), Err(ServerCreationError::InvalidPort));
    assert_eq!(admit_request(&t, "other", 25600), Err(ServerCreationError::PortAlreadyAllocated));
    assert_eq!(admit_request(&t, "other", 25601), Ok(()));
}

#[test]
fn unknown_version_is_not_found() {
    let m = VersionManifest {
        versions: vec![Version { id: "1.20.4".to_string(), url: "u".to_string() }],
    };
    assert!(matches!(resolve_version(&m, "9.9.9"), Err(ServerCreationError::VersionNotFound)));
    assert_eq!(resolve_version(&m, " 1.20.4 ").unwrap().url, "u");
    assert_eq!(ServerCreationError::VersionNotFound.status_code(), 404);
}

#[test]
fn jar_resolution_errors() {
    assert!(matches!(jar_for_create(None), Err(ServerCreationError::VersionError)));
    let missing = ServerVersionInfo { server_url: None, java_version: 17 };
    assert!(matches!(jar_for_create(Some(missing)), Err(ServerCreationError::ServerInfoNotFound)));
    let ok = ServerVersionInfo { server_url: Some("j".to_string()), java_version: 21 };
    let jar = jar_for_create(Some(ok)).unwrap();
    assert_eq!(jar.url, "j");
    assert_eq!(jar.java_version, 21);
}

#[test]
fn failed_provision_removes_record() {
    let mut t = ServerTable::new();
    t.begin_create(server(1, 25600)).unwrap();
    t.begin_create(server(2, 25601)).unwrap();
    let r = t.finish_create(2, Err(ServerProvisionError::DockerError));
    assert_eq!(r, Err(ServerCreationError::ProvisionError(ServerProvisionError::DockerError)));
    assert!(t.get_by_id(2).is_none());
    assert!(t.get_by_id(1).is_some());
    assert_eq!(t.len(), 1);
    assert_eq!(r.unwrap_err().status_code(), 500);
}

#[test]
fn successful_provision_keeps_record() {
    let mut t = ServerTable::new();
    t.begin_create(server(1, 25600)).unwrap();
    assert_eq!(t.finish_create(1, Ok(())), Ok(()));
    assert_eq!(t.get_by_id(1).unwrap().port, 25600);
}

#[test]
fn refused_insert_leaves_table() {
    let mut t = ServerTable::new();
    t.begin_create(server(1, 25600)).unwrap();
    assert_eq!(t.begin_create(server(2, 25600)), Err(ServerCreationError::PortAlreadyAllocated));
    assert!(t.get_by_id(2).is_none());
    assert_eq!(t.len(), 1);
    assert_eq!(ServerCreationError::PortAlreadyAllocated.status_code(), 400);
    assert_eq!(ServerCreationError::from_record_error(RecordError::DuplicateId), ServerCreationError::StoreError);
}

fn run_delete(replies: [DaemonReply; 3]) -> Result<(), ServerDeletionError> {
    let mut stage = DeleteStage::RemoveRecord;
    for reply in replies {
        match delete_step(stage, reply) {
            DeleteProgress::Next(next) => stage = next,
            DeleteProgress::Finished(r) => return r,
        }
    }
    panic!("deletion did not finish")
}

#[test]
fn delete_tolerates_missing_objects() {
    let (done, failed, missing) = (DaemonReply::Done, DaemonReply::Failed, DaemonReply::NotFound);
    assert_eq!(run_delete([done, done, done]), Ok(()));
    assert_eq!(run_delete([done, missing, missing]), Ok(()));
    assert_eq!(run_delete([missing, missing, missing]), Ok(()));
    assert_eq!(run_delete([failed, done, done]), Err(ServerDeletionError::DatabaseError));
    assert_eq!(run_delete([done, failed, done]), Err(ServerDeletionError::DockerError));
    assert_eq!(run_delete([done, done, failed]), Err(ServerDeletionError::DockerError));
    assert_eq!(ServerDeletionError::ServerNotFound.status_code(), 404);
    assert_eq!(ServerDeletionError::DockerError.status_code(), 500);
}

#[test]
fn delete_stops_after_record_failure() {
    assert!(matches!(
        delete_step(DeleteStage::RemoveRecord, DaemonReply::Failed),
        DeleteProgress::Finished(Err(ServerDeletionError::DatabaseError))
    ));
    assert!(matches!(
        delete_step(DeleteStage::RemoveRecord, DaemonReply::Done),
        DeleteProgress::Next(DeleteStage::RemoveContainer)
    ));
}

#[test]
fn restore_decisions() {
    assert_eq!(restore_action(false, true), RestoreAction::Purge);
    assert_eq!(restore_action(false, false), RestoreAction::Purge);
    assert_eq!(restore_action(true, true), RestoreAction::Start);
    assert_eq!(restore_action(true, false), RestoreAction::Recreate);
}

#[test]
fn restore_without_volume_deletes_record() {
    let mut t = ServerTable::new();
    t.begin_create(server(1, 25600)).unwrap();
    t.begin_create(server(2, 25601)).unwrap();
    assert_eq!(t.restore_record(1, false, true), RestoreAction::Purge);
    assert!(t.get_by_id(1).is_none());
    assert_eq!(t.restore_record(2, true, false), RestoreAction::Recreate);
    assert!(t.get_by_id(2).is_some());
}

fn manifest() -> VersionManifest {
    VersionManifest {
        versions: vec![Version { id: "1.20.4".to_string(), url: "https://example.test/1.20.4.json".to_string() }],
    }
}

fn detail() -> ServerVersionInfo {
    ServerVersionInfo { server_url: Some("https://example.test/server.jar".to_string()), java_version: 17 }
}

/// Drives a flow up to the provisioning step; returns the inserted id.
fn flow_until_provision(t: &mut ServerTable, port: u16) -> (CreateFlow, u128) {
    let (mut flow, step) = CreateFlow::start(t, 7, "demo", port, "1.20.4", "java -jar server.jar\n");
    assert!(matches!(step, CreateStep::FetchManifest));
    let m = manifest();
    let step = flow.on_manifest(Some(&m));
    assert!(matches!(step, CreateStep::FetchDetail { ref url } if url == "https://example.test/1.20.4.json"));
    let step = flow.on_detail(Some(detail()));
    match step {
        CreateStep::InsertRecord { owner, name, port: p, image } => {
            assert_eq!(owner, 7);
            assert_eq!(name, "demo");
            assert_eq!(p, port);
            assert_eq!(image, "openjdk:17");
        }
        _ => panic!("expected an insert"),
    }
    let step = flow.on_inserted(t, Some(server(42, port)));
    match step {
        CreateStep::Provision { steps } => {
            assert_eq!(steps.len(), 7);
            assert!(matches!(&steps[0], ProvisionStep::PullImage { image } if image == "openjdk:17"));
        }
        _ => panic!("expected provisioning"),
    }
    assert_eq!(flow.current_stage(), CreateStage::AwaitProvision);
    (flow, 42)
}

#[test]
fn create_flow_happy_path() {
    let mut t = ServerTable::new();
    let (mut flow, id) = flow_until_provision(&mut t, 25600);
    assert!(t.get_by_id(id).is_some());
    assert!(matches!(flow.on_provisioned(&mut t, Ok(())), CreateStep::Finish(Ok(()))));
    assert_eq!(flow.current_stage(), CreateStage::Finished);
    assert_eq!(t.get_by_id(id).unwrap().port, 25600);
}

#[test]
fn create_flow_rolls_back_failed_provision() {
    let mut t = ServerTable::new();
    let (mut flow, id) = flow_until_provision(&mut t, 25600);
    let step = flow.on_provisioned(&mut t, Err(ServerProvisionError::StartError));
    assert!(matches!(step, CreateStep::DeleteRecord { id: i } if i == id));
    assert!(t.get_by_id(id).is_none());
    assert_eq!(t.len(), 0);
    match flow.on_rolled_back(true) {
        CreateStep::Finish(Err(e)) => {
            assert_eq!(e, ServerCreationError::ProvisionError(ServerProvisionError::StartError))
        }
        _ => panic!("expected the failure"),
    }
}

#[test]
fn create_flow_unknown_version_stores_nothing() {
    let t = ServerTable::new();
    let (mut flow, _) = CreateFlow::start(&t, 7, "demo", 25600, "9.9.9", "");
    let m = manifest();
    match flow.on_manifest(Some(&m)) {
        CreateStep::Finish(Err(e)) => assert_eq!(e, ServerCreationError::VersionNotFound),
        _ => panic!("expected VersionNotFound"),
    }
    assert_eq!(t.len(), 0);
}

#[test]
fn create_flow_rejects_before_fetching() {
    let mut t = ServerTable::new();
    let (_flow, id) = flow_until_provision(&mut t, 25600);
    assert_eq!(id, 42);
    let (_, step) = CreateFlow::start(&t, 8, "other", 25600, "1.20.4", "");
    assert!(matches!(step, CreateStep::Finish(Err(ServerCreationError::PortAlreadyAllocated))));
    let (_, step) = CreateFlow::start(&t, 8, "", 25601, "1.20.4", "");
    assert!(matches!(step, CreateStep::Finish(Err(ServerCreationError::InvalidName))));
    let (_, step) = CreateFlow::start(&t, 8, &"a".repeat(129), 25601, "1.20.4", "");
    assert!(matches!(step, CreateStep::Finish(Err(ServerCreationError::InvalidName))));
    assert_eq!(t.len(), 1);
}

#[test]
fn create_flow_fetch_failures() {
    let t = ServerTable::new();
    let (mut flow, _) = CreateFlow::start(&t, 7, "demo", 25600, "1.20.4", "");
    assert!(matches!(flow.on_manifest(None), CreateStep::Finish(Err(ServerCreationError::VersionError))));
    let (mut flow, _) = CreateFlow::start(&t, 7, "demo", 25600, "1.20.4", "");
    let m = manifest();
    flow.on_manifest(Some(&m));
    let missing = ServerVersionInfo { server_url: None, java_version: 8 };
    assert!(matches!(flow.on_detail(Some(missing)), CreateStep::Finish(Err(ServerCreationError::ServerInfoNotFound))));
}

#[test]
fn create_flow_store_refusal() {
    let mut t = ServerTable::new();
    let (mut flow, _) = CreateFlow::start(&t, 7, "demo", 25600, "1.20.4", "");
    let m = manifest();
    flow.on_manifest(Some(&m));
    flow.on_detail(Some(detail()));
    assert!(matches!(flow.on_inserted(&mut t, None), CreateStep::Finish(Err(ServerCreationError::StoreError))));
    assert_eq!(t.len(), 0);
}
