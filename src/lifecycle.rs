//! The decisions of the server lifecycle: what a create request may do and
//! how it rolls back, how a deletion tolerates objects that are already
//! gone, and what restoring a record at start-up does.

use vstd::prelude::*;
use crate::record::{
    has_id, insert_check, lemma_filter_keeps_all, port_taken, request_check, table_rules,
    validate_request, without_id, RecordError, Server, ServerTable, ServerView,
};
use crate::provision::{
    bootstrap_script_spec, fresh_plan, fresh_steps, image_tag, image_tag_spec, step_views,
    ProvisionStep,
};
use crate::version::{trimmed, ServerJarInfo, ServerVersionInfo, Version, VersionManifest};

verus! {

/// A provisioning step that failed, by what it failed on.
#[derive(Clone, Copy, Debug, PartialEq, Eq, Structural)]
pub enum ServerProvisionError {
    /// A container daemon call failed.
    DockerError,
    /// Preparing the volume directory or writing the script failed.
    FilesystemError,
    /// The volume directory has no usable absolute path.
    PathError,
    /// The container could not be started.
    StartError,
}

/// Why creating a server failed.
#[derive(Clone, Copy, Debug, PartialEq, Eq, Structural)]
pub enum ServerCreationError {
    InvalidName,
    InvalidPort,
    PortAlreadyAllocated,
    /// No manifest entry has the requested version id.
    VersionNotFound,
    /// The manifest or the version's detail document could not be fetched.
    VersionError,
    /// The version has no server download.
    ServerInfoNotFound,
    /// The store refused the record.
    StoreError,
    /// Provisioning failed after the record was inserted; the record has
    /// been removed again.
    ProvisionError(ServerProvisionError),
}

/// The HTTP status that reports a creation error.
pub open spec fn creation_status(e: ServerCreationError) -> u16 {
    match e {
        ServerCreationError::InvalidName => 400,
        ServerCreationError::InvalidPort => 400,
        ServerCreationError::PortAlreadyAllocated => 400,
        ServerCreationError::VersionNotFound => 404,
        _ => 500,
    }
}

/// The creation error that reports a broken record rule.
pub open spec fn from_record_error_spec(e: RecordError) -> ServerCreationError {
    match e {
        RecordError::InvalidName => ServerCreationError::InvalidName,
        RecordError::InvalidPort => ServerCreationError::InvalidPort,
        RecordError::PortAlreadyAllocated => ServerCreationError::PortAlreadyAllocated,
        RecordError::DuplicateId => ServerCreationError::StoreError,
    }
}

impl ServerCreationError {
    /// The HTTP status: 400 for rejected input, 404 for an unknown version,
    /// 500 otherwise.
    pub fn status_code(&self) -> (r: u16)
        ensures
            r == creation_status(*self),
    {
        match self {
            ServerCreationError::InvalidName => 400,
            ServerCreationError::InvalidPort => 400,
            ServerCreationError::PortAlreadyAllocated => 400,
            ServerCreationError::VersionNotFound => 404,
            _ => 500,
        }
    }

    /// The creation error that reports a broken record rule.
    pub fn from_record_error(e: RecordError) -> (r: ServerCreationError)
        ensures
            r == from_record_error_spec(e),
    {
        match e {
            RecordError::InvalidName => ServerCreationError::InvalidName,
            RecordError::InvalidPort => ServerCreationError::InvalidPort,
            RecordError::PortAlreadyAllocated => ServerCreationError::PortAlreadyAllocated,
            RecordError::DuplicateId => ServerCreationError::StoreError,
        }
    }
}

/// Checks a create request before anything is fetched or stored: the name,
/// then the port range, then whether the port is free.
pub fn admit_request(table: &ServerTable, name: &str, port: u16) -> (r: Result<(), ServerCreationError>)
    ensures
        r == (match request_check(name@, port) {
            Err(e) => Err(from_record_error_spec(e)),
            Ok(()) => if port_taken(table@, port) {
                Err(ServerCreationError::PortAlreadyAllocated)
            } else {
                Ok(())
            },
        }),
{
    match validate_request(name, port) {
        Err(e) => Err(ServerCreationError::from_record_error(e)),
        Ok(()) => {
            if table.port_in_use(port) {
                Err(ServerCreationError::PortAlreadyAllocated)
            } else {
                Ok(())
            }
        },
    }
}

/// The manifest entry of the requested version, or `VersionNotFound`.
pub fn resolve_version<'a>(manifest: &'a VersionManifest, version: &str) -> (r: Result<
    &'a Version,
    ServerCreationError,
>)
    ensures
        match r {
            Ok(v) => v.id@ == trimmed(version@) && exists|i: int|
                0 <= i < manifest.versions@.len() && v == &manifest.versions@[i] && forall|j: int|
                    0 <= j < i ==> manifest.versions@[j].id@ != trimmed(version@),
            Err(e) => e == ServerCreationError::VersionNotFound && forall|i: int|
                0 <= i < manifest.versions@.len() ==> manifest.versions@[i].id@ != trimmed(
                    version@,
                ),
        },
{
    match manifest.get_version(version) {
        Some(v) => Ok(v),
        None => Err(ServerCreationError::VersionNotFound),
    }
}

/// The jar descriptor from a fetched detail document (`None` when the fetch
/// failed): `VersionError` without a document, `ServerInfoNotFound` without
/// a server download.
pub fn jar_for_create(fetched: Option<ServerVersionInfo>) -> (r: Result<ServerJarInfo, ServerCreationError>)
    ensures
        match fetched {
            None => r == Err::<ServerJarInfo, ServerCreationError>(ServerCreationError::VersionError),
            Some(info) => match info.server_url {
                None => r == Err::<ServerJarInfo, ServerCreationError>(
                    ServerCreationError::ServerInfoNotFound,
                ),
                Some(u) => r matches Ok(j) && j.url@ == u@ && j.java_version == info.java_version,
            },
        },
{
    match fetched {
        None => Err(ServerCreationError::VersionError),
        Some(info) => match info.get_server_info() {
            Ok(j) => Ok(j),
            Err(_) => Err(ServerCreationError::ServerInfoNotFound),
        },
    }
}

impl ServerTable {
    /// Records a freshly inserted record in the table.
    pub fn begin_create(&mut self, record: Server) -> (r: Result<(), ServerCreationError>)
        requires
            old(self).wf(),
        ensures
            final(self).wf(),
            match insert_check(old(self)@, record@) {
                Ok(()) => r is Ok && final(self)@ == old(self)@.push(record@),
                Err(e) => r == Err::<(), ServerCreationError>(from_record_error_spec(e))
                    && final(self)@ == old(self)@,
            },
    {
        match self.insert(record) {
            Ok(()) => Ok(()),
            Err(e) => Err(ServerCreationError::from_record_error(e)),
        }
    }

    /// Ends a create once provisioning has run: on success the record stays;
    /// on failure the record is removed before the error is reported.
    pub fn finish_create(&mut self, id: u128, provisioned: Result<(), ServerProvisionError>) -> (r:
        Result<(), ServerCreationError>)
        requires
            old(self).wf(),
        ensures
            final(self).wf(),
            match provisioned {
                Ok(()) => r is Ok && final(self)@ == old(self)@,
                Err(e) => r == Err::<(), ServerCreationError>(ServerCreationError::ProvisionError(e))
                    && final(self)@ == without_id(old(self)@, id) && !has_id(final(self)@, id),
            },
    {
        match provisioned {
            Ok(()) => Ok(()),
            Err(e) => {
                self.delete(id);
                Err(ServerCreationError::ProvisionError(e))
            },
        }
    }
}

/// A create whose provisioning failed leaves no record of the attempted
/// identifier: after the insert and the rollback the table is as it was
/// before the insert.
pub proof fn lemma_failed_create_leaves_no_record(t: Seq<ServerView>, r: ServerView)
    requires
        table_rules(t),
    ensures
        insert_check(t, r) is Ok ==> !has_id(without_id(t.push(r), r.id), r.id),
        insert_check(t, r) is Ok ==> without_id(t.push(r), r.id) == t,
{
    if insert_check(t, r) is Ok {
        lemma_without_absent_then_pushed(t, r);
    }
}

proof fn lemma_without_absent_then_pushed(t: Seq<ServerView>, r: ServerView)
    requires
        !has_id(t, r.id),
    ensures
        without_id(t.push(r), r.id) == t,
{
    reveal(Seq::filter);
    assert(t.push(r).drop_last() =~= t);
    lemma_filter_keeps_all(t, r.id);
}

/// What the daemon answered to one removal.
#[derive(Clone, Copy, Debug, PartialEq, Eq, Structural)]
pub enum DaemonReply {
    /// The object was removed.
    Done,
    /// There was no such object.
    NotFound,
    /// The call failed.
    Failed,
}

/// Why deleting a server failed.
#[derive(Clone, Copy, Debug, PartialEq, Eq, Structural)]
pub enum ServerDeletionError {
    /// Removing the record failed; nothing else was attempted.
    DatabaseError,
    /// Removing the container or the volume failed.
    DockerError,
    /// The request names no record of the caller.
    ServerNotFound,
}

impl ServerDeletionError {
    /// The HTTP status: 404 for an unknown server, 500 otherwise.
    pub fn status_code(&self) -> (r: u16)
        ensures
            r == (if *self == ServerDeletionError::ServerNotFound {
                404u16
            } else {
                500u16
            }),
    {
        match self {
            ServerDeletionError::ServerNotFound => 404,
            _ => 500,
        }
    }
}

/// The stages of a deletion, in order.
#[derive(Clone, Copy, Debug, PartialEq, Eq, Structural)]
pub enum DeleteStage {
    /// Remove the record from the store.
    RemoveRecord,
    /// Force-remove the container `waitress-<id>`.
    RemoveContainer,
    /// Force-remove the named volume `waitress-<id>`.
    RemoveVolume,
}

/// Where a deletion goes after a reply.
#[derive(Clone, Copy, Debug)]
pub enum DeleteProgress {
    Next(DeleteStage),
    Finished(Result<(), ServerDeletionError>),
}

/// The transition of a deletion on the reply to its current stage.
pub open spec fn delete_step_spec(stage: DeleteStage, reply: DaemonReply) -> DeleteProgress {
    match stage {
        DeleteStage::RemoveRecord => match reply {
            DaemonReply::Failed => DeleteProgress::Finished(Err(ServerDeletionError::DatabaseError)),
            _ => DeleteProgress::Next(DeleteStage::RemoveContainer),
        },
        DeleteStage::RemoveContainer => match reply {
            DaemonReply::Failed => DeleteProgress::Finished(Err(ServerDeletionError::DockerError)),
            _ => DeleteProgress::Next(DeleteStage::RemoveVolume),
        },
        DeleteStage::RemoveVolume => match reply {
            DaemonReply::Failed => DeleteProgress::Finished(Err(ServerDeletionError::DockerError)),
            _ => DeleteProgress::Finished(Ok(())),
        },
    }
}

/// The next stage of a deletion given the reply to the current one. A
/// missing container or volume counts as removed; a failed record removal
/// stops the deletion.
pub fn delete_step(stage: DeleteStage, reply: DaemonReply) -> (r: DeleteProgress)
    ensures
        r == delete_step_spec(stage, reply),
{
    match stage {
        DeleteStage::RemoveRecord => match reply {
            DaemonReply::Failed => DeleteProgress::Finished(Err(ServerDeletionError::DatabaseError)),
            _ => DeleteProgress::Next(DeleteStage::RemoveContainer),
        },
        DeleteStage::RemoveContainer => match reply {
            DaemonReply::Failed => DeleteProgress::Finished(Err(ServerDeletionError::DockerError)),
            _ => DeleteProgress::Next(DeleteStage::RemoveVolume),
        },
        DeleteStage::RemoveVolume => match reply {
            DaemonReply::Failed => DeleteProgress::Finished(Err(ServerDeletionError::DockerError)),
            _ => DeleteProgress::Finished(Ok(())),
        },
    }
}

/// The outcome of a whole deletion, given the replies to its three stages
/// in order (replies after a stop are not asked for).
pub open spec fn delete_run(record: DaemonReply, container: DaemonReply, volume: DaemonReply) -> Result<
    (),
    ServerDeletionError,
> {
    match delete_step_spec(DeleteStage::RemoveRecord, record) {
        DeleteProgress::Finished(r) => r,
        DeleteProgress::Next(_) => match delete_step_spec(DeleteStage::RemoveContainer, container) {
            DeleteProgress::Finished(r) => r,
            DeleteProgress::Next(_) => match delete_step_spec(DeleteStage::RemoveVolume, volume) {
                DeleteProgress::Finished(r) => r,
                DeleteProgress::Next(_) => Ok(()),
            },
        },
    }
}

/// Whether a reply leaves the object absent.
pub open spec fn gone(reply: DaemonReply) -> bool {
    reply == DaemonReply::Done || reply == DaemonReply::NotFound
}

/// A deletion succeeds exactly when the record, the container and the
/// volume are each removed or already absent; so a second deletion, which
/// finds none of them, succeeds too.
pub proof fn lemma_delete_removes_all(record: DaemonReply, container: DaemonReply, volume: DaemonReply)
    ensures
        delete_run(record, container, volume) is Ok <==> (gone(record) && gone(container) && gone(
            volume,
        )),
        delete_run(DaemonReply::NotFound, DaemonReply::NotFound, DaemonReply::NotFound) is Ok,
        delete_run(DaemonReply::Done, DaemonReply::NotFound, DaemonReply::NotFound) is Ok,
{
}

/// What restoring one record at start-up does.
#[derive(Clone, Copy, Debug, PartialEq, Eq, Structural)]
pub enum RestoreAction {
    /// The volume directory is gone: delete the record and, best effort,
    /// force-remove any container of that name.
    Purge,
    /// The container exists: start it.
    Start,
    /// Recreate the container from the record's image (see
    /// `restore_plan`) and start it.
    Recreate,
}

/// The restore action for a record, by whether its volume directory and
/// its container exist.
pub open spec fn restore_action_spec(volume_exists: bool, container_exists: bool) -> RestoreAction {
    if !volume_exists {
        RestoreAction::Purge
    } else if container_exists {
        RestoreAction::Start
    } else {
        RestoreAction::Recreate
    }
}

/// Decides how to restore a record: the volume is the source of truth, so
/// without it the record is purged.
pub fn restore_action(volume_exists: bool, container_exists: bool) -> (r: RestoreAction)
    ensures
        r == restore_action_spec(volume_exists, container_exists),
{
    if !volume_exists {
        RestoreAction::Purge
    } else if container_exists {
        RestoreAction::Start
    } else {
        RestoreAction::Recreate
    }
}

impl ServerTable {
    /// Restores the record `id`: decides the action and, on `Purge`, deletes
    /// the record from the table.
    pub fn restore_record(&mut self, id: u128, volume_exists: bool, container_exists: bool) -> (r:
        RestoreAction)
        requires
            old(self).wf(),
        ensures
            final(self).wf(),
            r == restore_action_spec(volume_exists, container_exists),
            !volume_exists ==> !has_id(final(self)@, id) && final(self)@ == without_id(
                old(self)@,
                id,
            ),
            volume_exists ==> final(self)@ == old(self)@,
    {
        let a = restore_action(volume_exists, container_exists);
        if !volume_exists {
            self.delete(id);
        }
        a
    }
}

/// Where a create request stands.
#[derive(Clone, Copy, Debug, PartialEq, Eq, Structural)]
pub enum CreateStage {
    /// Waiting for the upstream manifest.
    AwaitManifest,
    /// Waiting for the version's detail document.
    AwaitDetail,
    /// Waiting for the store to insert the record.
    AwaitInsert,
    /// Waiting for provisioning to run.
    AwaitProvision,
    /// Waiting for the store to delete the record again.
    AwaitRollback,
    /// The request has been answered.
    Finished,
}

/// What the caller does next for a create request.
pub enum CreateStep {
    /// Fetch the upstream manifest.
    FetchManifest,
    /// Fetch the version's detail document at this URL.
    FetchDetail { url: String },
    /// Insert a record with these fields; the store assigns its identifier
    /// and creation time.
    InsertRecord { owner: u128, name: String, port: u16, image: String },
    /// Carry out these provisioning steps.
    Provision { steps: Vec<ProvisionStep> },
    /// Delete the record from the store.
    DeleteRecord { id: u128 },
    /// Answer the request.
    Finish(Result<(), ServerCreationError>),
}

/// Whether `r` answers the request with failure `f`.
pub open spec fn answers_err(r: CreateStep, f: ServerCreationError) -> bool {
    match r {
        CreateStep::Finish(Err(e)) => e == f,
        _ => false,
    }
}

/// Whether `r` asks for the detail document at `url`.
pub open spec fn fetches_detail(r: CreateStep, url: Seq<char>) -> bool {
    match r {
        CreateStep::FetchDetail { url: u } => u@ == url,
        _ => false,
    }
}

/// Whether `r` asks to insert a record with these fields.
pub open spec fn inserts(r: CreateStep, owner: u128, name: Seq<char>, port: u16, image: Seq<char>) -> bool {
    match r {
        CreateStep::InsertRecord { owner: o, name: n, port: p, image: i } => o == owner && n@ == name
            && p == port && i@ == image,
        _ => false,
    }
}

/// Whether `r` asks to delete the record `id` from the store.
pub open spec fn deletes(r: CreateStep, id: u128) -> bool {
    match r {
        CreateStep::DeleteRecord { id: i } => i == id,
        _ => false,
    }
}

/// Whether `r` asks to carry out provisioning steps, and which.
pub open spec fn provisions(r: CreateStep) -> Option<Seq<crate::provision::StepView>> {
    match r {
        CreateStep::Provision { steps } => Some(step_views(steps@)),
        _ => None,
    }
}

/// One create request, from admission to its answer. Nothing is stored
/// before the version has been resolved, and a record whose provisioning
/// fails is deleted before the failure is reported.
pub struct CreateFlow {
    stage: CreateStage,
    owner: u128,
    name: String,
    port: u16,
    version: String,
    payload: String,
    jar: Option<ServerJarInfo>,
    id: u128,
    failure: ServerCreationError,
}

impl CreateFlow {
    /// The current stage.
    pub closed spec fn stage(&self) -> CreateStage {
        self.stage
    }

    /// A flow about to insert has resolved its jar.
    pub closed spec fn wf(&self) -> bool {
        self.stage == CreateStage::AwaitInsert ==> self.jar is Some
    }

    /// The identifier of the inserted record, once there is one.
    pub closed spec fn record_id(&self) -> u128 {
        self.id
    }

    /// The requesting user.
    pub closed spec fn owner_spec(&self) -> u128 {
        self.owner
    }

    /// The requested name.
    pub closed spec fn name_spec(&self) -> Seq<char> {
        self.name@
    }

    /// The requested port.
    pub closed spec fn port_spec(&self) -> u16 {
        self.port
    }

    /// The requested version id.
    pub closed spec fn version_spec(&self) -> Seq<char> {
        self.version@
    }

    /// The bootstrap payload.
    pub closed spec fn payload_spec(&self) -> Seq<char> {
        self.payload@
    }

    /// The jar URL and JDK major version, once resolved.
    pub closed spec fn jar_spec(&self) -> Option<(Seq<char>, u8)> {
        match self.jar {
            Some(j) => Some((j.url@, j.java_version)),
            None => None,
        }
    }

    /// The failure to report after a rollback.
    pub closed spec fn failure_spec(&self) -> ServerCreationError {
        self.failure
    }

    /// The current stage.
    pub fn current_stage(&self) -> (r: CreateStage)
        ensures
            r == self.stage(),
    {
        self.stage
    }

    /// Admits a request of `owner` for a server `name` on `port` running
    /// `version`; `payload` is the shipped bootstrap script. A request that
    /// breaks a rule is answered at once; otherwise the manifest is fetched.
    pub fn start(
        table: &ServerTable,
        owner: u128,
        name: &str,
        port: u16,
        version: &str,
        payload: &str,
    ) -> (r: (CreateFlow, CreateStep))
        ensures
            r.0.wf(),
            match request_check(name@, port) {
                Err(e) => r.0.stage() == CreateStage::Finished && answers_err(
                    r.1,
                    from_record_error_spec(e),
                ),
                Ok(()) => if port_taken(table@, port) {
                    r.0.stage() == CreateStage::Finished && answers_err(
                        r.1,
                        ServerCreationError::PortAlreadyAllocated,
                    )
                } else {
                    r.0.stage() == CreateStage::AwaitManifest && r.1 is FetchManifest
                },
            },
    {
        let admitted = admit_request(table, name, port);
        let stage = if admitted.is_ok() {
            CreateStage::AwaitManifest
        } else {
            CreateStage::Finished
        };
        let flow = CreateFlow {
            stage,
            owner,
            name: String::from_str(name),
            port,
            version: String::from_str(version),
            payload: String::from_str(payload),
            jar: None,
            id: 0,
            failure: ServerCreationError::StoreError,
        };
        match admitted {
            Ok(()) => (flow, CreateStep::FetchManifest),
            Err(e) => (flow, CreateStep::Finish(Err(e))),
        }
    }

    /// Takes the fetched manifest (`None`: the fetch failed) and resolves the
    /// requested version in it.
    pub fn on_manifest(&mut self, manifest: Option<&VersionManifest>) -> (r: CreateStep)
        requires
            old(self).wf(),
            old(self).stage() == CreateStage::AwaitManifest,
        ensures
            final(self).wf(),
            match manifest {
                None => final(self).stage() == CreateStage::Finished && answers_err(
                    r,
                    ServerCreationError::VersionError,
                ),
                Some(m) => if exists|i: int|
                    0 <= i < m.versions@.len() && m.versions@[i].id@ == trimmed(
                        old(self).version_spec(),
                    ) {
                    final(self).stage() == CreateStage::AwaitDetail && exists|i: int|
                        0 <= i < m.versions@.len() && m.versions@[i].id@ == trimmed(
                            old(self).version_spec(),
                        ) && fetches_detail(r, m.versions@[i].url@) && forall|j: int|
                            0 <= j < i ==> m.versions@[j].id@ != trimmed(old(self).version_spec())
                } else {
                    final(self).stage() == CreateStage::Finished && answers_err(
                        r,
                        ServerCreationError::VersionNotFound,
                    )
                },
            },
    {
        match manifest {
            None => {
                self.stage = CreateStage::Finished;
                CreateStep::Finish(Err(ServerCreationError::VersionError))
            },
            Some(m) => match resolve_version(m, self.version.as_str()) {
                Ok(v) => {
                    self.stage = CreateStage::AwaitDetail;
                    CreateStep::FetchDetail { url: v.url.clone() }
                },
                Err(e) => {
                    self.stage = CreateStage::Finished;
                    CreateStep::Finish(Err(e))
                },
            },
        }
    }

    /// Takes the fetched detail document (`None`: the fetch failed); with a
    /// server download, the record is inserted with the matching image.
    pub fn on_detail(&mut self, info: Option<ServerVersionInfo>) -> (r: CreateStep)
        requires
            old(self).wf(),
            old(self).stage() == CreateStage::AwaitDetail,
        ensures
            final(self).wf(),
            match info {
                None => final(self).stage() == CreateStage::Finished && answers_err(
                    r,
                    ServerCreationError::VersionError,
                ),
                Some(d) => match d.server_url {
                    None => final(self).stage() == CreateStage::Finished && answers_err(
                        r,
                        ServerCreationError::ServerInfoNotFound,
                    ),
                    Some(u) => {
                        &&& final(self).stage() == CreateStage::AwaitInsert
                        &&& final(self).jar_spec() == Some((u@, d.java_version))
                        &&& final(self).payload_spec() == old(self).payload_spec()
                        &&& inserts(
                            r,
                            old(self).owner_spec(),
                            old(self).name_spec(),
                            old(self).port_spec(),
                            image_tag_spec(d.java_version),
                        )
                    },
                },
            },
    {
        match jar_for_create(info) {
            Err(e) => {
                self.stage = CreateStage::Finished;
                CreateStep::Finish(Err(e))
            },
            Ok(jar) => {
                let image = image_tag(jar.java_version);
                self.jar = Some(jar);
                self.stage = CreateStage::AwaitInsert;
                CreateStep::InsertRecord {
                    owner: self.owner,
                    name: self.name.clone(),
                    port: self.port,
                    image,
                }
            },
        }
    }

    /// Takes the record that the store inserted (`None`: the store refused
    /// it). A record that the table refuses is deleted from the store again;
    /// otherwise provisioning follows.
    pub fn on_inserted(&mut self, table: &mut ServerTable, record: Option<Server>) -> (r: CreateStep)
        requires
            old(self).wf(),
            old(self).stage() == CreateStage::AwaitInsert,
            old(table).wf(),
        ensures
            final(self).wf(),
            final(table).wf(),
            match record {
                None => final(self).stage() == CreateStage::Finished && answers_err(
                    r,
                    ServerCreationError::StoreError,
                ) && final(table)@ == old(table)@,
                Some(s) => match insert_check(old(table)@, s@) {
                    Err(e) => {
                        &&& final(self).stage() == CreateStage::AwaitRollback
                        &&& final(self).failure_spec() == from_record_error_spec(e)
                        &&& deletes(r, s.id)
                        &&& final(table)@ == old(table)@
                    },
                    Ok(()) => {
                        &&& final(self).stage() == CreateStage::AwaitProvision
                        &&& final(self).record_id() == s.id
                        &&& final(table)@ == old(table)@.push(s@)
                        &&& old(self).jar_spec() matches Some(j) && provisions(r) == Some(
                            fresh_steps(
                                s.id,
                                image_tag_spec(j.1),
                                bootstrap_script_spec(j.0, old(self).payload_spec()),
                            ),
                        )
                    },
                },
            },
    {
        match record {
            None => {
                self.stage = CreateStage::Finished;
                CreateStep::Finish(Err(ServerCreationError::StoreError))
            },
            Some(s) => {
                let id = s.id;
                match table.begin_create(s) {
                    Err(e) => {
                        self.id = id;
                        self.failure = e;
                        self.stage = CreateStage::AwaitRollback;
                        CreateStep::DeleteRecord { id }
                    },
                    Ok(()) => {
                        self.id = id;
                        self.stage = CreateStage::AwaitProvision;
                        let steps = match &self.jar {
                            Some(j) => fresh_plan(id, j, self.payload.as_str()),
                            None => Vec::new(),
                        };
                        CreateStep::Provision { steps }
                    },
                }
            },
        }
    }

    /// Takes the outcome of provisioning. On failure the record leaves the
    /// table and is deleted from the store before the failure is reported.
    pub fn on_provisioned(
        &mut self,
        table: &mut ServerTable,
        outcome: Result<(), ServerProvisionError>,
    ) -> (r: CreateStep)
        requires
            old(self).wf(),
            old(self).stage() == CreateStage::AwaitProvision,
            old(table).wf(),
        ensures
            final(self).wf(),
            final(table).wf(),
            final(self).record_id() == old(self).record_id(),
            match outcome {
                Ok(()) => final(self).stage() == CreateStage::Finished && r is Finish && (r
                    matches CreateStep::Finish(res) && res is Ok) && final(table)@ == old(table)@,
                Err(e) => {
                    &&& final(self).stage() == CreateStage::AwaitRollback
                    &&& final(self).failure_spec() == ServerCreationError::ProvisionError(e)
                    &&& deletes(r, old(self).record_id())
                    &&& !has_id(final(table)@, old(self).record_id())
                    &&& final(table)@ == without_id(old(table)@, old(self).record_id())
                },
            },
    {
        match outcome {
            Ok(()) => {
                self.stage = CreateStage::Finished;
                CreateStep::Finish(Ok(()))
            },
            Err(e) => {
                let _ = table.finish_create(self.id, Err(e));
                self.failure = ServerCreationError::ProvisionError(e);
                self.stage = CreateStage::AwaitRollback;
                CreateStep::DeleteRecord { id: self.id }
            },
        }
    }

    /// Takes whether the store deleted the record, and answers with the
    /// failure that led here (or `StoreError` when the delete failed too).
    pub fn on_rolled_back(&mut self, deleted: bool) -> (r: CreateStep)
        requires
            old(self).wf(),
            old(self).stage() == CreateStage::AwaitRollback,
        ensures
            final(self).wf(),
            final(self).stage() == CreateStage::Finished,
            answers_err(
                r,
                if deleted {
                    old(self).failure_spec()
                } else {
                    ServerCreationError::StoreError
                },
            ),
    {
        self.stage = CreateStage::Finished;
        if deleted {
            CreateStep::Finish(Err(self.failure))
        } else {
            CreateStep::Finish(Err(ServerCreationError::StoreError))
        }
    }
}

} // verus!
