//! Server records and the table that holds them. The table keeps the
//! record rules: names of 1 to 128 characters, ports in 1024..=65535, and
//! no two records on one port.

use vstd::prelude::*;
use vstd::string::*;
use crate::naming::{container_name, container_name_spec, volume_path, volume_path_spec};
use crate::text::chars_of;

verus! {

/// A server record as stored.
#[derive(Debug)]
pub struct Server {
    pub id: u128,
    /// Creation time, in microseconds since the Unix epoch, set by the store.
    pub created_at: i64,
    pub owner: u128,
    pub port: u16,
    pub name: String,
    /// `openjdk:<major>`, captured at creation so that restoring needs no
    /// network.
    pub docker_image: String,
}

/// A server record as plain values.
pub struct ServerView {
    pub id: u128,
    pub created_at: i64,
    pub owner: u128,
    pub port: u16,
    pub name: Seq<char>,
    pub docker_image: Seq<char>,
}

impl View for Server {
    type V = ServerView;

    open spec fn view(&self) -> ServerView {
        ServerView {
            id: self.id,
            created_at: self.created_at,
            owner: self.owner,
            port: self.port,
            name: self.name@,
            docker_image: self.docker_image@,
        }
    }
}

/// Why a record could not be created.
#[derive(Clone, Copy, Debug, PartialEq, Eq, Structural)]
pub enum RecordError {
    /// The name is empty or longer than 128 characters.
    InvalidName,
    /// The port is below 1024.
    InvalidPort,
    /// Another record already holds the port.
    PortAlreadyAllocated,
    /// Another record already has the identifier.
    DuplicateId,
}

/// A name of 1 to 128 characters.
pub open spec fn valid_name(name: Seq<char>) -> bool {
    1 <= name.len() <= 128
}

/// A host port that an unprivileged server may take: 1024 to 65535.
pub open spec fn valid_port(port: u16) -> bool {
    1024 <= port
}

/// Whether a record keeps the field rules.
pub open spec fn valid_record(r: ServerView) -> bool {
    valid_name(r.name) && valid_port(r.port)
}

/// The verdict of the request checks on a name and a port.
pub open spec fn request_check(name: Seq<char>, port: u16) -> Result<(), RecordError> {
    if !valid_name(name) {
        Err(RecordError::InvalidName)
    } else if !valid_port(port) {
        Err(RecordError::InvalidPort)
    } else {
        Ok(())
    }
}

/// Checks a create request's name and port, name first.
pub fn validate_request(name: &str, port: u16) -> (r: Result<(), RecordError>)
    ensures
        r == request_check(name@, port),
{
    let n = chars_of(name).len();
    if n < 1 || n > 128 {
        Err(RecordError::InvalidName)
    } else if port < 1024 {
        Err(RecordError::InvalidPort)
    } else {
        Ok(())
    }
}

impl Server {
    /// The name of this server's container and named volume.
    pub fn container_name(&self) -> (r: String)
        ensures
            r@ == container_name_spec(self.id),
    {
        container_name(self.id)
    }

    /// The host directory bound into this server's container.
    pub fn volume_path(&self) -> (r: String)
        ensures
            r@ == volume_path_spec(self.id),
    {
        volume_path(self.id)
    }

    /// A field-by-field copy.
    pub fn copied(&self) -> (r: Server)
        ensures
            r@ == self@,
    {
        Server {
            id: self.id,
            created_at: self.created_at,
            owner: self.owner,
            port: self.port,
            name: self.name.clone(),
            docker_image: self.docker_image.clone(),
        }
    }
}

/// Whether some record of `s` has identifier `id`.
pub open spec fn has_id(s: Seq<ServerView>, id: u128) -> bool {
    exists|i: int| 0 <= i < s.len() && s[i].id == id
}

/// Whether some record of `s` holds `port`.
pub open spec fn port_taken(s: Seq<ServerView>, port: u16) -> bool {
    exists|i: int| 0 <= i < s.len() && s[i].port == port
}

/// The table rules: every record valid, ports and identifiers unique.
pub open spec fn table_rules(s: Seq<ServerView>) -> bool {
    &&& forall|i: int| 0 <= i < s.len() ==> valid_record(#[trigger] s[i])
    &&& forall|i: int, j: int|
        0 <= i < s.len() && 0 <= j < s.len() && i != j ==> #[trigger] s[i].port != #[trigger] s[j].port
    &&& forall|i: int, j: int|
        0 <= i < s.len() && 0 <= j < s.len() && i != j ==> s[i].id != s[j].id
}

/// The verdict of inserting `r` into `s`.
pub open spec fn insert_check(s: Seq<ServerView>, r: ServerView) -> Result<(), RecordError> {
    if !valid_name(r.name) {
        Err(RecordError::InvalidName)
    } else if !valid_port(r.port) {
        Err(RecordError::InvalidPort)
    } else if port_taken(s, r.port) {
        Err(RecordError::PortAlreadyAllocated)
    } else if has_id(s, r.id) {
        Err(RecordError::DuplicateId)
    } else {
        Ok(())
    }
}

/// `s` without the record of identifier `id`.
pub open spec fn without_id(s: Seq<ServerView>, id: u128) -> Seq<ServerView> {
    s.filter(|r: ServerView| r.id != id)
}

/// The records of `s` owned by `owner`, in order.
pub open spec fn owned_by(s: Seq<ServerView>, owner: u128) -> Seq<ServerView> {
    s.filter(|r: ServerView| r.owner == owner)
}

/// The server records, in insertion order.
pub struct ServerTable {
    records: Vec<Server>,
}

impl View for ServerTable {
    type V = Seq<ServerView>;

    closed spec fn view(&self) -> Seq<ServerView> {
        self.records@.map_values(|r: Server| r@)
    }
}

impl ServerTable {
    /// Whether the table keeps its rules.
    pub open spec fn wf(&self) -> bool {
        table_rules(self@)
    }

    /// An empty table.
    pub fn new() -> (r: ServerTable)
        ensures
            r.wf(),
            r@ == Seq::<ServerView>::empty(),
    {
        let r = ServerTable { records: Vec::new() };
        assert(r@ =~= Seq::<ServerView>::empty());
        r
    }

    /// The number of records.
    pub fn len(&self) -> (r: usize)
        ensures
            r == self@.len(),
    {
        self.records.len()
    }

    /// Whether a record holds `port`.
    pub fn port_in_use(&self, port: u16) -> (r: bool)
        ensures
            r == port_taken(self@, port),
    {
        let mut i: usize = 0;
        while i < self.records.len()
            invariant
                i <= self.records@.len(),
                forall|j: int| 0 <= j < i ==> self@[j].port != port,
            decreases self.records@.len() - i,
        {
            if self.records[i].port == port {
                assert(self@[i as int].port == port);
                return true;
            }
            i = i + 1;
        }
        false
    }

    /// Index of the first record with identifier `id`, if any.
    fn find(&self, id: u128) -> (r: Option<usize>)
        ensures
            match r {
                Some(i) => i < self@.len() && self@[i as int].id == id && forall|j: int|
                    0 <= j < i ==> self@[j].id != id,
                None => !has_id(self@, id),
            },
    {
        let mut i: usize = 0;
        while i < self.records.len()
            invariant
                i <= self.records@.len(),
                forall|j: int| 0 <= j < i ==> self@[j].id != id,
            decreases self.records@.len() - i,
        {
            if self.records[i].id == id {
                return Some(i);
            }
            i = i + 1;
        }
        None
    }

    /// Adds `record` when it keeps the rules; otherwise reports the first
    /// rule it breaks and leaves the table as it was.
    pub fn insert(&mut self, record: Server) -> (r: Result<(), RecordError>)
        requires
            old(self).wf(),
        ensures
            final(self).wf(),
            r == insert_check(old(self)@, record@),
            r is Ok ==> final(self)@ == old(self)@.push(record@),
            r is Err ==> final(self)@ == old(self)@,
    {
        let n = chars_of(record.name.as_str()).len();
        if n < 1 || n > 128 {
            return Err(RecordError::InvalidName);
        }
        if record.port < 1024 {
            return Err(RecordError::InvalidPort);
        }
        if self.port_in_use(record.port) {
            return Err(RecordError::PortAlreadyAllocated);
        }
        if self.find(record.id).is_some() {
            return Err(RecordError::DuplicateId);
        }
        let ghost v = record@;
        self.records.push(record);
        assert(self@ =~= old(self)@.push(v));
        Ok(())
    }

    /// The record with identifier `id`, if any.
    pub fn get_by_id(&self, id: u128) -> (r: Option<&Server>)
        ensures
            match r {
                Some(s) => s.id == id && exists|i: int|
                    0 <= i < self@.len() && self@[i] == s@ && forall|j: int|
                        0 <= j < i ==> self@[j].id != id,
                None => !has_id(self@, id),
            },
    {
        match self.find(id) {
            Some(i) => Some(&self.records[i]),
            None => None,
        }
    }

    /// Copies of the records owned by `owner`, in table order.
    pub fn get_all_by_owner(&self, owner: u128) -> (r: Vec<Server>)
        ensures
            r@.map_values(|s: Server| s@) == owned_by(self@, owner),
    {
        let mut out: Vec<Server> = Vec::new();
        let mut i: usize = 0;
        while i < self.records.len()
            invariant
                i <= self.records@.len(),
                out@.map_values(|s: Server| s@) == owned_by(self@.subrange(0, i as int), owner),
            decreases self.records@.len() - i,
        {
            let ghost before = out@;
            proof {
                let pre = self@.subrange(0, i as int);
                assert(self@.subrange(0, i + 1) =~= pre.push(self@[i as int]));
                lemma_filter_push(pre, |r: ServerView| r.owner == owner, self@[i as int]);
            }
            if self.records[i].owner == owner {
                let c = self.records[i].copied();
                out.push(c);
                assert(out@.map_values(|s: Server| s@) =~= before.map_values(|s: Server| s@).push(c@));
            }
            i = i + 1;
        }
        assert(self@.subrange(0, self@.len() as int) =~= self@);
        out
    }

    /// Copies of all records, in table order.
    pub fn list_all(&self) -> (r: Vec<Server>)
        ensures
            r@.map_values(|s: Server| s@) == self@,
    {
        let mut out: Vec<Server> = Vec::new();
        let mut i: usize = 0;
        while i < self.records.len()
            invariant
                i <= self.records@.len(),
                out@.map_values(|s: Server| s@) == self@.subrange(0, i as int),
            decreases self.records@.len() - i,
        {
            let ghost before = out@;
            let c = self.records[i].copied();
            out.push(c);
            assert(out@.map_values(|s: Server| s@) =~= before.map_values(|s: Server| s@).push(c@));
            assert(self@.subrange(0, i + 1) =~= self@.subrange(0, i as int).push(self@[i as int]));
            i = i + 1;
        }
        assert(self@.subrange(0, self@.len() as int) =~= self@);
        out
    }

    /// Removes the record with identifier `id`. Removing an absent record
    /// is no error: the result tells whether one was there.
    pub fn delete(&mut self, id: u128) -> (r: bool)
        requires
            old(self).wf(),
        ensures
            final(self).wf(),
            r == has_id(old(self)@, id),
            final(self)@ == without_id(old(self)@, id),
            !has_id(final(self)@, id),
    {
        match self.find(id) {
            None => {
                proof {
                    lemma_filter_keeps_all(old(self)@, id);
                }
                false
            },
            Some(i) => {
                let ghost pre = self@;
                self.records.remove(i);
                proof {
                    assert(self@ =~= pre.remove(i as int));
                    lemma_remove_unique(pre, i as int);
                }
                true
            },
        }
    }
}

/// No two records of a table hold the same port.
pub proof fn lemma_ports_unique(t: &ServerTable, i: int, j: int)
    requires
        t.wf(),
        0 <= i < t@.len(),
        0 <= j < t@.len(),
        i != j,
    ensures
        t@[i].port != t@[j].port,
{
}

/// Every record of a table has a name of 1 to 128 characters and a port
/// from 1024 to 65535.
pub proof fn lemma_records_valid(t: &ServerTable, i: int)
    requires
        t.wf(),
        0 <= i < t@.len(),
    ensures
        1 <= t@[i].name.len() <= 128,
        1024 <= t@[i].port <= 65535,
{
    assert(valid_record(t@[i]));
}

/// Filtering a sequence extended by one element.
proof fn lemma_filter_push(s: Seq<ServerView>, p: spec_fn(ServerView) -> bool, x: ServerView)
    ensures
        s.push(x).filter(p) == (if p(x) {
            s.filter(p).push(x)
        } else {
            s.filter(p)
        }),
{
    reveal(Seq::filter);
    assert(s.push(x).drop_last() =~= s);
    assert(s.push(x).last() == x);
}

/// Filtering out an identifier that no record has changes nothing.
pub(crate) proof fn lemma_filter_keeps_all(s: Seq<ServerView>, id: u128)
    requires
        !has_id(s, id),
    ensures
        without_id(s, id) == s,
        !has_id(without_id(s, id), id),
    decreases s.len(),
{
    if s.len() > 0 {
        let init = s.drop_last();
        assert(s =~= init.push(s.last()));
        assert(!has_id(init, id)) by {
            if has_id(init, id) {
                let i = choose|i: int| 0 <= i < init.len() && init[i].id == id;
                assert(s[i].id == id);
            }
        }
        lemma_filter_keeps_all(init, id);
        lemma_filter_push(init, |r: ServerView| r.id != id, s.last());
        assert(s.last() == s[s.len() - 1]);
    } else {
        reveal(Seq::filter);
        assert(without_id(s, id) =~= s);
    }
}

/// In a table that keeps its rules, removing the one record of an
/// identifier is filtering that identifier out, and keeps the rules.
proof fn lemma_remove_unique(s: Seq<ServerView>, i: int)
    requires
        table_rules(s),
        0 <= i < s.len(),
    ensures
        s.remove(i) == without_id(s, s[i].id),
        table_rules(s.remove(i)),
        !has_id(s.remove(i), s[i].id),
{
    let id = s[i].id;
    let t = s.remove(i);
    assert(!has_id(t, id)) by {
        if has_id(t, id) {
            let k = choose|k: int| 0 <= k < t.len() && t[k].id == id;
            if k < i {
                assert(t[k] == s[k]);
            } else {
                assert(t[k] == s[k + 1]);
            }
        }
    }
    lemma_filter_split(s, i);
    assert(table_rules(t)) by {
        assert forall|a: int, b: int|
            0 <= a < t.len() && 0 <= b < t.len() && a != b implies t[a].port != t[b].port
            && t[a].id != t[b].id by {
            let sa = if a < i { a } else { a + 1 };
            let sb = if b < i { b } else { b + 1 };
            assert(t[a] == s[sa]);
            assert(t[b] == s[sb]);
        }
        assert forall|a: int| 0 <= a < t.len() implies valid_record(#[trigger] t[a]) by {
            let sa = if a < i { a } else { a + 1 };
            assert(t[a] == s[sa]);
        }
    }
}

/// Filtering out `s[i].id`, when only `s[i]` has it, removes exactly `s[i]`.
proof fn lemma_filter_split(s: Seq<ServerView>, i: int)
    requires
        table_rules(s),
        0 <= i < s.len(),
    ensures
        s.remove(i) == without_id(s, s[i].id),
    decreases s.len(),
{
    let id = s[i].id;
    let init = s.drop_last();
    assert(s =~= init.push(s.last()));
    lemma_filter_push(init, |r: ServerView| r.id != id, s.last());
    assert(table_rules(init)) by {
        assert forall|a: int, b: int|
            0 <= a < init.len() && 0 <= b < init.len() && a != b implies init[a].port
            != init[b].port && init[a].id != init[b].id by {
            assert(init[a] == s[a]);
            assert(init[b] == s[b]);
        }
        assert forall|a: int| 0 <= a < init.len() implies valid_record(#[trigger] init[a]) by {
            assert(init[a] == s[a]);
        }
    }
    if i == s.len() - 1 {
        assert(!has_id(init, id)) by {
            if has_id(init, id) {
                let k = choose|k: int| 0 <= k < init.len() && init[k].id == id;
                assert(init[k] == s[k]);
            }
        }
        lemma_filter_keeps_all(init, id);
        assert(s.remove(i) =~= init);
    } else {
        assert(init[i] == s[i]);
        lemma_filter_split(init, i);
        assert(s.last().id != id) by {
            assert(s.last() == s[s.len() - 1]);
        }
        assert(s.remove(i) =~= init.remove(i).push(s.last()));
    }
}

} // verus!
