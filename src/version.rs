//! Resolution of a game version id against the upstream manifest, and the
//! server-jar descriptor derived from a version's detail document.

use vstd::prelude::*;
use vstd::string::*;

verus! {

/// What `str::trim` leaves of a string.
pub uninterp spec fn trimmed(s: Seq<char>) -> Seq<char>;

/// Relies on `str::trim`: the result depends on the characters alone and is
/// a contiguous part of the input.
#[verifier::external_body]
pub(crate) fn trim_str(s: &str) -> (r: &str)
    ensures
        r@ == trimmed(s@),
{
    s.trim()
}

/// One entry of the upstream manifest: a version tag and the URL of its
/// detail document.
pub struct Version {
    pub id: String,
    pub url: String,
}

/// The upstream list of versions, in manifest order.
pub struct VersionManifest {
    pub versions: Vec<Version>,
}

/// The release channel of a manifest entry.
#[derive(Clone, Copy, Debug, PartialEq, Eq, Structural)]
pub enum ReleaseType {
    Release,
    Snapshot,
    OldBeta,
    OldAlpha,
}

/// Where the server jar of a version is downloaded from, and the JDK major
/// version it needs.
pub struct ServerJarInfo {
    pub url: String,
    pub java_version: u8,
}

/// The parts of a version's detail document that provisioning reads:
/// `downloads.server.url` (absent for some old versions) and
/// `javaVersion.majorVersion`.
pub struct ServerVersionInfo {
    pub server_url: Option<String>,
    pub java_version: u8,
}

/// Why a version's detail document gives no server jar.
#[derive(Clone, Copy, Debug, PartialEq, Eq, Structural)]
pub enum ServerError {
    /// The detail document has no server download.
    ServerInfoNotFound,
}

impl VersionManifest {
    /// The first entry whose id equals the trimmed `version`, or `None` when
    /// no entry has that id.
    pub fn get_version(&self, version: &str) -> (r: Option<&Version>)
        ensures
            match r {
                Some(v) => exists|i: int|
                    0 <= i < self.versions@.len() && v == &self.versions@[i]
                        && self.versions@[i].id@ == trimmed(version@) && forall|j: int|
                        0 <= j < i ==> self.versions@[j].id@ != trimmed(version@),
                None => forall|i: int|
                    0 <= i < self.versions@.len() ==> self.versions@[i].id@ != trimmed(
                        version@,
                    ),
            },
    {
        let key = String::from_str(trim_str(version));
        let mut i: usize = 0;
        while i < self.versions.len()
            invariant
                i <= self.versions@.len(),
                key@ == trimmed(version@),
                forall|j: int| 0 <= j < i ==> self.versions@[j].id@ != key@,
            decreases self.versions@.len() - i,
        {
            if self.versions[i].id == key {
                return Some(&self.versions[i]);
            }
            i = i + 1;
        }
        None
    }
}

impl ServerVersionInfo {
    /// The jar descriptor, or `ServerInfoNotFound` when the document has no
    /// server download.
    pub fn get_server_info(self) -> (r: Result<ServerJarInfo, ServerError>)
        ensures
            match self.server_url {
                Some(u) => r matches Ok(j) && j.url@ == u@ && j.java_version == self.java_version,
                None => r == Err::<ServerJarInfo, ServerError>(ServerError::ServerInfoNotFound),
            },
    {
        match self.server_url {
            Some(url) => Ok(ServerJarInfo { url, java_version: self.java_version }),
            None => Err(ServerError::ServerInfoNotFound),
        }
    }
}

} // verus!
