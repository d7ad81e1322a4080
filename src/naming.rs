//! Names derived from a server's identifier: the container, the named
//! volume, the host directory and the bootstrap script path. They are pure
//! functions of the identifier and are never stored.

use vstd::prelude::*;
use vstd::string::*;

verus! {

/// The canonical text of an identifier, as the `uuid` crate prints it.
pub uninterp spec fn uuid_text(id: u128) -> Seq<char>;

/// Relies on `uuid::Uuid`'s `Display`: the hyphenated lower-case form of the
/// 128-bit value, which depends on the value alone.
#[verifier::external_body]
fn id_text(id: u128) -> (r: String)
    ensures
        r@ == uuid_text(id),
{
    uuid::Uuid::from_u128(id).to_string()
}

/// `waitress-<id>`.
pub open spec fn container_name_spec(id: u128) -> Seq<char> {
    "waitress-"@ + uuid_text(id)
}

/// `volumes/waitress-<id>`.
pub open spec fn volume_path_spec(id: u128) -> Seq<char> {
    "volumes/"@ + container_name_spec(id)
}

/// `volumes/waitress-<id>/provision.sh`.
pub open spec fn script_path_spec(id: u128) -> Seq<char> {
    volume_path_spec(id) + "/provision.sh"@
}

/// The text form of an identifier.
pub fn id_string(id: u128) -> (r: String)
    ensures
        r@ == uuid_text(id),
{
    id_text(id)
}

/// The container (and named volume) that belongs to the server `id`.
pub fn container_name(id: u128) -> (r: String)
    ensures
        r@ == container_name_spec(id),
{
    let t = id_text(id);
    let mut r = String::from_str("waitress-");
    r.append(t.as_str());
    r
}

/// The host directory bound into the container of server `id`.
pub fn volume_path(id: u128) -> (r: String)
    ensures
        r@ == volume_path_spec(id),
{
    let name = container_name(id);
    let mut r = String::from_str("volumes/");
    r.append(name.as_str());
    r
}

/// Where the bootstrap script of server `id` is written.
pub fn script_path(id: u128) -> (r: String)
    ensures
        r@ == script_path_spec(id),
{
    let mut r = volume_path(id);
    r.append("/provision.sh");
    r
}

} // verus!
