//! A trial of the inventory of Unix sockets: two sockets are planted in namespaces of
//! their own, and must be found there.

use vstd::prelude::*;
use vstd::string::*;

use crate::bytes::{le64, put_le64};
use crate::json::{fields_view, json_bytes, object, Json, JsonView};
use crate::model::{Fault, FaultKind};
use crate::network::{leaves_view, other, put_leaf, Leaf};
use crate::text::{hex, hex_text, join3};

verus! {

/// Decides whether a file that was read is taken.
pub fn detector_bound(length: usize) -> (r: Result<(), Fault>)
    ensures
        r == if length == 0 || length > 1048576 {
            Err::<(), Fault>(other("Unix detector source bound differs"))
        } else {
            Ok(())
        },
{
    if length == 0 || length > 1048576 {
        Err(Fault::new(FaultKind::Other, "Unix detector source bound differs"))
    } else {
        Ok(())
    }
}

/// Whether nothing but zeros is there.
pub open spec fn all_zero(bytes: Seq<u8>) -> bool {
    forall|i: int| 0 <= i < bytes.len() ==> bytes[i] == 0
}

/// The names of the two sockets that are planted.
#[derive(Debug)]
pub struct PlantedNames {
    pub pathname: String,
    pub abstract_name: String,
}

/// The path of the planted socket that has one.
pub open spec fn planted_path(challenge: Seq<u8>) -> Seq<char> {
    "/tmp/memcordon-private-unix-"@ + hex(challenge) + "-path"@
}

/// The name of the planted socket that has no path.
pub open spec fn planted_abstract(challenge: Seq<u8>) -> Seq<char> {
    "memcordon-private-unix-"@ + hex(challenge) + "-abstract"@
}

/// The names of the sockets that a trial plants. Only a challenge that was drawn is
/// taken, and only by the root user.
pub fn planted_names(user: u32, challenge: &[u8]) -> (r: Result<PlantedNames, Fault>)
    ensures
        match r {
            Ok(names) => user == 0 && !all_zero(challenge@) && names.pathname@ == planted_path(
                challenge@,
            ) && names.abstract_name@ == planted_abstract(challenge@),
            Err(fault) => (user != 0 || all_zero(challenge@)) && fault == other(
                "Unix detector requires root and fresh challenge",
            ),
        },
{
    let mut i: usize = 0;
    while i < challenge.len() && challenge[i] == 0
        invariant
            i <= challenge.len(),
            forall|k: int| 0 <= k < i ==> challenge@[k] == 0,
        decreases challenge.len() - i,
    {
        i += 1;
    }
    if user != 0 || i == challenge.len() {
        return Err(
            Fault::new(FaultKind::Other, "Unix detector requires root and fresh challenge"),
        );
    }
    assert(!all_zero(challenge@)) by {
        assert(challenge@[i as int] != 0);
    }
    let digits = hex_text(challenge);
    Ok(
        PlantedNames {
            pathname: join3("/tmp/memcordon-private-unix-", digits.as_str(), "-path"),
            abstract_name: join3("memcordon-private-unix-", digits.as_str(), "-abstract"),
        },
    )
}

/// Decides whether the trial is in namespaces of its own.
pub fn isolated(original_net: u64, original_mount: u64, net: u64, mount: u64) -> (r: Result<
    (),
    Fault,
>)
    ensures
        r == if net == original_net || mount == original_mount || net == 0 || mount == 0 {
            Err::<(), Fault>(other("Unix detector namespaces were not isolated"))
        } else {
            Ok(())
        },
{
    if net == original_net || mount == original_mount || net == 0 || mount == 0 {
        Err(Fault::new(FaultKind::Other, "Unix detector namespaces were not isolated"))
    } else {
        Ok(())
    }
}

/// What became of the planted path after it was removed.
#[derive(Debug)]
pub enum PathLook {
    Gone,
    There,
    Failed(Fault),
}

/// Decides whether the trial left its namespaces as they were.
pub fn cleaned_up(net: u64, mount: u64, net_after: u64, mount_after: u64, look: PathLook) -> (r:
    Result<(), Fault>)
    ensures
        r == if net_after != net || mount_after != mount {
            Err::<(), Fault>(other("Unix detector cleanup or namespace changed"))
        } else {
            match look {
                PathLook::Gone => Ok(()),
                PathLook::Failed(fault) => Err(fault),
                PathLook::There => Err(other("Unix detector pathname survived cleanup")),
            }
        },
{
    if net_after != net || mount_after != mount {
        return Err(Fault::new(FaultKind::Other, "Unix detector cleanup or namespace changed"));
    }
    match look {
        PathLook::Gone => Ok(()),
        PathLook::Failed(fault) => Err(fault),
        PathLook::There => Err(
            Fault::new(FaultKind::Other, "Unix detector pathname survived cleanup"),
        ),
    }
}

/// What was planted, where and when.
#[derive(Debug)]
pub struct DetectorIdentity {
    pub names: PlantedNames,
    pub original_net: u64,
    pub original_mount: u64,
    pub net: u64,
    pub mount: u64,
    pub pathname_fd: u32,
    pub pathname_socket: u64,
    pub abstract_fd: u32,
    pub abstract_socket: u64,
    pub pathname_device: u64,
    pub pathname_inode: u64,
    pub pathname_mode: u32,
    pub pathname_uid: u32,
    pub begin: u64,
    pub held: u64,
}

/// The fields that say what was planted.
pub open spec fn detector_fields(identity: DetectorIdentity) -> Seq<(Seq<char>, JsonView)> {
    seq![
        ("schema_version"@, JsonView::Number(1)),
        ("protocol"@, JsonView::Text("private-unix-planted-detector-v1"@)),
        ("pathname"@, JsonView::Text(identity.names.pathname@)),
        ("abstract_name"@, JsonView::Text(identity.names.abstract_name@)),
        ("reader_netns_inode"@, JsonView::Number(identity.original_net)),
        ("reader_mountns_inode"@, JsonView::Number(identity.original_mount)),
        ("control_netns_inode"@, JsonView::Number(identity.net)),
        ("control_mountns_inode"@, JsonView::Number(identity.mount)),
        ("pathname_fd"@, JsonView::Number(identity.pathname_fd as u64)),
        ("pathname_socket_inode"@, JsonView::Number(identity.pathname_socket)),
        ("abstract_fd"@, JsonView::Number(identity.abstract_fd as u64)),
        ("abstract_socket_inode"@, JsonView::Number(identity.abstract_socket)),
        ("pathname_device"@, JsonView::Number(identity.pathname_device)),
        ("pathname_inode"@, JsonView::Number(identity.pathname_inode)),
        ("pathname_mode"@, JsonView::Number(identity.pathname_mode as u64)),
        ("pathname_uid"@, JsonView::Number(identity.pathname_uid as u64)),
        ("begin_monotonic_ns"@, JsonView::Number(identity.begin)),
        ("held_monotonic_ns"@, JsonView::Number(identity.held)),
    ]
}

/// The bytes that say what was planted.
pub fn detector_identity(identity: DetectorIdentity) -> (r: Result<Vec<u8>, Fault>)
    ensures
        r matches Ok(bytes) && bytes@ == json_bytes(detector_fields(identity)),
{
    let ghost all = detector_fields(identity);
    let mut fields: Vec<(&'static str, Json)> = Vec::new();
    fields.push(("schema_version", Json::Number(1)));
    fields.push(("protocol", Json::Text("private-unix-planted-detector-v1".to_owned())));
    fields.push(("pathname", Json::Text(identity.names.pathname)));
    fields.push(("abstract_name", Json::Text(identity.names.abstract_name)));
    fields.push(("reader_netns_inode", Json::Number(identity.original_net)));
    fields.push(("reader_mountns_inode", Json::Number(identity.original_mount)));
    fields.push(("control_netns_inode", Json::Number(identity.net)));
    fields.push(("control_mountns_inode", Json::Number(identity.mount)));
    fields.push(("pathname_fd", Json::Number(identity.pathname_fd as u64)));
    fields.push(("pathname_socket_inode", Json::Number(identity.pathname_socket)));
    fields.push(("abstract_fd", Json::Number(identity.abstract_fd as u64)));
    fields.push(("abstract_socket_inode", Json::Number(identity.abstract_socket)));
    fields.push(("pathname_device", Json::Number(identity.pathname_device)));
    fields.push(("pathname_inode", Json::Number(identity.pathname_inode)));
    fields.push(("pathname_mode", Json::Number(identity.pathname_mode as u64)));
    fields.push(("pathname_uid", Json::Number(identity.pathname_uid as u64)));
    fields.push(("begin_monotonic_ns", Json::Number(identity.begin)));
    fields.push(("held_monotonic_ns", Json::Number(identity.held)));
    assert(fields_view(fields@) =~= all);
    object(&fields)
}

/// Everything that was read for a trial.
#[derive(Debug)]
pub struct DetectorParts {
    pub stat_before: Vec<u8>,
    pub status: Vec<u8>,
    pub unix_before: Vec<u8>,
    pub unix_held: Vec<u8>,
    pub pathname_fdinfo: Vec<u8>,
    pub abstract_fdinfo: Vec<u8>,
    pub identity: Vec<u8>,
    pub unix_after: Vec<u8>,
    pub stat_after: Vec<u8>,
    pub end: u64,
}

/// The pieces of a trial.
pub open spec fn detector_view(parts: DetectorParts) -> Seq<(Seq<char>, Seq<u8>)> {
    seq![
        ("stat-before.raw"@, parts.stat_before@),
        ("status.raw"@, parts.status@),
        ("unix-before.raw"@, parts.unix_before@),
        ("unix-held.raw"@, parts.unix_held@),
        ("pathname-fdinfo.raw"@, parts.pathname_fdinfo@),
        ("abstract-fdinfo.raw"@, parts.abstract_fdinfo@),
        ("identity.json"@, parts.identity@),
        ("unix-after.raw"@, parts.unix_after@),
        ("stat-after.raw"@, parts.stat_after@),
        ("end-monotonic.raw"@, le64(parts.end)),
    ]
}

/// Puts a trial together.
pub fn sample(parts: DetectorParts) -> (r: Vec<Leaf>)
    ensures
        leaves_view(r@) == detector_view(parts),
{
    let ghost all = detector_view(parts);
    let mut leaves: Vec<Leaf> = Vec::new();
    put_leaf(&mut leaves, "stat-before.raw".to_owned(), parts.stat_before);
    put_leaf(&mut leaves, "status.raw".to_owned(), parts.status);
    put_leaf(&mut leaves, "unix-before.raw".to_owned(), parts.unix_before);
    put_leaf(&mut leaves, "unix-held.raw".to_owned(), parts.unix_held);
    put_leaf(&mut leaves, "pathname-fdinfo.raw".to_owned(), parts.pathname_fdinfo);
    put_leaf(&mut leaves, "abstract-fdinfo.raw".to_owned(), parts.abstract_fdinfo);
    put_leaf(&mut leaves, "identity.json".to_owned(), parts.identity);
    put_leaf(&mut leaves, "unix-after.raw".to_owned(), parts.unix_after);
    put_leaf(&mut leaves, "stat-after.raw".to_owned(), parts.stat_after);
    let mut end: Vec<u8> = Vec::new();
    put_le64(&mut end, parts.end);
    assert(end@ =~= le64(parts.end));
    put_leaf(&mut leaves, "end-monotonic.raw".to_owned(), end);
    assert(leaves_view(leaves@) =~= all);
    leaves
}

} // verus!
