//! The installed runtime of a provider: whether its files are protected, and whether
//! they are the ones that its manifest, and the provider's own claim, name.

use vstd::prelude::*;
use vstd::string::*;

use crate::sealed::digest::{digest_bytes, sha256_of};
use crate::text::{hex, same_text};

verus! {

/// What an entry's metadata says.
#[derive(Clone, Copy, Debug, PartialEq, Eq, Structural)]
pub struct EntryFacts {
    pub directory: bool,
    pub file: bool,
    pub uid: u32,
    pub mode: u32,
    pub links: u64,
}

/// Whether nobody but the owner may write.
pub open spec fn only_owner_writes(mode: u32) -> bool {
    mode / 2 % 2 == 0 && mode / 16 % 2 == 0
}

/// Whether a directory on the way to a file is protected.
pub open spec fn ancestor_is_protected(facts: EntryFacts) -> bool {
    facts.directory && facts.uid == 0 && only_owner_writes(facts.mode)
}

/// Whether a file is protected: nobody but the root user may write it, under no other
/// name either.
pub open spec fn file_is_protected(facts: EntryFacts) -> bool {
    facts.file && facts.uid == 0 && only_owner_writes(facts.mode) && facts.links == 1
}

/// What is wrong with the directories on the way to a file, if anything: the first one
/// that cannot be looked at or is not protected.
pub open spec fn ancestors_fault(ancestors: Seq<Result<EntryFacts, String>>) -> Option<Seq<char>>
    decreases ancestors.len(),
{
    if ancestors.len() == 0 {
        None
    } else {
        match ancestors_fault(ancestors.drop_last()) {
            Some(text) => Some(text),
            None => match ancestors.last() {
                Err(text) => Some(text@),
                Ok(facts) => if ancestor_is_protected(facts) {
                    None
                } else {
                    Some("provider runtime ancestor is not protected"@)
                },
            },
        }
    }
}

proof fn faulty_ancestors_stay(ancestors: Seq<Result<EntryFacts, String>>, n: int)
    requires
        0 <= n <= ancestors.len(),
        ancestors_fault(ancestors.take(n)) is Some,
    ensures
        ancestors_fault(ancestors) == ancestors_fault(ancestors.take(n)),
    decreases ancestors.len() - n,
{
    if n < ancestors.len() {
        assert(ancestors.take(n + 1).drop_last() =~= ancestors.take(n));
        faulty_ancestors_stay(ancestors, n + 1);
    } else {
        assert(ancestors.take(n) =~= ancestors);
    }
}

/// Decides whether a runtime file is taken: every directory on the way to it, from the
/// nearest on, and then the file itself must be protected.
pub fn protected(ancestors: &Vec<Result<EntryFacts, String>>, file: &Result<EntryFacts, String>) -> (r:
    Result<(), String>)
    ensures
        match ancestors_fault(ancestors@) {
            Some(text) => r matches Err(fault) && fault@ == text,
            None => match file {
                Err(text) => r matches Err(fault) && fault@ == text@,
                Ok(facts) => if file_is_protected(*facts) {
                    r is Ok
                } else {
                    r matches Err(fault) && fault@ == "provider runtime component is not protected"@
                },
            },
        },
{
    let mut i: usize = 0;
    assert(ancestors@.take(0) =~= Seq::<Result<EntryFacts, String>>::empty());
    while i < ancestors.len()
        invariant
            i <= ancestors.len(),
            ancestors_fault(ancestors@.take(i as int)) is None,
        decreases ancestors.len() - i,
    {
        assert(ancestors@.take(i + 1).drop_last() =~= ancestors@.take(i as int));
        match &ancestors[i] {
            Err(text) => {
                proof {
                    faulty_ancestors_stay(ancestors@, i + 1);
                }
                return Err(text.clone());
            },
            Ok(facts) => {
                if !(facts.directory && facts.uid == 0 && facts.mode / 2 % 2 == 0 && facts.mode / 16
                    % 2 == 0) {
                    proof {
                        faulty_ancestors_stay(ancestors@, i + 1);
                    }
                    return Err("provider runtime ancestor is not protected".to_owned());
                }
            },
        }
        i += 1;
    }
    assert(ancestors@.take(i as int) =~= ancestors@);
    match file {
        Err(text) => Err(text.clone()),
        Ok(facts) => {
            if facts.file && facts.uid == 0 && facts.mode / 2 % 2 == 0 && facts.mode / 16 % 2 == 0
                && facts.links == 1 {
                Ok(())
            } else {
                Err("provider runtime component is not protected".to_owned())
            }
        },
    }
}

/// What a component of the runtime is for.
#[derive(Clone, Copy, Debug, PartialEq, Eq, Structural)]
pub enum RuntimeComponentRole {
    PublicCli,
    SealedAgent,
    DesktopBootstrap,
    SessionBroker,
}

/// A component as the manifest names it.
#[derive(Debug)]
pub struct RuntimeComponent {
    pub role: RuntimeComponentRole,
    pub id: String,
    pub path: String,
    pub mode: u32,
    pub size: u64,
    pub sha256: String,
}

/// The place of the first component with a role, or the number of components.
pub open spec fn first_with(components: Seq<RuntimeComponent>, role: RuntimeComponentRole, i: int) -> int
    decreases components.len() - i,
{
    if i < 0 || i >= components.len() {
        components.len() as int
    } else if components[i].role == role {
        i
    } else {
        first_with(components, role, i + 1)
    }
}

fn find_role(components: &Vec<RuntimeComponent>, role: RuntimeComponentRole) -> (r: usize)
    ensures
        r == first_with(components@, role, 0),
        r <= components@.len(),
{
    let mut i: usize = 0;
    while i < components.len() && components[i].role != role
        invariant
            i <= components.len(),
            first_with(components@, role, i as int) == first_with(components@, role, 0),
        decreases components.len() - i,
    {
        i += 1;
    }
    i
}

/// The name of the build that a runtime must be of on Linux.
pub open spec fn target_of(arch: Seq<char>, musl: bool) -> Option<&'static str> {
    if arch == "x86_64"@ {
        if musl {
            Some("x86_64-unknown-linux-musl")
        } else {
            Some("x86_64-unknown-linux-gnu")
        }
    } else if arch == "aarch64"@ {
        if musl {
            Some("aarch64-unknown-linux-musl")
        } else {
            Some("aarch64-unknown-linux-gnu")
        }
    } else {
        None
    }
}

/// The name of the build that a runtime must be of on Linux.
pub fn linux_target(arch: &str, musl: bool) -> (r: Option<&'static str>)
    ensures
        r == target_of(arch@, musl),
{
    if same_text(arch, "x86_64") {
        if musl {
            Some("x86_64-unknown-linux-musl")
        } else {
            Some("x86_64-unknown-linux-gnu")
        }
    } else if same_text(arch, "aarch64") {
        if musl {
            Some("aarch64-unknown-linux-musl")
        } else {
            Some("aarch64-unknown-linux-gnu")
        }
    } else {
        None
    }
}

/// What was read of a manifest: its version, its components, whether it is bound to what
/// the provider claims, and whether it is the manifest that its contents make for this
/// build.
#[derive(Debug)]
pub struct ManifestReading {
    pub version: String,
    pub components: Vec<RuntimeComponent>,
    pub bound: Result<bool, String>,
    pub supported: bool,
}

/// What is wrong with a manifest on Linux, if anything; else the place of the agent.
pub open spec fn manifest_verdict(
    manifest: ManifestReading,
    version: Seq<char>,
    arch: Seq<char>,
    musl: bool,
) -> Result<int, Seq<char>> {
    let components = manifest.components@;
    let agent = first_with(components, RuntimeComponentRole::SealedAgent, 0);
    let public = first_with(components, RuntimeComponentRole::PublicCli, 0);
    match manifest.bound {
        Err(text) => Err(text@),
        Ok(bound) => if !bound || manifest.version@ != version {
            Err("authenticated provider runtime binding differs"@)
        } else if target_of(arch, musl) is None {
            Err("unsupported provider runtime target"@)
        } else if !manifest.supported || components.len() != 2 {
            Err("provider runtime support differs"@)
        } else if agent >= components.len() {
            Err("provider runtime agent absent"@)
        } else if public >= components.len() {
            Err("provider runtime CLI absent"@)
        } else if components[agent].id@ != "sealed-agent"@ || components[agent].path@
            != "memcordon-sealed-agent"@ || components[agent].mode != 0o755
            || components[public].id@ != "public-cli"@ || components[public].path@ != "memcordon"@
            || components[public].mode != 0o755 {
            Err("provider runtime roles differ"@)
        } else {
            Ok(agent)
        },
    }
}

/// Checks a manifest on Linux; the place of the agent among its components.
pub fn check_manifest(manifest: &ManifestReading, version: &str, arch: &str, musl: bool) -> (r: Result<
    usize,
    String,
>)
    ensures
        match manifest_verdict(*manifest, version@, arch@, musl) {
            Ok(place) => r == Ok::<usize, String>(place as usize) && 0 <= place
                < manifest.components@.len(),
            Err(text) => r matches Err(fault) && fault@ == text,
        },
{
    match &manifest.bound {
        Err(text) => {
            return Err(text.clone());
        },
        Ok(bound) => {
            if !*bound || !same_text(manifest.version.as_str(), version) {
                return Err("authenticated provider runtime binding differs".to_owned());
            }
        },
    }
    if linux_target(arch, musl).is_none() {
        return Err("unsupported provider runtime target".to_owned());
    }
    let components = &manifest.components;
    if !manifest.supported || components.len() != 2 {
        return Err("provider runtime support differs".to_owned());
    }
    let agent = find_role(components, RuntimeComponentRole::SealedAgent);
    if agent >= components.len() {
        return Err("provider runtime agent absent".to_owned());
    }
    let public = find_role(components, RuntimeComponentRole::PublicCli);
    if public >= components.len() {
        return Err("provider runtime CLI absent".to_owned());
    }
    if !same_text(components[agent].id.as_str(), "sealed-agent") || !same_text(
        components[agent].path.as_str(),
        "memcordon-sealed-agent",
    ) || components[agent].mode != 0o755 || !same_text(
        components[public].id.as_str(),
        "public-cli",
    ) || !same_text(components[public].path.as_str(), "memcordon") || components[public].mode
        != 0o755 {
        return Err("provider runtime roles differ".to_owned());
    }
    Ok(agent)
}

/// Verifies the installed runtime on Linux: the manifest is the one that the provider
/// claims, and the agent that stands there is the one that the manifest names. `agent`
/// is what the agent's file holds, once it is known to be protected.
pub fn verify(
    manifest: &ManifestReading,
    version: &str,
    arch: &str,
    musl: bool,
    agent: &Result<Vec<u8>, String>,
) -> (r: Result<(), String>)
    ensures
        match manifest_verdict(*manifest, version@, arch@, musl) {
            Err(text) => r matches Err(fault) && fault@ == text,
            Ok(place) => match agent {
                Err(text) => r matches Err(fault) && fault@ == text@,
                Ok(bytes) => if bytes@.len() != manifest.components@[place].size {
                    r matches Err(fault) && fault@ == "installed provider size differs"@
                } else if hex(sha256_of(bytes@)) != manifest.components@[place].sha256@ {
                    r matches Err(fault) && fault@ == "installed provider hash differs"@
                } else {
                    r is Ok
                },
            },
        },
{
    let place = match check_manifest(manifest, version, arch, musl) {
        Ok(place) => place,
        Err(text) => {
            return Err(text);
        },
    };
    let bytes = match agent {
        Ok(bytes) => bytes,
        Err(text) => {
            return Err(text.clone());
        },
    };
    if bytes.len() as u64 != manifest.components[place].size {
        return Err("installed provider size differs".to_owned());
    }
    let digest = digest_bytes(bytes.as_slice());
    if !same_text(digest.as_str(), manifest.components[place].sha256.as_str()) {
        return Err("installed provider hash differs".to_owned());
    }
    Ok(())
}

/// The builds that a private plan can be of.
#[derive(Clone, Copy, Debug, PartialEq, Eq, Structural)]
pub enum QualifiedNativeAbi {
    X86_64LinuxGnu,
    Aarch64LinuxGnu,
}

/// The name of a build, and its architecture.
pub open spec fn abi_named(abi: QualifiedNativeAbi) -> (&'static str, &'static str) {
    match abi {
        QualifiedNativeAbi::X86_64LinuxGnu => ("x86_64-unknown-linux-gnu", "x86_64"),
        QualifiedNativeAbi::Aarch64LinuxGnu => ("aarch64-unknown-linux-gnu", "aarch64"),
    }
}

fn abi_name(abi: QualifiedNativeAbi) -> (r: (&'static str, &'static str))
    ensures
        r == abi_named(abi),
{
    match abi {
        QualifiedNativeAbi::X86_64LinuxGnu => ("x86_64-unknown-linux-gnu", "x86_64"),
        QualifiedNativeAbi::Aarch64LinuxGnu => ("aarch64-unknown-linux-gnu", "aarch64"),
    }
}

/// What a private plan says of the runtime.
#[derive(Debug)]
pub struct PrivatePlanRuntime {
    pub runtime_manifest_sha256: String,
    pub source_commit: String,
    pub native_abi: QualifiedNativeAbi,
}

/// The sealed part of a manifest.
#[derive(Debug)]
pub struct SealedRuntime {
    pub agent_component: String,
    /// Whether the first profile is qualified; none counts as not.
    pub first_qualified: bool,
}

/// What was read of a manifest that a private plan names.
#[derive(Debug)]
pub struct PrivateManifestReading {
    pub bytes: Vec<u8>,
    pub source_commit: String,
    pub version: String,
    pub target: String,
    pub sealed: Option<SealedRuntime>,
    pub components: Vec<RuntimeComponent>,
}

/// The place of the first agent with an id, or the number of components.
pub open spec fn first_agent(components: Seq<RuntimeComponent>, id: Seq<char>, i: int) -> int
    decreases components.len() - i,
{
    if i < 0 || i >= components.len() {
        components.len() as int
    } else if components[i].id@ == id && components[i].role == RuntimeComponentRole::SealedAgent {
        i
    } else {
        first_agent(components, id, i + 1)
    }
}

/// Whether a manifest is the one of a private plan, on this machine.
pub open spec fn plan_names(
    plan: PrivatePlanRuntime,
    manifest: PrivateManifestReading,
    version: Seq<char>,
    arch: Seq<char>,
) -> bool {
    &&& hex(sha256_of(manifest.bytes@)) == plan.runtime_manifest_sha256@
    &&& manifest.source_commit@ == plan.source_commit@
    &&& manifest.version@ == version
    &&& manifest.target@ == abi_named(plan.native_abi).0@
    &&& arch == abi_named(plan.native_abi).1@
}

/// What is wrong with the runtime of a private plan, if anything.
pub open spec fn private_verdict(
    plan: PrivatePlanRuntime,
    manifest: PrivateManifestReading,
    version: Seq<char>,
    arch: Seq<char>,
    agent: Result<Vec<u8>, String>,
) -> Option<Seq<char>> {
    if !plan_names(plan, manifest, version, arch) {
        Some("private plan differs from installed runtime identity"@)
    } else {
        match manifest.sealed {
            None => Some("installed runtime has no Linux V2 sealed provider"@),
            Some(sealed) => {
                let components = manifest.components@;
                let place = first_agent(components, sealed.agent_component@, 0);
                if !sealed.first_qualified {
                    Some("installed runtime has no qualified private profile"@)
                } else if place >= components.len() {
                    Some("installed runtime agent component missing"@)
                } else {
                    match agent {
                        Err(text) => Some(text@),
                        Ok(bytes) => if bytes@.len() != components[place].size || hex(
                            sha256_of(bytes@),
                        ) != components[place].sha256@ {
                            Some(
                                "installed private provider bytes differ from runtime manifest"@,
                            )
                        } else {
                            None
                        },
                    }
                }
            },
        }
    }
}

/// Verifies the installed runtime of a private plan.
pub fn verify_private(
    plan: &PrivatePlanRuntime,
    manifest: &PrivateManifestReading,
    version: &str,
    arch: &str,
    agent: &Result<Vec<u8>, String>,
) -> (r: Result<(), String>)
    ensures
        match private_verdict(*plan, *manifest, version@, arch@, *agent) {
            Some(text) => r matches Err(fault) && fault@ == text,
            None => r is Ok,
        },
{
    let digest = digest_bytes(manifest.bytes.as_slice());
    let (target, machine) = abi_name(plan.native_abi);
    if !same_text(digest.as_str(), plan.runtime_manifest_sha256.as_str()) || !same_text(
        manifest.source_commit.as_str(),
        plan.source_commit.as_str(),
    ) || !same_text(manifest.version.as_str(), version) || !same_text(
        manifest.target.as_str(),
        target,
    ) || !same_text(arch, machine) {
        return Err("private plan differs from installed runtime identity".to_owned());
    }
    let sealed = match &manifest.sealed {
        Some(sealed) => sealed,
        None => {
            return Err("installed runtime has no Linux V2 sealed provider".to_owned());
        },
    };
    if !sealed.first_qualified {
        return Err("installed runtime has no qualified private profile".to_owned());
    }
    let components = &manifest.components;
    let mut i: usize = 0;
    while i < components.len() && !(same_text(
        components[i].id.as_str(),
        sealed.agent_component.as_str(),
    ) && components[i].role == RuntimeComponentRole::SealedAgent)
        invariant
            i <= components.len(),
            first_agent(components@, sealed.agent_component@, i as int) == first_agent(
                components@,
                sealed.agent_component@,
                0,
            ),
        decreases components.len() - i,
    {
        i += 1;
    }
    if i >= components.len() {
        return Err("installed runtime agent component missing".to_owned());
    }
    let bytes = match agent {
        Ok(bytes) => bytes,
        Err(text) => {
            return Err(text.clone());
        },
    };
    let agent_digest = digest_bytes(bytes.as_slice());
    if bytes.len() as u64 != components[i].size || !same_text(
        agent_digest.as_str(),
        components[i].sha256.as_str(),
    ) {
        return Err("installed private provider bytes differ from runtime manifest".to_owned());
    }
    Ok(())
}

/// One entry of a Windows access list.
#[derive(Clone, Copy, Debug, PartialEq, Eq, Structural)]
pub struct AccessEntry {
    pub kind: u8,
    /// It is about the system or the administrators.
    pub privileged: bool,
    pub mask: u32,
}

/// The rights to write, append, change or delete a file, or what is around it.
pub const MUTATION: u32 = 0x500d0156;

/// What is wrong with an access list, if anything: the first entry that is of another
/// kind, or that lets anybody else change the file.
pub open spec fn access_fault(entries: Seq<AccessEntry>, i: int) -> Option<&'static str>
    decreases entries.len() - i,
{
    if i < 0 || i >= entries.len() {
        None
    } else if entries[i].kind != 0 {
        Some("installed runtime DACL has an unreviewed ACE type")
    } else if !entries[i].privileged && entries[i].mask & MUTATION != 0 {
        Some("installed runtime grants mutation to an unprivileged identity")
    } else {
        access_fault(entries, i + 1)
    }
}

/// What was found of a file that belongs to the runtime on Windows.
#[derive(Debug)]
pub struct WindowsFileReading {
    /// Whether a part of the path, from the first on, leads elsewhere.
    pub reparse: Vec<bool>,
    pub regular: bool,
    /// The owner is the system or the administrators.
    pub owner_privileged: bool,
    /// The access list, where there is one.
    pub access: Option<Vec<AccessEntry>>,
}

/// What is wrong with a file of the runtime on Windows, if anything.
pub open spec fn windows_file_fault(reading: WindowsFileReading) -> Option<&'static str> {
    if exists|i: int| 0 <= i < reading.reparse@.len() && #[trigger] reading.reparse@[i] {
        Some("installed runtime path contains a reparse point")
    } else if !reading.regular {
        Some("installed runtime is not a regular file")
    } else {
        match reading.access {
            None => Some("installed runtime ownership or DACL is not protected"),
            Some(entries) => if !reading.owner_privileged {
                Some("installed runtime ownership or DACL is not protected")
            } else {
                access_fault(entries@, 0)
            },
        }
    }
}

fn check_access(entries: &Vec<AccessEntry>) -> (r: Result<(), &'static str>)
    ensures
        r == match access_fault(entries@, 0) {
            Some(text) => Err::<(), &'static str>(text),
            None => Ok(()),
        },
{
    let mut i: usize = 0;
    while i < entries.len()
        invariant
            i <= entries.len(),
            access_fault(entries@, i as int) == access_fault(entries@, 0),
        decreases entries.len() - i,
    {
        if entries[i].kind != 0 {
            return Err("installed runtime DACL has an unreviewed ACE type");
        }
        if !entries[i].privileged && entries[i].mask & MUTATION != 0 {
            return Err("installed runtime grants mutation to an unprivileged identity");
        }
        i += 1;
    }
    Ok(())
}

/// Decides whether a file of the runtime on Windows is taken.
pub fn open_protected(reading: &WindowsFileReading) -> (r: Result<(), &'static str>)
    ensures
        r == match windows_file_fault(*reading) {
            Some(text) => Err::<(), &'static str>(text),
            None => Ok(()),
        },
{
    let mut i: usize = 0;
    while i < reading.reparse.len()
        invariant
            i <= reading.reparse.len(),
            forall|k: int| 0 <= k < i ==> !reading.reparse@[k],
        decreases reading.reparse.len() - i,
    {
        if reading.reparse[i] {
            assert(reading.reparse@[i as int]);
            return Err("installed runtime path contains a reparse point");
        }
        i += 1;
    }
    if !reading.regular {
        return Err("installed runtime is not a regular file");
    }
    let entries = match &reading.access {
        None => {
            return Err("installed runtime ownership or DACL is not protected");
        },
        Some(entries) => entries,
    };
    if !reading.owner_privileged {
        return Err("installed runtime ownership or DACL is not protected");
    }
    check_access(entries)
}

/// How many components have a role.
pub open spec fn count_with(components: Seq<RuntimeComponent>, role: RuntimeComponentRole) -> nat
    decreases components.len(),
{
    if components.len() == 0 {
        0
    } else {
        count_with(components.drop_last(), role) + if components.last().role == role {
            1nat
        } else {
            0
        }
    }
}

fn count_role(components: &Vec<RuntimeComponent>, role: RuntimeComponentRole) -> (r: usize)
    ensures
        r == count_with(components@, role),
{
    let mut i: usize = 0;
    let mut n: usize = 0;
    assert(components@.take(0) =~= Seq::<RuntimeComponent>::empty());
    while i < components.len()
        invariant
            i <= components.len(),
            n <= i,
            n == count_with(components@.take(i as int), role),
        decreases components.len() - i,
    {
        assert(components@.take(i + 1).drop_last() =~= components@.take(i as int));
        if components[i].role == role {
            n += 1;
        }
        i += 1;
    }
    assert(components@.take(i as int) =~= components@);
    n
}

/// Some component with the role comes first where any has it.
proof fn counted_is_found(components: Seq<RuntimeComponent>, role: RuntimeComponentRole, n: int)
    requires
        0 <= n <= components.len(),
        count_with(components.take(n), role) > 0,
    ensures
        exists|i: int| 0 <= i < n && (#[trigger] components[i]).role == role,
    decreases n,
{
    assert(components.take(n).drop_last() =~= components.take(n - 1));
    if components[n - 1].role != role {
        counted_is_found(components, role, n - 1);
    }
}

proof fn found_comes_first(components: Seq<RuntimeComponent>, role: RuntimeComponentRole, i: int, k: int)
    requires
        0 <= i <= k < components.len(),
        components[k].role == role,
    ensures
        i <= first_with(components, role, i) <= k,
    decreases k - i,
{
    if components[i].role != role {
        found_comes_first(components, role, i + 1, k);
    }
}

/// The images that a Windows runtime holds beside the command line, in order: what each
/// is for, its id and its name.
pub open spec fn image_of(ordinal: int) -> (RuntimeComponentRole, &'static str, &'static str) {
    if ordinal == 0 {
        (RuntimeComponentRole::SealedAgent, "sealed-agent", "memcordon-sealed-agent.exe")
    } else if ordinal == 1 {
        (
            RuntimeComponentRole::DesktopBootstrap,
            "target-desktop-bootstrap",
            "memcordon-target-desktop-bootstrap.exe",
        )
    } else {
        (RuntimeComponentRole::SessionBroker, "session-broker", "memcordon-session-broker.exe")
    }
}

fn image(ordinal: usize) -> (r: (RuntimeComponentRole, &'static str, &'static str))
    ensures
        r == image_of(ordinal as int),
{
    if ordinal == 0 {
        (RuntimeComponentRole::SealedAgent, "sealed-agent", "memcordon-sealed-agent.exe")
    } else if ordinal == 1 {
        (
            RuntimeComponentRole::DesktopBootstrap,
            "target-desktop-bootstrap",
            "memcordon-target-desktop-bootstrap.exe",
        )
    } else {
        (RuntimeComponentRole::SessionBroker, "session-broker", "memcordon-session-broker.exe")
    }
}

/// What is wrong with one image, if anything. `found` is what its file holds, once it is
/// known to be protected.
pub open spec fn image_fault(
    components: Seq<RuntimeComponent>,
    ordinal: int,
    found: Result<Vec<u8>, String>,
) -> Option<Seq<char>> {
    let (role, id, name) = image_of(ordinal);
    if count_with(components, role) != 1 {
        Some("installed runtime role inventory differs"@)
    } else {
        let record = components[first_with(components, role, 0)];
        match found {
            Err(text) => Some(text@),
            Ok(bytes) => if record.id@ != id@ || record.path@ != name@ || record.mode != 0o755
                || record.size != bytes@.len() || record.sha256@ != hex(sha256_of(bytes@)) {
                Some("installed runtime image differs from manifest"@)
            } else {
                None
            },
        }
    }
}

/// What is wrong with the first images, if anything.
pub open spec fn images_fault(
    components: Seq<RuntimeComponent>,
    found: Seq<Result<Vec<u8>, String>>,
    n: nat,
) -> Option<Seq<char>>
    decreases n,
{
    if n == 0 {
        None
    } else {
        match images_fault(components, found, (n - 1) as nat) {
            Some(text) => Some(text),
            None => image_fault(components, n - 1, found[n - 1]),
        }
    }
}

/// What is wrong with the installed runtime on Windows, if anything.
pub open spec fn windows_verdict(
    manifest: ManifestReading,
    version: Seq<char>,
    arch: Seq<char>,
    found: Seq<Result<Vec<u8>, String>>,
) -> Option<Seq<char>> {
    let components = manifest.components@;
    let public = first_with(components, RuntimeComponentRole::PublicCli, 0);
    if arch != "x86_64"@ && arch != "aarch64"@ {
        Some("unsupported Windows provider architecture"@)
    } else if manifest.version@ != version || components.len() != 4 || !manifest.supported {
        Some("installed runtime binding differs from provider"@)
    } else {
        match manifest.bound {
            Err(text) => Some(text@),
            Ok(bound) => if !bound {
                Some("installed runtime binding differs from provider"@)
            } else {
                match images_fault(components, found, 3) {
                    Some(text) => Some(text),
                    None => if count_with(components, RuntimeComponentRole::PublicCli) != 1
                        || components[public].id@ != "public-cli"@ || components[public].path@
                        != "memcordon.exe"@ {
                        Some("public runtime inventory differs"@)
                    } else {
                        None
                    },
                }
            },
        }
    }
}

fn check_image(
    components: &Vec<RuntimeComponent>,
    ordinal: usize,
    found: &Result<Vec<u8>, String>,
) -> (r: Result<(), String>)
    ensures
        match image_fault(components@, ordinal as int, *found) {
            Some(text) => r matches Err(fault) && fault@ == text,
            None => r is Ok,
        },
{
    let (role, id, name) = image(ordinal);
    if count_role(components, role) != 1 {
        return Err("installed runtime role inventory differs".to_owned());
    }
    let place = find_role(components, role);
    proof {
        assert(components@.take(components@.len() as int) =~= components@);
        counted_is_found(components@, role, components@.len() as int);
        let k = choose|i: int| 0 <= i < components@.len() && (#[trigger] components@[i]).role == role;
        found_comes_first(components@, role, 0, k);
    }
    let bytes = match found {
        Ok(bytes) => bytes,
        Err(text) => {
            return Err(text.clone());
        },
    };
    let digest = digest_bytes(bytes.as_slice());
    let record = &components[place];
    if !same_text(record.id.as_str(), id) || !same_text(record.path.as_str(), name) || record.mode
        != 0o755 || record.size != bytes.len() as u64 || !same_text(
        record.sha256.as_str(),
        digest.as_str(),
    ) {
        return Err("installed runtime image differs from manifest".to_owned());
    }
    Ok(())
}

/// Verifies the installed runtime on Windows. `found` is what the files of the three
/// images hold, in order, once they are known to be protected.
pub fn verify_binding(
    manifest: &ManifestReading,
    version: &str,
    arch: &str,
    found: &Vec<Result<Vec<u8>, String>>,
) -> (r: Result<(), String>)
    requires
        found@.len() == 3,
    ensures
        match windows_verdict(*manifest, version@, arch@, found@) {
            Some(text) => r matches Err(fault) && fault@ == text,
            None => r is Ok,
        },
{
    if !same_text(arch, "x86_64") && !same_text(arch, "aarch64") {
        return Err("unsupported Windows provider architecture".to_owned());
    }
    let components = &manifest.components;
    if !same_text(manifest.version.as_str(), version) || components.len() != 4
        || !manifest.supported {
        return Err("installed runtime binding differs from provider".to_owned());
    }
    match &manifest.bound {
        Err(text) => {
            return Err(text.clone());
        },
        Ok(bound) => {
            if !*bound {
                return Err("installed runtime binding differs from provider".to_owned());
            }
        },
    }
    reveal_with_fuel(images_fault, 4);
    if let Err(text) = check_image(components, 0, &found[0]) {
        return Err(text);
    }
    if let Err(text) = check_image(components, 1, &found[1]) {
        return Err(text);
    }
    if let Err(text) = check_image(components, 2, &found[2]) {
        return Err(text);
    }
    if count_role(components, RuntimeComponentRole::PublicCli) != 1 {
        return Err("public runtime inventory differs".to_owned());
    }
    let public = find_role(components, RuntimeComponentRole::PublicCli);
    proof {
        assert(components@.take(components@.len() as int) =~= components@);
        counted_is_found(components@, RuntimeComponentRole::PublicCli, components@.len() as int);
        let k = choose|i: int|
            0 <= i < components@.len() && (#[trigger] components@[i]).role
                == RuntimeComponentRole::PublicCli;
        found_comes_first(components@, RuntimeComponentRole::PublicCli, 0, k);
    }
    if !same_text(components[public].id.as_str(), "public-cli") || !same_text(
        components[public].path.as_str(),
        "memcordon.exe",
    ) {
        return Err("public runtime inventory differs".to_owned());
    }
    Ok(())
}

/// The identity of a boot on Windows: when it was, in decimal, where the native answer
/// is complete.
pub fn windows_boot_identity(status: i32, complete: bool, shown: String) -> (r: Result<
    String,
    &'static str,
>)
    ensures
        r == if status < 0 || !complete {
            Err::<String, &'static str>("native boot identity unavailable")
        } else {
            Ok(shown)
        },
{
    if status < 0 || !complete {
        Err("native boot identity unavailable")
    } else {
        Ok(shown)
    }
}

/// An agent that passes is the one that the manifest names, byte for byte as far as its
/// length and its digest tell.
pub proof fn verified_agents_are_named(
    manifest: ManifestReading,
    version: Seq<char>,
    arch: Seq<char>,
    musl: bool,
)
    ensures
        manifest_verdict(manifest, version, arch, musl) matches Ok(place) ==> manifest.bound == Ok::<
            bool,
            String,
        >(true) && manifest.components@[place].role == RuntimeComponentRole::SealedAgent
            && manifest.version@ == version,
{
    let components = manifest.components@;
    agents_have_their_role(components, RuntimeComponentRole::SealedAgent, 0);
}

proof fn agents_have_their_role(components: Seq<RuntimeComponent>, role: RuntimeComponentRole, i: int)
    requires
        0 <= i,
    ensures
        0 <= first_with(components, role, i) < components.len() ==> components[first_with(
            components,
            role,
            i,
        )].role == role,
        first_with(components, role, i) >= 0,
    decreases components.len() - i,
{
    if i < components.len() && components[i].role != role {
        agents_have_their_role(components, role, i + 1);
    }
}

} // verus!
