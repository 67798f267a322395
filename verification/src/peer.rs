//! The test that the process owning KeePassXC's name on the bus is the
//! KeePassXC that the service manager started.

use crate::text::same_text;
use vstd::prelude::*;

verus! {

/// One entry of what the service manager recorded of a unit's start: the
/// program it ran and the process it ran it as.
#[derive(Clone, Debug, PartialEq, Eq)]
pub struct ExecRecord {
    pub path: String,
    pub pid: u32,
}

/// A peer that passed the test.
#[derive(Clone, Debug, PartialEq, Eq)]
pub struct VerifiedPeer {
    pid: u32,
    path: String,
}

impl VerifiedPeer {
    /// The process of the peer.
    pub closed spec fn spec_pid(&self) -> u32 {
        self.pid
    }

    /// The program that the peer runs.
    pub closed spec fn spec_path(&self) -> Seq<char> {
        self.path@
    }

    /// The process of the peer.
    pub fn pid(&self) -> (pid: u32)
        ensures
            pid == self.spec_pid(),
    {
        self.pid
    }

    /// The program that the peer runs.
    pub fn path(&self) -> (path: &str)
        ensures
            path@ == self.spec_path(),
    {
        self.path.as_str()
    }
}

/// Why a peer was turned down.
#[derive(Clone, Copy, Debug, PartialEq, Eq, Structural)]
pub enum VerifyError {
    /// KeePassXC does not answer.
    PeerUnreachable,
    /// The owner of the name is not the KeePassXC that the service manager
    /// started, or that could not be found out.
    UntrustedPeer,
}

/// The program that is trusted to be KeePassXC.
pub open spec fn trusted_program() -> Seq<char> {
    "/usr/bin/keepassxc"@
}

/// A record of program `path` run as process `pid` vouches for the process
/// `owner`: the program is the trusted one and the process is the same.
pub open spec fn vouches(path: Seq<char>, pid: u32, owner: u32) -> bool {
    path == trusted_program() && pid == owner
}

/// The records vouch for `owner`: there is a first one, and it does.
pub open spec fn accepts(owner: u32, records: Seq<ExecRecord>) -> bool {
    records.len() > 0 && vouches(records[0].path@, records[0].pid, owner)
}

/// The program that is trusted to be KeePassXC.
pub fn trusted_program_path() -> (path: &'static str)
    ensures
        path@ == trusted_program(),
{
    "/usr/bin/keepassxc"
}

/// Whether the records that the service manager gave vouch for `owner`.
pub fn is_trusted(owner: u32, records: &Vec<ExecRecord>) -> (trusted: bool)
    ensures
        trusted == accepts(owner, records@),
{
    if records.len() == 0 {
        return false;
    }
    let first = &records[0];
    same_text(first.path.as_str(), trusted_program_path()) && first.pid == owner
}

/// Tests the process `owner`, which owns KeePassXC's name on the bus, against
/// the records that the service manager gave for the unit of that process.
pub fn verify(owner: u32, records: &Vec<ExecRecord>) -> (r: Result<VerifiedPeer, VerifyError>)
    ensures
        accepts(owner, records@) <==> r is Ok,
        r matches Ok(peer) ==> peer.spec_pid() == owner && peer.spec_path() == trusted_program(),
        r matches Err(error) ==> error == VerifyError::UntrustedPeer,
{
    if is_trusted(owner, records) {
        Ok(VerifiedPeer { pid: owner, path: String::from_str(trusted_program_path()) })
    } else {
        Err(VerifyError::UntrustedPeer)
    }
}

/// Records that vouch for the owner no longer do once the program or the
/// process of the first is changed, whatever becomes of the other.
pub proof fn law_both_fields_must_match(owner: u32, records: Seq<ExecRecord>, changed: ExecRecord)
    requires
        accepts(owner, records),
        changed.path@ != records[0].path@ || changed.pid != records[0].pid,
    ensures
        !accepts(owner, records.update(0, changed)),
{
}

} // verus!
