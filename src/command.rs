//! Command names and the bytes of one request.
use vstd::prelude::*;
use vstd::string::StringSliceAdditionalSpecFns;
use vstd::utf8::encode_utf8;
use crate::frame::{frame_of, write_frame, MAX_FRAME_LEN};

verus! {

/// A remote operation. Names are exact, case-sensitive and dot-scoped.
#[derive(Debug, Clone, Copy, PartialEq, Eq, Structural)]
pub enum Command {
    Ping,
    GetCurrentBranch,
    SetCurrentBranch,
    StoreSet,
    StoreSetTree,
    StoreFind,
    StoreFindTree,
    StoreMem,
    StoreMemTree,
    StoreRemove,
    CommitV,
    CommitOfHash,
    TreeAdd,
    TreeAddTree,
    TreeRemove,
    TreeFind,
    TreeFindTree,
    TreeMem,
    TreeMemTree,
}

impl Command {
    /// The name sent on the wire for this command.
    pub open spec fn spec_name(self) -> Seq<char> {
        match self {
            Command::Ping => "ping"@,
            Command::GetCurrentBranch => "get_current_branch"@,
            Command::SetCurrentBranch => "set_current_branch"@,
            Command::StoreSet => "store.set"@,
            Command::StoreSetTree => "store.set_tree"@,
            Command::StoreFind => "store.find"@,
            Command::StoreFindTree => "store.find_tree"@,
            Command::StoreMem => "store.mem"@,
            Command::StoreMemTree => "store.mem_tree"@,
            Command::StoreRemove => "store.remove"@,
            Command::CommitV => "commit.v"@,
            Command::CommitOfHash => "commit.of_hash"@,
            Command::TreeAdd => "tree.add"@,
            Command::TreeAddTree => "tree.add_tree"@,
            Command::TreeRemove => "tree.remove"@,
            Command::TreeFind => "tree.find"@,
            Command::TreeFindTree => "tree.find_tree"@,
            Command::TreeMem => "tree.mem"@,
            Command::TreeMemTree => "tree.mem_tree"@,
        }
    }

    pub fn name(&self) -> (r: &'static str)
        ensures
            r@ == self.spec_name(),
    {
        match self {
            Command::Ping => "ping",
            Command::GetCurrentBranch => "get_current_branch",
            Command::SetCurrentBranch => "set_current_branch",
            Command::StoreSet => "store.set",
            Command::StoreSetTree => "store.set_tree",
            Command::StoreFind => "store.find",
            Command::StoreFindTree => "store.find_tree",
            Command::StoreMem => "store.mem",
            Command::StoreMemTree => "store.mem_tree",
            Command::StoreRemove => "store.remove",
            Command::CommitV => "commit.v",
            Command::CommitOfHash => "commit.of_hash",
            Command::TreeAdd => "tree.add",
            Command::TreeAddTree => "tree.add_tree",
            Command::TreeRemove => "tree.remove",
            Command::TreeFind => "tree.find",
            Command::TreeFindTree => "tree.find_tree",
            Command::TreeMem => "tree.mem",
            Command::TreeMemTree => "tree.mem_tree",
        }
    }
}

/// The bytes of one request: the command's name, a newline, then one frame
/// carrying the encoded arguments.
pub open spec fn request_bytes(cmd: Command, payload: Seq<u8>) -> Seq<u8> {
    encode_utf8(cmd.spec_name()) + seq![10u8] + frame_of(payload)
}

/// Builds the bytes of one request for `cmd` with the encoded arguments
/// `payload`.
pub fn encode_request(cmd: Command, payload: &[u8]) -> (r: Vec<u8>)
    requires
        payload@.len() <= MAX_FRAME_LEN,
    ensures
        r@ == request_bytes(cmd, payload@),
{
    let name = cmd.name().as_bytes();
    let mut out: Vec<u8> = Vec::new();
    let mut i: usize = 0;
    while i < name.len()
        invariant
            0 <= i <= name@.len(),
            out@ == name@.subrange(0, i as int),
        decreases name@.len() - i,
    {
        out.push(name[i]);
        i = i + 1;
        assert(out@ =~= name@.subrange(0, i as int));
    }
    assert(name@.subrange(0, i as int) =~= name@);
    out.push(10u8);
    write_frame(&mut out, payload);
    assert(out@ =~= request_bytes(cmd, payload@));
    out
}

} // verus!
