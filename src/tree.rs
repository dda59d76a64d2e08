//! Operations on tree snapshots and commits. Each edit gives a new tree.
use vstd::prelude::*;
use crate::client::{request_step, Client, ClientError};
use crate::command::Command;
use crate::frame::MAX_FRAME_LEN;
use crate::types::{concat2, concat3, Commit, Info, Key, Tree};

verus! {

impl Tree {
    /// Adds `value` (encoded) at `key`; the response is the new tree.
    pub fn add(&self, client: &mut Client, key: &Key, value: &[u8]) -> (r: Result<Vec<u8>, ClientError>)
        requires
            self@.len() + key@.len() + value@.len() <= MAX_FRAME_LEN,
        ensures
            request_step(old(client)@, Command::TreeAdd, self@ + key@ + value@, final(client)@, r),
    {
        let payload = concat3(self.as_bin(), key.as_bin(), value);
        client.request(Command::TreeAdd, payload.as_slice())
    }

    /// Adds `tree` at `key`; the response is the new tree.
    pub fn add_tree(&self, client: &mut Client, key: &Key, tree: &Tree) -> (r: Result<Vec<u8>, ClientError>)
        requires
            self@.len() + key@.len() + tree@.len() <= MAX_FRAME_LEN,
        ensures
            request_step(old(client)@, Command::TreeAddTree, self@ + key@ + tree@, final(client)@, r),
    {
        let payload = concat3(self.as_bin(), key.as_bin(), tree.as_bin());
        client.request(Command::TreeAddTree, payload.as_slice())
    }

    /// Removes what `key` holds; the response is the new tree.
    pub fn remove(&self, client: &mut Client, key: &Key) -> (r: Result<Vec<u8>, ClientError>)
        requires
            self@.len() + key@.len() <= MAX_FRAME_LEN,
        ensures
            request_step(old(client)@, Command::TreeRemove, self@ + key@, final(client)@, r),
    {
        let payload = concat2(self.as_bin(), key.as_bin());
        client.request(Command::TreeRemove, payload.as_slice())
    }

    /// Looks up the value at `key`; the response is an optional value.
    pub fn find(&self, client: &mut Client, key: &Key) -> (r: Result<Vec<u8>, ClientError>)
        requires
            self@.len() + key@.len() <= MAX_FRAME_LEN,
        ensures
            request_step(old(client)@, Command::TreeFind, self@ + key@, final(client)@, r),
    {
        let payload = concat2(self.as_bin(), key.as_bin());
        client.request(Command::TreeFind, payload.as_slice())
    }

    /// Looks up the tree at `key`; the response is an optional tree.
    pub fn find_tree(&self, client: &mut Client, key: &Key) -> (r: Result<Vec<u8>, ClientError>)
        requires
            self@.len() + key@.len() <= MAX_FRAME_LEN,
        ensures
            request_step(old(client)@, Command::TreeFindTree, self@ + key@, final(client)@, r),
    {
        let payload = concat2(self.as_bin(), key.as_bin());
        client.request(Command::TreeFindTree, payload.as_slice())
    }

    /// Asks whether `key` holds a value; the response is a boolean.
    pub fn mem(&self, client: &mut Client, key: &Key) -> (r: Result<Vec<u8>, ClientError>)
        requires
            self@.len() + key@.len() <= MAX_FRAME_LEN,
        ensures
            request_step(old(client)@, Command::TreeMem, self@ + key@, final(client)@, r),
    {
        let payload = concat2(self.as_bin(), key.as_bin());
        client.request(Command::TreeMem, payload.as_slice())
    }

    /// Asks whether `key` holds a tree; the response is a boolean.
    pub fn mem_tree(&self, client: &mut Client, key: &Key) -> (r: Result<Vec<u8>, ClientError>)
        requires
            self@.len() + key@.len() <= MAX_FRAME_LEN,
        ensures
            request_step(old(client)@, Command::TreeMemTree, self@ + key@, final(client)@, r),
    {
        let payload = concat2(self.as_bin(), key.as_bin());
        client.request(Command::TreeMemTree, payload.as_slice())
    }
}

impl Commit {
    /// Creates a commit of the tree `node` with the encoded list of parent hashes `parents`; the response is the commit.
    pub fn create(client: &mut Client, node: &crate::types::Hash, parents: &[u8], info: &Info) -> (r: Result<Vec<u8>, ClientError>)
        requires
            info@.len() + parents@.len() + node@.len() <= MAX_FRAME_LEN,
        ensures
            request_step(old(client)@, Command::CommitV, info@ + parents@ + node@, final(client)@, r),
    {
        let payload = concat3(info.as_bin(), parents, node.as_bin());
        client.request(Command::CommitV, payload.as_slice())
    }

    /// Looks up the commit with hash `hash`; the response is an optional commit.
    pub fn of_hash(client: &mut Client, hash: &crate::types::Hash) -> (r: Result<Vec<u8>, ClientError>)
        requires
            hash@.len() <= MAX_FRAME_LEN,
        ensures
            request_step(old(client)@, Command::CommitOfHash, hash@, final(client)@, r),
    {
        client.request(Command::CommitOfHash, hash.as_bin())
    }
}

} // verus!
