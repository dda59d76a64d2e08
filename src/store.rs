//! Operations on the store's current branch, and on the connection itself.
use vstd::prelude::*;
use crate::client::{request_step, Client, ClientError};
use crate::command::Command;
use crate::frame::MAX_FRAME_LEN;
use crate::types::{concat2, concat3, Info, Key, Tree};

verus! {

/// Access to the store-level operations of a connection.
pub struct Store {}

impl Store {
    /// Sets the value at `key`; `value` is the encoded value.
    pub fn set(&self, client: &mut Client, key: &Key, value: &[u8], info: &Info) -> (r: Result<Vec<u8>, ClientError>)
        requires
            key@.len() + info@.len() + value@.len() <= MAX_FRAME_LEN,
        ensures
            request_step(old(client)@, Command::StoreSet, key@ + info@ + value@, final(client)@, r),
    {
        let payload = concat3(key.as_bin(), info.as_bin(), value);
        client.request(Command::StoreSet, payload.as_slice())
    }

    /// Sets the tree at `key`.
    pub fn set_tree(&self, client: &mut Client, key: &Key, tree: &Tree, info: &Info) -> (r: Result<Vec<u8>, ClientError>)
        requires
            key@.len() + info@.len() + tree@.len() <= MAX_FRAME_LEN,
        ensures
            request_step(old(client)@, Command::StoreSetTree, key@ + info@ + tree@, final(client)@, r),
    {
        let payload = concat3(key.as_bin(), info.as_bin(), tree.as_bin());
        client.request(Command::StoreSetTree, payload.as_slice())
    }

    /// Looks up the value at `key`; the response is an optional value.
    pub fn find(&self, client: &mut Client, key: &Key) -> (r: Result<Vec<u8>, ClientError>)
        requires
            key@.len() <= MAX_FRAME_LEN,
        ensures
            request_step(old(client)@, Command::StoreFind, key@, final(client)@, r),
    {
        client.request(Command::StoreFind, key.as_bin())
    }

    /// Looks up the tree at `key`; the response is an optional tree.
    pub fn find_tree(&self, client: &mut Client, key: &Key) -> (r: Result<Vec<u8>, ClientError>)
        requires
            key@.len() <= MAX_FRAME_LEN,
        ensures
            request_step(old(client)@, Command::StoreFindTree, key@, final(client)@, r),
    {
        client.request(Command::StoreFindTree, key.as_bin())
    }

    /// Asks whether `key` holds a value; the response is a boolean.
    pub fn mem(&self, client: &mut Client, key: &Key) -> (r: Result<Vec<u8>, ClientError>)
        requires
            key@.len() <= MAX_FRAME_LEN,
        ensures
            request_step(old(client)@, Command::StoreMem, key@, final(client)@, r),
    {
        client.request(Command::StoreMem, key.as_bin())
    }

    /// Asks whether `key` holds a tree; the response is a boolean.
    pub fn mem_tree(&self, client: &mut Client, key: &Key) -> (r: Result<Vec<u8>, ClientError>)
        requires
            key@.len() <= MAX_FRAME_LEN,
        ensures
            request_step(old(client)@, Command::StoreMemTree, key@, final(client)@, r),
    {
        client.request(Command::StoreMemTree, key.as_bin())
    }

    /// Removes what `key` holds.
    pub fn remove(&self, client: &mut Client, key: &Key, info: &Info) -> (r: Result<Vec<u8>, ClientError>)
        requires
            key@.len() + info@.len() <= MAX_FRAME_LEN,
        ensures
            request_step(old(client)@, Command::StoreRemove, key@ + info@, final(client)@, r),
    {
        let payload = concat2(key.as_bin(), info.as_bin());
        client.request(Command::StoreRemove, payload.as_slice())
    }
}

impl Client {
    /// Checks that the server answers; the response is unit.
    pub fn ping(&mut self) -> (r: Result<Vec<u8>, ClientError>)
        ensures
            request_step(old(self)@, Command::Ping, Seq::<u8>::empty(), final(self)@, r),
    {
        let payload: Vec<u8> = Vec::new();
        self.request(Command::Ping, payload.as_slice())
    }

    /// Switches to another branch; `branch` is the encoded branch name.
    pub fn set_current_branch(&mut self, branch: &[u8]) -> (r: Result<Vec<u8>, ClientError>)
        requires
            branch@.len() <= MAX_FRAME_LEN,
        ensures
            request_step(old(self)@, Command::SetCurrentBranch, branch@, final(self)@, r),
    {
        self.request(Command::SetCurrentBranch, branch)
    }

    /// Asks for the name of the current branch.
    pub fn get_current_branch(&mut self) -> (r: Result<Vec<u8>, ClientError>)
        ensures
            request_step(old(self)@, Command::GetCurrentBranch, Seq::<u8>::empty(), final(self)@, r),
    {
        let payload: Vec<u8> = Vec::new();
        self.request(Command::GetCurrentBranch, payload.as_slice())
    }

    /// The store-level operations.
    pub fn store(&self) -> (r: Store) {
        Store {}
    }
}

} // verus!
