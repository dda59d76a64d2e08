//! Values of the store, each held as the bytes its codec gives it.
use vstd::prelude::*;

verus! {

/// A path in the tree, held in its binary encoding.
#[derive(Debug, Clone, PartialEq, Eq)]
pub struct Key {
    bin: Vec<u8>,
}

impl View for Key {
    type V = Seq<u8>;

    closed spec fn view(&self) -> Seq<u8> {
        self.bin@
    }
}

impl Key {
    /// The value whose encoding is `bin`.
    pub fn from_bin(bin: Vec<u8>) -> (r: Key)
        ensures
            r@ == bin@,
    {
        Key { bin }
    }

    /// The encoding of this value.
    pub fn as_bin(&self) -> (r: &[u8])
        ensures
            r@ == self@,
    {
        self.bin.as_slice()
    }
}

/// Commit metadata attached to a change, held in its binary encoding.
#[derive(Debug, Clone, PartialEq, Eq)]
pub struct Info {
    bin: Vec<u8>,
}

impl View for Info {
    type V = Seq<u8>;

    closed spec fn view(&self) -> Seq<u8> {
        self.bin@
    }
}

impl Info {
    /// The value whose encoding is `bin`.
    pub fn from_bin(bin: Vec<u8>) -> (r: Info)
        ensures
            r@ == bin@,
    {
        Info { bin }
    }

    /// The encoding of this value.
    pub fn as_bin(&self) -> (r: &[u8])
        ensures
            r@ == self@,
    {
        self.bin.as_slice()
    }
}

/// A content identifier of the store, held in its binary encoding.
#[derive(Debug, Clone, PartialEq, Eq)]
pub struct Hash {
    bin: Vec<u8>,
}

impl View for Hash {
    type V = Seq<u8>;

    closed spec fn view(&self) -> Seq<u8> {
        self.bin@
    }
}

impl Hash {
    /// The value whose encoding is `bin`.
    pub fn from_bin(bin: Vec<u8>) -> (r: Hash)
        ensures
            r@ == bin@,
    {
        Hash { bin }
    }

    /// The encoding of this value.
    pub fn as_bin(&self) -> (r: &[u8])
        ensures
            r@ == self@,
    {
        self.bin.as_slice()
    }
}

/// A snapshot of a subtree held by the store, in its binary encoding.
/// Edits give a new `Tree`; a value of this type never changes.
#[derive(Debug, Clone, PartialEq, Eq)]
pub struct Tree {
    bin: Vec<u8>,
}

impl View for Tree {
    type V = Seq<u8>;

    closed spec fn view(&self) -> Seq<u8> {
        self.bin@
    }
}

impl Tree {
    /// The value whose encoding is `bin`.
    pub fn from_bin(bin: Vec<u8>) -> (r: Tree)
        ensures
            r@ == bin@,
    {
        Tree { bin }
    }

    /// The encoding of this value.
    pub fn as_bin(&self) -> (r: &[u8])
        ensures
            r@ == self@,
    {
        self.bin.as_slice()
    }
}

/// A commit of the store, in its binary encoding.
#[derive(Debug, Clone, PartialEq, Eq)]
pub struct Commit {
    bin: Vec<u8>,
}

impl View for Commit {
    type V = Seq<u8>;

    closed spec fn view(&self) -> Seq<u8> {
        self.bin@
    }
}

impl Commit {
    /// The value whose encoding is `bin`.
    pub fn from_bin(bin: Vec<u8>) -> (r: Commit)
        ensures
            r@ == bin@,
    {
        Commit { bin }
    }

    /// The encoding of this value.
    pub fn as_bin(&self) -> (r: &[u8])
        ensures
            r@ == self@,
    {
        self.bin.as_slice()
    }
}

/// Appends `b` to `out`.
pub fn append(out: &mut Vec<u8>, b: &[u8])
    ensures
        final(out)@ == old(out)@ + b@,
{
    let ghost start = out@;
    let mut i: usize = 0;
    while i < b.len()
        invariant
            0 <= i <= b@.len(),
            out@ == start + b@.subrange(0, i as int),
        decreases b@.len() - i,
    {
        out.push(b[i]);
        i = i + 1;
        assert(out@ =~= start + b@.subrange(0, i as int));
    }
    assert(b@.subrange(0, i as int) =~= b@);
}

/// The concatenation of `a`, `b` and `c`: how a tuple of arguments is encoded.
pub fn concat3(a: &[u8], b: &[u8], c: &[u8]) -> (r: Vec<u8>)
    ensures
        r@ == a@ + b@ + c@,
{
    let mut out: Vec<u8> = Vec::new();
    append(&mut out, a);
    append(&mut out, b);
    append(&mut out, c);
    assert(out@ =~= a@ + b@ + c@);
    out
}

/// The concatenation of `a` and `b`: how a pair of arguments is encoded.
pub fn concat2(a: &[u8], b: &[u8]) -> (r: Vec<u8>)
    ensures
        r@ == a@ + b@,
{
    let mut out: Vec<u8> = Vec::new();
    append(&mut out, a);
    append(&mut out, b);
    assert(out@ =~= a@ + b@);
    out
}

} // verus!
