use irmin::client::{Client, ClientError, Phase};
use irmin::command::{encode_request, Command};
use irmin::frame::{encode_frame, FrameError};
use irmin::handshake::handshake_line;
use irmin::types::{Commit, Info, Key, Tree};

fn request_of(name: &str, payload: &[u8]) -> Vec<u8> {
    let mut v = name.as_bytes().to_vec();
    v.push(b'\n');
    v.extend_from_slice(&encode_frame(payload));
    v
}

fn reply(status: u8, payload: &[u8]) -> Vec<u8> {
    let mut v = vec![status];
    v.extend_from_slice(&encode_frame(payload));
    v
}

fn connected(content: &str) -> Client {
    let mut c = Client::new(content);
    let line = c.write_handshake();
    assert_eq!(c.read_handshake(&line), Ok(()));
    c
}

#[test]
fn handshake_sends_fingerprint_and_accepts_same() {
    let mut c = Client::new("bytes");
    assert_eq!(c.phase(), Phase::Handshaking);
    assert_eq!(c.write_handshake(), handshake_line("bytes"));
    assert_eq!(c.read_handshake(&handshake_line("bytes")), Ok(()));
    assert_eq!(c.phase(), Phase::Ready);
}

#[test]
fn mismatched_content_type_is_refused() {
    let mut c = Client::new("bytes");
    let server = handshake_line("string");
    assert_eq!(c.read_handshake(&server), Err(ClientError::HandshakeRefused));
    assert_eq!(c.phase(), Phase::Refused);
    assert_eq!(c.ping(), Err(ClientError::NotReady));
    assert_eq!(c.response(0, vec![]), Err(ClientError::OutOfSequence));
    assert_eq!(c.phase(), Phase::Refused);
}

#[test]
fn partial_handshake_line_is_refused() {
    let mut c = Client::new("bytes");
    let mut line = handshake_line("bytes");
    line.pop();
    assert_eq!(c.read_handshake(&line), Err(ClientError::HandshakeRefused));
    let mut d = Client::new("bytes");
    assert_eq!(d.read_handshake(&[]), Err(ClientError::HandshakeRefused));
}

#[test]
fn no_command_before_handshake() {
    let mut c = Client::new("bytes");
    assert_eq!(c.ping(), Err(ClientError::NotReady));
    assert_eq!(c.phase(), Phase::Handshaking);
}

#[test]
fn second_handshake_is_out_of_sequence() {
    let mut c = connected("bytes");
    let line = c.write_handshake();
    assert_eq!(c.read_handshake(&line), Err(ClientError::OutOfSequence));
    assert_eq!(c.phase(), Phase::Ready);
}

#[test]
fn ping_request_bytes() {
    let mut c = connected("bytes");
    let bytes = c.ping().unwrap();
    assert_eq!(bytes, b"ping\n\0\0\0\0\0\0\0\0".to_vec());
    assert_eq!(c.phase(), Phase::Awaiting);
    assert_eq!(c.response(0, vec![]), Ok(vec![]));
    assert_eq!(c.phase(), Phase::Ready);
}

#[test]
fn second_request_in_flight_fails_fast() {
    let mut c = connected("bytes");
    c.ping().unwrap();
    assert_eq!(c.ping(), Err(ClientError::Busy));
    assert_eq!(c.phase(), Phase::Awaiting);
}

#[test]
fn error_status_yields_server_message() {
    let mut c = connected("bytes");
    c.ping().unwrap();
    assert_eq!(
        c.response(1, b"no such branch".to_vec()),
        Err(ClientError::Server(b"no such branch".to_vec()))
    );
    assert_eq!(c.phase(), Phase::Ready);
    c.ping().unwrap();
    assert_eq!(
        c.response(255, vec![]),
        Err(ClientError::Server(vec![]))
    );
}

#[test]
fn read_response_from_bytes() {
    let mut c = connected("bytes");
    c.ping().unwrap();
    let mut r = reply(0, b"\x01");
    r.extend_from_slice(b"tail");
    assert_eq!(c.read_response(&r), Ok((vec![1], 10)));
    c.ping().unwrap();
    assert_eq!(
        c.read_response(&reply(2, b"bad key")),
        Err(ClientError::Server(b"bad key".to_vec()))
    );
    assert_eq!(c.phase(), Phase::Ready);
}

#[test]
fn short_reply_keeps_cycle_open() {
    let mut c = connected("bytes");
    c.ping().unwrap();
    let r = reply(0, b"abc");
    assert_eq!(c.read_response(&r[..6]), Err(ClientError::Frame(FrameError::Incomplete)));
    assert_eq!(c.phase(), Phase::Awaiting);
    assert_eq!(c.read_response(&[]), Err(ClientError::Frame(FrameError::Incomplete)));
    assert_eq!(c.read_response(&r), Ok((b"abc".to_vec(), 12)));
}

#[test]
fn negative_reply_length_breaks_connection() {
    let mut c = connected("bytes");
    c.ping().unwrap();
    let r = [0u8, 0xff, 0xff, 0xff, 0xff, 0xff, 0xff, 0xff, 0xfe];
    assert_eq!(c.read_response(&r), Err(ClientError::Frame(FrameError::NegativeLength)));
    assert_eq!(c.phase(), Phase::Broken);
    assert_eq!(c.ping(), Err(ClientError::NotReady));
}

#[test]
fn response_without_request_is_out_of_sequence() {
    let mut c = connected("bytes");
    assert_eq!(c.response(0, vec![1]), Err(ClientError::OutOfSequence));
    assert_eq!(c.read_response(&reply(0, b"")), Err(ClientError::OutOfSequence));
}

#[test]
fn failed_and_closed_connections_refuse_commands() {
    let mut c = connected("bytes");
    c.fail();
    assert_eq!(c.phase(), Phase::Broken);
    assert_eq!(c.ping(), Err(ClientError::NotReady));
    let mut d = connected("bytes");
    d.close();
    assert_eq!(d.phase(), Phase::Closed);
    assert_eq!(d.ping(), Err(ClientError::NotReady));
}

#[test]
fn command_names_are_exact() {
    let all = [
        (Command::Ping, "ping"),
        (Command::GetCurrentBranch, "get_current_branch"),
        (Command::SetCurrentBranch, "set_current_branch"),
        (Command::StoreSet, "store.set"),
        (Command::StoreSetTree, "store.set_tree"),
        (Command::StoreFind, "store.find"),
        (Command::StoreFindTree, "store.find_tree"),
        (Command::StoreMem, "store.mem"),
        (Command::StoreMemTree, "store.mem_tree"),
        (Command::StoreRemove, "store.remove"),
        (Command::CommitV, "commit.v"),
        (Command::CommitOfHash, "commit.of_hash"),
        (Command::TreeAdd, "tree.add"),
        (Command::TreeAddTree, "tree.add_tree"),
        (Command::TreeRemove, "tree.remove"),
        (Command::TreeFind, "tree.find"),
        (Command::TreeFindTree, "tree.find_tree"),
        (Command::TreeMem, "tree.mem"),
        (Command::TreeMemTree, "tree.mem_tree"),
    ];
    for (cmd, name) in all.iter() {
        assert_eq!(cmd.name(), *name);
        assert_eq!(encode_request(*cmd, b"xy"), request_of(name, b"xy"));
    }
}

#[test]
fn store_operations_encode_argument_tuples() {
    let mut c = connected("bytes");
    let store = c.store();
    let key = Key::from_bin(b"K".to_vec());
    let info = Info::from_bin(b"I".to_vec());
    assert_eq!(store.set(&mut c, &key, b"V", &info), Ok(request_of("store.set", b"KIV")));
    c.response(0, vec![]).unwrap();
    assert_eq!(store.find(&mut c, &key), Ok(request_of("store.find", b"K")));
    c.response(0, vec![]).unwrap();
    assert_eq!(store.mem(&mut c, &key), Ok(request_of("store.mem", b"K")));
    c.response(0, vec![]).unwrap();
    assert_eq!(store.mem_tree(&mut c, &key), Ok(request_of("store.mem_tree", b"K")));
    c.response(0, vec![]).unwrap();
    assert_eq!(store.find_tree(&mut c, &key), Ok(request_of("store.find_tree", b"K")));
    c.response(0, vec![]).unwrap();
    let tree = Tree::from_bin(b"T".to_vec());
    assert_eq!(
        store.set_tree(&mut c, &key, &tree, &info),
        Ok(request_of("store.set_tree", b"KIT"))
    );
    c.response(0, vec![]).unwrap();
    assert_eq!(store.remove(&mut c, &key, &info), Ok(request_of("store.remove", b"KI")));
}

#[test]
fn branch_requests() {
    let mut c = connected("bytes");
    assert_eq!(c.get_current_branch(), Ok(request_of("get_current_branch", b"")));
    c.response(0, b"main".to_vec()).unwrap();
    assert_eq!(c.set_current_branch(b"dev"), Ok(request_of("set_current_branch", b"dev")));
}

#[test]
fn tree_edits_leave_the_original_handle() {
    let mut c = connected("bytes");
    let t = Tree::from_bin(b"T0".to_vec());
    let before = t.clone();
    let key = Key::from_bin(b"k".to_vec());
    assert_eq!(t.add(&mut c, &key, b"v"), Ok(request_of("tree.add", b"T0kv")));
    let t1 = Tree::from_bin(c.response(0, b"T1".to_vec()).unwrap());
    assert_eq!(t, before);
    assert_eq!(t1.as_bin(), b"T1");
    assert_eq!(t1.remove(&mut c, &key), Ok(request_of("tree.remove", b"T1k")));
    c.response(0, b"T2".to_vec()).unwrap();
    assert_eq!(t.find(&mut c, &key), Ok(request_of("tree.find", b"T0k")));
    c.response(0, vec![]).unwrap();
    assert_eq!(t.find_tree(&mut c, &key), Ok(request_of("tree.find_tree", b"T0k")));
    c.response(0, vec![]).unwrap();
    assert_eq!(t.mem(&mut c, &key), Ok(request_of("tree.mem", b"T0k")));
    c.response(0, vec![]).unwrap();
    assert_eq!(t.mem_tree(&mut c, &key), Ok(request_of("tree.mem_tree", b"T0k")));
    c.response(0, vec![]).unwrap();
    assert_eq!(t.add_tree(&mut c, &key, &t1), Ok(request_of("tree.add_tree", b"T0kT1")));
}

#[test]
fn commit_requests() {
    let mut c = connected("bytes");
    let node = irmin::types::Hash::from_bin(b"H".to_vec());
    let info = Info::from_bin(b"I".to_vec());
    assert_eq!(
        Commit::create(&mut c, &node, b"P", &info),
        Ok(request_of("commit.v", b"IPH"))
    );
    let commit = Commit::from_bin(c.response(0, b"C".to_vec()).unwrap());
    assert_eq!(commit.as_bin(), b"C");
    assert_eq!(Commit::of_hash(&mut c, &node), Ok(request_of("commit.of_hash", b"H")));
}

// A full session against scripted server replies: handshake on "bytes",
// ping, set, find, remove, find.
#[test]
fn test_client() {
    let mut c = Client::new("bytes");
    let hello = c.write_handshake();
    assert_eq!(c.read_handshake(&hello), Ok(()));
    c.ping().unwrap();
    assert_eq!(c.read_response(&reply(0, b"")), Ok((vec![], 9)));
    let store = c.store();
    let key = Key::from_bin(b"a/b/c".to_vec());
    let info = Info::from_bin(b"info".to_vec());
    store.set(&mut c, &key, b"123", &info).unwrap();
    assert_eq!(c.read_response(&reply(0, b"")), Ok((vec![], 9)));
    store.find(&mut c, &key).unwrap();
    assert_eq!(c.read_response(&reply(0, b"\x01123")), Ok((b"\x01123".to_vec(), 13)));
    store.remove(&mut c, &key, &info).unwrap();
    assert_eq!(c.read_response(&reply(0, b"")), Ok((vec![], 9)));
    store.find(&mut c, &key).unwrap();
    assert_eq!(c.read_response(&reply(0, b"\x00")), Ok((vec![0], 10)));
    c.close();
    assert_eq!(c.phase(), Phase::Closed);
}
