//! Where the daemon's sockets are: files below a per-user directory.
use vstd::prelude::*;
use vstd::utf8::{decode_utf8, encode_utf8, is_char_boundary};

use crate::paths::{first_chars, hash_key, hex_of, join_path, joined, text_digest};
use crate::text::{
    concat2, concat4, concat5, opt_str, opt_text, split_on, split_text, split_words, starts_with,
    texts, words,
};

verus! {

/// The user id in a process status text: the first word behind the mark of the
/// first line that has the mark and a word behind it.
pub open spec fn uid_in_lines(lines: Seq<Seq<char>>) -> Option<Seq<char>>
    decreases lines.len(),
{
    if lines.len() == 0 {
        None
    } else {
        let line = lines[0];
        if starts_with(line, "Uid:"@) && words(line.skip("Uid:"@.len() as int)).len() > 0 {
            Some(words(line.skip("Uid:"@.len() as int))[0])
        } else {
            uid_in_lines(lines.drop_first())
        }
    }
}

/// The user id in a process status text.
pub fn current_uid(status: &str) -> (r: Option<String>)
    ensures
        opt_text(r) == uid_in_lines(split_on(status@, '\n')),
{
    let lines = split_text(status, '\n');
    let ghost all = texts(lines@);
    let mut i: usize = 0;
    assert(all.skip(0) =~= all);
    while i < lines.len()
        invariant
            i <= lines@.len(),
            all == texts(lines@),
            all == split_on(status@, '\n'),
            uid_in_lines(all) == uid_in_lines(all.skip(i as int)),
        decreases lines@.len() - i,
    {
        let ghost rest = all.skip(i as int);
        proof {
            assert(rest[0] == lines@[i as int]@);
            assert(rest.drop_first() =~= all.skip(i + 1));
        }
        let chars = crate::text::chars_of(lines[i].as_str());
        let mark = crate::text::chars_of("Uid:");
        if crate::text::stands_at(&chars, &mark, 0) {
            let tail = crate::text::text_of(&chars, mark.len(), chars.len());
            assert(tail@ =~= rest[0].skip("Uid:"@.len() as int));
            let parts = split_words(tail.as_str());
            assert(texts(parts@).len() == parts@.len());
            if parts.len() > 0 {
                assert(texts(parts@)[0] == parts@[0]@);
                return Some(parts[0].clone());
            }
        }
        i = i + 1;
    }
    assert(all.skip(i as int) =~= Seq::empty());
    None
}

/// The directory of the sockets: below the temporary directory, named after
/// the user.
pub open spec fn socket_dir_of(uid: Option<Seq<char>>, tmpdir: Option<Seq<char>>) -> Seq<char> {
    let user = match uid {
        Some(uid) => uid,
        None => "user"@,
    };
    let tmp = match tmpdir {
        Some(tmp) => tmp,
        None => "/tmp"@,
    };
    joined(tmp, "prime-agent-"@ + user)
}

/// The directory of the sockets, given the user id and the temporary directory
/// where they are known.
pub fn socket_dir(uid: Option<&str>, tmpdir: Option<&str>) -> (r: String)
    ensures
        r@ == socket_dir_of(opt_str(uid), opt_str(tmpdir)),
{
    let user = match uid {
        Some(uid) => uid,
        None => "user",
    };
    let tmp = match tmpdir {
        Some(tmp) => tmp,
        None => "/tmp",
    };
    join_path(tmp, concat2("prime-agent-", user).as_str())
}

/// The supervisor's socket.
pub fn default_daemon_socket_path(socket_dir: &str) -> (r: String)
    ensures
        r@ == joined(socket_dir@, "daemon.sock"@),
{
    join_path(socket_dir, "daemon.sock")
}

/// The supervisor's pipe, on platforms without socket files.
pub const DAEMON_PIPE_NAME: &'static str = "\\\\.\\pipe\\prime-agent-daemon";

/// The supervisor's pipe, on platforms without socket files.
pub fn default_daemon_pipe_path() -> (r: String)
    ensures
        r@ == DAEMON_PIPE_NAME@,
{
    DAEMON_PIPE_NAME.to_owned()
}

/// How many bytes of a worker id name its socket.
pub open spec fn id_bytes(worker_id: Seq<char>) -> int {
    if encode_utf8(worker_id).len() < 12 {
        encode_utf8(worker_id).len() as int
    } else {
        12
    }
}

/// The part of a worker id that names its socket: its first twelve bytes.
pub open spec fn id_prefix(worker_id: Seq<char>) -> Seq<char> {
    decode_utf8(encode_utf8(worker_id).subrange(0, id_bytes(worker_id)))
}

/// The file name of a worker's socket: the key of the supervisor's socket path
/// and the start of the worker id.
pub open spec fn worker_socket_name(supervisor: Seq<char>, worker_id: Seq<char>) -> Seq<char> {
    worker_socket_named(first_chars(hex_of(text_digest(supervisor)), 12), worker_id)
}

/// The file name of a worker's socket under a key.
pub open spec fn worker_socket_named(key: Seq<char>, worker_id: Seq<char>) -> Seq<char> {
    "worker-"@ + key + "-"@ + id_prefix(worker_id) + ".sock"@
}

/// A worker's socket, in the directory of the sockets. The start of the worker
/// id must not end inside a character.
pub fn worker_socket_path(
    socket_dir: &str,
    supervisor_socket_path: &str,
    worker_id: &str,
) -> (r: String)
    requires
        is_char_boundary(encode_utf8(worker_id@), id_bytes(worker_id@)),
    ensures
        r@ == joined(socket_dir@, worker_socket_name(supervisor_socket_path@, worker_id@)),
{
    let key = hash_key(supervisor_socket_path, 12);
    keyed_worker_socket_path(socket_dir, key.as_str(), worker_id)
}

/// A worker's socket under the key of its supervisor's socket path.
pub fn keyed_worker_socket_path(socket_dir: &str, key: &str, worker_id: &str) -> (r: String)
    requires
        is_char_boundary(encode_utf8(worker_id@), id_bytes(worker_id@)),
    ensures
        r@ == joined(socket_dir@, worker_socket_named(key@, worker_id@)),
{
    let head = id_start(worker_id);
    let name = concat5("worker-", key, "-", head.as_str(), ".sock");
    join_path(socket_dir, name.as_str())
}

fn id_start(worker_id: &str) -> (r: String)
    requires
        is_char_boundary(encode_utf8(worker_id@), id_bytes(worker_id@)),
    ensures
        r@ == id_prefix(worker_id@),
{
    let bytes = worker_id.as_bytes();
    let n: usize = if bytes.len() < 12 {
        bytes.len()
    } else {
        12
    };
    let (head, _) = worker_id.split_at(n);
    proof {
        vstd::utf8::encode_utf8_decode_utf8(head@);
        assert(head@ == id_prefix(worker_id@));
    }
    head.to_owned()
}

/// A worker's pipe, on platforms without socket files, under the key of its
/// supervisor's pipe.
pub open spec fn worker_pipe_named(key: Seq<char>, worker_id: Seq<char>) -> Seq<char> {
    "\\\\.\\pipe\\prime-agent-worker-"@ + key + "-"@ + id_prefix(worker_id)
}

/// A worker's pipe, on platforms without socket files.
pub fn worker_pipe_path(supervisor_pipe_path: &str, worker_id: &str) -> (r: String)
    requires
        is_char_boundary(encode_utf8(worker_id@), id_bytes(worker_id@)),
    ensures
        r@ == worker_pipe_named(
            first_chars(hex_of(text_digest(supervisor_pipe_path@)), 12),
            worker_id@,
        ),
{
    let key = hash_key(supervisor_pipe_path, 12);
    keyed_worker_pipe_path(key.as_str(), worker_id)
}

/// A worker's pipe under the key of its supervisor's pipe.
pub fn keyed_worker_pipe_path(key: &str, worker_id: &str) -> (r: String)
    requires
        is_char_boundary(encode_utf8(worker_id@), id_bytes(worker_id@)),
    ensures
        r@ == worker_pipe_named(key@, worker_id@),
{
    let head = id_start(worker_id);
    concat4("\\\\.\\pipe\\prime-agent-worker-", key, "-", head.as_str())
}

/// The bytes of a worker id that name its socket.
pub open spec fn id_key(worker_id: Seq<char>) -> Seq<u8> {
    encode_utf8(worker_id).subrange(0, id_bytes(worker_id))
}

/// Only the start of a worker id keys its socket and its pipe: two ids share
/// them exactly where their first twelve bytes, or all bytes of a shorter one,
/// are the same. The start must not end inside a character, in either id.
pub proof fn law_worker_sockets_follow_the_prefix(
    supervisor: Seq<char>,
    left: Seq<char>,
    right: Seq<char>,
)
    requires
        is_char_boundary(encode_utf8(left), id_bytes(left)),
        is_char_boundary(encode_utf8(right), id_bytes(right)),
    ensures
        worker_socket_name(supervisor, left) == worker_socket_name(supervisor, right) <==> id_key(
            left,
        ) == id_key(right),
        forall|key: Seq<char>| #[trigger]
            worker_pipe_named(key, left) == worker_pipe_named(key, right) <==> id_key(left)
                == id_key(right),
{
    lemma_id_prefix(left);
    lemma_id_prefix(right);
    let key = first_chars(hex_of(text_digest(supervisor)), 12);
    lemma_last_part("worker-"@ + key + "-"@, id_prefix(left), id_prefix(right), ".sock"@);
    assert forall|key: Seq<char>| #[trigger]
        worker_pipe_named(key, left) == worker_pipe_named(key, right) <==> id_key(left) == id_key(
        right,
    ) by {
        let head = "\\\\.\\pipe\\prime-agent-worker-"@ + key + "-"@;
        lemma_last_part(head, id_prefix(left), id_prefix(right), Seq::empty());
        assert(head + id_prefix(left) + Seq::empty() =~= head + id_prefix(left));
        assert(head + id_prefix(right) + Seq::empty() =~= head + id_prefix(right));
    }
}

proof fn lemma_id_prefix(worker_id: Seq<char>)
    requires
        is_char_boundary(encode_utf8(worker_id), id_bytes(worker_id)),
    ensures
        encode_utf8(id_prefix(worker_id)) == id_key(worker_id),
{
    let bytes = encode_utf8(worker_id);
    vstd::utf8::encode_utf8_valid_utf8(worker_id);
    vstd::utf8::valid_utf8_split(bytes, id_bytes(worker_id));
    vstd::utf8::decode_utf8_encode_utf8(bytes.subrange(0, id_bytes(worker_id)));
}

proof fn lemma_last_part(head: Seq<char>, left: Seq<char>, right: Seq<char>, tail: Seq<char>)
    ensures
        head + left + tail == head + right + tail <==> left == right,
{
    if head + left + tail == head + right + tail {
        assert((head + left + tail).len() == head.len() + left.len() + tail.len());
        assert((head + right + tail).len() == head.len() + right.len() + tail.len());
        assert forall|i: int| 0 <= i < left.len() implies left[i] == right[i] by {
            assert((head + left + tail)[head.len() + i] == left[i]);
            assert((head + right + tail)[head.len() + i] == right[i]);
        }
        assert(left =~= right);
    }
}

/// The file behind a socket, told apart from one made anew at the same path.
#[derive(Debug, Clone, Copy, PartialEq, Eq, Structural)]
pub struct SocketIdentity {
    pub dev: u64,
    pub ino: u64,
}

/// The identity of a socket, out of its file's device and inode where the file
/// is there.
pub fn socket_identity(metadata: Option<(u64, u64)>) -> (r: Option<SocketIdentity>)
    ensures
        match metadata {
            Some((dev, ino)) => r == Some(SocketIdentity { dev, ino }),
            None => r is None,
        },
{
    match metadata {
        Some((dev, ino)) => Some(SocketIdentity { dev, ino }),
        None => None,
    }
}

} // verus!
