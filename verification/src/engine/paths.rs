//! Where the server of a directory listens.
use crate::text::{digit_char, hex_pair, push_hex};
use vstd::prelude::*;
use vstd::utf8::encode_utf8;

verus! {

/// The SHA-256 digest of some bytes.
pub uninterp spec fn sha256(data: Seq<u8>) -> Seq<u8>;

/// The files of a server: its socket, and the file that holds its process id.
#[derive(Debug, PartialEq)]
pub struct ServerPaths {
    pub socket: String,
    pub pid: String,
}

/// The first four bytes of a digest in hexadecimal.
pub open spec fn hex8(digest: Seq<u8>) -> Seq<char> {
    hex_pair(digest[0]) + hex_pair(digest[1]) + hex_pair(digest[2]) + hex_pair(digest[3])
}

/// The path of a server file, from the digest of the directory and the extension of the file.
pub open spec fn server_path(digest: Seq<u8>, extension: Seq<char>) -> Seq<char> {
    "/tmp/heappy-serve-"@ + hex8(digest) + extension
}

/// The digest of the text of a directory path.
pub open spec fn dir_digest(parquet_dir: Seq<char>) -> Seq<u8> {
    sha256(encode_utf8(parquet_dir))
}

/// The socket path of the server of a directory.
pub open spec fn socket_path(parquet_dir: Seq<char>) -> Seq<char> {
    server_path(dir_digest(parquet_dir), ".sock"@)
}

/// The path of the process id file of the server of a directory.
pub open spec fn pid_path(parquet_dir: Seq<char>) -> Seq<char> {
    server_path(dir_digest(parquet_dir), ".pid"@)
}

/// `sha2::Sha256`, fed with the bytes in one piece: the SHA-256 digest, which
/// has 32 bytes.
#[verifier::external_body]
fn sha256_digest(data: &[u8]) -> (digest: Vec<u8>)
    ensures
        digest@ == sha256(data@),
        digest@.len() == 32,
{
    let mut hasher = <sha2::Sha256 as sha2::Digest>::new();
    sha2::Digest::update(&mut hasher, data);
    sha2::Digest::finalize(hasher).to_vec()
}

/// The path of a server file for a digest.
pub fn server_path_for_digest(digest: &Vec<u8>, extension: &str) -> (path: String)
    requires
        digest@.len() >= 4,
    ensures
        path@ == server_path(digest@, extension@),
{
    let mut path = "/tmp/heappy-serve-".to_string();
    push_hex(&mut path, digest[0]);
    push_hex(&mut path, digest[1]);
    push_hex(&mut path, digest[2]);
    push_hex(&mut path, digest[3]);
    path.append(extension);
    assert(path@ =~= server_path(digest@, extension@));
    path
}

/// The socket path for a Parquet directory: `/tmp/heappy-serve-<sha256_hex8>.sock`.
pub fn socket_path_for(parquet_dir: &str) -> (path: String)
    ensures
        path@ == socket_path(parquet_dir@),
{
    let digest = sha256_digest(parquet_dir.as_bytes());
    server_path_for_digest(&digest, ".sock")
}

/// The paths of the server files for a Parquet directory. They differ in the
/// extension only.
pub fn server_paths_for(parquet_dir: &str) -> (paths: ServerPaths)
    ensures
        paths.socket@ == socket_path(parquet_dir@),
        paths.pid@ == pid_path(parquet_dir@),
{
    let digest = sha256_digest(parquet_dir.as_bytes());
    ServerPaths {
        socket: server_path_for_digest(&digest, ".sock"),
        pid: server_path_for_digest(&digest, ".pid"),
    }
}

/// The process id file has the path of the socket with its extension replaced.
pub proof fn law_pid_file_stands_beside_the_socket(parquet_dir: Seq<char>)
    ensures
        pid_path(parquet_dir) == socket_path(parquet_dir).take(
            socket_path(parquet_dir).len() - ".sock"@.len(),
        ) + ".pid"@,
{
    let common = "/tmp/heappy-serve-"@ + hex8(dir_digest(parquet_dir));
    assert((common + ".sock"@).take(common.len() as int) =~= common);
}

/// Two digests give the same path exactly if their first four bytes agree.
pub proof fn law_paths_tell_digests_apart(a: Seq<u8>, b: Seq<u8>, extension: Seq<char>)
    ensures
        server_path(a, extension) == server_path(b, extension) <==> {
            &&& a[0] == b[0]
            &&& a[1] == b[1]
            &&& a[2] == b[2]
            &&& a[3] == b[3]
        },
{
    if server_path(a, extension) == server_path(b, extension) {
        let n = "/tmp/heappy-serve-"@.len() as int;
        let pa = server_path(a, extension);
        let pb = server_path(b, extension);
        assert(pa.subrange(n, n + 8) =~= hex8(a));
        assert(pb.subrange(n, n + 8) =~= hex8(b));
        assert forall|i: int| 0 <= i < 4 implies #[trigger] a[i] == b[i] by {
            assert(hex8(a)[2 * i] == hex_pair(a[i])[0]);
            assert(hex8(a)[2 * i + 1] == hex_pair(a[i])[1]);
            assert(hex8(b)[2 * i] == hex_pair(b[i])[0]);
            assert(hex8(b)[2 * i + 1] == hex_pair(b[i])[1]);
            lemma_hex_pair_injective(a[i], b[i]);
        }
    }
}

proof fn lemma_hex_pair_injective(a: u8, b: u8)
    requires
        hex_pair(a)[0] == hex_pair(b)[0],
        hex_pair(a)[1] == hex_pair(b)[1],
    ensures
        a == b,
{
    lemma_digit_injective(a as int / 16, b as int / 16);
    lemma_digit_injective(a as int % 16, b as int % 16);
}

proof fn lemma_digit_injective(a: int, b: int)
    requires
        0 <= a < 16,
        0 <= b < 16,
        digit_char(a) == digit_char(b),
    ensures
        a == b,
{
}

/// The path of a socket has the same length for every directory.
pub proof fn law_socket_path_length(parquet_dir: Seq<char>)
    ensures
        socket_path(parquet_dir).len() == 31,
{
    reveal_strlit("/tmp/heappy-serve-");
    reveal_strlit(".sock");
}

}
