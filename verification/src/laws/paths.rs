//! Laws of the files of a server.
use crate::cli::serve::{cmd_serve, ServeCommand, ServeFlags};
use crate::engine::choice::Place;
use crate::engine::paths::{
    dir_digest, server_path_for_digest, server_paths_for, sha256, socket_path_for, ServerPaths,
};
use crate::laws::text::{digit_value, law_hex_pair_reads_back};
use crate::server::{HeappyServer, Launch};
use crate::text::hex_pair;
use vstd::prelude::*;
use vstd::utf8::encode_utf8;

verus! {

/// Whether a path stands in the directory of temporary files, under the name of the
/// service, eight hexadecimal digits that read as the first four bytes, and the
/// extension.
pub open spec fn names_bytes(path: Seq<char>, bytes: Seq<u8>, extension: Seq<char>) -> bool {
    let n = "/tmp/heappy-serve-"@.len() as int;
    &&& path.len() == n + 8 + extension.len()
    &&& path.take(n) == "/tmp/heappy-serve-"@
    &&& path.skip(n + 8) == extension
    &&& digit_value(path[n]) * 16 + digit_value(path[n + 1]) == bytes[0]
    &&& digit_value(path[n + 2]) * 16 + digit_value(path[n + 3]) == bytes[1]
    &&& digit_value(path[n + 4]) * 16 + digit_value(path[n + 5]) == bytes[2]
    &&& digit_value(path[n + 6]) * 16 + digit_value(path[n + 7]) == bytes[3]
}

proof fn lemma_names_bytes(path: Seq<char>, bytes: Seq<u8>, extension: Seq<char>)
    requires
        path == "/tmp/heappy-serve-"@ + (hex_pair(bytes[0]) + hex_pair(bytes[1]) + hex_pair(bytes[2])
            + hex_pair(bytes[3])) + extension,
    ensures
        names_bytes(path, bytes, extension),
{
    let n = "/tmp/heappy-serve-"@.len() as int;
    assert(path.take(n) =~= "/tmp/heappy-serve-"@);
    assert(path.skip(n + 8) =~= extension);
    law_hex_pair_reads_back(bytes[0]);
    law_hex_pair_reads_back(bytes[1]);
    law_hex_pair_reads_back(bytes[2]);
    law_hex_pair_reads_back(bytes[3]);
}

/// A server file is named by the first four bytes of a digest.
pub proof fn law_server_file_is_named_by_the_digest(digest: Vec<u8>, extension: &str, path: String)
    requires
        digest@.len() >= 4,
        call_ensures(server_path_for_digest, (&digest, extension), path),
    ensures
        names_bytes(path@, digest@, extension@),
{
    lemma_names_bytes(path@, digest@, extension@);
}

/// The socket of a directory is named by the SHA-256 digest of the whole text of its
/// path, in UTF-8.
pub proof fn law_socket_is_named_by_the_directory(parquet_dir: &str, path: String)
    requires
        call_ensures(socket_path_for, (parquet_dir,), path),
    ensures
        names_bytes(path@, sha256(encode_utf8(parquet_dir@)), ".sock"@),
{
    lemma_names_bytes(path@, dir_digest(parquet_dir@), ".sock"@);
}

/// The two files of a server are named alike, and the socket is where clients look.
pub proof fn law_server_files_are_named_alike(
    parquet_dir: &str,
    paths: ServerPaths,
    socket: String,
)
    requires
        call_ensures(server_paths_for, (parquet_dir,), paths),
        call_ensures(socket_path_for, (parquet_dir,), socket),
    ensures
        paths.socket@ == socket@,
        names_bytes(paths.pid@, sha256(encode_utf8(parquet_dir@)), ".pid"@),
{
    lemma_names_bytes(paths.pid@, dir_digest(parquet_dir@), ".pid"@);
}

/// Who looks for the server of a directory, who starts it and who serves it all mean
/// the same socket and the same process id file.
pub proof fn law_all_mean_the_same_server(
    parquet_dir: String,
    given: &str,
    flags: ServeFlags,
    idle_secs: u64,
    idle_nanos: u128,
    place: Place,
    launch: Result<Launch, String>,
    command: Result<ServeCommand, String>,
)
    requires
        call_ensures(Place::new, (parquet_dir,), place),
        call_ensures(HeappyServer::start, (Ok(parquet_dir), idle_nanos), launch),
        call_ensures(cmd_serve, (given, Ok(parquet_dir), flags, idle_secs), command),
    ensures
        place.parquet_dir@ == parquet_dir@,
        names_bytes(place.socket_path@, sha256(encode_utf8(parquet_dir@)), ".sock"@),
        launch matches Ok(l) && l.parquet_dir@ == parquet_dir@ && l.socket_path@
            == place.socket_path@ && names_bytes(
            l.pid_path@,
            sha256(encode_utf8(parquet_dir@)),
            ".pid"@,
        ) && l.idle_timeout_nanos == idle_nanos,
        command matches Ok(c) && c.parquet_dir@ == parquet_dir@ && c.socket_path@
            == place.socket_path@ && c.pid_path@ == launch->Ok_0.pid_path@ && c.flags == flags
            && c.idle_timeout == idle_secs,
{
    lemma_names_bytes(place.socket_path@, dir_digest(parquet_dir@), ".sock"@);
    lemma_names_bytes(launch->Ok_0.pid_path@, dir_digest(parquet_dir@), ".pid"@);
}

/// A directory whose path cannot be resolved has no server: the error is passed on,
/// in the message of the command behind the path as it was given.
pub proof fn law_unresolved_directory_has_no_server(
    error: String,
    given: &str,
    flags: ServeFlags,
    idle_secs: u64,
    idle_nanos: u128,
    launch: Result<Launch, String>,
    command: Result<ServeCommand, String>,
)
    requires
        call_ensures(HeappyServer::start, (Err(error), idle_nanos), launch),
        call_ensures(cmd_serve, (given, Err(error), flags, idle_secs), command),
    ensures
        launch matches Err(e) && e@ == error@,
        command matches Err(e) && e@ == "Error: cannot resolve path "@ + given@ + ": "@ + error@,
{
}

}
