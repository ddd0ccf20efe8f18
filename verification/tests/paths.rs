use heappy::engine::paths::{server_path_for_digest, server_paths_for};
use heappy::engine::socket_path_for;

#[test]
fn socket_path_holds_the_digest() {
    assert_eq!(socket_path_for("/data/heap"), "/tmp/heappy-serve-7844e259.sock");
    assert_eq!(socket_path_for(""), "/tmp/heappy-serve-e3b0c442.sock");
    assert_eq!(socket_path_for("/tmp/ü"), "/tmp/heappy-serve-e1f43f32.sock");
}

#[test]
fn pid_file_stands_beside_the_socket() {
    let paths = server_paths_for("/data/heap");
    assert_eq!(paths.socket, socket_path_for("/data/heap"));
    assert_eq!(paths.pid, "/tmp/heappy-serve-7844e259.pid");
}

#[test]
fn four_bytes_tell_paths_apart() {
    let a: Vec<u8> = vec![1, 2, 3, 4, 5];
    let b: Vec<u8> = vec![1, 2, 3, 4, 6];
    let c: Vec<u8> = vec![1, 2, 3, 0xff, 5];
    assert_eq!(server_path_for_digest(&a, ".x"), "/tmp/heappy-serve-01020304.x");
    assert_eq!(server_path_for_digest(&a, ".x"), server_path_for_digest(&b, ".x"));
    assert_ne!(server_path_for_digest(&a, ".x"), server_path_for_digest(&c, ".x"));
}

#[test]
fn socket_paths_have_one_length() {
    assert_eq!(socket_path_for("/").len(), 31);
    assert_eq!(socket_path_for("/a/much/longer/path").len(), 31);
}
