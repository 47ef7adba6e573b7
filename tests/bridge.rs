use native_bridge::codec::{decode_payload, encode_payload};
use native_bridge::error::{BridgeError, DirectoryKind};
use native_bridge::paths::{check_absolute, check_file_name, join_path, resolve_directory};
use native_bridge::save::{directory_result, prepare_write, write_result};

fn decode_ok(s: &str) -> Vec<u8> {
    match decode_payload(s) {
        Ok(v) => v,
        Err(e) => panic!("unexpected error: {}", e.message()),
    }
}

fn is_decode_error(s: &str) -> bool {
    matches!(decode_payload(s), Err(BridgeError::Decode { .. }))
}

#[test]
fn encode_hello() {
    assert_eq!(encode_payload(b"hello"), "aGVsbG8=");
    assert_eq!(encode_payload(b""), "");
    assert_eq!(encode_payload(b"f"), "Zg==");
    assert_eq!(encode_payload(b"fo"), "Zm8=");
    assert_eq!(encode_payload(b"foo"), "Zm9v");
    assert_eq!(encode_payload(&[0xfb, 0xff]), "+/8=");
}

#[test]
fn decode_hello() {
    assert_eq!(decode_ok("aGVsbG8="), b"hello".to_vec());
    assert_eq!(decode_ok(""), Vec::<u8>::new());
    assert_eq!(decode_ok("+/8="), vec![0xfb, 0xff]);
}

#[test]
fn round_trip_various_lengths() {
    for n in 0..40usize {
        let bytes: Vec<u8> = (0..n).map(|i| (i * 37 + 11) as u8).collect();
        let text = encode_payload(&bytes);
        assert_eq!(decode_ok(&text), bytes);
    }
}

#[test]
fn decode_rejects_malformed() {
    assert!(is_decode_error("aGVsbG8"));
    assert!(is_decode_error("aGVsbG8=="));
    assert!(is_decode_error("a==="));
    assert!(is_decode_error("!!!!"));
    assert!(is_decode_error("aGVs bG8="));
    assert!(is_decode_error("aGVsbG9="));
    assert!(is_decode_error("Zh=="));
    assert!(is_decode_error("aGVsbG8-"));
}

#[test]
fn decode_error_message_names_cause() {
    match decode_payload("!!!!") {
        Err(e) => {
            let m = e.message();
            assert!(m.starts_with("Failed to decode base64 data: "));
            assert!(m.len() > "Failed to decode base64 data: ".len());
        }
        Ok(_) => panic!("accepted malformed input"),
    }
}

#[test]
fn ensure_twice_succeeds() {
    assert!(directory_result("/tmp/x", Ok(())).is_ok());
    assert!(directory_result("/tmp/x", Ok(())).is_ok());
}

#[test]
fn ensure_failure_names_path() {
    let e = directory_result("/root/locked", Err("Permission denied (os error 13)".to_string()));
    match e {
        Err(err) => {
            assert!(matches!(err, BridgeError::Directory { .. }));
            assert_eq!(
                err.message(),
                "Failed to create directory /root/locked: Permission denied (os error 13)"
            );
        }
        Ok(_) => panic!("failure was dropped"),
    }
}

#[test]
fn save_hello_into_tmp_x() {
    assert!(directory_result("/tmp/x", Ok(())).is_ok());
    let payload = encode_payload(b"hello");
    let w = match prepare_write("a.bin", &payload, "/tmp/x") {
        Ok(w) => w,
        Err(e) => panic!("unexpected error: {}", e.message()),
    };
    assert_eq!(w.full_path, "/tmp/x/a.bin");
    assert_eq!(w.bytes, vec![b'h', b'e', b'l', b'l', b'o']);
    assert!(write_result(&w.full_path, Ok(())).is_ok());
}

#[test]
fn second_save_replaces_payload() {
    let first = prepare_write("a.bin", &encode_payload(b"hello"), "/tmp/x");
    let second = prepare_write("a.bin", &encode_payload(b"bye"), "/tmp/x");
    match (first, second) {
        (Ok(a), Ok(b)) => {
            assert_eq!(a.full_path, b.full_path);
            assert_eq!(b.bytes, b"bye".to_vec());
        }
        _ => panic!("unexpected error"),
    }
}

#[test]
fn save_with_malformed_payload_is_decode_error() {
    let r = prepare_write("a.bin", "not base64!", "/tmp/x");
    assert!(matches!(r, Err(BridgeError::Decode { .. })));
}

#[test]
fn save_refuses_traversal() {
    for name in ["../a.bin", "..", ".", "", "sub/a.bin", "sub\\a.bin"] {
        let r = prepare_write(name, "aGVsbG8=", "/tmp/x");
        match r {
            Err(BridgeError::Write { full_path, reason }) => {
                assert_eq!(full_path, format!("/tmp/x/{}", name));
                assert_eq!(reason, "file name must be a single path component");
            }
            _ => panic!("accepted {:?}", name),
        }
    }
}

#[test]
fn write_failure_names_full_path() {
    let r = write_result("/root/x/a.bin", Err("Permission denied (os error 13)".to_string()));
    match r {
        Err(e) => {
            assert!(matches!(e, BridgeError::Write { .. }));
            let m = e.message();
            assert_eq!(m, "Failed to save file /root/x/a.bin: Permission denied (os error 13)");
            assert!(m.contains("/root/x/a.bin"));
        }
        Ok(_) => panic!("failure was dropped"),
    }
}

#[test]
fn join_cases() {
    assert_eq!(join_path("/tmp/x", "a.bin"), "/tmp/x/a.bin");
    assert_eq!(join_path("/tmp/x/", "a.bin"), "/tmp/x/a.bin");
    assert_eq!(join_path("C:\\data\\", "a.bin"), "C:\\data\\a.bin");
    assert_eq!(join_path("", "a.bin"), "a.bin");
}

#[test]
fn file_name_cases() {
    assert!(check_file_name("a.bin"));
    assert!(check_file_name("..."));
    assert!(check_file_name(".hidden"));
    assert!(check_file_name("ünïcode.txt"));
    assert!(!check_file_name(""));
    assert!(!check_file_name("."));
    assert!(!check_file_name(".."));
    assert!(!check_file_name("a/b"));
    assert!(!check_file_name("a\0b"));
}

#[test]
fn absolute_cases() {
    assert!(check_absolute("/home/u"));
    assert!(check_absolute("C:\\Users\\u"));
    assert!(check_absolute("d:/docs"));
    assert!(check_absolute("\\\\server\\share"));
    assert!(!check_absolute(""));
    assert!(!check_absolute("docs"));
    assert!(!check_absolute("C:"));
    assert!(!check_absolute("1:\\x"));
}

#[test]
fn resolve_absolute_path() {
    let r = resolve_directory(DirectoryKind::AppData, Ok("/home/u/.local/share/app".to_string()));
    assert_eq!(r.ok(), Some("/home/u/.local/share/app".to_string()));
    let r = resolve_directory(DirectoryKind::Documents, Ok("/home/u/Documents".to_string()));
    assert_eq!(r.ok(), Some("/home/u/Documents".to_string()));
}

#[test]
fn resolve_host_failure() {
    match resolve_directory(DirectoryKind::AppData, Err("unknown path".to_string())) {
        Err(e) => assert_eq!(e.message(), "Failed to get app data directory: unknown path"),
        Ok(_) => panic!("failure was dropped"),
    }
    match resolve_directory(DirectoryKind::Documents, Err("unknown path".to_string())) {
        Err(e) => assert_eq!(e.message(), "Failed to get document directory: unknown path"),
        Ok(_) => panic!("failure was dropped"),
    }
}

#[test]
fn resolve_refuses_relative_path() {
    match resolve_directory(DirectoryKind::Documents, Ok("Documents".to_string())) {
        Err(e) => assert_eq!(
            e.message(),
            "Failed to get document directory: not an absolute path: Documents"
        ),
        Ok(_) => panic!("relative path accepted"),
    }
    assert!(resolve_directory(DirectoryKind::AppData, Ok(String::new())).is_err());
}
