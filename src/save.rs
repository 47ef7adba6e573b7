use vstd::prelude::*;
use crate::codec::{b64_decode, decode_payload};
use crate::error::{BridgeError, ErrorView};
use crate::paths::{check_file_name, is_plain_file_name, join_path, joined};

verus! {

/// The file to write, once the payload has been decoded: every byte of
/// `bytes` replaces what `full_path` held.
pub struct WriteRequest {
    pub full_path: String,
    pub bytes: Vec<u8>,
}

/// Why a file name that would leave its directory is refused.
pub open spec fn unsafe_name_reason() -> Seq<char> {
    "file name must be a single path component"@
}

/// The result of making sure that `path` exists as a directory, from what
/// creating it (with every missing ancestor) gave.
pub fn directory_result(path: &str, created: Result<(), String>) -> (r: Result<(), BridgeError>)
    ensures
        match created {
            Ok(_) => r is Ok,
            Err(why) => r matches Err(e) && e@ == (ErrorView::Directory {
                path: path@,
                reason: why@,
            }),
        },
{
    match created {
        Ok(_) => Ok(()),
        Err(why) => Err(BridgeError::Directory { path: String::from_str(path), reason: why }),
    }
}

/// The write that saving `payload` as `file_name` in `directory` comes to,
/// once the directory exists. The payload is decoded first; a file name that
/// would leave the directory is then refused as a write error.
pub fn prepare_write(file_name: &str, payload: &str, directory: &str) -> (r: Result<
    WriteRequest,
    BridgeError,
>)
    ensures
        match b64_decode(payload@) {
            None => r matches Err(e) && e is Decode,
            Some(bytes) => if is_plain_file_name(file_name@) {
                r matches Ok(w) && w.full_path@ == joined(directory@, file_name@) && w.bytes@
                    == bytes
            } else {
                r matches Err(e) && e@ == (ErrorView::Write {
                    full_path: joined(directory@, file_name@),
                    reason: unsafe_name_reason(),
                })
            },
        },
{
    let bytes = match decode_payload(payload) {
        Ok(v) => v,
        Err(e) => return Err(e),
    };
    let full_path = join_path(directory, file_name);
    if check_file_name(file_name) {
        Ok(WriteRequest { full_path, bytes })
    } else {
        let reason = String::from_str("file name must be a single path component");
        Err(BridgeError::Write { full_path, reason })
    }
}

/// The result of writing a file at `full_path`, from what the write gave.
pub fn write_result(full_path: &str, written: Result<(), String>) -> (r: Result<(), BridgeError>)
    ensures
        match written {
            Ok(_) => r is Ok,
            Err(why) => r matches Err(e) && e@ == (ErrorView::Write {
                full_path: full_path@,
                reason: why@,
            }),
        },
{
    match written {
        Ok(_) => Ok(()),
        Err(why) => Err(BridgeError::Write { full_path: String::from_str(full_path), reason: why }),
    }
}

} // verus!
