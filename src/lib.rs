// The native side of a file persistence bridge: naming storage directories,
// decoding base64 payloads and deciding what is written where. The host
// performs the filesystem calls and hands their outcomes back.
pub mod codec;
pub mod error;
pub mod paths;
pub mod save;
