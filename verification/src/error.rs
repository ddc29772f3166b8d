//! The errors of the library.
use vstd::prelude::*;

verus! {

/// `std::io::Error`, carried opaquely.
#[verifier::external_type_specification]
#[verifier::external_body]
pub struct ExIoError(std::io::Error);

/// `serde_json::Error`, carried opaquely.
#[verifier::external_type_specification]
#[verifier::external_body]
pub struct ExJsonError(serde_json::Error);

/// `std::string::FromUtf8Error`, carried opaquely.
#[verifier::external_type_specification]
#[verifier::external_body]
pub struct ExFromUtf8Error(std::string::FromUtf8Error);

/// Everything that can go wrong when driving `MuMuManager`.
#[derive(Debug)]
pub enum MumuError {
    /// Spawning or talking to a process failed.
    Io(std::io::Error),
    /// `mumu` printed JSON that does not have the expected shape.
    Json(serde_json::Error),
    /// `mumu` printed bytes that are not UTF-8.
    Utf8(std::string::FromUtf8Error),
    /// `mumu` exited unsuccessfully, or answered without what was asked.
    NonZeroExit { code: Option<i32>, stderr: String },
    /// The bundled `adb.exe` was not found under the MuMu install directory.
    AdbExeNotFound,
    /// The slot has no `adb_host_ip`/`adb_port` yet (not booted?).
    AdbEndpointUnavailable,
    /// The adb device did not reach the `device` state in time.
    AdbDeviceNotReady { serial: String, secs: u64, last: String },
    /// `adb install` failed; holds what adb printed.
    InstallFailed(String),
    /// `adb pull` failed; holds what adb printed.
    PullFailed(String),
}

/// The result of the library's operations.
pub type Result<T> = std::result::Result<T, MumuError>;

} // verus!
