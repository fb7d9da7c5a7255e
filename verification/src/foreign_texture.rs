//! Importing textures from platform GPU memory: error and format types.

use vstd::prelude::*;
use vstd::string::StringExecFns;

verus! {

/// Error types for texture bridge operations.
#[derive(Debug, Clone)]
pub enum BridgeError {
    /// Platform not supported.
    PlatformNotSupported(String),
    /// Invalid handle.
    InvalidHandle(String),
    /// Import failed.
    ImportFailed(String),
    /// Device error.
    DeviceError(String),
    /// Format not supported.
    FormatNotSupported(String),
}

/// The message of a bridge error: its kind, a colon, and the detail.
pub open spec fn bridge_error_text(e: BridgeError) -> Seq<char> {
    match e {
        BridgeError::PlatformNotSupported(m) => "Platform not supported: "@ + m@,
        BridgeError::InvalidHandle(m) => "Invalid handle: "@ + m@,
        BridgeError::ImportFailed(m) => "Import failed: "@ + m@,
        BridgeError::DeviceError(m) => "Device error: "@ + m@,
        BridgeError::FormatNotSupported(m) => "Format not supported: "@ + m@,
    }
}

impl BridgeError {
    /// The human-readable message of the error.
    pub fn message(&self) -> (r: String)
        ensures
            r@ == bridge_error_text(*self),
    {
        let mut s = String::new();
        match self {
            BridgeError::PlatformNotSupported(m) => {
                s.append("Platform not supported: ");
                s.append(m.as_str());
            },
            BridgeError::InvalidHandle(m) => {
                s.append("Invalid handle: ");
                s.append(m.as_str());
            },
            BridgeError::ImportFailed(m) => {
                s.append("Import failed: ");
                s.append(m.as_str());
            },
            BridgeError::DeviceError(m) => {
                s.append("Device error: ");
                s.append(m.as_str());
            },
            BridgeError::FormatNotSupported(m) => {
                s.append("Format not supported: ");
                s.append(m.as_str());
            },
        }
        s
    }
}

/// Texture format of an external texture.
#[derive(Debug, Clone, Copy, PartialEq, Eq, Structural)]
pub enum ForeignTextureFormat {
    /// RGBA8 UNorm.
    Rgba8Unorm,
    /// BGRA8 UNorm.
    Bgra8Unorm,
    /// RGB10A2 UNorm.
    Rgb10a2Unorm,
    /// RGBA16 Float.
    Rgba16Float,
}

} // verus!
