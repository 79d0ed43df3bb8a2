//! Error taxonomy of the host side.
//!
//! Protocol-level failures reported by a worker arrive as a [`RemoteError`];
//! everything the host itself detects is an [`Error`].  Failures of outside
//! facilities (sockets, the bus, shared memory, the color engine) are carried
//! as their rendered message, since the host only reports them.

use vstd::prelude::*;

verus! {

/// An error a worker process reports over the bus.
#[derive(Debug, Clone, PartialEq, Eq)]
pub enum RemoteError {
    /// A failure inside the loader or editor implementation.
    Error(String),
    /// The worker runtime itself failed (poisoned lock, malformed reply).
    InternalLoaderError(String),
    /// The worker does not support the image format it was given.
    UnsupportedImageFormat(String),
}

/// Everything that can go wrong while loading or editing an image.
#[derive(Debug, Clone, PartialEq, Eq)]
pub enum Error {
    /// A protocol-level error reported by the worker.
    RemoteError(RemoteError),
    /// No loader is configured for the given MIME type.
    UnknownImageFormat(String),
    /// No loader configuration was found at all.
    NoLoadersConfigured,
    /// The worker exited before the bus handshake finished.
    PrematureExit { status: i32, cmd: String },
    /// The worker binary could not be spawned.
    SpawnFailed { cmd: String, err: String },
    /// A file or socket operation failed.
    Io(String),
    /// The message bus connection failed.
    Bus(String),
    /// A shared-memory file could not be created or sealed.
    MemFd(String),
    /// The sandbox's syscall filter could not be built.
    Seccomp(String),
    /// The ICC color transformation failed.
    IccProfile(String),
    /// A size computation left the machine's integer range.
    DimensionOverflow,
    /// The texture is smaller than the frame's declared extent.
    TextureTooSmall { actual: u64, declared: u64 },
    /// The frame's declared extent exceeds the hardcoded texture limit.
    TextureTooLarge,
    /// The declared stride cannot hold one row of pixels.
    StrideTooSmall,
    /// The frame declares a zero width or height.
    WidthOrHeightZero,
    /// An internal channel was dropped before it delivered its value.
    InternalCommunicationCanceled,
    /// The caller's cancellation handle fired.
    Cancelled,
}

impl Error {
    /// Returns if the error is related to unsupported formats.
    ///
    /// Returns the MIME type of the unsupported format, or `None` if the
    /// error is unrelated to unsupported formats.
    pub fn unsupported_format(&self) -> (r: Option<String>)
        ensures
            r == (match self {
                Error::UnknownImageFormat(mime) => Some(*mime),
                Error::RemoteError(RemoteError::UnsupportedImageFormat(msg)) => Some(*msg),
                _ => None::<String>,
            }),
    {
        match self {
            Error::UnknownImageFormat(mime_type) => Some(mime_type.clone()),
            Error::RemoteError(RemoteError::UnsupportedImageFormat(msg)) => Some(msg.clone()),
            _ => None,
        }
    }
}

} // verus!
