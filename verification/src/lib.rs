//! Sandboxed image loading and editing runtime.
//!
//! Image decoding and editing is delegated to per-format worker binaries that
//! run inside a syscall-restricted sandbox and exchange data with the host
//! over a peer-to-peer message bus.  This crate holds the host- and
//! worker-side logic of that runtime: the pixel-format engine with a
//! bit-exact converter between any two integer-channel layouts, the wire
//! types exchanged over the bus, frame validation, stride normalization,
//! sparse byte-patch editing, and the decision logic of the process
//! supervisor.  Everything here is verified; the surrounding process,
//! socket and shared-memory plumbing lives outside the library and hands
//! plain values in and out.

pub mod color_state;
pub mod convert;
pub mod convert_laws;
pub mod editing;
pub mod editor;
pub mod error;
pub mod frame;
pub mod handler;
pub mod memory_format;
pub mod supervisor;

pub use color_state::ColorState;
pub use convert::ConvertError;
pub use editing::EditingFrame;
pub use editor::{
    ByteChange, ByteChanges, CompleteEditorOutput, Edit, EditOutcome, EditRequest,
    EditorOutputInfo, SparseEdit, SparseEditorOutput,
};
pub use error::{Error, RemoteError};
pub use frame::{
    BinaryData, EncodedImage, EncodingOptions, Frame, FrameDetails, FrameRequest, ImageInfo,
    InitRequest, InitializationDetails, NewImage, RemoteImage,
};
pub use handler::Handler;
pub use memory_format::{
    ChannelType, ExtendedMemoryFormat, MemoryFormat, MemoryFormatBytes, MemoryFormatInfo,
};
