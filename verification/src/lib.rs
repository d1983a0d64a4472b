//! Server side of the Nix daemon worker protocol, as a verified codec and
//! connection state machine that works on byte buffers.
//!
//! Nothing here touches a socket or a process. The caller moves bytes between
//! the real stream and the buffers of this library; what the bytes mean, what
//! is sent in answer and when the connection ends is decided here, and the
//! contracts of the functions say exactly how.

pub mod byte_string;
pub mod connection;
pub mod error;
pub mod framed_source;
pub mod io;
pub mod records;
pub mod stderr;
pub mod tags;
pub mod types;
pub mod version;
pub mod wire;
pub mod worker_op;

pub use connection::{NixProxy, NixReadWrite, Phase, Progress, Upstream};
pub use error::Error;
pub use framed_source::FramedSource;
pub use io::{NixStoreRead, NixStoreWrite};
pub use records::ValidPathInfoWithPath;
pub use types::{
    DerivedPath, Nar, NarHash, NixString, Path, PathSet, Realisation, RealisationSet, StorePath,
    StorePathSet, StringSet,
};
