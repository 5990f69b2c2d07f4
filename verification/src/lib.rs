//! Snapshot and callback core of a single-threaded browser runtime.
//!
//! The crate holds the decisions of the runtime as verified functions on
//! plain values:
//!
//! - `codec`: compression and text encoding of file content;
//! - `path`, `listing`: relative paths, and the walk of a directory tree;
//! - `snapshot`: the manifest of a directory and what restoring it writes;
//! - `import`: the file that a data URL carries;
//! - `callback`: the table of click callbacks and the slot of the tick;
//! - `fps`: the frame-rate window;
//! - `surface`, `logging`: the drawing surface and the log targets of the
//!   host, as far as the program decides about them.
//!
//! Reading and writing files, talking to the host and drawing are left to
//! the program around the crate.

pub mod callback;
pub mod codec;
pub mod fps;
pub mod import;
pub mod listing;
pub mod logging;
pub mod path;
pub mod snapshot;
pub mod surface;
pub mod text;
