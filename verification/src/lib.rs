//! Decision core of two remote-object primitives: a remotely callable function
//! handle and a lazily transferred blob.
//!
//! Every rule of the two primitives lives here as a total function with a
//! contract: which request a dispatcher accepts and when it stops, how a reply
//! becomes the result of a call, when a blob is fetched and what every handle
//! sees afterwards. Channels, tasks and waiting belong to the asynchronous shell
//! around this crate; the shell reports what it observed and carries out what
//! the functions here return.

pub mod decimal;
pub mod dispatch;
pub mod lazy_blob;
pub mod observe;
pub mod outside;
pub mod rfn;
pub mod sync;
