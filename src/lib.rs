//! Version resolution and asset acquisition for the BYMR game launcher.
//!
//! The library holds the decisions: which transport to try next, what a
//! reached server's answer means, where each build and runtime file lives,
//! whether a release is complete on disk, and which download comes next. The
//! network fetch, the JSON decoding and the file system stay with the caller,
//! which hands the outcomes back as plain values.

pub mod manifest;
pub mod layout;
pub mod downloads;
pub mod resolver;
