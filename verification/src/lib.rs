//! Data layer of a desktop mind-mapping and task-tracking application.
//!
//! The library owns the in-memory collections of maps (node-and-connection
//! graphs) and calendar tasks, the request operations that read and mutate
//! them, the seed content written on first run, and the decoding step of the
//! file-staging operation. Reading and writing the JSON documents on disk,
//! and handing staged files to the host, are left to the surrounding
//! application.

pub mod ids;
pub mod laws;
pub mod model;
pub mod ops;
pub mod staging;
pub mod store;
