//! Merged native/managed stack reconstruction for a process that embeds a
//! managed-language interpreter.
//!
//! The library holds the pure logic of the reconstruction: classifying each
//! native frame as an interpreter marker, runtime noise, or application code;
//! splicing the interpreter's own frames in at the marker positions; demangling
//! native symbol names; translating compiled-extension symbols through a source
//! map; correlating OS threads with interpreter threads; and validating that
//! the merge is internally consistent.  Attaching to the target process,
//! unwinding its threads and resolving its symbols are I/O that a driver
//! performs; the driver hands this library the captured values.

pub mod capture;
pub mod classify;
pub mod demangle;
pub mod frame;
pub mod laws;
pub mod merge;
pub mod sourcemap;
pub mod text;
