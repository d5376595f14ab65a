//! Decisions of a tool that dumps every key of an etcd store into a directory
//! tree, one file per key, after passing each value through a decoding service.
//!
//! The library holds the logic: the open-file limit to ask for, the path of each
//! output file, the request sent to the decoder and the reading of its reply, the
//! per-key task and the whole run as state machines, and the way task results
//! are joined. The program around it performs the actions these machines ask for.
pub mod limits;
pub mod output_path;
pub mod decoder;
pub mod task;
pub mod run;
