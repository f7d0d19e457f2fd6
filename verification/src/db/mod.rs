//! The local mirror of the server's data: the statements that write it,
//! read it and prune it, and the decoding of the rows read back.

pub mod columns;
pub mod model;
pub mod records;
pub mod sql;
pub mod statements;
