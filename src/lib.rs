//! Driver logic for the DFPlayer serial audio module: the command model,
//! the 10-byte frame codec and the incremental frame reassembler.

pub mod types;
pub mod codec;
pub mod player;
