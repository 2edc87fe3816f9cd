//! An Intel 8080 interpreter with the port and shift-register peripheral of
//! the Space Invaders arcade board.
mod exec;
mod flag;
mod instr;
mod io;
pub mod laws;
pub mod model;
mod port;
mod state;
mod utils;

pub use flag::{Flag, FlagType};
pub use instr::{AluOp, Cond, Instr, Pair, Reg, StackPair};
pub use io::{Actions, IO};
pub use model::ExecError;
pub use port::Port;
pub use state::{CpuModel, State};
pub use utils::{
    check_flag_ac, check_flag_cy, check_flag_p, check_flag_s, check_flag_z, join_bytes, split_bytes,
};
