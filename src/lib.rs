//! A small 16-bit virtual CPU: byte-addressable memory banks, an arithmetic
//! and logic unit with exact flag semantics, a register machine that runs one
//! instruction per tick, and the pacing decisions of a timed run.
pub mod alu;
pub mod machine;
pub mod memory;
pub mod opcode;
pub mod pacer;

pub use alu::{Alu, AluOutputs, CJEmuAlu};
pub use machine::{CJEmuVirtualMachine, MachineView, TickError, VirtualMachine};
pub use memory::{ReadableMemory, WritableMemory, Rom, Ram};
pub use opcode::Opcode;
pub use pacer::{CyclePacer, PacerStep, PacerView};
