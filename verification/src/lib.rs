//! A Zilog Z80 interpreter core: register file, memory decoder, instruction
//! semantics, interrupt acceptance and a frame driver.
//!
//! Every instruction is stated twice. [`machine::Machine`] is a mathematical
//! model of the processor, and what an instruction does is a function from
//! one `Machine` to the next. [`cpu::Cpu`] is the executable processor; each
//! of its methods is proved to compute the function of the same name. The
//! laws in [`laws`] and [`copy`] are proved of the model.

pub mod alu;
pub mod arith;
pub mod bits;
pub mod block;
pub mod copy;
pub mod cpu;
pub mod decode;
pub mod frame;
pub mod instruction_info;
pub mod interconnect;
pub mod interrupt;
pub mod jump;
pub mod laws;
pub mod load;
pub mod machine;
pub mod memory;
pub mod misc;
pub mod plane;
pub mod rotate;
pub mod shadow;
pub mod step;
pub mod wide;
