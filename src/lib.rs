pub mod registers;
pub mod alu;
pub mod banked_memory;
pub mod game_carts;
pub mod ppu;
pub mod input;
pub mod gameboy;
pub mod io_reg;
pub mod instr_common;
pub mod math_instrs;
pub mod load_instrs;
pub mod jump_instrs;
pub mod misc_instrs;
pub mod prefix_cb;
pub mod opcodes;
