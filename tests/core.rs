use legume_gb::alu::{alu_apply, daa_apply};
use legume_gb::banked_memory::BankedMemory;
use legume_gb::game_carts::{get_cart, GameCart, MapperType};
use legume_gb::gameboy::{process_interrupts, process_oam_dma, run_frame, step, Gameboy, StepOutcome, SystemType};
use legume_gb::input::InputKey;
use legume_gb::opcodes::run_opcode;
use legume_gb::ppu::{PPUMode, PPU};
use legume_gb::registers::Registers;

fn rom_image(banks: usize, mapper: u8, ram_code: u8) -> Vec<u8> {
    let mut rom = vec![0u8; banks * 0x4000];
    for b in 0..banks {
        rom[b * 0x4000] = b as u8;
    }
    rom[0x147] = mapper;
    rom[0x149] = ram_code;
    rom
}

fn machine() -> Gameboy {
    Gameboy::new(SystemType::DMG, rom_image(2, 0, 0), vec![0u8; 0x100])
}

#[test]
fn register_pairs_round_trip() {
    let mut r = Registers::new();
    r.set_bc(0x1234);
    assert_eq!(r.b, 0x12);
    assert_eq!(r.c, 0x34);
    assert_eq!(r.get_bc(), 0x1234);
    r.set_hl(0xbeef);
    assert_eq!(r.get_hl(), 0xbeef);
    r.set_de(0x00ff);
    assert_eq!((r.d, r.e), (0x00, 0xff));
}

#[test]
fn flag_register_drops_low_nibble() {
    let mut r = Registers::new();
    r.set_f(0xff);
    assert_eq!(r.get_f(), 0xf0);
    r.set_af(0x12ab);
    assert_eq!(r.a, 0x12);
    assert_eq!(r.get_f(), 0xa0);
    assert_eq!(r.get_af(), 0x12a0);
    assert!(r.get_flag_z() && !r.get_flag_n() && r.get_flag_h() && !r.get_flag_c());
    r.unset_all_flags();
    assert_eq!(r.get_f(), 0);
}

#[test]
fn bank_switch_wraps_modulo_count() {
    let data: Vec<u8> = (0u8..16).collect();
    let mut m = BankedMemory::new_from_arr(false, 4, 4, data, String::from("t"));
    m.switch_bank(6);
    assert_eq!(m.read_byte(0), 8);
    assert_eq!(m.read_byte(3), 11);
    let mut direct = BankedMemory::new_from_arr(false, 4, 4, (0u8..16).collect(), String::from("t"));
    direct.switch_bank(2);
    for a in 0..4u16 {
        assert_eq!(m.read_byte(a), direct.read_byte(a));
    }
    assert_eq!(m.get_bank_count(), 4);
}

#[test]
fn banked_read_past_bank_is_undefined() {
    let m = BankedMemory::new_from_arr(false, 2, 4, vec![7u8; 8], String::from("t"));
    assert_eq!(m.read_byte(4), 0xff);
    assert_eq!(m.read_byte(100), 0xff);
}

#[test]
fn read_only_memory_ignores_writes() {
    let mut m = BankedMemory::new_from_arr(true, 1, 4, vec![1u8, 2, 3, 4], String::from("t"));
    m.write_byte(1, 99);
    assert_eq!(m.read_byte(1), 2);
    let mut w = BankedMemory::new_from_arr(false, 1, 4, vec![1u8, 2, 3, 4], String::from("t"));
    w.write_byte(1, 99);
    assert_eq!(w.read_byte(1), 99);
}

#[test]
fn empty_memory_is_zeroed() {
    let m = BankedMemory::new_empty(false, 2, 16, false, String::from("t"));
    for a in 0..16u16 {
        assert_eq!(m.read_byte(a), 0);
    }
}

#[test]
fn mbc1_zero_selects_bank_one_and_wraps() {
    let mut cart = get_cart(rom_image(4, 0x01, 0));
    assert_eq!(cart.get_mapper(), MapperType::MBC1);
    assert_eq!(cart.read_byte(0x4000), 1);
    cart.write_byte(0x2000, 0x00);
    assert_eq!(cart.read_byte(0x4000), 1);
    cart.write_byte(0x2000, 0x03);
    assert_eq!(cart.read_byte(0x4000), 3);
    cart.write_byte(0x3fff, 0x06);
    assert_eq!(cart.read_byte(0x4000), 2);
    cart.write_byte(0x2000, 0x04);
    assert_eq!(cart.read_byte(0x4000), 0);
    assert_eq!(cart.read_byte(0x0000), 0);
}

#[test]
fn mbc1_ram_needs_enable() {
    let mut cart = get_cart(rom_image(2, 0x03, 0x02));
    cart.write_byte(0xa000, 0x55);
    assert_eq!(cart.read_byte(0xa000), 0xff);
    cart.write_byte(0x0000, 0x0a);
    cart.write_byte(0xa000, 0x55);
    assert_eq!(cart.read_byte(0xa000), 0x55);
    assert_eq!(cart.read_cart_ram_byte(0), 0x55);
    cart.write_cart_ram_byte(1, 0x66);
    assert_eq!(cart.read_byte(0xa001), 0x66);
    cart.write_byte(0x0000, 0x00);
    assert_eq!(cart.read_byte(0xa000), 0xff);
}

#[test]
fn mapper_detection_from_header() {
    assert_eq!(get_cart(rom_image(2, 0x00, 0)).get_mapper(), MapperType::NoMapper);
    assert_eq!(get_cart(rom_image(2, 0x13, 0)).get_mapper(), MapperType::MBC3);
    assert_eq!(get_cart(rom_image(2, 0x42, 0)).get_mapper(), MapperType::MBC1);
    let cart = GameCart::new(MapperType::NoMapper, rom_image(2, 0, 0));
    assert_eq!(cart.read_byte(0x4000), 1);
    assert_eq!(cart.read_byte(0xa000), 0xff);
}

#[test]
fn mbc3_bank_select() {
    let mut cart = get_cart(rom_image(8, 0x11, 0));
    cart.write_byte(0x2000, 0);
    assert_eq!(cart.read_byte(0x4000), 1);
    cart.write_byte(0x2000, 5);
    assert_eq!(cart.read_byte(0x4000), 5);
    cart.write_byte(0x2000, 0x0b);
    assert_eq!(cart.read_byte(0x4000), 3);
}

#[test]
fn add_a_a_half_and_full_carry() {
    let mut gb = machine();
    gb.reg.a = 0x88;
    assert!(run_opcode(&mut gb, 0x87));
    assert_eq!(gb.reg.a, 0x10);
    assert!(!gb.reg.get_flag_z());
    assert!(!gb.reg.get_flag_n());
    assert!(gb.reg.get_flag_h());
    assert!(gb.reg.get_flag_c());
}

#[test]
fn sub_a_a_is_zero() {
    for a in [0u8, 1, 0x37, 0x80, 0xff] {
        let mut gb = machine();
        gb.reg.a = a;
        gb.reg.set_f(0xf0);
        assert!(run_opcode(&mut gb, 0x97));
        assert_eq!(gb.reg.a, 0);
        assert!(gb.reg.get_flag_z());
        assert!(gb.reg.get_flag_n());
        assert!(!gb.reg.get_flag_h());
        assert!(!gb.reg.get_flag_c());
    }
}

#[test]
fn daa_after_bcd_addition() {
    let mut r = Registers::new();
    r.a = 0x45;
    alu_apply(0, &mut r, 0x38);
    daa_apply(&mut r);
    assert_eq!(r.a, 0x83);
    assert!(!r.get_flag_c());

    let mut r = Registers::new();
    r.a = 0x99;
    alu_apply(0, &mut r, 0x01);
    daa_apply(&mut r);
    assert_eq!(r.a, 0x00);
    assert!(r.get_flag_c());
    assert!(r.get_flag_z());

    let mut r = Registers::new();
    r.a = 0x58;
    alu_apply(0, &mut r, 0x67);
    daa_apply(&mut r);
    assert_eq!(r.a, 0x25);
    assert!(r.get_flag_c());
}

#[test]
fn daa_all_bcd_pairs() {
    for x in 0..100u32 {
        for y in 0..100u32 {
            let bx = ((x / 10) * 16 + x % 10) as u8;
            let by = ((y / 10) * 16 + y % 10) as u8;
            let mut r = Registers::new();
            r.a = bx;
            alu_apply(0, &mut r, by);
            daa_apply(&mut r);
            let s = (x + y) % 100;
            assert_eq!(r.a, ((s / 10) * 16 + s % 10) as u8);
            assert_eq!(r.get_flag_c(), x + y >= 100);
        }
    }
}

#[test]
fn undefined_opcode_is_fatal() {
    for op in [0xd3u8, 0xdb, 0xdd, 0xe3, 0xe4, 0xeb, 0xec, 0xed, 0xf4, 0xfc, 0xfd] {
        let mut gb = machine();
        assert!(!run_opcode(&mut gb, op));
    }
    let mut gb = machine();
    assert!(run_opcode(&mut gb, 0x00));
}

#[test]
fn inc_dec_flags() {
    let mut gb = machine();
    gb.reg.b = 0x0f;
    assert!(run_opcode(&mut gb, 0x04));
    assert_eq!(gb.reg.b, 0x10);
    assert!(gb.reg.get_flag_h() && !gb.reg.get_flag_n() && !gb.reg.get_flag_z());
    gb.reg.c = 0x01;
    assert!(run_opcode(&mut gb, 0x0d));
    assert_eq!(gb.reg.c, 0);
    assert!(gb.reg.get_flag_z() && gb.reg.get_flag_n());
}

#[test]
fn hl_memory_round_trip() {
    let mut gb = machine();
    gb.reg.set_hl(0xc010);
    gb.reg.a = 0x5a;
    assert!(run_opcode(&mut gb, 0x77));
    assert_eq!(gb.read_byte_raw(0xc010), 0x5a);
    assert_eq!(gb.read_byte_raw(0xe010), 0x5a);
    assert!(run_opcode(&mut gb, 0x46));
    assert_eq!(gb.reg.b, 0x5a);
}

#[test]
fn push_pop_and_call_ret() {
    let mut gb = machine();
    gb.sp = 0xfffe;
    gb.reg.set_bc(0xabcd);
    assert!(run_opcode(&mut gb, 0xc5));
    assert_eq!(gb.sp, 0xfffc);
    assert!(run_opcode(&mut gb, 0xd1));
    assert_eq!(gb.reg.get_de(), 0xabcd);
    assert_eq!(gb.sp, 0xfffe);
}

#[test]
fn cb_bit_set_res_swap() {
    let mut gb = machine();
    gb.other_state.bootrom_enabled = true;
    gb.bootrom_data[0] = 0x37;
    gb.pc = 0;
    gb.reg.a = 0xf0;
    assert!(run_opcode(&mut gb, 0xcb));
    assert_eq!(gb.reg.a, 0x0f);
    assert_eq!(gb.pc, 1);
    gb.bootrom_data[1] = 0xc0;
    assert!(run_opcode(&mut gb, 0xcb));
    assert_eq!(gb.reg.b, 0x01);
}

#[test]
fn interrupt_priority_takes_vblank() {
    let mut gb = machine();
    gb.other_state.int_flag = 0x1f;
    gb.other_state.int_enable = 0x1f;
    gb.ime = true;
    gb.sp = 0xfffe;
    gb.pc = 0x1234;
    process_interrupts(&mut gb);
    assert_eq!(gb.pc, 0x40);
    assert_eq!(gb.other_state.int_flag, 0x1e);
    assert!(!gb.ime);
    assert_eq!(gb.sp, 0xfffc);
    assert_eq!(gb.read_byte_raw(0xfffc), 0x34);
    assert_eq!(gb.read_byte_raw(0xfffd), 0x12);
    assert_eq!(gb.cycles_pending, 20);
}

#[test]
fn interrupts_need_ime() {
    let mut gb = machine();
    gb.other_state.int_flag = 0x04;
    gb.other_state.int_enable = 0x04;
    gb.other_state.halted = true;
    gb.pc = 0x200;
    process_interrupts(&mut gb);
    assert_eq!(gb.pc, 0x200);
    assert!(!gb.other_state.halted);
    gb.ime = true;
    gb.sp = 0xfffe;
    process_interrupts(&mut gb);
    assert_eq!(gb.pc, 0x50);
}

#[test]
fn ei_takes_effect_one_instruction_late() {
    let mut gb = machine();
    gb.bootrom_data[0] = 0xfb;
    gb.bootrom_data[1] = 0x00;
    gb.bootrom_data[2] = 0x00;
    gb.sp = 0xfffe;
    gb.display_frame_cycles = 70224;
    gb.other_state.int_enable = 0x01;
    gb.other_state.int_flag = 0x01;
    assert!(matches!(step(&mut gb), StepOutcome::Continue));
    assert_eq!(gb.pc, 1);
    assert!(!gb.ime);
    assert!(matches!(step(&mut gb), StepOutcome::Continue));
    assert_eq!(gb.pc, 0x40);
    assert_eq!(gb.other_state.int_flag, 0x00);
}

#[test]
fn di_blocks_interrupts_at_once() {
    let mut gb = machine();
    gb.bootrom_data[0] = 0xf3;
    gb.ime = true;
    gb.display_frame_cycles = 70224;
    gb.other_state.int_enable = 0x01;
    gb.other_state.int_flag = 0x01;
    assert!(matches!(step(&mut gb), StepOutcome::Continue));
    assert_eq!(gb.pc, 1);
}

#[test]
fn vram_locked_during_pixel_output() {
    let mut ppu = PPU::new(SystemType::DMG);
    ppu.write_vram_byte(0x10, 0x42);
    ppu.current_mode = PPUMode::PixelPut;
    assert_eq!(ppu.read_vram_byte(0x10), 0xff);
    ppu.write_vram_byte(0x10, 0x99);
    ppu.current_mode = PPUMode::HBlank;
    assert_eq!(ppu.read_vram_byte(0x10), 0x42);
}

#[test]
fn oam_locked_during_scan_and_output() {
    let mut ppu = PPU::new(SystemType::DMG);
    ppu.current_mode = PPUMode::HBlank;
    ppu.write_oam_byte(3, 7);
    assert_eq!(ppu.read_oam_byte(3), 7);
    ppu.current_mode = PPUMode::OAMScan;
    assert_eq!(ppu.read_oam_byte(3), 0xff);
    ppu.write_oam_byte(3, 9);
    ppu.current_mode = PPUMode::VBlank;
    ppu.current_y = 150;
    assert_eq!(ppu.read_oam_byte(3), 7);
}

#[test]
fn scanline_takes_456_dots() {
    let mut ppu = PPU::new(SystemType::DMG);
    ppu.set_lcdc(0x80);
    let mut flags = 0u8;
    for _ in 0..(456 / 4) {
        assert!(ppu.run_cycles(4, &mut flags).is_none());
    }
    assert_eq!(ppu.get_current_y(), 1);
    assert_eq!(ppu.current_mode, PPUMode::OAMScan);
    assert_eq!(ppu.current_mode_cycles, 0);
}

#[test]
fn frame_takes_70224_dots() {
    let mut ppu = PPU::new(SystemType::DMG);
    ppu.set_lcdc(0x80);
    let mut flags = 0u8;
    let mut dots = 0u32;
    let mut frames = 0;
    let mut frame_len = 0;
    while dots < 70224 * 2 {
        dots += 4;
        if let Some(f) = ppu.run_cycles(4, &mut flags) {
            frames += 1;
            frame_len = f.len();
            if frames == 1 {
                assert_eq!(dots, 70224);
            }
        }
    }
    assert_eq!(frames, 2);
    assert_eq!(frame_len, 23040);
    assert_eq!(flags & 0x01, 0x01);
}

#[test]
fn disabled_ppu_does_nothing() {
    let mut ppu = PPU::new(SystemType::DMG);
    let mut flags = 0u8;
    assert!(ppu.run_cycles(100, &mut flags).is_none());
    assert_eq!(ppu.current_mode_cycles, 0);
    assert!(!ppu.is_enabled());
}

#[test]
fn lcd_registers_round_trip() {
    let mut ppu = PPU::new(SystemType::DMG);
    ppu.set_lcdc(0x93);
    assert_eq!(ppu.get_lcdc(), 0x93);
    ppu.set_bgpal(0x1b);
    assert_eq!(ppu.get_bgpal(), 0x1b);
    ppu.set_obp1(0x27);
    ppu.set_obp2(0x72);
    assert_eq!((ppu.get_obp1(), ppu.get_obp2()), (0x27, 0x72));
    ppu.set_ly_compare(0);
    ppu.set_stat(0x78);
    assert_eq!(ppu.get_stat(), 0x78 | 0x04 | 0x02);
    assert_eq!(ppu.get_ly_compare(), 0);
}

#[test]
fn tile_row_decoding() {
    let mut ppu = PPU::new(SystemType::DMG);
    ppu.write_vram_byte(0, 0b1010_0101);
    ppu.write_vram_byte(1, 0b1100_0011);
    let px = ppu.get_tile_line_pixels(0);
    assert_eq!(px, vec![3, 2, 1, 0, 0, 1, 2, 3]);
}

#[test]
fn oam_dma_copies_160_bytes_in_640_cycles() {
    let mut gb = machine();
    for i in 0..160u16 {
        gb.write_byte_raw(0xc000 + i, (i as u8) ^ 0x5a);
    }
    gb.write_byte_raw(0xff46, 0xc0);
    assert!(gb.other_state.oam_dma_running);
    gb.cycles_pending = 636;
    process_oam_dma(&mut gb);
    assert!(gb.other_state.oam_dma_running);
    gb.cycles_pending = 4;
    process_oam_dma(&mut gb);
    assert!(!gb.other_state.oam_dma_running);
    for i in 0..160usize {
        assert_eq!(gb.ppu.oam[i], (i as u8) ^ 0x5a);
    }
}

#[test]
fn dma_masks_cpu_bus() {
    let mut gb = machine();
    gb.write_byte_raw(0xc000, 0x11);
    gb.write_byte_raw(0xff46, 0xc0);
    assert_eq!(gb.read_byte(0xc000), 0xff);
    assert_eq!(gb.read_byte_raw(0xc000), 0x11);
    gb.write_byte(0xc000, 0x22);
    assert_eq!(gb.read_byte_raw(0xc000), 0x11);
    gb.write_byte(0xff80, 0x33);
    assert_eq!(gb.read_byte(0xff80), 0x33);
}

#[test]
fn bus_regions() {
    let mut gb = Gameboy::new(SystemType::DMG, rom_image(2, 0, 0), vec![0xaa; 0x100]);
    assert_eq!(gb.read_byte_raw(0x0000), 0xaa);
    assert_eq!(gb.read_byte_raw(0x4000), 1);
    gb.write_byte_raw(0xff50, 0x01);
    assert_eq!(gb.read_byte_raw(0x0000), 0);
    assert_eq!(gb.read_byte_raw(0xff50), 1);
    assert_eq!(gb.read_byte_raw(0xfea5), 0xff);
    gb.write_byte_raw(0xffff, 0x1f);
    assert_eq!(gb.read_byte_raw(0xffff), 0x1f);
    gb.write_byte_raw(0xff0f, 0xff);
    assert_eq!(gb.read_byte_raw(0xff0f), 0xff);
    assert_eq!(gb.other_state.int_flag, 0x1f);
    let before = gb.cycles_pending;
    gb.read_byte(0x1234);
    gb.write_byte(0xc000, 1);
    assert_eq!(gb.cycles_pending, before + 8);
}

#[test]
fn joypad_rows() {
    let mut gb = machine();
    let mut keys = vec![InputKey::new(); 8];
    keys[0].update(true);
    keys[4].update(true);
    run_frame_input(&mut gb, &keys);
    gb.write_byte_raw(0xff00, 0x10);
    assert_eq!(gb.read_byte_raw(0xff00), 0x10 | 0x07);
    gb.write_byte_raw(0xff00, 0x20);
    assert_eq!(gb.read_byte_raw(0xff00), 0x20 | 0x07);
    assert_eq!(gb.other_state.int_flag & 0x10, 0x10);
}

fn run_frame_input(gb: &mut Gameboy, keys: &Vec<InputKey>) {
    legume_gb::gameboy::handle_input(gb, keys);
}

#[test]
fn input_key_edges() {
    let mut k = InputKey::new();
    k.update(true);
    assert!(k.get_held() && k.get_state_just_changed());
    k.update(true);
    assert!(k.get_held() && !k.get_state_just_changed());
    k.update(false);
    assert!(!k.get_held() && k.get_state_just_changed());
    let mut other = InputKey::new();
    other.copy_state_from_other(&k);
    assert_eq!(other, k);
}

#[test]
fn disabled_ppu_yields_blank_frame() {
    let mut gb = machine();
    gb.bootrom_data[0] = 0x18;
    gb.bootrom_data[1] = 0xfe;
    let keys: Vec<InputKey> = Vec::new();
    let frame = run_frame(&mut gb, &keys).ok().unwrap();
    assert_eq!(frame.len(), 1);
}

#[test]
fn crash_reports_state() {
    let mut gb = machine();
    gb.bootrom_data[0] = 0xd3;
    let keys: Vec<InputKey> = Vec::new();
    let err = run_frame(&mut gb, &keys).err().unwrap();
    assert_eq!(err.opcode, 0xd3);
    assert_eq!(err.pc, 0);
}

#[test]
fn enabled_ppu_frame_from_driver() {
    let mut gb = machine();
    gb.bootrom_data[0] = 0x18;
    gb.bootrom_data[1] = 0xfe;
    gb.ppu.set_lcdc(0x91);
    let keys: Vec<InputKey> = Vec::new();
    let frame = run_frame(&mut gb, &keys).ok().unwrap();
    assert_eq!(frame.len(), 23040);
}

#[test]
fn relative_jump_backwards() {
    let mut gb = machine();
    gb.bootrom_data[0x10] = 0xfc;
    gb.pc = 0x10;
    assert!(run_opcode(&mut gb, 0x18));
    assert_eq!(gb.pc, 0x0d);
}

#[test]
fn mbc1_cart_only_type() {
    let cart = GameCart::new(MapperType::MBC1, rom_image(2, 1, 0));
    assert_eq!(cart.get_mapper(), MapperType::MBC1);
}

fn ppu_with_tiles() -> PPU {
    let mut ppu = PPU::new(SystemType::DMG);
    for k in 0..32u16 {
        ppu.write_vram_byte(0x1800 + k, 1);
    }
    ppu.write_vram_byte(0x10, 0xff);
    ppu.write_vram_byte(0x11, 0x00);
    ppu
}

#[test]
fn background_line_uses_tile_map_and_palette() {
    let mut ppu = ppu_with_tiles();
    ppu.set_lcdc(0x91);
    ppu.render_line();
    for x in 0..160usize {
        assert_eq!(ppu.screen[x], 0x00aaaaaa);
    }
    ppu.set_bgpal(0x0c);
    ppu.render_line();
    assert_eq!(ppu.screen[0], 0x00000000);
}

#[test]
fn background_off_paints_white() {
    let mut ppu = ppu_with_tiles();
    ppu.set_lcdc(0x90);
    ppu.render_line();
    assert_eq!(ppu.screen[5], 0x00ffffff);
}

#[test]
fn sprite_pixels_cover_background() {
    let mut ppu = ppu_with_tiles();
    ppu.set_lcdc(0x93);
    ppu.current_mode = PPUMode::HBlank;
    ppu.write_oam_byte(0, 16);
    ppu.write_oam_byte(1, 8);
    ppu.write_oam_byte(2, 2);
    ppu.write_oam_byte(3, 0);
    ppu.write_vram_byte(0x20, 0x80);
    ppu.write_vram_byte(0x21, 0x80);
    ppu.render_line();
    assert_eq!(ppu.screen[0], 0x00000000);
    assert_eq!(ppu.screen[1], 0x00aaaaaa);
}

#[test]
fn sprite_partly_off_the_left_edge() {
    let mut ppu = ppu_with_tiles();
    ppu.set_lcdc(0x93);
    ppu.current_mode = PPUMode::HBlank;
    ppu.write_oam_byte(0, 16);
    ppu.write_oam_byte(1, 1);
    ppu.write_oam_byte(2, 2);
    ppu.write_oam_byte(3, 0);
    ppu.write_vram_byte(0x20, 0xff);
    ppu.write_vram_byte(0x21, 0xff);
    ppu.render_line();
    for x in 0..1usize {
        assert_eq!(ppu.screen[x], 0x00000000);
    }
    assert_eq!(ppu.screen[1], 0x00aaaaaa);
    assert_eq!(ppu.screen[159], 0x00aaaaaa);
}

#[test]
fn vblank_interrupt_at_line_144() {
    let mut ppu = PPU::new(SystemType::DMG);
    ppu.set_lcdc(0x80);
    let mut flags = 0u8;
    ppu.run_cycles(65660, &mut flags);
    assert_eq!(flags & 0x01, 0);
    ppu.run_cycles(8, &mut flags);
    assert_eq!(flags & 0x01, 0x01);
    assert_eq!(ppu.get_current_y(), 144);
}

#[test]
fn sub_a_a_law_every_value() {
    for a in 0..=255u8 {
        let mut r = Registers::new();
        r.a = a;
        alu_apply(2, &mut r, a);
        assert_eq!(r.a, 0);
        assert!(r.get_flag_z() && r.get_flag_n() && !r.get_flag_h() && !r.get_flag_c());
    }
}

#[test]
fn power_on_stat_and_memory() {
    let ppu = PPU::new(SystemType::DMG);
    assert_eq!(ppu.get_stat(), 0x06);
    assert_eq!(ppu.get_lcdc(), 0);
    assert_eq!(ppu.read_vram_byte(0x123), 0);
    let gb = machine();
    assert_eq!(gb.read_byte_raw(0xc123), 0);
}

#[test]
fn interrupt_pushes_return_address_in_hram() {
    let mut gb = machine();
    gb.other_state.int_flag = 0x06;
    gb.other_state.int_enable = 0x04;
    gb.ime = true;
    gb.sp = 0xfff0;
    gb.pc = 0xbeef;
    process_interrupts(&mut gb);
    assert_eq!(gb.pc, 0x50);
    assert_eq!(gb.other_state.int_flag, 0x02);
    assert_eq!(gb.read_byte_raw(0xffee), 0xef);
    assert_eq!(gb.read_byte_raw(0xffef), 0xbe);
}

#[test]
fn undefined_opcode_leaves_machine() {
    let mut gb = machine();
    gb.reg.a = 0x12;
    gb.pc = 0x345;
    assert!(!run_opcode(&mut gb, 0xfd));
    assert_eq!(gb.reg.a, 0x12);
    assert_eq!(gb.pc, 0x345);
    assert_eq!(gb.cycles_pending, 0);
}

#[test]
fn sprite_x_flip_and_second_palette() {
    let mut ppu = ppu_with_tiles();
    ppu.set_lcdc(0x93);
    ppu.set_obp2(0x00);
    ppu.current_mode = PPUMode::HBlank;
    ppu.write_oam_byte(0, 16);
    ppu.write_oam_byte(1, 8);
    ppu.write_oam_byte(2, 2);
    ppu.write_oam_byte(3, 0x30);
    ppu.write_vram_byte(0x20, 0x80);
    ppu.write_vram_byte(0x21, 0x80);
    ppu.render_line();
    assert_eq!(ppu.screen[7], 0x00ffffff);
    assert_eq!(ppu.screen[0], 0x00aaaaaa);
}

#[test]
fn at_most_ten_sprites_per_line() {
    let mut ppu = ppu_with_tiles();
    ppu.set_lcdc(0x93);
    ppu.current_mode = PPUMode::HBlank;
    for i in 0..11u16 {
        ppu.write_oam_byte(4 * i, 16);
        ppu.write_oam_byte(4 * i + 1, (8 + 8 * i) as u8);
        ppu.write_oam_byte(4 * i + 2, 2);
        ppu.write_oam_byte(4 * i + 3, 0);
    }
    ppu.write_vram_byte(0x20, 0xff);
    ppu.write_vram_byte(0x21, 0xff);
    ppu.render_line();
    assert_eq!(ppu.screen[72], 0x00000000);
    assert_eq!(ppu.screen[80], 0x00aaaaaa);
}

#[test]
fn mbc1_cart_ram_from_header() {
    let cart = get_cart(rom_image(2, 0x01, 0x00));
    assert_eq!(cart.read_byte(0xa000), 0xff);
    let mut cart = get_cart(rom_image(2, 0x01, 0x03));
    cart.write_byte(0x0000, 0x0a);
    cart.write_byte(0x6000, 0x01);
    cart.write_byte(0x4000, 0x02);
    cart.write_byte(0xa000, 0x77);
    cart.write_byte(0x4000, 0x00);
    assert_eq!(cart.read_byte(0xa000), 0x00);
    cart.write_byte(0x4000, 0x02);
    assert_eq!(cart.read_byte(0xa000), 0x77);
}

#[test]
fn stat_interrupt_on_ly_compare() {
    let mut ppu = PPU::new(SystemType::DMG);
    ppu.set_lcdc(0x80);
    ppu.set_ly_compare(5);
    ppu.set_stat(0x40);
    let mut flags = 0u8;
    ppu.run_cycles(456 * 5 - 4, &mut flags);
    assert_eq!(flags & 0x02, 0);
    ppu.run_cycles(4, &mut flags);
    assert_eq!(flags & 0x02, 0x02);
    assert_eq!(ppu.get_stat() & 0x04, 0x04);
}

#[test]
fn short_rom_reads_undefined_past_end() {
    let mut rom = vec![0x11u8; 0x150];
    rom[0x147] = 0x01;
    rom[0x149] = 0x00;
    let mut cart = get_cart(rom);
    assert_eq!(cart.read_byte(0x0100), 0x11);
    assert_eq!(cart.read_byte(0x0150), 0xff);
    assert_eq!(cart.read_byte(0x4000), 0xff);
    cart.write_byte(0x2000, 0x07);
    assert_eq!(cart.read_byte(0x4000), 0xff);
    let mut small = vec![0x22u8; 0x5000];
    small[0x147] = 0x00;
    let cart = get_cart(small);
    assert_eq!(cart.read_byte(0x4fff), 0x22);
    assert_eq!(cart.read_byte(0x5000), 0xff);
}

#[test]
fn echo_write_lands_in_wram() {
    let mut gb = machine();
    gb.write_byte_raw(0xe123, 0x9a);
    assert_eq!(gb.read_byte_raw(0xc123), 0x9a);
    gb.write_byte_raw(0xffff, 0x05);
    assert_eq!(gb.other_state.int_enable, 0x05);
}
