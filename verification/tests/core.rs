use dmg_core::Cartridge;
use dmg_core::Cpu;
use dmg_core::Gameboy;
use dmg_core::GbBtn;
use dmg_core::Mbc;
use dmg_core::Timer;
use dmg_core::mbc::CartError;
use dmg_core::mbc::create_cart;
use dmg_core::ppu::Color;
use dmg_core::ppu::Ppu;
use dmg_core::ppu::PpuState;

fn plain_rom() -> Vec<u8> {
    // 32 KiB, no mapper, no RAM
    let mut rom = vec![0u8; 0x8000];
    rom[0x0147] = 0x00;
    rom[0x0148] = 0x00;
    rom[0x0149] = 0x00;
    rom
}

fn mbc1_rom(size_code: u8, ram_code: u8, battery: bool) -> Vec<u8> {
    let banks = 2usize << size_code;
    let mut rom = vec![0u8; banks * 0x4000];
    rom[0x0147] = if battery { 0x03 } else { 0x01 };
    rom[0x0148] = size_code;
    rom[0x0149] = ram_code;
    rom
}

fn fresh_cpu() -> Cpu {
    Cpu::new(create_cart(plain_rom(), None).unwrap())
}

#[test]
fn post_boot_state() {
    let gb = Gameboy::new(create_cart(plain_rom(), None).unwrap());
    assert_eq!(gb.cpu.rf.a, 0x01);
    assert_eq!(gb.cpu.rf.read_af(), 0x01B0, "F is 0xB0 after boot: Z, H and C set");
    assert_eq!(gb.cpu.rf.b, 0x00);
    assert_eq!(gb.cpu.rf.c, 0x13);
    assert_eq!(gb.cpu.rf.d, 0x00);
    assert_eq!(gb.cpu.rf.e, 0xD8);
    assert_eq!(gb.cpu.rf.h, 0x01);
    assert_eq!(gb.cpu.rf.l, 0x4D);
    assert_eq!(gb.cpu.rf.pc, 0x0100);
    assert_eq!(gb.cpu.rf.sp, 0xFFFE);
    assert_eq!(gb.cpu.bus.timer.div, 0xAB);
    assert_eq!(gb.cpu.bus.timer.tima, 0x00);
    assert_eq!(gb.cpu.bus.timer.tma, 0x00);
    assert_eq!(gb.cpu.bus.timer.tac, 0xF8);
}

#[test]
fn interrupt_dispatch() {
    // IME on, VBlank enabled and pending: one tick vectors to 0x0040
    let mut cpu = fresh_cpu();
    cpu.ime = true;
    cpu.bus.write_u8(0xFFFF, 0x01);
    cpu.bus.write_u8(0xFF0F, 0x01);
    cpu.rf.pc = 0x1234;
    cpu.rf.sp = 0xFFF0;
    let cycles = cpu.tick();
    assert_eq!(cpu.rf.sp, 0xFFEE);
    assert_eq!(cpu.bus.read_u8(0xFFEE), 0x34);
    assert_eq!(cpu.bus.read_u8(0xFFEF), 0x12);
    assert_eq!(cpu.bus.read_u8(0xFF0F), 0x00);
    assert!(!cpu.ime);
    assert!(cycles >= 20);
    // the NOP at 0x0040 already executed within the same tick
    assert_eq!(cpu.rf.pc, 0x0041);
}

#[test]
fn ei_delay() {
    // EI; NOP; EI; HALT starting at the post-boot PC
    let mut rom = plain_rom();
    rom[0x0100] = 0xFB;
    rom[0x0101] = 0x00;
    rom[0x0102] = 0xFB;
    rom[0x0103] = 0x76;
    let mut gb = Gameboy::new(create_cart(rom, None).unwrap());
    gb.cpu.tick();
    assert!(!gb.cpu.ime, "IME must still be off right after EI");
    assert!(gb.cpu.pending_ime);
    gb.cpu.tick();
    assert!(gb.cpu.ime, "IME turns on after the instruction following EI");
    gb.cpu.tick();
    gb.cpu.tick();
    assert!(gb.cpu.halted);
}

#[test]
fn pending_interrupt_waits_for_instruction_after_ei() {
    // with an interrupt already pending, EI must not let it fire before
    // the following instruction has executed
    let mut rom = plain_rom();
    rom[0x0100] = 0xFB; // EI
    rom[0x0101] = 0x04; // INC B
    let mut gb = Gameboy::new(create_cart(rom, None).unwrap());
    gb.cpu.bus.write_u8(0xFFFF, 0x01);
    gb.cpu.bus.write_u8(0xFF0F, 0x01);
    gb.cpu.tick(); // EI
    assert_eq!(gb.cpu.rf.pc, 0x0101);
    gb.cpu.tick(); // INC B runs, not the handler
    assert_eq!(gb.cpu.rf.b, 1);
    assert_eq!(gb.cpu.rf.pc, 0x0102);
    gb.cpu.tick(); // now the handler runs
    assert_eq!(gb.cpu.rf.pc, 0x0041);
}

#[test]
fn daa_after_add() {
    let mut cpu = fresh_cpu();
    // code in work RAM: ADD A,0x38 then DAA
    cpu.bus.write_u8(0xC000, 0xC6);
    cpu.bus.write_u8(0xC001, 0x38);
    cpu.bus.write_u8(0xC002, 0x27);
    cpu.rf.a = 0x45;
    cpu.rf.pc = 0xC000;
    cpu.tick();
    assert_eq!(cpu.rf.a, 0x7D);
    assert!(!cpu.rf.nf && !cpu.rf.hf && !cpu.rf.cf);
    cpu.tick();
    assert_eq!(cpu.rf.a, 0x83);
    assert!(!cpu.rf.zf && !cpu.rf.hf && !cpu.rf.cf);
}

#[test]
fn timer_overflow() {
    let mut t = Timer::new();
    t.write_u8(0xFF07, 0x05);
    t.write_u8(0xFF05, 0xFF);
    t.write_u8(0xFF06, 0x42);
    t.tick(16);
    assert_eq!(t.tima, 0x42);
    assert!(t.timer_int);
}

#[test]
fn timer_overflow_reaches_if() {
    let mut cpu = fresh_cpu();
    cpu.bus.write_u8(0xFF07, 0x05);
    cpu.bus.write_u8(0xFF05, 0xFF);
    cpu.bus.write_u8(0xFF06, 0x42);
    cpu.bus.tick(16);
    assert_eq!(cpu.bus.read_u8(0xFF05), 0x42);
    assert_eq!(cpu.bus.read_u8(0xFF0F) & 0x04, 0x04);
}

#[test]
fn timer_counts_elapsed_over_period() {
    let mut t = Timer::new();
    t.write_u8(0xFF07, 0x06); // enabled, period 64
    t.tick(64 * 3 + 63);
    assert_eq!(t.tima, 3);
    t.tick(1);
    assert_eq!(t.tima, 4);
}

#[test]
fn div_increments_every_256_cycles() {
    let mut t = Timer::new();
    t.tick(255);
    assert_eq!(t.div, 0);
    t.tick(1);
    assert_eq!(t.div, 1);
    t.write_u8(0xFF04, 0x55);
    assert_eq!(t.div, 0);
}

#[test]
fn ppu_scanline_and_frame() {
    let mut ppu = Ppu::new();
    for _ in 0..114 {
        ppu.tick(4);
    }
    assert_eq!(ppu.ly, 1);
    let mut vblanks = 0;
    for _ in 0..114 * 153 {
        ppu.tick(4);
        if ppu.vblank_int {
            vblanks += 1;
            ppu.vblank_int = false;
        }
    }
    assert_eq!(ppu.ly, 0);
    assert_eq!(vblanks, 1);
    assert!(matches!(ppu.state, PpuState::OAMScan));
}

#[test]
fn frame_swap_at_vblank() {
    let mut cpu = fresh_cpu();
    // LCD on, background and objects off: composited rows stay untouched
    cpu.bus.write_u8(0xFF40, 0x80);
    cpu.bus.ppu.frame_buffer[5] = Color::DarkGrey;
    let mut saw = false;
    for _ in 0..144 * 114 + 10 {
        cpu.bus.tick(4);
        if matches!(cpu.bus.ppu.state, PpuState::VBlank) {
            saw = true;
            break;
        }
    }
    assert!(saw);
    assert_eq!(cpu.bus.ppu.frame[5], Color::DarkGrey);
    assert_eq!(cpu.bus.ppu.frame_buffer[5], Color::White);
}

#[test]
fn interrupt_flag_shows_only_low_bits() {
    let mut cpu = fresh_cpu();
    cpu.bus.write_u8(0xFF0F, 0xFF);
    cpu.bus.write_u8(0xFFFF, 0xFF);
    assert_eq!(cpu.bus.read_u8(0xFF0F), 0x1F);
    assert_eq!(cpu.bus.read_u8(0xFFFF), 0x1F);
}

#[test]
fn dma_copies_oam() {
    let mut cpu = fresh_cpu();
    for i in 0..0xA0u16 {
        cpu.bus.write_u8(0xC000 + i, (i % 251) as u8);
    }
    cpu.bus.write_u8(0xFF46, 0xC0);
    for i in 0..0xA0u16 {
        assert_eq!(cpu.bus.read_u8(0xFE00 + i), (i % 251) as u8);
    }
}

#[test]
fn mbc1_bank_zero_is_one() {
    let mut rom = mbc1_rom(5, 0, false); // 1 MiB
    rom[0x4000] = 0xAA;
    let mut cart = create_cart(rom, None).unwrap();
    cart.write_u8(0x2000, 0x00); // lower bank register 0
    assert_eq!(cart.read_u8(0x4000), 0xAA, "bank 0 reads as bank 1");
}

#[test]
fn mbc1_banking() {
    let mut rom = mbc1_rom(5, 0, false); // 1 MiB, 64 banks
    rom[0x4000] = 0xAA; // bank 1
    rom[1 << 19] = 0xBB; // bank 32
    let mut cart = create_cart(rom, None).unwrap();
    cart.write_u8(0x2000, 0x21); // lower = 1, so bank 1
    assert_eq!(cart.read_u8(0x4000), 0xAA);
    cart.write_u8(0x4000, 0x01); // secondary register = 1
    cart.write_u8(0x6000, 0x01); // mode 1
    assert_eq!(cart.read_u8(0x0000), 0xBB, "fixed window shows bank 32 in mode 1");
}

#[test]
fn mbc2_nibble_ram() {
    let mut rom = vec![0u8; 0x8000];
    rom[0x0147] = 0x06;
    let mut cart = create_cart(rom, None).unwrap();
    cart.write_u8(0x0000, 0x0A); // enable RAM (address bit 8 clear)
    cart.write_u8(0xA003, 0xFC);
    assert_eq!(cart.read_u8(0xA003), 0x0C, "only the low nibble is kept");
    assert_eq!(cart.read_u8(0xA203), 0x0C, "the 512 bytes mirror");
}

#[test]
fn save_round_trip() {
    let rom = mbc1_rom(0, 2, true); // 32 KiB ROM, 8 KiB RAM, battery
    let mut cart = create_cart(rom.clone(), None).unwrap();
    assert!(cart.has_battery());
    cart.write_u8(0x0000, 0x0A); // enable RAM
    cart.write_u8(0xA005, 0x77);
    let save = cart.dump_ram();
    assert_eq!(save.len(), 8192);
    // shutdown, then a fresh start with the persisted save
    let mut cart2 = create_cart(rom, Some(save)).unwrap();
    cart2.write_u8(0x0000, 0x0A);
    assert_eq!(cart2.read_u8(0xA005), 0x77);
}

#[test]
fn cartridge_header_errors() {
    assert!(matches!(create_cart(vec![0u8; 0x100], None), Err(CartError::TooShort)));
    let mut rom = plain_rom();
    rom[0x0147] = 0x42;
    assert!(matches!(create_cart(rom, None), Err(CartError::UnsupportedMapper)));
    let mut rom = plain_rom();
    rom[0x0147] = 0x01;
    rom[0x0149] = 0x09;
    assert!(matches!(create_cart(rom, None), Err(CartError::UnsupportedRamSize)));
    let mut rom = plain_rom();
    rom[0x0148] = 0x01; // claims 64 KiB but the image is 32 KiB
    assert!(matches!(create_cart(rom, None), Err(CartError::RomSizeMismatch)));
    let rom = mbc1_rom(0, 2, true);
    assert!(matches!(create_cart(rom, Some(vec![0u8; 3])), Err(CartError::SaveSizeMismatch)));
}

#[test]
fn run_frame_carries_overshoot() {
    let mut gb = Gameboy::new(create_cart(plain_rom(), None).unwrap());
    gb.run_frame();
    assert!(gb.cycles < 69905);
    assert_eq!(gb.get_frame().len(), 160 * 144);
}

#[test]
fn buttons_reach_p1() {
    let mut gb = Gameboy::new(create_cart(plain_rom(), None).unwrap());
    gb.set_button(GbBtn::Start, true);
    // select the button line (bit 5 low) and refresh
    gb.cpu.bus.write_u8(0xFF00, 0x10);
    gb.cpu.bus.tick(4);
    let p1 = gb.cpu.bus.read_u8(0xFF00);
    assert_eq!(p1 & 0x08, 0, "a held START reads 0 on bit 3");
    assert_eq!(p1 & 0x01, 1, "a released A reads 1 on bit 0");
    assert_eq!(gb.cpu.bus.read_u8(0xFF0F) & 0x10, 0x10, "joypad interrupt posted");
}

#[test]
fn alu_flags() {
    let mut cpu = fresh_cpu();
    // SUB A,0x01 with A = 0x10: borrow from bit 4
    cpu.bus.write_u8(0xC000, 0xD6);
    cpu.bus.write_u8(0xC001, 0x01);
    cpu.rf.a = 0x10;
    cpu.rf.pc = 0xC000;
    cpu.tick();
    assert_eq!(cpu.rf.a, 0x0F);
    assert!(cpu.rf.nf && cpu.rf.hf && !cpu.rf.cf && !cpu.rf.zf);
}

#[test]
fn pop_af_masks_low_nibble() {
    let mut cpu = fresh_cpu();
    cpu.rf.sp = 0xC000;
    cpu.bus.write_u8(0xC000, 0xFF); // flags byte with junk in the low nibble
    cpu.bus.write_u8(0xC001, 0x12);
    cpu.bus.write_u8(0xC100, 0xF1); // POP AF
    cpu.rf.pc = 0xC100;
    cpu.tick();
    assert_eq!(cpu.rf.a, 0x12);
    assert_eq!(cpu.rf.read_af() & 0x000F, 0, "the low nibble of F is zero");
    assert!(cpu.rf.zf && cpu.rf.nf && cpu.rf.hf && cpu.rf.cf);
}

#[test]
fn serial_transfer_self_completes() {
    let mut cpu = fresh_cpu();
    cpu.bus.write_u8(0xFF01, 0x00);
    cpu.bus.write_u8(0xFF02, 0x81); // transfer enable, internal clock
    for _ in 0..8 * 512 / 16 {
        cpu.bus.tick(16);
    }
    assert_eq!(cpu.bus.read_u8(0xFF01), 0xFF, "ones shifted in from the stub");
    assert_eq!(cpu.bus.read_u8(0xFF02) & 0x80, 0, "transfer enable cleared");
    assert_eq!(cpu.bus.read_u8(0xFF0F) & 0x08, 0x08, "serial interrupt posted");
}
