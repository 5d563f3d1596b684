use gameboy::error::EmulatorError;
use gameboy::registers::{Flags, Reg16, Reg8};
use gameboy::Gameboy;

/// A boot image that sets up the stack, counts `B` down from 3 and then
/// runs off its end into the cartridge.
fn boot_image() -> Vec<u8> {
    let mut image = vec![0x7f; 0x100]; // LD A,A everywhere
    let code = [
        0x31, 0xfe, 0xff, // LD SP,0xfffe
        0xaf, // XOR A
        0x06, 0x03, // LD B,3
        0x3c, // loop: INC A
        0x05, // DEC B
        0x20, 0xfc, // JR NZ,loop
    ];
    image[..code.len()].copy_from_slice(&code);
    image
}

fn cartridge() -> Vec<u8> {
    let mut rom = vec![0u8; 0x8000];
    rom[0x0000] = 0xd3; // what the boot image hides: not an instruction
    rom[0x0100] = 0x18; // JR -0x100 + ... : jump back into the low range
    rom[0x0101] = 0x80; // offset -128: 0x0102 - 128 = 0x0082
    rom[0x0082] = 0x0e; // LD C,0x77
    rom[0x0083] = 0x77;
    rom[0x0084] = 0xd3; // then stop on an unimplemented opcode
    rom
}

#[test]
fn a_console_with_boot_image_starts_in_it() {
    let gameboy = Gameboy::new(cartridge(), boot_image());
    assert_eq!(gameboy.cpu().pc(), 0x0000);
    assert_eq!(gameboy.cpu().sp(), 0xfffe);
    assert_eq!(gameboy.cpu().flags(), Flags::new());
    assert!(gameboy.memory().boot_overlay_active());
    assert_eq!(gameboy.memory().read_u8(0x0000), Ok(0x31));
    assert_eq!(gameboy.memory().read_u8(0x0100), Ok(0x18));
}

#[test]
fn a_console_without_boot_image_starts_in_the_cartridge() {
    let gameboy = Gameboy::new(cartridge(), Vec::new());
    assert_eq!(gameboy.cpu().pc(), 0x0100);
    assert_eq!(gameboy.cpu().sp(), 0xfffe);
    assert!(!gameboy.memory().boot_overlay_active());
    assert_eq!(gameboy.memory().read_u8(0x0000), Ok(0xd3));
}

#[test]
fn step_runs_one_instruction() {
    let mut gameboy = Gameboy::new(cartridge(), boot_image());
    assert_eq!(gameboy.step(), Ok(()));
    assert_eq!(gameboy.cpu().pc(), 0x0003);
    assert_eq!(gameboy.cpu().sp(), 0xfffe);
    assert_eq!(gameboy.step(), Ok(()));
    assert_eq!(gameboy.cpu().pc(), 0x0004);
    assert_eq!(gameboy.cpu().f(), 0x80);
}

#[test]
fn run_stops_after_the_given_number_of_steps() {
    let mut gameboy = Gameboy::new(cartridge(), boot_image());
    assert_eq!(gameboy.run(0), Ok(()));
    assert_eq!(gameboy.cpu().pc(), 0x0000);
    assert_eq!(gameboy.run(3), Ok(()));
    assert_eq!(gameboy.cpu().pc(), 0x0006);
    assert_eq!(gameboy.cpu().get_register(Reg8::B), 3);
    // Three turns of the loop: INC A, DEC B, JR NZ.
    assert_eq!(gameboy.run(9), Ok(()));
    assert_eq!(gameboy.cpu().get_register(Reg8::A), 3);
    assert_eq!(gameboy.cpu().get_register(Reg8::B), 0);
    assert_eq!(gameboy.cpu().pc(), 0x000a);
}

#[test]
fn run_equals_repeated_steps() {
    let mut by_run = Gameboy::new(cartridge(), boot_image());
    let mut by_step = Gameboy::new(cartridge(), boot_image());
    assert_eq!(by_run.run(40), Ok(()));
    for _ in 0..40 {
        assert_eq!(by_step.step(), Ok(()));
    }
    assert_eq!(by_run.cpu().pc(), by_step.cpu().pc());
    assert_eq!(by_run.cpu().af(), by_step.cpu().af());
    assert_eq!(by_run.cpu().get_pair(Reg16::BC), by_step.cpu().get_pair(Reg16::BC));
}

#[test]
fn run_stops_at_the_first_failure() {
    let mut gameboy = Gameboy::new(cartridge(), Vec::new());
    // JR to 0x0082, LD C,0x77, then the unimplemented 0xd3.
    assert_eq!(
        gameboy.run(1000),
        Err(EmulatorError::UnimplementedOpcode { opcode: 0xd3, address: 0x0084 })
    );
    assert_eq!(gameboy.cpu().pc(), 0x0085);
    assert_eq!(gameboy.cpu().get_register(Reg8::C), 0x77);
}

#[test]
fn the_overlay_goes_when_the_boot_image_is_done() {
    let mut gameboy = Gameboy::new(cartridge(), boot_image());
    // Before any step the low addresses show the boot image.
    for (address, byte) in boot_image().into_iter().enumerate() {
        assert_eq!(gameboy.memory().read_u8(address as u16), Ok(byte));
    }
    // Run until the program counter reaches the end of the boot image.
    let mut steps = 0;
    while gameboy.cpu().pc() != 0x0100 {
        assert!(gameboy.cpu().pc() < 0x0100);
        assert!(gameboy.memory().boot_overlay_active());
        assert_eq!(gameboy.step(), Ok(()));
        steps += 1;
        assert!(steps < 1000);
    }
    // 12 steps of set-up and loop, then 246 bytes of LD A,A.
    assert_eq!(steps, 12 + 246);
    // The step at 0x0100 removes the overlay and jumps back below 0x0100.
    assert_eq!(gameboy.step(), Ok(()));
    assert_eq!(gameboy.cpu().pc(), 0x0082);
    assert!(!gameboy.memory().boot_overlay_active());
    for (address, byte) in cartridge().into_iter().enumerate().take(0x100) {
        assert_eq!(gameboy.memory().read_u8(address as u16), Ok(byte));
    }
    // Back in the low range the cartridge's code runs, not the boot image's.
    assert_eq!(gameboy.step(), Ok(()));
    assert_eq!(gameboy.cpu().get_register(Reg8::C), 0x77);
    assert!(!gameboy.memory().boot_overlay_active());
    assert_eq!(
        gameboy.step(),
        Err(EmulatorError::UnimplementedOpcode { opcode: 0xd3, address: 0x0084 })
    );
    assert!(!gameboy.memory().boot_overlay_active());
    assert_eq!(gameboy.memory().read_u8(0x0000), Ok(0xd3));
}

#[test]
fn two_runs_of_the_same_images_agree() {
    let mut first = Gameboy::new(cartridge(), boot_image());
    let mut second = Gameboy::new(cartridge(), boot_image());
    for _ in 0..300 {
        let a = first.step();
        let b = second.step();
        assert_eq!(a, b);
        assert_eq!(first.cpu().pc(), second.cpu().pc());
        assert_eq!(first.cpu().af(), second.cpu().af());
        assert_eq!(first.cpu().get_pair(Reg16::BC), second.cpu().get_pair(Reg16::BC));
        if a.is_err() {
            break;
        }
    }
}
