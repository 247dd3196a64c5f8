use intel8080::engine::emulate;
use intel8080::engine::Event;
use intel8080::flags::Flags;
use intel8080::memory::Memory;
use intel8080::registers::Registers;

/// Runs a program until it halts, for at most `limit` instructions.
fn run(image: Vec<u8>, limit: usize) -> (Registers, Flags, Memory) {
    let mut mem = Memory::from_bytes(image);
    let mut reg = Registers::default();
    let mut flags = Flags::default();
    for _ in 0..limit {
        match emulate(&mut reg, &mut flags, &mut mem) {
            Ok(Event::Halted) => return (reg, flags, mem),
            Ok(_) => {}
            Err(fault) => panic!("fault at {:#06x}: {:#04x}", fault.address, fault.opcode),
        }
    }
    panic!("the program did not halt");
}

#[test]
fn load_immediate_then_halt() {
    let (reg, flags, mem) = run(vec![0x3E, 0x05, 0x76], 10);
    assert_eq!(reg.a, 5);
    assert_eq!(flags, Flags::default());
    assert!(!flags.zero && !flags.sign && !flags.parity && !flags.carry && !flags.carry_aux);
    assert_eq!(mem.pc, 3);
}

#[test]
fn add_register_then_halt() {
    let (reg, flags, _) = run(vec![0x06, 0x02, 0x0E, 0x03, 0x80, 0x76], 10);
    assert_eq!(reg.a, 2);
    assert_eq!(reg.b, 2);
    assert_eq!(reg.c, 3);
    assert!(!flags.carry);
    assert!(!flags.zero);
    assert!(!flags.parity);
}

#[test]
fn counts_down_in_a_loop() {
    // MVI B,5 ; MVI A,0 ; loop: ADI 3 ; DCR B ; JNZ loop ; HLT
    let image = vec![0x06, 0x05, 0x3e, 0x00, 0xc6, 0x03, 0x05, 0xc2, 0x04, 0x00, 0x76];
    let (reg, flags, mem) = run(image, 100);
    assert_eq!(reg.a, 15);
    assert_eq!(reg.b, 0);
    assert!(flags.zero);
    assert!(!flags.sign);
    assert!(flags.parity);
    assert!(!flags.carry);
    assert_eq!(mem.pc, 11);
}

#[test]
fn calls_a_subroutine_and_returns() {
    // LXI SP,0x2400 ; MVI A,1 ; CALL 0x0010 ; HLT ; ... ; 0x0010: ADD A ; ADD A ; RET
    let mut image = vec![0u8; 0x20];
    image[..9].copy_from_slice(&[0x31, 0x00, 0x24, 0x3e, 0x01, 0xcd, 0x10, 0x00, 0x76]);
    image[0x10..0x13].copy_from_slice(&[0x87, 0x87, 0xc9]);
    let (reg, _, mem) = run(image, 100);
    assert_eq!(reg.a, 4);
    assert_eq!(mem.sp, 0x2400);
    assert_eq!(mem.pc, 9);
    assert_eq!(mem[0x23ff], 0x00);
    assert_eq!(mem[0x23fe], 0x08);
}

#[test]
fn copies_a_block_of_memory() {
    // LXI HL,0x0100 ; LXI DE,0x0200 ; MVI B,4
    // loop: MOV A,M ; STAX DE ; INX HL ; INX DE ; DCR B ; JNZ loop ; HLT
    let mut image = vec![0u8; 0x0104];
    image[..18].copy_from_slice(&[
        0x21, 0x00, 0x01, 0x11, 0x00, 0x02, 0x06, 0x04, 0x7e, 0x12, 0x23, 0x13, 0x05, 0xc2, 0x08,
        0x00, 0x76, 0x00,
    ]);
    image[0x0100..0x0104].copy_from_slice(&[0xde, 0xad, 0xbe, 0xef]);
    let (reg, _, mem) = run(image, 100);
    assert_eq!(mem[0x0200], 0xde);
    assert_eq!(mem[0x0201], 0xad);
    assert_eq!(mem[0x0202], 0xbe);
    assert_eq!(mem[0x0203], 0xef);
    assert_eq!(mem[0x0204], 0x00);
    assert_eq!(reg.m(), 0x0104);
    assert_eq!(reg.de(), 0x0204);
    assert_eq!(reg.b, 0);
}

#[test]
fn swaps_two_pairs_through_the_stack() {
    // LXI SP,0x3000 ; LXI BC,0x1234 ; LXI DE,0x5678 ; PUSH BC ; PUSH DE ; POP BC ; POP DE ; HLT
    let image = vec![
        0x31, 0x00, 0x30, 0x01, 0x34, 0x12, 0x11, 0x78, 0x56, 0xc5, 0xd5, 0xc1, 0xd1, 0x76,
    ];
    let (reg, flags, mem) = run(image, 100);
    assert_eq!(reg.bc(), 0x5678);
    assert_eq!(reg.de(), 0x1234);
    assert_eq!(mem.sp, 0x3000);
    assert_eq!(flags, Flags::default());
}

#[test]
fn an_image_without_a_halt_runs_into_the_zero_fill() {
    let mut mem = Memory::from_bytes(vec![0x3c]);
    let mut reg = Registers::default();
    let mut flags = Flags::default();
    for _ in 0..1000 {
        assert_eq!(emulate(&mut reg, &mut flags, &mut mem), Ok(Event::Next));
    }
    assert_eq!(reg.a, 1);
    assert_eq!(mem.pc, 1000);
}
