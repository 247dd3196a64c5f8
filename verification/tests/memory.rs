use intel8080::memory::Memory;
use intel8080::memory::Ram;
use intel8080::memory::MEMORY_SIZE;

#[test]
fn a_short_image_is_zero_filled() {
    let mem = Memory::from_bytes(vec![0x3e, 0x05, 0x76]);
    assert_eq!(mem.bytes_read, 3);
    assert_eq!(mem.pc, 0);
    assert_eq!(mem.sp, 0);
    assert_eq!(mem[0], 0x3e);
    assert_eq!(mem[1], 0x05);
    assert_eq!(mem[2], 0x76);
    for adr in 3..=0xffffu16 {
        assert_eq!(mem[adr], 0);
    }
}

#[test]
fn an_empty_image_gives_an_empty_memory() {
    let mem = Memory::from_bytes(Vec::new());
    assert_eq!(mem.bytes_read, 0);
    for adr in 0..=0xffffu16 {
        assert_eq!(mem[adr], 0);
    }
}

#[test]
fn a_full_image_fills_the_memory() {
    let image: Vec<u8> = (0..MEMORY_SIZE).map(|i| (i % 251) as u8).collect();
    let mem = Memory::from_bytes(image.clone());
    assert_eq!(mem.bytes_read, 65536);
    for adr in 0..=0xffffu16 {
        assert_eq!(mem[adr], image[adr as usize]);
    }
}

#[test]
fn an_oversized_image_is_cut_at_65536_bytes() {
    let image: Vec<u8> = (0..70000usize).map(|i| (i % 253) as u8 + 1).collect();
    let mem = Memory::from_bytes(image.clone());
    assert_eq!(mem.bytes_read, 65536);
    assert_eq!(mem.pc, 0);
    assert_eq!(mem.sp, 0);
    for adr in 0..=0xffffu16 {
        assert_eq!(mem[adr], image[adr as usize], "address {:#06x}", adr);
    }
    // Nothing of the tail has come round to the start.
    assert_eq!(mem[0], image[0]);
    assert_ne!(image[0], image[65536]);
    assert_eq!(mem[0xffff], image[65535]);
}

#[test]
fn an_image_one_byte_too_long_loses_that_byte() {
    let mut image = vec![0u8; 65537];
    image[0] = 0x11;
    image[65535] = 0x22;
    image[65536] = 0x33;
    let mem = Memory::from_bytes(image);
    assert_eq!(mem.bytes_read, 65536);
    assert_eq!(mem[0], 0x11);
    assert_eq!(mem[0xffff], 0x22);
}

#[test]
fn ram_loads_gets_and_sets() {
    let mut ram = Ram::load(vec![1, 2, 3]);
    assert_eq!(ram.get(0), 1);
    assert_eq!(ram.get(2), 3);
    assert_eq!(ram.get(3), 0);
    assert_eq!(ram.get(0xffff), 0);
    ram.set(0xffff, 0x7f);
    ram.set(0, 9);
    assert_eq!(ram.get(0xffff), 0x7f);
    assert_eq!(ram.get(0), 9);
    assert_eq!(ram.get(1), 2);
}

#[test]
fn indexing_reads_and_writes_single_bytes() {
    let mut mem = Memory::from_bytes(vec![1, 2, 3]);
    mem[0x1234] = 0xab;
    mem[0xffff] = 0xcd;
    mem[0] = 0xef;
    assert_eq!(mem[0x1234], 0xab);
    assert_eq!(mem[0xffff], 0xcd);
    assert_eq!(mem[0], 0xef);
    assert_eq!(mem[1], 2);
    assert_eq!(mem[0x1233], 0);
    assert_eq!(mem[0x1235], 0);
    assert_eq!(mem.pc, 0);
    assert_eq!(mem.sp, 0);
    assert_eq!(mem.bytes_read, 3);
}

#[test]
fn cursors_are_set_high_byte_first() {
    let mut mem = Memory::from_bytes(Vec::new());
    mem.set_sp(0x24, 0x00);
    assert_eq!(mem.sp, 0x2400);
    assert_eq!(mem.pc, 0);
    mem.set_pc(0x12, 0x34);
    assert_eq!(mem.pc, 0x1234);
    assert_eq!(mem.sp, 0x2400);
    assert_eq!(mem.get_pc(), (0x12, 0x34));
    mem.set_pc(0x00, 0xff);
    assert_eq!(mem.get_pc(), (0x00, 0xff));
}

#[test]
fn read_pc8_fetches_and_advances() {
    let mut mem = Memory::from_bytes(vec![0x11, 0x22, 0x33]);
    assert_eq!(mem.read_pc8(), 0x11);
    assert_eq!(mem.pc, 1);
    assert_eq!(mem.read_pc8(), 0x22);
    assert_eq!(mem.read_pc8(), 0x33);
    assert_eq!(mem.read_pc8(), 0x00);
    assert_eq!(mem.pc, 4);
    assert_eq!(mem.sp, 0);
}

#[test]
fn read_pc8_wraps_after_the_last_address() {
    let mut mem = Memory::from_bytes(vec![0x11]);
    mem[0xffff] = 0x99;
    mem.pc = 0xffff;
    assert_eq!(mem.read_pc8(), 0x99);
    assert_eq!(mem.pc, 0);
    assert_eq!(mem.read_pc8(), 0x11);
    assert_eq!(mem.pc, 1);
}

#[test]
fn read_pc16_reads_the_low_byte_first() {
    let mut mem = Memory::from_bytes(vec![0x34, 0x12, 0xff, 0x00]);
    assert_eq!(mem.read_pc16(), 0x1234);
    assert_eq!(mem.pc, 2);
    assert_eq!(mem.read_pc16(), 0x00ff);
    assert_eq!(mem.pc, 4);

    mem[0xffff] = 0xcd;
    mem[0x0000] = 0xab;
    mem.pc = 0xffff;
    assert_eq!(mem.read_pc16(), 0xabcd);
    assert_eq!(mem.pc, 1);
}

#[test]
fn read_sp8_reads_and_raises_the_stack_pointer() {
    let mut mem = Memory::from_bytes(vec![0x11, 0x22]);
    mem.sp = 1;
    assert_eq!(mem.read_sp8(), 0x22);
    assert_eq!(mem.sp, 2);
    assert_eq!(mem.pc, 0);
    mem[0xffff] = 0x77;
    mem.sp = 0xffff;
    assert_eq!(mem.read_sp8(), 0x77);
    assert_eq!(mem.sp, 0);
    assert_eq!(mem.read_sp8(), 0x11);
}

#[test]
fn jump_goes_only_if_the_condition_holds() {
    let mut mem = Memory::from_bytes(vec![1, 2, 3]);
    mem.pc = 0x0010;
    mem.sp = 0x2000;
    mem.jump(0x1234, false);
    assert_eq!(mem.pc, 0x0010);
    assert_eq!(mem.sp, 0x2000);
    mem.jump(0x1234, true);
    assert_eq!(mem.pc, 0x1234);
    assert_eq!(mem.sp, 0x2000);
    assert_eq!(mem[0], 1);
}

#[test]
fn push_stores_high_then_low_below_the_stack_pointer() {
    let mut mem = Memory::from_bytes(Vec::new());
    mem.sp = 0x2000;
    mem.pc = 0x0100;
    mem.push(0x12, 0x34);
    assert_eq!(mem.sp, 0x1ffe);
    assert_eq!(mem[0x1fff], 0x12);
    assert_eq!(mem[0x1ffe], 0x34);
    assert_eq!(mem[0x2000], 0);
    assert_eq!(mem[0x1ffd], 0);
    assert_eq!(mem.pc, 0x0100);
}

#[test]
fn push_wraps_below_address_zero() {
    let mut mem = Memory::from_bytes(Vec::new());
    mem.sp = 0x0000;
    mem.push(0xaa, 0xbb);
    assert_eq!(mem.sp, 0xfffe);
    assert_eq!(mem[0xffff], 0xaa);
    assert_eq!(mem[0xfffe], 0xbb);

    mem.sp = 0x0001;
    mem.push(0xcc, 0xdd);
    assert_eq!(mem.sp, 0xffff);
    assert_eq!(mem[0x0000], 0xcc);
    assert_eq!(mem[0xffff], 0xdd);
}

#[test]
fn push_then_two_reads_give_the_bytes_back() {
    for sp in [0x0000u16, 0x0001, 0x0002, 0x2400, 0xfffe, 0xffff] {
        let mut mem = Memory::from_bytes(Vec::new());
        mem.sp = sp;
        mem.push(0x12, 0x34);
        assert_eq!(mem.read_sp8(), 0x34);
        assert_eq!(mem.read_sp8(), 0x12);
        assert_eq!(mem.sp, sp);
    }
}

#[test]
fn call_pushes_the_program_counter() {
    let mut mem = Memory::from_bytes(Vec::new());
    mem.pc = 0x0103;
    mem.sp = 0x2400;
    mem.call(0x1234, true);
    assert_eq!(mem.pc, 0x1234);
    assert_eq!(mem.sp, 0x23fe);
    assert_eq!(mem[0x23ff], 0x01);
    assert_eq!(mem[0x23fe], 0x03);
}

#[test]
fn call_does_nothing_if_the_condition_fails() {
    let mut mem = Memory::from_bytes(Vec::new());
    mem.pc = 0x0103;
    mem.sp = 0x2400;
    mem.call(0x1234, false);
    assert_eq!(mem.pc, 0x0103);
    assert_eq!(mem.sp, 0x2400);
    assert_eq!(mem[0x23ff], 0);
    assert_eq!(mem[0x23fe], 0);
}

#[test]
fn ret_pops_the_program_counter() {
    let mut mem = Memory::from_bytes(Vec::new());
    mem[0x23fe] = 0x03;
    mem[0x23ff] = 0x01;
    mem.sp = 0x23fe;
    mem.pc = 0x1234;
    mem.ret(false);
    assert_eq!(mem.pc, 0x1234);
    assert_eq!(mem.sp, 0x23fe);
    mem.ret(true);
    assert_eq!(mem.pc, 0x0103);
    assert_eq!(mem.sp, 0x2400);
}

#[test]
fn ret_wraps_at_the_top_of_memory() {
    let mut mem = Memory::from_bytes(vec![0x12]);
    mem[0xffff] = 0x34;
    mem.sp = 0xffff;
    mem.ret(true);
    assert_eq!(mem.pc, 0x1234);
    assert_eq!(mem.sp, 0x0001);

    mem[0xfffe] = 0x78;
    mem[0xffff] = 0x56;
    mem.sp = 0xfffe;
    mem.ret(true);
    assert_eq!(mem.pc, 0x5678);
    assert_eq!(mem.sp, 0x0000);
}

#[test]
fn call_then_ret_comes_back() {
    for sp in [0x0000u16, 0x0001, 0x2400, 0xffff] {
        let mut mem = Memory::from_bytes(Vec::new());
        mem.pc = 0xbeef;
        mem.sp = sp;
        mem.call(0x0040, true);
        assert_eq!(mem.pc, 0x0040);
        assert_eq!(mem.sp, sp.wrapping_sub(2));
        mem.ret(true);
        assert_eq!(mem.pc, 0xbeef);
        assert_eq!(mem.sp, sp);
    }
}
