use intel8080::instr::Cond;
use intel8080::instr::Instr;
use intel8080::instr::Operand;
use intel8080::instr::Pair;
use intel8080::instr::Wide;
use intel8080::memory::Memory;
use intel8080::opcode::Opcode;

/// For each first byte, the name of the instruction and what follows the
/// byte: nothing (`N`), one byte (`B`), a pair of bytes (`P`) or an address
/// (`A`).
const TABLE: [(&str, char); 256] = [
    ("NOP", 'N'), ("LXI_BC", 'P'), ("STAX_BC", 'N'), ("INX_BC", 'N'),
    ("INR_B", 'N'), ("DCR_B", 'N'), ("MVI_B", 'B'), ("RLC", 'N'),
    ("NOP", 'N'), ("DAD_BC", 'N'), ("LDAX_BC", 'N'), ("DCX_BC", 'N'),
    ("INR_C", 'N'), ("DCR_C", 'N'), ("MVI_C", 'B'), ("RRC", 'N'),
    ("NOP", 'N'), ("LXI_DE", 'P'), ("STAX_DE", 'N'), ("INX_DE", 'N'),
    ("INR_D", 'N'), ("DCR_D", 'N'), ("MVI_D", 'B'), ("RAL", 'N'),
    ("NOP", 'N'), ("DAD_DE", 'N'), ("LDAX_DE", 'N'), ("DCX_DE", 'N'),
    ("INR_E", 'N'), ("DCR_E", 'N'), ("MVI_E", 'B'), ("RAR", 'N'),
    ("NOP", 'N'), ("LXI_HL", 'P'), ("SHLD", 'A'), ("INX_HL", 'N'),
    ("INR_H", 'N'), ("DCR_H", 'N'), ("MVI_H", 'B'), ("DAA", 'N'),
    ("NOP", 'N'), ("DAD_HL", 'N'), ("LHLD", 'A'), ("DCX_HL", 'N'),
    ("INR_L", 'N'), ("DCR_L", 'N'), ("MVI_L", 'B'), ("CMA", 'N'),
    ("NOP", 'N'), ("LXI_SP", 'P'), ("STA", 'A'), ("INX_SP", 'N'),
    ("INR_M", 'N'), ("DCR_M", 'N'), ("MVI_M", 'B'), ("STC", 'N'),
    ("NOP", 'N'), ("DAD_SP", 'N'), ("LDA", 'A'), ("DCX_SP", 'N'),
    ("INR_A", 'N'), ("DCR_A", 'N'), ("MVI_A", 'B'), ("CMC", 'N'),
    ("MOV_BB", 'N'), ("MOV_BC", 'N'), ("MOV_BD", 'N'), ("MOV_BE", 'N'),
    ("MOV_BH", 'N'), ("MOV_BL", 'N'), ("MOV_BM", 'N'), ("MOV_BA", 'N'),
    ("MOV_CB", 'N'), ("MOV_CC", 'N'), ("MOV_CD", 'N'), ("MOV_CE", 'N'),
    ("MOV_CH", 'N'), ("MOV_CL", 'N'), ("MOV_CM", 'N'), ("MOV_CA", 'N'),
    ("MOV_DB", 'N'), ("MOV_DC", 'N'), ("MOV_DD", 'N'), ("MOV_DE", 'N'),
    ("MOV_DH", 'N'), ("MOV_DL", 'N'), ("MOV_DM", 'N'), ("MOV_DA", 'N'),
    ("MOV_EB", 'N'), ("MOV_EC", 'N'), ("MOV_ED", 'N'), ("MOV_EE", 'N'),
    ("MOV_EH", 'N'), ("MOV_EL", 'N'), ("MOV_EM", 'N'), ("MOV_EA", 'N'),
    ("MOV_HB", 'N'), ("MOV_HC", 'N'), ("MOV_HD", 'N'), ("MOV_HE", 'N'),
    ("MOV_HH", 'N'), ("MOV_HL", 'N'), ("MOV_HM", 'N'), ("MOV_HA", 'N'),
    ("MOV_LB", 'N'), ("MOV_LC", 'N'), ("MOV_LD", 'N'), ("MOV_LE", 'N'),
    ("MOV_LH", 'N'), ("MOV_LL", 'N'), ("MOV_LM", 'N'), ("MOV_LA", 'N'),
    ("MOV_MB", 'N'), ("MOV_MC", 'N'), ("MOV_MD", 'N'), ("MOV_ME", 'N'),
    ("MOV_MH", 'N'), ("MOV_ML", 'N'), ("HLT", 'N'), ("MOV_MA", 'N'),
    ("MOV_AB", 'N'), ("MOV_AC", 'N'), ("MOV_AD", 'N'), ("MOV_AE", 'N'),
    ("MOV_AH", 'N'), ("MOV_AL", 'N'), ("MOV_AM", 'N'), ("MOV_AA", 'N'),
    ("ADD_B", 'N'), ("ADD_C", 'N'), ("ADD_D", 'N'), ("ADD_E", 'N'),
    ("ADD_H", 'N'), ("ADD_L", 'N'), ("ADD_M", 'N'), ("ADD_A", 'N'),
    ("ADC_B", 'N'), ("ADC_C", 'N'), ("ADC_D", 'N'), ("ADC_E", 'N'),
    ("ADC_H", 'N'), ("ADC_L", 'N'), ("ADC_M", 'N'), ("ADC_A", 'N'),
    ("SUB_B", 'N'), ("SUB_C", 'N'), ("SUB_D", 'N'), ("SUB_E", 'N'),
    ("SUB_H", 'N'), ("SUB_L", 'N'), ("SUB_M", 'N'), ("SUB_A", 'N'),
    ("SBB_B", 'N'), ("SBB_C", 'N'), ("SBB_D", 'N'), ("SBB_E", 'N'),
    ("SBB_H", 'N'), ("SBB_L", 'N'), ("SBB_M", 'N'), ("SBB_A", 'N'),
    ("ANA_B", 'N'), ("ANA_C", 'N'), ("ANA_D", 'N'), ("ANA_E", 'N'),
    ("ANA_H", 'N'), ("ANA_L", 'N'), ("ANA_M", 'N'), ("ANA_A", 'N'),
    ("XRA_B", 'N'), ("XRA_C", 'N'), ("XRA_D", 'N'), ("XRA_E", 'N'),
    ("XRA_H", 'N'), ("XRA_L", 'N'), ("XRA_M", 'N'), ("XRA_A", 'N'),
    ("ORA_B", 'N'), ("ORA_C", 'N'), ("ORA_D", 'N'), ("ORA_E", 'N'),
    ("ORA_H", 'N'), ("ORA_L", 'N'), ("ORA_M", 'N'), ("ORA_A", 'N'),
    ("CMP_B", 'N'), ("CMP_C", 'N'), ("CMP_D", 'N'), ("CMP_E", 'N'),
    ("CMP_H", 'N'), ("CMP_L", 'N'), ("CMP_M", 'N'), ("CMP_A", 'N'),
    ("RNZ", 'N'), ("POP_BC", 'N'), ("JNZ", 'A'), ("JMP", 'A'),
    ("CNZ", 'A'), ("PUSH_BC", 'N'), ("ADI", 'B'), ("RST_0", 'N'),
    ("RZ", 'N'), ("RET", 'N'), ("JZ", 'A'), ("NOP", 'N'),
    ("CZ", 'A'), ("CALL", 'A'), ("ACI", 'B'), ("RST_1", 'N'),
    ("RNC", 'N'), ("POP_DE", 'N'), ("JNC", 'A'), ("OUT", 'B'),
    ("CNC", 'A'), ("PUSH_DE", 'N'), ("SUI", 'B'), ("RST_2", 'N'),
    ("RC", 'N'), ("NOP", 'N'), ("JC", 'A'), ("IN", 'B'),
    ("CC", 'A'), ("NOP", 'N'), ("SBI", 'B'), ("RST_3", 'N'),
    ("RPO", 'N'), ("POP_HL", 'N'), ("JPO", 'A'), ("XTHL", 'N'),
    ("CPO", 'A'), ("PUSH_HL", 'N'), ("ANI", 'B'), ("RST_4", 'N'),
    ("RPE", 'N'), ("PCHL", 'N'), ("JPE", 'A'), ("XCHG", 'N'),
    ("CPE", 'A'), ("NOP", 'N'), ("XRI", 'B'), ("RST_5", 'N'),
    ("RP", 'N'), ("POP_PSW", 'N'), ("JP", 'A'), ("DI", 'N'),
    ("CP", 'A'), ("PUSH_PSW", 'N'), ("ORI", 'B'), ("RST_6", 'N'),
    ("RM", 'N'), ("SPHL", 'N'), ("JM", 'A'), ("EI", 'N'),
    ("CM", 'A'), ("NOP", 'N'), ("CPI", 'B'), ("RST_7", 'N'),
];

fn length(kind: char) -> u16 {
    match kind {
        'N' => 1,
        'B' => 2,
        _ => 3,
    }
}

#[test]
fn decodes_every_byte_as_tabulated() {
    for b0 in 0..=255u8 {
        let (name, kind) = TABLE[b0 as usize];
        let expected = match kind {
            'N' => format!("{}", name),
            'B' => format!("{}({})", name, 0x34),
            'P' => format!("{}({}, {})", name, 0x34, 0x12),
            _ => format!("{}({})", name, 0x1234),
        };
        let opcode = Opcode::decode(b0, 0x34, 0x12);
        assert_eq!(format!("{:?}", opcode), expected, "byte {:#04x}", b0);
    }
}

#[test]
fn every_byte_consumes_its_documented_length() {
    for b0 in 0..=255u8 {
        let (_, kind) = TABLE[b0 as usize];
        let mut mem = Memory::from_bytes(vec![0x00, 0x00, b0, 0x34, 0x12]);
        mem.pc = 2;
        mem.sp = 0x4000;
        let opcode = mem.read_opcode();
        assert_eq!(mem.pc, 2 + length(kind), "byte {:#04x}", b0);
        assert_eq!(opcode.instr().size(), length(kind), "byte {:#04x}", b0);
        assert_eq!(opcode, Opcode::decode(b0, 0x34, 0x12));
        assert_eq!(mem.sp, 0x4000);
        assert_eq!(mem.bytes_read, 5);
        assert_eq!(mem[2], b0);
        assert_eq!(mem[3], 0x34);
        assert_eq!(mem[4], 0x12);
    }
}

#[test]
fn lengths_follow_the_data_sheet() {
    let three: [u8; 26] = [
        0x01, 0x11, 0x21, 0x31, 0x22, 0x2a, 0x32, 0x3a, 0xc3, 0xcd, 0xc2, 0xca, 0xd2, 0xda, 0xe2,
        0xea, 0xf2, 0xfa, 0xc4, 0xcc, 0xd4, 0xdc, 0xe4, 0xec, 0xf4, 0xfc,
    ];
    let two: [u8; 18] = [
        0x06, 0x0e, 0x16, 0x1e, 0x26, 0x2e, 0x36, 0x3e, 0xc6, 0xce, 0xd6, 0xde, 0xe6, 0xee, 0xf6,
        0xfe, 0xd3, 0xdb,
    ];
    for b0 in 0..=255u8 {
        let expected = if three.contains(&b0) {
            3
        } else if two.contains(&b0) {
            2
        } else {
            1
        };
        assert_eq!(Opcode::decode(b0, 0, 0).instr().size(), expected, "byte {:#04x}", b0);
    }
}

#[test]
fn undocumented_bytes_decode_as_nop() {
    for b0 in [0x08u8, 0x10, 0x18, 0x20, 0x28, 0x30, 0x38, 0xcb, 0xd9, 0xdd, 0xed, 0xfd] {
        assert_eq!(Opcode::decode(b0, 0xaa, 0xbb), Opcode::NOP);
        assert_eq!(Opcode::decode(b0, 0xaa, 0xbb).instr(), Instr::Nop);
    }
    assert_eq!(Opcode::decode(0x00, 0xaa, 0xbb), Opcode::NOP);
}

#[test]
fn address_operands_are_little_endian() {
    assert_eq!(Opcode::decode(0xc3, 0x34, 0x12), Opcode::JMP(0x1234));
    assert_eq!(Opcode::decode(0xcd, 0xff, 0x00), Opcode::CALL(0x00ff));
    assert_eq!(Opcode::decode(0x3a, 0x00, 0x80), Opcode::LDA(0x8000));
    assert_eq!(Opcode::decode(0x32, 0x01, 0x02), Opcode::STA(0x0201));
    assert_eq!(Opcode::decode(0x2a, 0xcd, 0xab), Opcode::LHLD(0xabcd));
    assert_eq!(Opcode::decode(0x22, 0xfe, 0xff), Opcode::SHLD(0xfffe));
    assert_eq!(Opcode::decode(0xfa, 0x78, 0x56), Opcode::JM(0x5678));
}

#[test]
fn lxi_carries_the_low_byte_first() {
    assert_eq!(Opcode::decode(0x01, 0x34, 0x12), Opcode::LXI_BC(0x34, 0x12));
    assert_eq!(Opcode::decode(0x31, 0x00, 0x24), Opcode::LXI_SP(0x00, 0x24));
    assert_eq!(Opcode::LXI_HL(0x34, 0x12).instr(), Instr::Lxi(Wide::HL, 0x34, 0x12));
}

#[test]
fn one_byte_instructions_ignore_what_follows() {
    for b0 in 0..=255u8 {
        let opcode = Opcode::decode(b0, 0x00, 0x00);
        match opcode.instr().size() {
            1 => assert_eq!(Opcode::decode(b0, 0xaa, 0xbb), opcode),
            2 => {
                assert_eq!(Opcode::decode(b0, 0x00, 0xbb), opcode);
                assert_ne!(Opcode::decode(b0, 0x01, 0x00), opcode);
            }
            _ => {
                assert_ne!(Opcode::decode(b0, 0x01, 0x00), opcode);
                assert_ne!(Opcode::decode(b0, 0x00, 0x01), opcode);
            }
        }
    }
}

#[test]
fn read_opcode_moves_past_each_instruction() {
    let mut mem = Memory::from_bytes(vec![0x3e, 0x05, 0xc3, 0x10, 0x20, 0x76]);
    assert_eq!(mem.read_opcode(), Opcode::MVI_A(5));
    assert_eq!(mem.pc, 2);
    assert_eq!(mem.read_opcode(), Opcode::JMP(0x2010));
    assert_eq!(mem.pc, 5);
    assert_eq!(mem.read_opcode(), Opcode::HLT);
    assert_eq!(mem.pc, 6);
    assert_eq!(mem.read_opcode(), Opcode::NOP);
    assert_eq!(mem.pc, 7);
}

#[test]
fn read_opcode_wraps_at_the_end_of_memory() {
    let mut mem = Memory::from_bytes(vec![0x34, 0x12]);
    mem[0xffff] = 0xc3;
    mem.pc = 0xffff;
    assert_eq!(mem.read_opcode(), Opcode::JMP(0x1234));
    assert_eq!(mem.pc, 0x0002);

    mem[0xfffe] = 0x3e;
    mem[0xffff] = 0x77;
    mem.pc = 0xfffe;
    assert_eq!(mem.read_opcode(), Opcode::MVI_A(0x77));
    assert_eq!(mem.pc, 0x0000);
}

#[test]
fn opcodes_name_their_operands() {
    assert_eq!(Opcode::MOV_BC.instr(), Instr::Mov(Operand::B, Operand::C));
    assert_eq!(Opcode::MOV_MA.instr(), Instr::Mov(Operand::M, Operand::A));
    assert_eq!(Opcode::MVI_M(7).instr(), Instr::Mvi(Operand::M, 7));
    assert_eq!(Opcode::PUSH_DE.instr(), Instr::Push(Pair::DE));
    assert_eq!(Opcode::POP_PSW.instr(), Instr::PopPsw);
    assert_eq!(Opcode::JPE(0x0102).instr(), Instr::Jcc(Cond::PE, 0x0102));
    assert_eq!(Opcode::CNC(0x0102).instr(), Instr::Ccc(Cond::NC, 0x0102));
    assert_eq!(Opcode::RM.instr(), Instr::Rcc(Cond::M));
    assert_eq!(Opcode::RST_5.instr(), Instr::Rst(5));
    assert_eq!(Opcode::DAD_SP.instr(), Instr::Dad(Wide::SP));
    assert_eq!(Opcode::HLT.instr(), Instr::Hlt);
}

#[test]
fn halt_takes_the_place_of_a_memory_to_memory_move() {
    assert_eq!(Opcode::decode(0x76, 0, 0), Opcode::HLT);
    assert_eq!(Opcode::decode(0x75, 0, 0), Opcode::MOV_ML);
    assert_eq!(Opcode::decode(0x77, 0, 0), Opcode::MOV_MA);
}
