//! The decoded instructions, one variant for each instruction and choice of
//! registers.

use vstd::prelude::*;
use crate::bits::join;
use crate::instr::decode;
use crate::instr::AluOp;
use crate::instr::Cond;
use crate::instr::Instr;
use crate::instr::Operand;
use crate::instr::Pair;
use crate::instr::Wide;

verus! {

/// A decoded instruction, under its mnemonic. Where the instruction names
/// registers they are part of the variant's name: the destination before the
/// source for `MOV`, and `M` for the memory byte that H,L addresses. So a
/// variant carries only what followed the first byte: one byte, an address,
/// or for `LXI` two bytes, the low one first.
///
/// The variants stand in the order in which their first bytes come, from
/// `NOP` for 0x00 to `RST_7` for 0xff.
#[allow(non_camel_case_types)]
#[derive(Clone, Copy, Debug, PartialEq, Eq, Structural)]
pub enum Opcode {
    NOP,
    LXI_BC(u8, u8),
    STAX_BC,
    INX_BC,
    INR_B,
    DCR_B,
    MVI_B(u8),
    RLC,
    DAD_BC,
    LDAX_BC,
    DCX_BC,
    INR_C,
    DCR_C,
    MVI_C(u8),
    RRC,
    LXI_DE(u8, u8),
    STAX_DE,
    INX_DE,
    INR_D,
    DCR_D,
    MVI_D(u8),
    RAL,
    DAD_DE,
    LDAX_DE,
    DCX_DE,
    INR_E,
    DCR_E,
    MVI_E(u8),
    RAR,
    LXI_HL(u8, u8),
    SHLD(u16),
    INX_HL,
    INR_H,
    DCR_H,
    MVI_H(u8),
    DAA,
    DAD_HL,
    LHLD(u16),
    DCX_HL,
    INR_L,
    DCR_L,
    MVI_L(u8),
    CMA,
    LXI_SP(u8, u8),
    STA(u16),
    INX_SP,
    INR_M,
    DCR_M,
    MVI_M(u8),
    STC,
    DAD_SP,
    LDA(u16),
    DCX_SP,
    INR_A,
    DCR_A,
    MVI_A(u8),
    CMC,
    MOV_BB,
    MOV_BC,
    MOV_BD,
    MOV_BE,
    MOV_BH,
    MOV_BL,
    MOV_BM,
    MOV_BA,
    MOV_CB,
    MOV_CC,
    MOV_CD,
    MOV_CE,
    MOV_CH,
    MOV_CL,
    MOV_CM,
    MOV_CA,
    MOV_DB,
    MOV_DC,
    MOV_DD,
    MOV_DE,
    MOV_DH,
    MOV_DL,
    MOV_DM,
    MOV_DA,
    MOV_EB,
    MOV_EC,
    MOV_ED,
    MOV_EE,
    MOV_EH,
    MOV_EL,
    MOV_EM,
    MOV_EA,
    MOV_HB,
    MOV_HC,
    MOV_HD,
    MOV_HE,
    MOV_HH,
    MOV_HL,
    MOV_HM,
    MOV_HA,
    MOV_LB,
    MOV_LC,
    MOV_LD,
    MOV_LE,
    MOV_LH,
    MOV_LL,
    MOV_LM,
    MOV_LA,
    MOV_MB,
    MOV_MC,
    MOV_MD,
    MOV_ME,
    MOV_MH,
    MOV_ML,
    HLT,
    MOV_MA,
    MOV_AB,
    MOV_AC,
    MOV_AD,
    MOV_AE,
    MOV_AH,
    MOV_AL,
    MOV_AM,
    MOV_AA,
    ADD_B,
    ADD_C,
    ADD_D,
    ADD_E,
    ADD_H,
    ADD_L,
    ADD_M,
    ADD_A,
    ADC_B,
    ADC_C,
    ADC_D,
    ADC_E,
    ADC_H,
    ADC_L,
    ADC_M,
    ADC_A,
    SUB_B,
    SUB_C,
    SUB_D,
    SUB_E,
    SUB_H,
    SUB_L,
    SUB_M,
    SUB_A,
    SBB_B,
    SBB_C,
    SBB_D,
    SBB_E,
    SBB_H,
    SBB_L,
    SBB_M,
    SBB_A,
    ANA_B,
    ANA_C,
    ANA_D,
    ANA_E,
    ANA_H,
    ANA_L,
    ANA_M,
    ANA_A,
    XRA_B,
    XRA_C,
    XRA_D,
    XRA_E,
    XRA_H,
    XRA_L,
    XRA_M,
    XRA_A,
    ORA_B,
    ORA_C,
    ORA_D,
    ORA_E,
    ORA_H,
    ORA_L,
    ORA_M,
    ORA_A,
    CMP_B,
    CMP_C,
    CMP_D,
    CMP_E,
    CMP_H,
    CMP_L,
    CMP_M,
    CMP_A,
    RNZ,
    POP_BC,
    JNZ(u16),
    JMP(u16),
    CNZ(u16),
    PUSH_BC,
    ADI(u8),
    RST_0,
    RZ,
    RET,
    JZ(u16),
    CZ(u16),
    CALL(u16),
    ACI(u8),
    RST_1,
    RNC,
    POP_DE,
    JNC(u16),
    OUT(u8),
    CNC(u16),
    PUSH_DE,
    SUI(u8),
    RST_2,
    RC,
    JC(u16),
    IN(u8),
    CC(u16),
    SBI(u8),
    RST_3,
    RPO,
    POP_HL,
    JPO(u16),
    XTHL,
    CPO(u16),
    PUSH_HL,
    ANI(u8),
    RST_4,
    RPE,
    PCHL,
    JPE(u16),
    XCHG,
    CPE(u16),
    XRI(u8),
    RST_5,
    RP,
    POP_PSW,
    JP(u16),
    DI,
    CP(u16),
    PUSH_PSW,
    ORI(u8),
    RST_6,
    RM,
    SPHL,
    JM(u16),
    EI,
    CM(u16),
    CPI(u8),
    RST_7,
}

impl View for Opcode {
    type V = Instr;

    /// What the instruction does and to which operands.
    open spec fn view(&self) -> Instr {
        match *self {
            Opcode::NOP => Instr::Nop,
            Opcode::LXI_BC(rl, rh) => Instr::Lxi(Wide::BC, rl, rh),
            Opcode::STAX_BC => Instr::Stax(Pair::BC),
            Opcode::INX_BC => Instr::Inx(Wide::BC),
            Opcode::INR_B => Instr::Inr(Operand::B),
            Opcode::DCR_B => Instr::Dcr(Operand::B),
            Opcode::MVI_B(d8) => Instr::Mvi(Operand::B, d8),
            Opcode::RLC => Instr::Rlc,
            Opcode::DAD_BC => Instr::Dad(Wide::BC),
            Opcode::LDAX_BC => Instr::Ldax(Pair::BC),
            Opcode::DCX_BC => Instr::Dcx(Wide::BC),
            Opcode::INR_C => Instr::Inr(Operand::C),
            Opcode::DCR_C => Instr::Dcr(Operand::C),
            Opcode::MVI_C(d8) => Instr::Mvi(Operand::C, d8),
            Opcode::RRC => Instr::Rrc,
            Opcode::LXI_DE(rl, rh) => Instr::Lxi(Wide::DE, rl, rh),
            Opcode::STAX_DE => Instr::Stax(Pair::DE),
            Opcode::INX_DE => Instr::Inx(Wide::DE),
            Opcode::INR_D => Instr::Inr(Operand::D),
            Opcode::DCR_D => Instr::Dcr(Operand::D),
            Opcode::MVI_D(d8) => Instr::Mvi(Operand::D, d8),
            Opcode::RAL => Instr::Ral,
            Opcode::DAD_DE => Instr::Dad(Wide::DE),
            Opcode::LDAX_DE => Instr::Ldax(Pair::DE),
            Opcode::DCX_DE => Instr::Dcx(Wide::DE),
            Opcode::INR_E => Instr::Inr(Operand::E),
            Opcode::DCR_E => Instr::Dcr(Operand::E),
            Opcode::MVI_E(d8) => Instr::Mvi(Operand::E, d8),
            Opcode::RAR => Instr::Rar,
            Opcode::LXI_HL(rl, rh) => Instr::Lxi(Wide::HL, rl, rh),
            Opcode::SHLD(adr) => Instr::Shld(adr),
            Opcode::INX_HL => Instr::Inx(Wide::HL),
            Opcode::INR_H => Instr::Inr(Operand::H),
            Opcode::DCR_H => Instr::Dcr(Operand::H),
            Opcode::MVI_H(d8) => Instr::Mvi(Operand::H, d8),
            Opcode::DAA => Instr::Daa,
            Opcode::DAD_HL => Instr::Dad(Wide::HL),
            Opcode::LHLD(adr) => Instr::Lhld(adr),
            Opcode::DCX_HL => Instr::Dcx(Wide::HL),
            Opcode::INR_L => Instr::Inr(Operand::L),
            Opcode::DCR_L => Instr::Dcr(Operand::L),
            Opcode::MVI_L(d8) => Instr::Mvi(Operand::L, d8),
            Opcode::CMA => Instr::Cma,
            Opcode::LXI_SP(rl, rh) => Instr::Lxi(Wide::SP, rl, rh),
            Opcode::STA(adr) => Instr::Sta(adr),
            Opcode::INX_SP => Instr::Inx(Wide::SP),
            Opcode::INR_M => Instr::Inr(Operand::M),
            Opcode::DCR_M => Instr::Dcr(Operand::M),
            Opcode::MVI_M(d8) => Instr::Mvi(Operand::M, d8),
            Opcode::STC => Instr::Stc,
            Opcode::DAD_SP => Instr::Dad(Wide::SP),
            Opcode::LDA(adr) => Instr::Lda(adr),
            Opcode::DCX_SP => Instr::Dcx(Wide::SP),
            Opcode::INR_A => Instr::Inr(Operand::A),
            Opcode::DCR_A => Instr::Dcr(Operand::A),
            Opcode::MVI_A(d8) => Instr::Mvi(Operand::A, d8),
            Opcode::CMC => Instr::Cmc,
            Opcode::MOV_BB => Instr::Mov(Operand::B, Operand::B),
            Opcode::MOV_BC => Instr::Mov(Operand::B, Operand::C),
            Opcode::MOV_BD => Instr::Mov(Operand::B, Operand::D),
            Opcode::MOV_BE => Instr::Mov(Operand::B, Operand::E),
            Opcode::MOV_BH => Instr::Mov(Operand::B, Operand::H),
            Opcode::MOV_BL => Instr::Mov(Operand::B, Operand::L),
            Opcode::MOV_BM => Instr::Mov(Operand::B, Operand::M),
            Opcode::MOV_BA => Instr::Mov(Operand::B, Operand::A),
            Opcode::MOV_CB => Instr::Mov(Operand::C, Operand::B),
            Opcode::MOV_CC => Instr::Mov(Operand::C, Operand::C),
            Opcode::MOV_CD => Instr::Mov(Operand::C, Operand::D),
            Opcode::MOV_CE => Instr::Mov(Operand::C, Operand::E),
            Opcode::MOV_CH => Instr::Mov(Operand::C, Operand::H),
            Opcode::MOV_CL => Instr::Mov(Operand::C, Operand::L),
            Opcode::MOV_CM => Instr::Mov(Operand::C, Operand::M),
            Opcode::MOV_CA => Instr::Mov(Operand::C, Operand::A),
            Opcode::MOV_DB => Instr::Mov(Operand::D, Operand::B),
            Opcode::MOV_DC => Instr::Mov(Operand::D, Operand::C),
            Opcode::MOV_DD => Instr::Mov(Operand::D, Operand::D),
            Opcode::MOV_DE => Instr::Mov(Operand::D, Operand::E),
            Opcode::MOV_DH => Instr::Mov(Operand::D, Operand::H),
            Opcode::MOV_DL => Instr::Mov(Operand::D, Operand::L),
            Opcode::MOV_DM => Instr::Mov(Operand::D, Operand::M),
            Opcode::MOV_DA => Instr::Mov(Operand::D, Operand::A),
            Opcode::MOV_EB => Instr::Mov(Operand::E, Operand::B),
            Opcode::MOV_EC => Instr::Mov(Operand::E, Operand::C),
            Opcode::MOV_ED => Instr::Mov(Operand::E, Operand::D),
            Opcode::MOV_EE => Instr::Mov(Operand::E, Operand::E),
            Opcode::MOV_EH => Instr::Mov(Operand::E, Operand::H),
            Opcode::MOV_EL => Instr::Mov(Operand::E, Operand::L),
            Opcode::MOV_EM => Instr::Mov(Operand::E, Operand::M),
            Opcode::MOV_EA => Instr::Mov(Operand::E, Operand::A),
            Opcode::MOV_HB => Instr::Mov(Operand::H, Operand::B),
            Opcode::MOV_HC => Instr::Mov(Operand::H, Operand::C),
            Opcode::MOV_HD => Instr::Mov(Operand::H, Operand::D),
            Opcode::MOV_HE => Instr::Mov(Operand::H, Operand::E),
            Opcode::MOV_HH => Instr::Mov(Operand::H, Operand::H),
            Opcode::MOV_HL => Instr::Mov(Operand::H, Operand::L),
            Opcode::MOV_HM => Instr::Mov(Operand::H, Operand::M),
            Opcode::MOV_HA => Instr::Mov(Operand::H, Operand::A),
            Opcode::MOV_LB => Instr::Mov(Operand::L, Operand::B),
            Opcode::MOV_LC => Instr::Mov(Operand::L, Operand::C),
            Opcode::MOV_LD => Instr::Mov(Operand::L, Operand::D),
            Opcode::MOV_LE => Instr::Mov(Operand::L, Operand::E),
            Opcode::MOV_LH => Instr::Mov(Operand::L, Operand::H),
            Opcode::MOV_LL => Instr::Mov(Operand::L, Operand::L),
            Opcode::MOV_LM => Instr::Mov(Operand::L, Operand::M),
            Opcode::MOV_LA => Instr::Mov(Operand::L, Operand::A),
            Opcode::MOV_MB => Instr::Mov(Operand::M, Operand::B),
            Opcode::MOV_MC => Instr::Mov(Operand::M, Operand::C),
            Opcode::MOV_MD => Instr::Mov(Operand::M, Operand::D),
            Opcode::MOV_ME => Instr::Mov(Operand::M, Operand::E),
            Opcode::MOV_MH => Instr::Mov(Operand::M, Operand::H),
            Opcode::MOV_ML => Instr::Mov(Operand::M, Operand::L),
            Opcode::HLT => Instr::Hlt,
            Opcode::MOV_MA => Instr::Mov(Operand::M, Operand::A),
            Opcode::MOV_AB => Instr::Mov(Operand::A, Operand::B),
            Opcode::MOV_AC => Instr::Mov(Operand::A, Operand::C),
            Opcode::MOV_AD => Instr::Mov(Operand::A, Operand::D),
            Opcode::MOV_AE => Instr::Mov(Operand::A, Operand::E),
            Opcode::MOV_AH => Instr::Mov(Operand::A, Operand::H),
            Opcode::MOV_AL => Instr::Mov(Operand::A, Operand::L),
            Opcode::MOV_AM => Instr::Mov(Operand::A, Operand::M),
            Opcode::MOV_AA => Instr::Mov(Operand::A, Operand::A),
            Opcode::ADD_B => Instr::Alu(AluOp::Add, Operand::B),
            Opcode::ADD_C => Instr::Alu(AluOp::Add, Operand::C),
            Opcode::ADD_D => Instr::Alu(AluOp::Add, Operand::D),
            Opcode::ADD_E => Instr::Alu(AluOp::Add, Operand::E),
            Opcode::ADD_H => Instr::Alu(AluOp::Add, Operand::H),
            Opcode::ADD_L => Instr::Alu(AluOp::Add, Operand::L),
            Opcode::ADD_M => Instr::Alu(AluOp::Add, Operand::M),
            Opcode::ADD_A => Instr::Alu(AluOp::Add, Operand::A),
            Opcode::ADC_B => Instr::Alu(AluOp::Adc, Operand::B),
            Opcode::ADC_C => Instr::Alu(AluOp::Adc, Operand::C),
            Opcode::ADC_D => Instr::Alu(AluOp::Adc, Operand::D),
            Opcode::ADC_E => Instr::Alu(AluOp::Adc, Operand::E),
            Opcode::ADC_H => Instr::Alu(AluOp::Adc, Operand::H),
            Opcode::ADC_L => Instr::Alu(AluOp::Adc, Operand::L),
            Opcode::ADC_M => Instr::Alu(AluOp::Adc, Operand::M),
            Opcode::ADC_A => Instr::Alu(AluOp::Adc, Operand::A),
            Opcode::SUB_B => Instr::Alu(AluOp::Sub, Operand::B),
            Opcode::SUB_C => Instr::Alu(AluOp::Sub, Operand::C),
            Opcode::SUB_D => Instr::Alu(AluOp::Sub, Operand::D),
            Opcode::SUB_E => Instr::Alu(AluOp::Sub, Operand::E),
            Opcode::SUB_H => Instr::Alu(AluOp::Sub, Operand::H),
            Opcode::SUB_L => Instr::Alu(AluOp::Sub, Operand::L),
            Opcode::SUB_M => Instr::Alu(AluOp::Sub, Operand::M),
            Opcode::SUB_A => Instr::Alu(AluOp::Sub, Operand::A),
            Opcode::SBB_B => Instr::Alu(AluOp::Sbb, Operand::B),
            Opcode::SBB_C => Instr::Alu(AluOp::Sbb, Operand::C),
            Opcode::SBB_D => Instr::Alu(AluOp::Sbb, Operand::D),
            Opcode::SBB_E => Instr::Alu(AluOp::Sbb, Operand::E),
            Opcode::SBB_H => Instr::Alu(AluOp::Sbb, Operand::H),
            Opcode::SBB_L => Instr::Alu(AluOp::Sbb, Operand::L),
            Opcode::SBB_M => Instr::Alu(AluOp::Sbb, Operand::M),
            Opcode::SBB_A => Instr::Alu(AluOp::Sbb, Operand::A),
            Opcode::ANA_B => Instr::Alu(AluOp::And, Operand::B),
            Opcode::ANA_C => Instr::Alu(AluOp::And, Operand::C),
            Opcode::ANA_D => Instr::Alu(AluOp::And, Operand::D),
            Opcode::ANA_E => Instr::Alu(AluOp::And, Operand::E),
            Opcode::ANA_H => Instr::Alu(AluOp::And, Operand::H),
            Opcode::ANA_L => Instr::Alu(AluOp::And, Operand::L),
            Opcode::ANA_M => Instr::Alu(AluOp::And, Operand::M),
            Opcode::ANA_A => Instr::Alu(AluOp::And, Operand::A),
            Opcode::XRA_B => Instr::Alu(AluOp::Xor, Operand::B),
            Opcode::XRA_C => Instr::Alu(AluOp::Xor, Operand::C),
            Opcode::XRA_D => Instr::Alu(AluOp::Xor, Operand::D),
            Opcode::XRA_E => Instr::Alu(AluOp::Xor, Operand::E),
            Opcode::XRA_H => Instr::Alu(AluOp::Xor, Operand::H),
            Opcode::XRA_L => Instr::Alu(AluOp::Xor, Operand::L),
            Opcode::XRA_M => Instr::Alu(AluOp::Xor, Operand::M),
            Opcode::XRA_A => Instr::Alu(AluOp::Xor, Operand::A),
            Opcode::ORA_B => Instr::Alu(AluOp::Or, Operand::B),
            Opcode::ORA_C => Instr::Alu(AluOp::Or, Operand::C),
            Opcode::ORA_D => Instr::Alu(AluOp::Or, Operand::D),
            Opcode::ORA_E => Instr::Alu(AluOp::Or, Operand::E),
            Opcode::ORA_H => Instr::Alu(AluOp::Or, Operand::H),
            Opcode::ORA_L => Instr::Alu(AluOp::Or, Operand::L),
            Opcode::ORA_M => Instr::Alu(AluOp::Or, Operand::M),
            Opcode::ORA_A => Instr::Alu(AluOp::Or, Operand::A),
            Opcode::CMP_B => Instr::Alu(AluOp::Cmp, Operand::B),
            Opcode::CMP_C => Instr::Alu(AluOp::Cmp, Operand::C),
            Opcode::CMP_D => Instr::Alu(AluOp::Cmp, Operand::D),
            Opcode::CMP_E => Instr::Alu(AluOp::Cmp, Operand::E),
            Opcode::CMP_H => Instr::Alu(AluOp::Cmp, Operand::H),
            Opcode::CMP_L => Instr::Alu(AluOp::Cmp, Operand::L),
            Opcode::CMP_M => Instr::Alu(AluOp::Cmp, Operand::M),
            Opcode::CMP_A => Instr::Alu(AluOp::Cmp, Operand::A),
            Opcode::RNZ => Instr::Rcc(Cond::NZ),
            Opcode::POP_BC => Instr::Pop(Pair::BC),
            Opcode::JNZ(adr) => Instr::Jcc(Cond::NZ, adr),
            Opcode::JMP(adr) => Instr::Jmp(adr),
            Opcode::CNZ(adr) => Instr::Ccc(Cond::NZ, adr),
            Opcode::PUSH_BC => Instr::Push(Pair::BC),
            Opcode::ADI(d8) => Instr::AluImm(AluOp::Add, d8),
            Opcode::RST_0 => Instr::Rst(0),
            Opcode::RZ => Instr::Rcc(Cond::Z),
            Opcode::RET => Instr::Ret,
            Opcode::JZ(adr) => Instr::Jcc(Cond::Z, adr),
            Opcode::CZ(adr) => Instr::Ccc(Cond::Z, adr),
            Opcode::CALL(adr) => Instr::Call(adr),
            Opcode::ACI(d8) => Instr::AluImm(AluOp::Adc, d8),
            Opcode::RST_1 => Instr::Rst(1),
            Opcode::RNC => Instr::Rcc(Cond::NC),
            Opcode::POP_DE => Instr::Pop(Pair::DE),
            Opcode::JNC(adr) => Instr::Jcc(Cond::NC, adr),
            Opcode::OUT(d8) => Instr::Out(d8),
            Opcode::CNC(adr) => Instr::Ccc(Cond::NC, adr),
            Opcode::PUSH_DE => Instr::Push(Pair::DE),
            Opcode::SUI(d8) => Instr::AluImm(AluOp::Sub, d8),
            Opcode::RST_2 => Instr::Rst(2),
            Opcode::RC => Instr::Rcc(Cond::C),
            Opcode::JC(adr) => Instr::Jcc(Cond::C, adr),
            Opcode::IN(d8) => Instr::In(d8),
            Opcode::CC(adr) => Instr::Ccc(Cond::C, adr),
            Opcode::SBI(d8) => Instr::AluImm(AluOp::Sbb, d8),
            Opcode::RST_3 => Instr::Rst(3),
            Opcode::RPO => Instr::Rcc(Cond::PO),
            Opcode::POP_HL => Instr::Pop(Pair::HL),
            Opcode::JPO(adr) => Instr::Jcc(Cond::PO, adr),
            Opcode::XTHL => Instr::Xthl,
            Opcode::CPO(adr) => Instr::Ccc(Cond::PO, adr),
            Opcode::PUSH_HL => Instr::Push(Pair::HL),
            Opcode::ANI(d8) => Instr::AluImm(AluOp::And, d8),
            Opcode::RST_4 => Instr::Rst(4),
            Opcode::RPE => Instr::Rcc(Cond::PE),
            Opcode::PCHL => Instr::Pchl,
            Opcode::JPE(adr) => Instr::Jcc(Cond::PE, adr),
            Opcode::XCHG => Instr::Xchg,
            Opcode::CPE(adr) => Instr::Ccc(Cond::PE, adr),
            Opcode::XRI(d8) => Instr::AluImm(AluOp::Xor, d8),
            Opcode::RST_5 => Instr::Rst(5),
            Opcode::RP => Instr::Rcc(Cond::P),
            Opcode::POP_PSW => Instr::PopPsw,
            Opcode::JP(adr) => Instr::Jcc(Cond::P, adr),
            Opcode::DI => Instr::Di,
            Opcode::CP(adr) => Instr::Ccc(Cond::P, adr),
            Opcode::PUSH_PSW => Instr::PushPsw,
            Opcode::ORI(d8) => Instr::AluImm(AluOp::Or, d8),
            Opcode::RST_6 => Instr::Rst(6),
            Opcode::RM => Instr::Rcc(Cond::M),
            Opcode::SPHL => Instr::Sphl,
            Opcode::JM(adr) => Instr::Jcc(Cond::M, adr),
            Opcode::EI => Instr::Ei,
            Opcode::CM(adr) => Instr::Ccc(Cond::M, adr),
            Opcode::CPI(d8) => Instr::AluImm(AluOp::Cmp, d8),
            Opcode::RST_7 => Instr::Rst(7),
        }
    }
}

impl Opcode {
    /// What the instruction does and to which operands.
    pub fn instr(&self) -> (instr: Instr)
        ensures
            instr == self@,
    {
        match *self {
            Opcode::NOP => Instr::Nop,
            Opcode::LXI_BC(rl, rh) => Instr::Lxi(Wide::BC, rl, rh),
            Opcode::STAX_BC => Instr::Stax(Pair::BC),
            Opcode::INX_BC => Instr::Inx(Wide::BC),
            Opcode::INR_B => Instr::Inr(Operand::B),
            Opcode::DCR_B => Instr::Dcr(Operand::B),
            Opcode::MVI_B(d8) => Instr::Mvi(Operand::B, d8),
            Opcode::RLC => Instr::Rlc,
            Opcode::DAD_BC => Instr::Dad(Wide::BC),
            Opcode::LDAX_BC => Instr::Ldax(Pair::BC),
            Opcode::DCX_BC => Instr::Dcx(Wide::BC),
            Opcode::INR_C => Instr::Inr(Operand::C),
            Opcode::DCR_C => Instr::Dcr(Operand::C),
            Opcode::MVI_C(d8) => Instr::Mvi(Operand::C, d8),
            Opcode::RRC => Instr::Rrc,
            Opcode::LXI_DE(rl, rh) => Instr::Lxi(Wide::DE, rl, rh),
            Opcode::STAX_DE => Instr::Stax(Pair::DE),
            Opcode::INX_DE => Instr::Inx(Wide::DE),
            Opcode::INR_D => Instr::Inr(Operand::D),
            Opcode::DCR_D => Instr::Dcr(Operand::D),
            Opcode::MVI_D(d8) => Instr::Mvi(Operand::D, d8),
            Opcode::RAL => Instr::Ral,
            Opcode::DAD_DE => Instr::Dad(Wide::DE),
            Opcode::LDAX_DE => Instr::Ldax(Pair::DE),
            Opcode::DCX_DE => Instr::Dcx(Wide::DE),
            Opcode::INR_E => Instr::Inr(Operand::E),
            Opcode::DCR_E => Instr::Dcr(Operand::E),
            Opcode::MVI_E(d8) => Instr::Mvi(Operand::E, d8),
            Opcode::RAR => Instr::Rar,
            Opcode::LXI_HL(rl, rh) => Instr::Lxi(Wide::HL, rl, rh),
            Opcode::SHLD(adr) => Instr::Shld(adr),
            Opcode::INX_HL => Instr::Inx(Wide::HL),
            Opcode::INR_H => Instr::Inr(Operand::H),
            Opcode::DCR_H => Instr::Dcr(Operand::H),
            Opcode::MVI_H(d8) => Instr::Mvi(Operand::H, d8),
            Opcode::DAA => Instr::Daa,
            Opcode::DAD_HL => Instr::Dad(Wide::HL),
            Opcode::LHLD(adr) => Instr::Lhld(adr),
            Opcode::DCX_HL => Instr::Dcx(Wide::HL),
            Opcode::INR_L => Instr::Inr(Operand::L),
            Opcode::DCR_L => Instr::Dcr(Operand::L),
            Opcode::MVI_L(d8) => Instr::Mvi(Operand::L, d8),
            Opcode::CMA => Instr::Cma,
            Opcode::LXI_SP(rl, rh) => Instr::Lxi(Wide::SP, rl, rh),
            Opcode::STA(adr) => Instr::Sta(adr),
            Opcode::INX_SP => Instr::Inx(Wide::SP),
            Opcode::INR_M => Instr::Inr(Operand::M),
            Opcode::DCR_M => Instr::Dcr(Operand::M),
            Opcode::MVI_M(d8) => Instr::Mvi(Operand::M, d8),
            Opcode::STC => Instr::Stc,
            Opcode::DAD_SP => Instr::Dad(Wide::SP),
            Opcode::LDA(adr) => Instr::Lda(adr),
            Opcode::DCX_SP => Instr::Dcx(Wide::SP),
            Opcode::INR_A => Instr::Inr(Operand::A),
            Opcode::DCR_A => Instr::Dcr(Operand::A),
            Opcode::MVI_A(d8) => Instr::Mvi(Operand::A, d8),
            Opcode::CMC => Instr::Cmc,
            Opcode::MOV_BB => Instr::Mov(Operand::B, Operand::B),
            Opcode::MOV_BC => Instr::Mov(Operand::B, Operand::C),
            Opcode::MOV_BD => Instr::Mov(Operand::B, Operand::D),
            Opcode::MOV_BE => Instr::Mov(Operand::B, Operand::E),
            Opcode::MOV_BH => Instr::Mov(Operand::B, Operand::H),
            Opcode::MOV_BL => Instr::Mov(Operand::B, Operand::L),
            Opcode::MOV_BM => Instr::Mov(Operand::B, Operand::M),
            Opcode::MOV_BA => Instr::Mov(Operand::B, Operand::A),
            Opcode::MOV_CB => Instr::Mov(Operand::C, Operand::B),
            Opcode::MOV_CC => Instr::Mov(Operand::C, Operand::C),
            Opcode::MOV_CD => Instr::Mov(Operand::C, Operand::D),
            Opcode::MOV_CE => Instr::Mov(Operand::C, Operand::E),
            Opcode::MOV_CH => Instr::Mov(Operand::C, Operand::H),
            Opcode::MOV_CL => Instr::Mov(Operand::C, Operand::L),
            Opcode::MOV_CM => Instr::Mov(Operand::C, Operand::M),
            Opcode::MOV_CA => Instr::Mov(Operand::C, Operand::A),
            Opcode::MOV_DB => Instr::Mov(Operand::D, Operand::B),
            Opcode::MOV_DC => Instr::Mov(Operand::D, Operand::C),
            Opcode::MOV_DD => Instr::Mov(Operand::D, Operand::D),
            Opcode::MOV_DE => Instr::Mov(Operand::D, Operand::E),
            Opcode::MOV_DH => Instr::Mov(Operand::D, Operand::H),
            Opcode::MOV_DL => Instr::Mov(Operand::D, Operand::L),
            Opcode::MOV_DM => Instr::Mov(Operand::D, Operand::M),
            Opcode::MOV_DA => Instr::Mov(Operand::D, Operand::A),
            Opcode::MOV_EB => Instr::Mov(Operand::E, Operand::B),
            Opcode::MOV_EC => Instr::Mov(Operand::E, Operand::C),
            Opcode::MOV_ED => Instr::Mov(Operand::E, Operand::D),
            Opcode::MOV_EE => Instr::Mov(Operand::E, Operand::E),
            Opcode::MOV_EH => Instr::Mov(Operand::E, Operand::H),
            Opcode::MOV_EL => Instr::Mov(Operand::E, Operand::L),
            Opcode::MOV_EM => Instr::Mov(Operand::E, Operand::M),
            Opcode::MOV_EA => Instr::Mov(Operand::E, Operand::A),
            Opcode::MOV_HB => Instr::Mov(Operand::H, Operand::B),
            Opcode::MOV_HC => Instr::Mov(Operand::H, Operand::C),
            Opcode::MOV_HD => Instr::Mov(Operand::H, Operand::D),
            Opcode::MOV_HE => Instr::Mov(Operand::H, Operand::E),
            Opcode::MOV_HH => Instr::Mov(Operand::H, Operand::H),
            Opcode::MOV_HL => Instr::Mov(Operand::H, Operand::L),
            Opcode::MOV_HM => Instr::Mov(Operand::H, Operand::M),
            Opcode::MOV_HA => Instr::Mov(Operand::H, Operand::A),
            Opcode::MOV_LB => Instr::Mov(Operand::L, Operand::B),
            Opcode::MOV_LC => Instr::Mov(Operand::L, Operand::C),
            Opcode::MOV_LD => Instr::Mov(Operand::L, Operand::D),
            Opcode::MOV_LE => Instr::Mov(Operand::L, Operand::E),
            Opcode::MOV_LH => Instr::Mov(Operand::L, Operand::H),
            Opcode::MOV_LL => Instr::Mov(Operand::L, Operand::L),
            Opcode::MOV_LM => Instr::Mov(Operand::L, Operand::M),
            Opcode::MOV_LA => Instr::Mov(Operand::L, Operand::A),
            Opcode::MOV_MB => Instr::Mov(Operand::M, Operand::B),
            Opcode::MOV_MC => Instr::Mov(Operand::M, Operand::C),
            Opcode::MOV_MD => Instr::Mov(Operand::M, Operand::D),
            Opcode::MOV_ME => Instr::Mov(Operand::M, Operand::E),
            Opcode::MOV_MH => Instr::Mov(Operand::M, Operand::H),
            Opcode::MOV_ML => Instr::Mov(Operand::M, Operand::L),
            Opcode::HLT => Instr::Hlt,
            Opcode::MOV_MA => Instr::Mov(Operand::M, Operand::A),
            Opcode::MOV_AB => Instr::Mov(Operand::A, Operand::B),
            Opcode::MOV_AC => Instr::Mov(Operand::A, Operand::C),
            Opcode::MOV_AD => Instr::Mov(Operand::A, Operand::D),
            Opcode::MOV_AE => Instr::Mov(Operand::A, Operand::E),
            Opcode::MOV_AH => Instr::Mov(Operand::A, Operand::H),
            Opcode::MOV_AL => Instr::Mov(Operand::A, Operand::L),
            Opcode::MOV_AM => Instr::Mov(Operand::A, Operand::M),
            Opcode::MOV_AA => Instr::Mov(Operand::A, Operand::A),
            Opcode::ADD_B => Instr::Alu(AluOp::Add, Operand::B),
            Opcode::ADD_C => Instr::Alu(AluOp::Add, Operand::C),
            Opcode::ADD_D => Instr::Alu(AluOp::Add, Operand::D),
            Opcode::ADD_E => Instr::Alu(AluOp::Add, Operand::E),
            Opcode::ADD_H => Instr::Alu(AluOp::Add, Operand::H),
            Opcode::ADD_L => Instr::Alu(AluOp::Add, Operand::L),
            Opcode::ADD_M => Instr::Alu(AluOp::Add, Operand::M),
            Opcode::ADD_A => Instr::Alu(AluOp::Add, Operand::A),
            Opcode::ADC_B => Instr::Alu(AluOp::Adc, Operand::B),
            Opcode::ADC_C => Instr::Alu(AluOp::Adc, Operand::C),
            Opcode::ADC_D => Instr::Alu(AluOp::Adc, Operand::D),
            Opcode::ADC_E => Instr::Alu(AluOp::Adc, Operand::E),
            Opcode::ADC_H => Instr::Alu(AluOp::Adc, Operand::H),
            Opcode::ADC_L => Instr::Alu(AluOp::Adc, Operand::L),
            Opcode::ADC_M => Instr::Alu(AluOp::Adc, Operand::M),
            Opcode::ADC_A => Instr::Alu(AluOp::Adc, Operand::A),
            Opcode::SUB_B => Instr::Alu(AluOp::Sub, Operand::B),
            Opcode::SUB_C => Instr::Alu(AluOp::Sub, Operand::C),
            Opcode::SUB_D => Instr::Alu(AluOp::Sub, Operand::D),
            Opcode::SUB_E => Instr::Alu(AluOp::Sub, Operand::E),
            Opcode::SUB_H => Instr::Alu(AluOp::Sub, Operand::H),
            Opcode::SUB_L => Instr::Alu(AluOp::Sub, Operand::L),
            Opcode::SUB_M => Instr::Alu(AluOp::Sub, Operand::M),
            Opcode::SUB_A => Instr::Alu(AluOp::Sub, Operand::A),
            Opcode::SBB_B => Instr::Alu(AluOp::Sbb, Operand::B),
            Opcode::SBB_C => Instr::Alu(AluOp::Sbb, Operand::C),
            Opcode::SBB_D => Instr::Alu(AluOp::Sbb, Operand::D),
            Opcode::SBB_E => Instr::Alu(AluOp::Sbb, Operand::E),
            Opcode::SBB_H => Instr::Alu(AluOp::Sbb, Operand::H),
            Opcode::SBB_L => Instr::Alu(AluOp::Sbb, Operand::L),
            Opcode::SBB_M => Instr::Alu(AluOp::Sbb, Operand::M),
            Opcode::SBB_A => Instr::Alu(AluOp::Sbb, Operand::A),
            Opcode::ANA_B => Instr::Alu(AluOp::And, Operand::B),
            Opcode::ANA_C => Instr::Alu(AluOp::And, Operand::C),
            Opcode::ANA_D => Instr::Alu(AluOp::And, Operand::D),
            Opcode::ANA_E => Instr::Alu(AluOp::And, Operand::E),
            Opcode::ANA_H => Instr::Alu(AluOp::And, Operand::H),
            Opcode::ANA_L => Instr::Alu(AluOp::And, Operand::L),
            Opcode::ANA_M => Instr::Alu(AluOp::And, Operand::M),
            Opcode::ANA_A => Instr::Alu(AluOp::And, Operand::A),
            Opcode::XRA_B => Instr::Alu(AluOp::Xor, Operand::B),
            Opcode::XRA_C => Instr::Alu(AluOp::Xor, Operand::C),
            Opcode::XRA_D => Instr::Alu(AluOp::Xor, Operand::D),
            Opcode::XRA_E => Instr::Alu(AluOp::Xor, Operand::E),
            Opcode::XRA_H => Instr::Alu(AluOp::Xor, Operand::H),
            Opcode::XRA_L => Instr::Alu(AluOp::Xor, Operand::L),
            Opcode::XRA_M => Instr::Alu(AluOp::Xor, Operand::M),
            Opcode::XRA_A => Instr::Alu(AluOp::Xor, Operand::A),
            Opcode::ORA_B => Instr::Alu(AluOp::Or, Operand::B),
            Opcode::ORA_C => Instr::Alu(AluOp::Or, Operand::C),
            Opcode::ORA_D => Instr::Alu(AluOp::Or, Operand::D),
            Opcode::ORA_E => Instr::Alu(AluOp::Or, Operand::E),
            Opcode::ORA_H => Instr::Alu(AluOp::Or, Operand::H),
            Opcode::ORA_L => Instr::Alu(AluOp::Or, Operand::L),
            Opcode::ORA_M => Instr::Alu(AluOp::Or, Operand::M),
            Opcode::ORA_A => Instr::Alu(AluOp::Or, Operand::A),
            Opcode::CMP_B => Instr::Alu(AluOp::Cmp, Operand::B),
            Opcode::CMP_C => Instr::Alu(AluOp::Cmp, Operand::C),
            Opcode::CMP_D => Instr::Alu(AluOp::Cmp, Operand::D),
            Opcode::CMP_E => Instr::Alu(AluOp::Cmp, Operand::E),
            Opcode::CMP_H => Instr::Alu(AluOp::Cmp, Operand::H),
            Opcode::CMP_L => Instr::Alu(AluOp::Cmp, Operand::L),
            Opcode::CMP_M => Instr::Alu(AluOp::Cmp, Operand::M),
            Opcode::CMP_A => Instr::Alu(AluOp::Cmp, Operand::A),
            Opcode::RNZ => Instr::Rcc(Cond::NZ),
            Opcode::POP_BC => Instr::Pop(Pair::BC),
            Opcode::JNZ(adr) => Instr::Jcc(Cond::NZ, adr),
            Opcode::JMP(adr) => Instr::Jmp(adr),
            Opcode::CNZ(adr) => Instr::Ccc(Cond::NZ, adr),
            Opcode::PUSH_BC => Instr::Push(Pair::BC),
            Opcode::ADI(d8) => Instr::AluImm(AluOp::Add, d8),
            Opcode::RST_0 => Instr::Rst(0),
            Opcode::RZ => Instr::Rcc(Cond::Z),
            Opcode::RET => Instr::Ret,
            Opcode::JZ(adr) => Instr::Jcc(Cond::Z, adr),
            Opcode::CZ(adr) => Instr::Ccc(Cond::Z, adr),
            Opcode::CALL(adr) => Instr::Call(adr),
            Opcode::ACI(d8) => Instr::AluImm(AluOp::Adc, d8),
            Opcode::RST_1 => Instr::Rst(1),
            Opcode::RNC => Instr::Rcc(Cond::NC),
            Opcode::POP_DE => Instr::Pop(Pair::DE),
            Opcode::JNC(adr) => Instr::Jcc(Cond::NC, adr),
            Opcode::OUT(d8) => Instr::Out(d8),
            Opcode::CNC(adr) => Instr::Ccc(Cond::NC, adr),
            Opcode::PUSH_DE => Instr::Push(Pair::DE),
            Opcode::SUI(d8) => Instr::AluImm(AluOp::Sub, d8),
            Opcode::RST_2 => Instr::Rst(2),
            Opcode::RC => Instr::Rcc(Cond::C),
            Opcode::JC(adr) => Instr::Jcc(Cond::C, adr),
            Opcode::IN(d8) => Instr::In(d8),
            Opcode::CC(adr) => Instr::Ccc(Cond::C, adr),
            Opcode::SBI(d8) => Instr::AluImm(AluOp::Sbb, d8),
            Opcode::RST_3 => Instr::Rst(3),
            Opcode::RPO => Instr::Rcc(Cond::PO),
            Opcode::POP_HL => Instr::Pop(Pair::HL),
            Opcode::JPO(adr) => Instr::Jcc(Cond::PO, adr),
            Opcode::XTHL => Instr::Xthl,
            Opcode::CPO(adr) => Instr::Ccc(Cond::PO, adr),
            Opcode::PUSH_HL => Instr::Push(Pair::HL),
            Opcode::ANI(d8) => Instr::AluImm(AluOp::And, d8),
            Opcode::RST_4 => Instr::Rst(4),
            Opcode::RPE => Instr::Rcc(Cond::PE),
            Opcode::PCHL => Instr::Pchl,
            Opcode::JPE(adr) => Instr::Jcc(Cond::PE, adr),
            Opcode::XCHG => Instr::Xchg,
            Opcode::CPE(adr) => Instr::Ccc(Cond::PE, adr),
            Opcode::XRI(d8) => Instr::AluImm(AluOp::Xor, d8),
            Opcode::RST_5 => Instr::Rst(5),
            Opcode::RP => Instr::Rcc(Cond::P),
            Opcode::POP_PSW => Instr::PopPsw,
            Opcode::JP(adr) => Instr::Jcc(Cond::P, adr),
            Opcode::DI => Instr::Di,
            Opcode::CP(adr) => Instr::Ccc(Cond::P, adr),
            Opcode::PUSH_PSW => Instr::PushPsw,
            Opcode::ORI(d8) => Instr::AluImm(AluOp::Or, d8),
            Opcode::RST_6 => Instr::Rst(6),
            Opcode::RM => Instr::Rcc(Cond::M),
            Opcode::SPHL => Instr::Sphl,
            Opcode::JM(adr) => Instr::Jcc(Cond::M, adr),
            Opcode::EI => Instr::Ei,
            Opcode::CM(adr) => Instr::Ccc(Cond::M, adr),
            Opcode::CPI(d8) => Instr::AluImm(AluOp::Cmp, d8),
            Opcode::RST_7 => Instr::Rst(7),
        }
    }

    /// Decodes an instruction from its first byte `b0` and the two bytes
    /// `b1` and `b2` that follow it. Every value of `b0` decodes. An
    /// instruction with one operand byte takes `b1`; one with an address
    /// takes `b1` as the low byte of the address and `b2` as the high one.
    #[verifier::rlimit(50)]
    pub fn decode(b0: u8, b1: u8, b2: u8) -> (opcode: Opcode)
        ensures
            opcode@ == decode(b0, b1, b2),
    {
        match b0 {
            0x00 => Opcode::NOP,
            0x01 => Opcode::LXI_BC(b1, b2),
            0x02 => Opcode::STAX_BC,
            0x03 => Opcode::INX_BC,
            0x04 => Opcode::INR_B,
            0x05 => Opcode::DCR_B,
            0x06 => Opcode::MVI_B(b1),
            0x07 => Opcode::RLC,
            0x08 => Opcode::NOP,
            0x09 => Opcode::DAD_BC,
            0x0a => Opcode::LDAX_BC,
            0x0b => Opcode::DCX_BC,
            0x0c => Opcode::INR_C,
            0x0d => Opcode::DCR_C,
            0x0e => Opcode::MVI_C(b1),
            0x0f => Opcode::RRC,
            0x10 => Opcode::NOP,
            0x11 => Opcode::LXI_DE(b1, b2),
            0x12 => Opcode::STAX_DE,
            0x13 => Opcode::INX_DE,
            0x14 => Opcode::INR_D,
            0x15 => Opcode::DCR_D,
            0x16 => Opcode::MVI_D(b1),
            0x17 => Opcode::RAL,
            0x18 => Opcode::NOP,
            0x19 => Opcode::DAD_DE,
            0x1a => Opcode::LDAX_DE,
            0x1b => Opcode::DCX_DE,
            0x1c => Opcode::INR_E,
            0x1d => Opcode::DCR_E,
            0x1e => Opcode::MVI_E(b1),
            0x1f => Opcode::RAR,
            0x20 => Opcode::NOP,
            0x21 => Opcode::LXI_HL(b1, b2),
            0x22 => Opcode::SHLD(join(b2, b1)),
            0x23 => Opcode::INX_HL,
            0x24 => Opcode::INR_H,
            0x25 => Opcode::DCR_H,
            0x26 => Opcode::MVI_H(b1),
            0x27 => Opcode::DAA,
            0x28 => Opcode::NOP,
            0x29 => Opcode::DAD_HL,
            0x2a => Opcode::LHLD(join(b2, b1)),
            0x2b => Opcode::DCX_HL,
            0x2c => Opcode::INR_L,
            0x2d => Opcode::DCR_L,
            0x2e => Opcode::MVI_L(b1),
            0x2f => Opcode::CMA,
            0x30 => Opcode::NOP,
            0x31 => Opcode::LXI_SP(b1, b2),
            0x32 => Opcode::STA(join(b2, b1)),
            0x33 => Opcode::INX_SP,
            0x34 => Opcode::INR_M,
            0x35 => Opcode::DCR_M,
            0x36 => Opcode::MVI_M(b1),
            0x37 => Opcode::STC,
            0x38 => Opcode::NOP,
            0x39 => Opcode::DAD_SP,
            0x3a => Opcode::LDA(join(b2, b1)),
            0x3b => Opcode::DCX_SP,
            0x3c => Opcode::INR_A,
            0x3d => Opcode::DCR_A,
            0x3e => Opcode::MVI_A(b1),
            0x3f => Opcode::CMC,
            0x40 => Opcode::MOV_BB,
            0x41 => Opcode::MOV_BC,
            0x42 => Opcode::MOV_BD,
            0x43 => Opcode::MOV_BE,
            0x44 => Opcode::MOV_BH,
            0x45 => Opcode::MOV_BL,
            0x46 => Opcode::MOV_BM,
            0x47 => Opcode::MOV_BA,
            0x48 => Opcode::MOV_CB,
            0x49 => Opcode::MOV_CC,
            0x4a => Opcode::MOV_CD,
            0x4b => Opcode::MOV_CE,
            0x4c => Opcode::MOV_CH,
            0x4d => Opcode::MOV_CL,
            0x4e => Opcode::MOV_CM,
            0x4f => Opcode::MOV_CA,
            0x50 => Opcode::MOV_DB,
            0x51 => Opcode::MOV_DC,
            0x52 => Opcode::MOV_DD,
            0x53 => Opcode::MOV_DE,
            0x54 => Opcode::MOV_DH,
            0x55 => Opcode::MOV_DL,
            0x56 => Opcode::MOV_DM,
            0x57 => Opcode::MOV_DA,
            0x58 => Opcode::MOV_EB,
            0x59 => Opcode::MOV_EC,
            0x5a => Opcode::MOV_ED,
            0x5b => Opcode::MOV_EE,
            0x5c => Opcode::MOV_EH,
            0x5d => Opcode::MOV_EL,
            0x5e => Opcode::MOV_EM,
            0x5f => Opcode::MOV_EA,
            0x60 => Opcode::MOV_HB,
            0x61 => Opcode::MOV_HC,
            0x62 => Opcode::MOV_HD,
            0x63 => Opcode::MOV_HE,
            0x64 => Opcode::MOV_HH,
            0x65 => Opcode::MOV_HL,
            0x66 => Opcode::MOV_HM,
            0x67 => Opcode::MOV_HA,
            0x68 => Opcode::MOV_LB,
            0x69 => Opcode::MOV_LC,
            0x6a => Opcode::MOV_LD,
            0x6b => Opcode::MOV_LE,
            0x6c => Opcode::MOV_LH,
            0x6d => Opcode::MOV_LL,
            0x6e => Opcode::MOV_LM,
            0x6f => Opcode::MOV_LA,
            0x70 => Opcode::MOV_MB,
            0x71 => Opcode::MOV_MC,
            0x72 => Opcode::MOV_MD,
            0x73 => Opcode::MOV_ME,
            0x74 => Opcode::MOV_MH,
            0x75 => Opcode::MOV_ML,
            0x76 => Opcode::HLT,
            0x77 => Opcode::MOV_MA,
            0x78 => Opcode::MOV_AB,
            0x79 => Opcode::MOV_AC,
            0x7a => Opcode::MOV_AD,
            0x7b => Opcode::MOV_AE,
            0x7c => Opcode::MOV_AH,
            0x7d => Opcode::MOV_AL,
            0x7e => Opcode::MOV_AM,
            0x7f => Opcode::MOV_AA,
            0x80 => Opcode::ADD_B,
            0x81 => Opcode::ADD_C,
            0x82 => Opcode::ADD_D,
            0x83 => Opcode::ADD_E,
            0x84 => Opcode::ADD_H,
            0x85 => Opcode::ADD_L,
            0x86 => Opcode::ADD_M,
            0x87 => Opcode::ADD_A,
            0x88 => Opcode::ADC_B,
            0x89 => Opcode::ADC_C,
            0x8a => Opcode::ADC_D,
            0x8b => Opcode::ADC_E,
            0x8c => Opcode::ADC_H,
            0x8d => Opcode::ADC_L,
            0x8e => Opcode::ADC_M,
            0x8f => Opcode::ADC_A,
            0x90 => Opcode::SUB_B,
            0x91 => Opcode::SUB_C,
            0x92 => Opcode::SUB_D,
            0x93 => Opcode::SUB_E,
            0x94 => Opcode::SUB_H,
            0x95 => Opcode::SUB_L,
            0x96 => Opcode::SUB_M,
            0x97 => Opcode::SUB_A,
            0x98 => Opcode::SBB_B,
            0x99 => Opcode::SBB_C,
            0x9a => Opcode::SBB_D,
            0x9b => Opcode::SBB_E,
            0x9c => Opcode::SBB_H,
            0x9d => Opcode::SBB_L,
            0x9e => Opcode::SBB_M,
            0x9f => Opcode::SBB_A,
            0xa0 => Opcode::ANA_B,
            0xa1 => Opcode::ANA_C,
            0xa2 => Opcode::ANA_D,
            0xa3 => Opcode::ANA_E,
            0xa4 => Opcode::ANA_H,
            0xa5 => Opcode::ANA_L,
            0xa6 => Opcode::ANA_M,
            0xa7 => Opcode::ANA_A,
            0xa8 => Opcode::XRA_B,
            0xa9 => Opcode::XRA_C,
            0xaa => Opcode::XRA_D,
            0xab => Opcode::XRA_E,
            0xac => Opcode::XRA_H,
            0xad => Opcode::XRA_L,
            0xae => Opcode::XRA_M,
            0xaf => Opcode::XRA_A,
            0xb0 => Opcode::ORA_B,
            0xb1 => Opcode::ORA_C,
            0xb2 => Opcode::ORA_D,
            0xb3 => Opcode::ORA_E,
            0xb4 => Opcode::ORA_H,
            0xb5 => Opcode::ORA_L,
            0xb6 => Opcode::ORA_M,
            0xb7 => Opcode::ORA_A,
            0xb8 => Opcode::CMP_B,
            0xb9 => Opcode::CMP_C,
            0xba => Opcode::CMP_D,
            0xbb => Opcode::CMP_E,
            0xbc => Opcode::CMP_H,
            0xbd => Opcode::CMP_L,
            0xbe => Opcode::CMP_M,
            0xbf => Opcode::CMP_A,
            0xc0 => Opcode::RNZ,
            0xc1 => Opcode::POP_BC,
            0xc2 => Opcode::JNZ(join(b2, b1)),
            0xc3 => Opcode::JMP(join(b2, b1)),
            0xc4 => Opcode::CNZ(join(b2, b1)),
            0xc5 => Opcode::PUSH_BC,
            0xc6 => Opcode::ADI(b1),
            0xc7 => Opcode::RST_0,
            0xc8 => Opcode::RZ,
            0xc9 => Opcode::RET,
            0xca => Opcode::JZ(join(b2, b1)),
            0xcb => Opcode::NOP,
            0xcc => Opcode::CZ(join(b2, b1)),
            0xcd => Opcode::CALL(join(b2, b1)),
            0xce => Opcode::ACI(b1),
            0xcf => Opcode::RST_1,
            0xd0 => Opcode::RNC,
            0xd1 => Opcode::POP_DE,
            0xd2 => Opcode::JNC(join(b2, b1)),
            0xd3 => Opcode::OUT(b1),
            0xd4 => Opcode::CNC(join(b2, b1)),
            0xd5 => Opcode::PUSH_DE,
            0xd6 => Opcode::SUI(b1),
            0xd7 => Opcode::RST_2,
            0xd8 => Opcode::RC,
            0xd9 => Opcode::NOP,
            0xda => Opcode::JC(join(b2, b1)),
            0xdb => Opcode::IN(b1),
            0xdc => Opcode::CC(join(b2, b1)),
            0xdd => Opcode::NOP,
            0xde => Opcode::SBI(b1),
            0xdf => Opcode::RST_3,
            0xe0 => Opcode::RPO,
            0xe1 => Opcode::POP_HL,
            0xe2 => Opcode::JPO(join(b2, b1)),
            0xe3 => Opcode::XTHL,
            0xe4 => Opcode::CPO(join(b2, b1)),
            0xe5 => Opcode::PUSH_HL,
            0xe6 => Opcode::ANI(b1),
            0xe7 => Opcode::RST_4,
            0xe8 => Opcode::RPE,
            0xe9 => Opcode::PCHL,
            0xea => Opcode::JPE(join(b2, b1)),
            0xeb => Opcode::XCHG,
            0xec => Opcode::CPE(join(b2, b1)),
            0xed => Opcode::NOP,
            0xee => Opcode::XRI(b1),
            0xef => Opcode::RST_5,
            0xf0 => Opcode::RP,
            0xf1 => Opcode::POP_PSW,
            0xf2 => Opcode::JP(join(b2, b1)),
            0xf3 => Opcode::DI,
            0xf4 => Opcode::CP(join(b2, b1)),
            0xf5 => Opcode::PUSH_PSW,
            0xf6 => Opcode::ORI(b1),
            0xf7 => Opcode::RST_6,
            0xf8 => Opcode::RM,
            0xf9 => Opcode::SPHL,
            0xfa => Opcode::JM(join(b2, b1)),
            0xfb => Opcode::EI,
            0xfc => Opcode::CM(join(b2, b1)),
            0xfd => Opcode::NOP,
            0xfe => Opcode::CPI(b1),
            0xff => Opcode::RST_7,
        }
    }
}

} // verus!
