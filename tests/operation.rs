use sm83_core::opcodes::{
    ALU16Dest, ALU16Op, ALU16Src, ALU8Dest, ALU8Op, ALU8Src, BitIndex, BitOp, BitOperand, Flags,
    JumpOp, Load16Dest, Load16Op, Load16Src, Load8Dest, Load8Op, Load8Src, MiscOp, RSTTarget,
};
use sm83_core::operation::Operation;

#[test]
fn test_construct_opcode() {
    let op = 0x12;
    let res_1 = Operation::construct_opcode(op, false);
    let res_2 = Operation::construct_opcode(op, true);

    assert_eq!(res_1, 0x0012);
    assert_eq!(res_2, 0xCB12);

    let op = 0xcb;
    let res_1 = Operation::construct_opcode(op, false);
    let res_2 = Operation::construct_opcode(op, true);

    assert_eq!(res_1, 0x00cb);
    assert_eq!(res_2, 0xCBcb);
}

#[test]
fn test_macros() {
    let op = Operation::get_operation(0x01, false).unwrap();

    assert_eq!(
        op,
        Operation::Load16(Load16Op::LD(Load16Dest::BC, Load16Src::Direct16Bit))
    );
}

#[test]
fn decode_cb46_is_bit0_of_hl() {
    assert_eq!(
        Operation::get_operation(0x46, true),
        Some(Operation::Bit(BitOp::BIT(BitIndex::B0, BitOperand::HL)))
    );
}

#[test]
fn decode_unused_slots_and_totality() {
    let unused = [0xD3u8, 0xDB, 0xDD, 0xE3, 0xE4, 0xEB, 0xEC, 0xED, 0xF4, 0xFC, 0xFD];
    for op in 0..=255u8 {
        assert_eq!(Operation::get_operation(op, false).is_none(), unused.contains(&op), "{op:#04x}");
        assert!(Operation::get_operation(op, true).is_some(), "CB {op:#04x}");
    }
}

#[test]
fn decode_selected_first_page_entries() {
    assert_eq!(Operation::get_operation(0x00, false), Some(Operation::Misc(MiscOp::NOP)));
    assert_eq!(Operation::get_operation(0x76, false), Some(Operation::Misc(MiscOp::HALT)));
    assert_eq!(Operation::get_operation(0xCB, false), Some(Operation::Misc(MiscOp::PREFIX)));
    assert_eq!(
        Operation::get_operation(0x22, false),
        Some(Operation::Load8(Load8Op::LD(Load8Dest::HLI, Load8Src::A)))
    );
    assert_eq!(
        Operation::get_operation(0xE0, false),
        Some(Operation::Load8(Load8Op::LDH(Load8Dest::Unsigned8, Load8Src::A)))
    );
    assert_eq!(
        Operation::get_operation(0xF8, false),
        Some(Operation::Load16(Load16Op::LD(Load16Dest::HL, Load16Src::SPr8)))
    );
    assert_eq!(
        Operation::get_operation(0xE8, false),
        Some(Operation::ALU16(ALU16Op::ADD(ALU16Dest::SP, ALU16Src::Signed8)))
    );
    assert_eq!(
        Operation::get_operation(0x9E, false),
        Some(Operation::ALU8(ALU8Op::SBC(ALU8Dest::A, ALU8Src::HL)))
    );
    assert_eq!(Operation::get_operation(0xFE, false), Some(Operation::ALU8(ALU8Op::CP(ALU8Dest::Direct8Bit))));
    assert_eq!(Operation::get_operation(0xC4, false), Some(Operation::Jump(JumpOp::CALL(Flags::NZ))));
    assert_eq!(Operation::get_operation(0x18, false), Some(Operation::Jump(JumpOp::JR(Flags::NIL))));
    assert_eq!(Operation::get_operation(0xE9, false), Some(Operation::Jump(JumpOp::JPToHL)));
    assert_eq!(Operation::get_operation(0xFF, false), Some(Operation::Jump(JumpOp::RST(RSTTarget::X38))));
    assert_eq!(Operation::get_operation(0x17, false), Some(Operation::Bit(BitOp::RLA)));
}

#[test]
fn decode_selected_cb_page_entries() {
    assert_eq!(Operation::get_operation(0x00, true), Some(Operation::Bit(BitOp::RLC(BitOperand::B))));
    assert_eq!(Operation::get_operation(0x37, true), Some(Operation::Bit(BitOp::SWAP(BitOperand::A))));
    assert_eq!(
        Operation::get_operation(0x9E, true),
        Some(Operation::Bit(BitOp::RES(BitIndex::B3, BitOperand::HL)))
    );
    assert_eq!(
        Operation::get_operation(0xFF, true),
        Some(Operation::Bit(BitOp::SET(BitIndex::B7, BitOperand::A)))
    );
}

#[test]
fn prefix_byte_is_recognised() {
    assert!(Operation::is_prefix(0xCB));
    assert!(!Operation::is_prefix(0xCA));
    assert!(!Operation::is_prefix(0x00));
}
