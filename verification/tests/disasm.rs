use bytecode::chunk::Chunk;
use bytecode::chunk::Value;
use bytecode::disasm::be16_join;
use bytecode::disasm::decode_at;
use bytecode::disasm::disassemble;
use bytecode::disasm::DecodeError;
use bytecode::disasm::Instr;
use bytecode::op::Op;
use bytecode::op::OP_MAX;

#[test]
fn round_trip_every_opcode() {
    // Encode one instruction of every opcode with the builder, with
    // arbitrary operand bytes 0xAB / 0xCD, and decode it back.
    let cases: Vec<(Op, Instr)> = vec![
        (Op::Add, Instr::Add),
        (Op::Sub, Instr::Sub),
        (Op::Eq, Instr::Eq),
        (Op::Lte, Instr::Lte),
        (Op::Intersect, Instr::Intersect { count: 0xAB }),
        (Op::Union, Instr::Union { count: 0xAB }),
        (Op::Print, Instr::Print { count: 0xAB }),
        (Op::Constant, Instr::Constant { idx: 0xAB }),
        (Op::Pop, Instr::Pop),
        (Op::Call, Instr::Call { count: 0xAB, name_idx: 0xCD }),
        (Op::TailCall, Instr::TailCall { count: 0xAB, name_idx: 0xCD }),
        (Op::Extends, Instr::Extends { skip: 0xABCD }),
        (Op::PanicExtends, Instr::PanicExtends { skip: 0xABCD }),
        (Op::Jump, Instr::Jump { offset: 0xABCD }),
        (Op::Number, Instr::Number),
        (Op::String, Instr::String),
        (Op::PopCallFrame, Instr::PopCallFrame),
        (Op::MakeObj, Instr::MakeObj { count: 0xAB }),
        (Op::SetLocal, Instr::SetLocal { idx: 0xAB }),
        (Op::GetLocal, Instr::GetLocal { idx: 0xAB }),
        (Op::SetGlobal, Instr::SetGlobal { idx: 0xAB }),
        (Op::GetGlobal, Instr::GetGlobal { idx: 0xAB }),
    ];
    for (op, expected) in cases {
        let mut c = Chunk::default();
        c.push_op(op);
        match op.operand_len() {
            0 => {}
            1 => c.push_u8(0xAB),
            2 => c.push_bytes(0xAB, 0xCD),
            _ => unreachable!(),
        }
        let (instr, next) = decode_at(&c.code, 0).expect("a complete instruction decodes");
        assert_eq!(instr, expected);
        assert_eq!(next, 1 + op.operand_len());
        assert_eq!(next, c.code.len());
    }
}

#[test]
fn valid_tags_decode_and_consume_their_operand_width() {
    for t in 0..=OP_MAX {
        let code = vec![t, 0x11, 0x22];
        let (instr, next) = decode_at(&code, 0).expect("every valid tag decodes");
        let op = Op::from_byte(t).unwrap();
        assert_eq!(next, 1 + op.operand_len());
        // The decoded instruction carries the opcode that the tag names.
        let mut reencoded = Chunk::default();
        reencoded.push_op(op);
        assert_eq!(code[0], reencoded.code[0]);
        match instr {
            Instr::Intersect { count }
            | Instr::Union { count }
            | Instr::Print { count }
            | Instr::MakeObj { count } => assert_eq!(count, 0x11),
            Instr::Constant { idx }
            | Instr::SetLocal { idx }
            | Instr::GetLocal { idx }
            | Instr::SetGlobal { idx }
            | Instr::GetGlobal { idx } => assert_eq!(idx, 0x11),
            Instr::Call { count, name_idx } | Instr::TailCall { count, name_idx } => {
                assert_eq!(count, 0x11);
                assert_eq!(name_idx, 0x22);
            }
            Instr::Extends { skip } | Instr::PanicExtends { skip } => {
                assert_eq!(skip, 0x1122)
            }
            Instr::Jump { offset } => assert_eq!(offset, 0x1122),
            _ => assert_eq!(next, 1),
        }
    }
}

#[test]
fn tags_above_max_fault_as_malformed() {
    for t in (OP_MAX as u16 + 1)..=255 {
        let code = vec![t as u8, 0, 0];
        assert_eq!(
            decode_at(&code, 0),
            Err(DecodeError::MalformedTag { offset: 0, tag: t as u8 })
        );
    }
}

#[test]
fn offset_encoding_is_big_endian_and_round_trips() {
    assert_eq!(be16_join(0x01, 0xFF), 511);
    let mut c = Chunk::default();
    c.push_op(Op::Jump);
    c.push_bytes(0x01, 0xFF);
    let lines = disassemble(&c).expect("a complete jump disassembles");
    assert_eq!(lines.len(), 1);
    assert_eq!(lines[0].instr, Instr::Jump { offset: 511 });
}

#[test]
fn empty_chunk_disassembles_to_no_lines() {
    let c = Chunk::default();
    assert_eq!(disassemble(&c), Ok(vec![]));
}

#[test]
fn disassembles_arithmetic_and_print_program() {
    let mut c = Chunk::default();
    let i0 = c.push_constant(Value::Num(2));
    let i1 = c.push_constant(Value::Num(3));
    c.push_op(Op::Constant);
    c.push_u8(i0 as u8);
    c.push_op(Op::Constant);
    c.push_u8(i1 as u8);
    c.push_op(Op::Add);
    c.push_op(Op::Print);
    c.push_u8(1);

    let lines = disassemble(&c).expect("a well-formed chunk disassembles");
    assert_eq!(lines.len(), 4);

    assert_eq!(lines[0].offset, 0);
    assert_eq!(lines[0].instr, Instr::Constant { idx: 0 });
    assert_eq!(lines[0].resolved, Some(Value::Num(2)));

    assert_eq!(lines[1].offset, 2);
    assert_eq!(lines[1].instr, Instr::Constant { idx: 1 });
    assert_eq!(lines[1].resolved, Some(Value::Num(3)));

    assert_eq!(lines[2].offset, 4);
    assert_eq!(lines[2].instr, Instr::Add);
    assert_eq!(lines[2].resolved, None);

    assert_eq!(lines[3].offset, 5);
    assert_eq!(lines[3].instr, Instr::Print { count: 1 });
    assert_eq!(lines[3].resolved, None);
}

#[test]
fn tail_call_shows_count_and_resolved_callee_name() {
    let mut c = Chunk::default();
    let name = c.push_constant(Value::Str(String::from("f")));
    c.push_op(Op::TailCall);
    c.push_bytes(2, name as u8);

    let lines = disassemble(&c).expect("a well-formed tail call disassembles");
    assert_eq!(lines.len(), 1);
    assert_eq!(lines[0].instr, Instr::TailCall { count: 2, name_idx: 0 });
    assert_eq!(lines[0].resolved, Some(Value::Str(String::from("f"))));
}

#[test]
fn panic_extends_reports_its_skip_offset() {
    let mut c = Chunk::default();
    c.push_op(Op::PanicExtends);
    c.push_bytes(0x00, 0x05);

    let lines = disassemble(&c).expect("a well-formed extends disassembles");
    assert_eq!(lines.len(), 1);
    assert_eq!(lines[0].instr, Instr::PanicExtends { skip: 5 });
    assert_eq!(lines[0].resolved, None);
}

#[test]
fn truncated_operands_fault() {
    let mut c = Chunk::default();
    c.push_op(Op::Jump);
    assert_eq!(
        disassemble(&c),
        Err(DecodeError::Truncated { offset: 0, op: Op::Jump })
    );

    let mut c = Chunk::default();
    c.push_op(Op::Call);
    c.push_u8(1);
    assert_eq!(
        disassemble(&c),
        Err(DecodeError::Truncated { offset: 0, op: Op::Call })
    );
}

#[test]
fn out_of_range_constant_index_faults() {
    let mut c = Chunk::default();
    c.push_constant(Value::Num(1));
    c.push_op(Op::Constant);
    c.push_u8(5);
    assert_eq!(
        disassemble(&c),
        Err(DecodeError::InvalidConstant { offset: 0, idx: 5 })
    );
}

#[test]
fn malformed_tag_mid_stream_reports_its_offset() {
    let mut c = Chunk::default();
    c.push_op(Op::Add);
    c.push_u8(OP_MAX + 1);
    assert_eq!(
        disassemble(&c),
        Err(DecodeError::MalformedTag { offset: 1, tag: OP_MAX + 1 })
    );
}

#[test]
fn disassembly_resumes_after_patched_offset() {
    let mut c = Chunk::default();
    c.push_op(Op::Jump);
    let site = c.code.len();
    c.push_bytes(0xFF, 0xFF);
    c.push_op(Op::Pop);
    c.patch_bytes(site, 0x00, 0x01);

    let lines = disassemble(&c).expect("a patched chunk disassembles");
    assert_eq!(lines.len(), 2);
    assert_eq!(lines[0].instr, Instr::Jump { offset: 1 });
    assert_eq!(lines[1].offset, 3);
    assert_eq!(lines[1].instr, Instr::Pop);
}
