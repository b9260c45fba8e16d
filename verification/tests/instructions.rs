use arsenal::instructions::{Instructions, SysCalls, Width, INSTRUCTION_COUNT, SYSCALL_COUNT};

#[test]
fn opcode_numbers_and_names_go_both_ways() {
    assert_eq!(INSTRUCTION_COUNT, 106);
    for code in 0..INSTRUCTION_COUNT {
        let op = Instructions::from_code(code).unwrap();
        assert_eq!(op.code(), code);
        assert_eq!(Instructions::from_name(&op.name()), Some(op));
    }
    assert_eq!(Instructions::from_code(INSTRUCTION_COUNT), None);
    assert_eq!(Instructions::from_code(u16::MAX), None);
}

#[test]
fn opcode_names() {
    assert_eq!(Instructions::Halt.name(), "Halt");
    assert_eq!(Instructions::Halt.code(), 0);
    assert_eq!(Instructions::LoadRegister(Width::Byte).name(), "LoadRegisterByte");
    assert_eq!(Instructions::LoadRegister(Width::Long).code(), 6);
    assert_eq!(
        Instructions::from_name("BitwiseXOrRegisterImmediateInt"),
        Some(Instructions::BitwiseXOrRegisterImmediate(Width::Int))
    );
    assert_eq!(
        Instructions::MoveAddressedRegisters(Width::Long).code(),
        INSTRUCTION_COUNT - 1
    );
    assert_eq!(Instructions::from_name("LoadRegister"), None);
    assert_eq!(Instructions::from_name("HaltByte"), None);
    assert_eq!(Instructions::from_name("halt"), None);
    assert_eq!(Instructions::from_name(""), None);
    assert_eq!(Instructions::JumpTo.width(), None);
    assert_eq!(Instructions::PushMemory(Width::Short).width(), Some(Width::Short));
}

#[test]
fn widths() {
    assert_eq!(Width::Byte.size(), 1);
    assert_eq!(Width::Short.size(), 2);
    assert_eq!(Width::Int.size(), 4);
    assert_eq!(Width::Long.size(), 8);
    assert_eq!(Width::Int.suffix(), "Int");
}

#[test]
fn system_call_numbers_and_names_go_both_ways() {
    assert_eq!(SYSCALL_COUNT, 10);
    for code in 0..SYSCALL_COUNT {
        let call = SysCalls::from_code(code).unwrap();
        assert_eq!(call.code(), code);
        assert_eq!(SysCalls::from_name(call.name()), Some(call));
    }
    assert_eq!(SysCalls::from_code(SYSCALL_COUNT), None);
    assert_eq!(SysCalls::PrintRegister.code(), 0);
    assert_eq!(SysCalls::FSeek.name(), "FSeek");
    assert_eq!(SysCalls::from_name("Print"), None);
}
