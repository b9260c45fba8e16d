use arsenal::assembler::parse;
use arsenal::debug::get_instructions;
use arsenal::instructions::{Instructions, SysCalls, Width, INSTRUCTION_COUNT, SYSCALL_COUNT};
use arsenal::virtual_machine::{
    c_string_at, pop_byte_stack, pop_stack, push_byte_stack, push_stack, ALUFlags, Action, Fault,
    RegisterRoles, Target, VirtualMachine,
};
use arsenal::virtual_thread::{to_signed, Operands, VirtualThread};

fn machine(text: &str) -> VirtualMachine {
    let mut image = parse(text.as_bytes().to_vec()).unwrap();
    let vm = VirtualMachine::new(&mut image);
    assert!(image.is_empty());
    vm
}

fn run_to_halt(text: &str) -> (VirtualMachine, VirtualThread) {
    let mut vm = machine(text);
    let (thread, outcome) = vm.run(1_000_000);
    assert_eq!(outcome, Ok(Action::Nothing));
    assert!(!thread.running);
    (vm, thread)
}

#[test]
fn execution_smoke_test() {
    let text = "LoadRegisterByte: 5, 0; LoadRegisterByte: 6, 10; label again; \
                IncrementRegister: 5; CompareRegisterByte: 0x56; JumpIfLessThan: &again; Halt;";
    let (_, thread) = run_to_halt(text);
    assert_eq!(thread.registers[5], 10);
    assert_eq!(thread.registers[6], 10);
    assert_eq!(thread.alu_flags, 8);
}

#[test]
fn string_emission() {
    let text = "LoadRegisterLong: 0, &msg; SysCall: PrintCString; Halt; () msg = \"hi\", 0;";
    let mut vm = machine(text);
    let (mut thread, outcome) = vm.run(100);
    assert_eq!(outcome, Ok(Action::PrintCString { address: 16 }));
    assert_eq!(c_string_at(&vm.instructions, 16), Some(vec![b'h', b'i']));
    assert!(thread.running);
    assert_eq!(thread.run(&mut vm, 100), Ok(Action::Nothing));
    assert!(!thread.running);
}

#[test]
fn c_strings_in_the_image() {
    let image = vec![b'a', b'b', 0, b'c'];
    assert_eq!(c_string_at(&image, 0), Some(vec![b'a', b'b']));
    assert_eq!(c_string_at(&image, 1), Some(vec![b'b']));
    assert_eq!(c_string_at(&image, 2), Some(vec![]));
    assert_eq!(c_string_at(&image, 3), None);
    assert_eq!(c_string_at(&image, 4), None);
    assert_eq!(c_string_at(&image, u64::MAX), None);
}

#[test]
fn sample_program_prints_and_halts() {
    let mut image = get_instructions();
    assert_eq!(image.len(), 97);
    let mut vm = VirtualMachine::new(&mut image);
    let mut thread = VirtualThread::new(0);
    let mut printed = Vec::new();
    loop {
        match thread.run(&mut vm, 10_000) {
            Ok(Action::Nothing) => break,
            Ok(Action::PrintUnsigned(n)) => printed.push(n),
            other => panic!("{:?}", other),
        }
    }
    assert!(!thread.running);
    assert_eq!(printed, vec![1, 1, 2, 3, 4, 2, 3, 5, 8, 13, 21, 34, 55, 89, 144]);
}

#[test]
fn budget_stops_a_running_thread() {
    let mut vm = machine("label spin; JumpTo: &spin;");
    let (mut thread, outcome) = vm.run(1000);
    assert_eq!(outcome, Ok(Action::Nothing));
    assert!(thread.running);
    assert_eq!(thread.registers[15], 0);
    assert_eq!(thread.run(&mut vm, 0), Ok(Action::Nothing));
    let mut vm = machine("NoOperation; NoOperation; Halt;");
    let (thread, _) = vm.run(2);
    assert!(thread.running);
    assert_eq!(thread.registers[15], 4);
}

#[test]
fn sized_writes_keep_the_high_bytes() {
    let text = "LoadRegisterLong: 1, 0xff, 0xff, 0x11, 0x22, 0x33, 0x44, 0x55, 0x66; \
                LoadRegisterByte: 2, 1; AddRegistersByte: 0x21; Halt;";
    let (_, thread) = run_to_halt(text);
    assert_eq!(thread.registers[1], 0x6655_4433_2211_ff00);
    let text = "LoadRegisterLong: 1, 0xff, 0xff, 0x11, 0x22, 0x33, 0x44, 0x55, 0x66; \
                LoadRegisterByte: 2, 1; AddRegistersShort: 0x21; Halt;";
    let (_, thread) = run_to_halt(text);
    assert_eq!(thread.registers[1], 0x6655_4433_2211_0000);
    let text = "LoadRegisterLong: 1, 0, 0, 0, 0, 0x33, 0x44, 0x55, 0x66; \
                SubtractRegisterImmediateInt: 1, 1, 0, 0, 0; Halt;";
    let (_, thread) = run_to_halt(text);
    assert_eq!(thread.registers[1], 0x6655_4433_ffff_ffff);
    let text = "LoadRegisterLong: 1, 0, 0, 0, 0, 0, 0, 0, 0; DecrementRegister: 1; Halt;";
    let (_, thread) = run_to_halt(text);
    assert_eq!(thread.registers[1], u64::MAX);
    let text = "LoadRegisterLong: 1, 0xff, 0xff, 0xff, 0xff, 0xff, 0xff, 0xff, 0xff; \
                IncrementRegister: 1; Halt;";
    let (_, thread) = run_to_halt(text);
    assert_eq!(thread.registers[1], 0);
}

#[test]
fn load_register_replaces_the_whole_register() {
    let text = "LoadRegisterLong: 1, 1, 2, 3, 4, 5, 6, 7, 8; LoadRegisterByte: 1, 9; Halt;";
    let (_, thread) = run_to_halt(text);
    assert_eq!(thread.registers[1], 9);
    let text = "LoadRegisterShort: 1, 0x34, 0x12; LoadRegisterInt: 2, 1, 0, 0, 0x80; Halt;";
    let (_, thread) = run_to_halt(text);
    assert_eq!(thread.registers[1], 0x1234);
    assert_eq!(thread.registers[2], 0x8000_0001);
}

#[test]
fn moves_and_bitwise_operations() {
    let text = "LoadRegisterLong: 1, 0xf0, 0xf0, 0xf0, 0xf0, 0, 0, 0, 0x77; \
                LoadRegisterLong: 2, 0x3c, 0x3c, 0x3c, 0x3c, 0, 0, 0, 0x11; \
                MoveRegistersLong: 0x13; MoveRegistersLong: 0x14; MoveRegistersLong: 0x15; \
                MoveRegistersLong: 0x16; MoveRegistersLong: 0x17; \
                BitwiseAndRegistersByte: 0x23; BitwiseOrRegistersShort: 0x24; \
                BitwiseXOrRegistersInt: 0x25; BitwiseNotRegisterByte: 6; \
                MoveRegistersShort: 0x27; \
                BitwiseAndRegisterImmediateByte: 1, 0x0f; Halt;";
    let (_, thread) = run_to_halt(text);
    assert_eq!(thread.registers[3], 0x7700_0000_f0f0_f030);
    assert_eq!(thread.registers[4], 0x7700_0000_f0f0_fcfc);
    assert_eq!(thread.registers[5], 0x7700_0000_cccc_cccc);
    assert_eq!(thread.registers[6], 0x7700_0000_f0f0_f00f);
    assert_eq!(thread.registers[7], 0x7700_0000_f0f0_3c3c);
    assert_eq!(thread.registers[1], 0x7700_0000_f0f0_f000);
    let text = "LoadRegisterLong: 1, 0xf0, 0, 0, 0, 0, 0, 0, 0x77; \
                BitwiseOrRegisterImmediateShort: 1, 0x0f, 0x01; \
                BitwiseXOrRegisterImmediateLong: 1, 0xff, 0, 0, 0, 0, 0, 0, 0x70; Halt;";
    let (_, thread) = run_to_halt(text);
    assert_eq!(thread.registers[1], 0x0700_0000_0000_0100);
}

#[test]
fn compare_sets_the_flags() {
    let text = "LoadRegisterShort: 1, 0, 1; LoadRegisterByte: 2, 5; CompareRegisterByte: 0x12; Halt;";
    let (_, thread) = run_to_halt(text);
    assert_eq!(thread.alu_flags, ALUFlags::Lesser.mask() | ALUFlags::Zero.mask());
    let text = "LoadRegisterShort: 1, 0, 1; LoadRegisterByte: 2, 5; CompareRegisterShort: 0x12; Halt;";
    let (_, thread) = run_to_halt(text);
    assert_eq!(thread.alu_flags, ALUFlags::Greater.mask());
    let text = "LoadRegisterByte: 1, 5; CompareRegisterLiteralInt: 1, 5, 0, 0, 0; Halt;";
    let (_, thread) = run_to_halt(text);
    assert_eq!(thread.alu_flags, ALUFlags::Equal.mask());
    let text = "CompareRegisterLiteralLong: 1, 0, 0, 0, 0, 0, 0, 0, 0; Halt;";
    let (_, thread) = run_to_halt(text);
    assert_eq!(thread.alu_flags, 9);
    assert_eq!(ALUFlags::Zero.mask(), 1);
    assert_eq!(ALUFlags::Greater.mask(), 2);
    assert_eq!(ALUFlags::Lesser.mask(), 4);
    assert_eq!(ALUFlags::Equal.mask(), 8);
}

#[test]
fn conditional_jumps_follow_the_flags() {
    let text = "LoadRegisterByte: 1, 1; CompareRegisterLiteralByte: 1, 2; \
                JumpIfGreaterThan: &wrong; JumpIfEqualTo: &wrong; JumpIfZero: &wrong; \
                JumpIfLessThan: &right; label wrong; LoadRegisterByte: 3, 1; Halt; \
                label right; LoadRegisterByte: 3, 2; Halt;";
    let (_, thread) = run_to_halt(text);
    assert_eq!(thread.registers[3], 2);
    let text = "CompareRegisterLiteralByte: 1, 0; JumpIfZero: &right; Halt; \
                label right; LoadRegisterByte: 3, 2; Halt;";
    let (_, thread) = run_to_halt(text);
    assert_eq!(thread.registers[3], 2);
}

#[test]
fn push_then_pop_gives_the_low_bytes_back() {
    let text = "LoadRegisterLong: 1, 1, 2, 3, 4, 5, 6, 7, 8; \
                LoadRegisterLong: 2, 0xaa, 0xaa, 0xaa, 0xaa, 0xaa, 0xaa, 0xaa, 0xaa; \
                PushRegisterInt: 1; PopRegisterInt: 2; \
                PushRegisterLong: 1; PopRegisterLong: 3; \
                PushRegisterShort: 1; PushRegisterByte: 1; PopRegisterByte: 4; PopRegisterShort: 5; \
                Halt;";
    let (_, thread) = run_to_halt(text);
    assert_eq!(thread.registers[2], 0xaaaa_aaaa_0403_0201);
    assert_eq!(thread.registers[3], 0x0807_0605_0403_0201);
    assert_eq!(thread.registers[4], 1);
    assert_eq!(thread.registers[5], 0x0201);
    assert_eq!(thread.registers[RegisterRoles::StackPointer.index()], 0);
    assert_eq!(thread.stack, vec![1, 2, 1, 4, 5, 6, 7, 8]);
}

#[test]
fn stack_primitives() {
    let mut stack = Vec::new();
    let mut sp = 3u64;
    assert_eq!(push_byte_stack(&mut stack, &mut sp, 7), Ok(()));
    assert_eq!(stack, vec![0xff, 0xff, 0xff, 7]);
    assert_eq!(sp, 4);
    assert_eq!(push_stack(&mut stack, &mut sp, 0x0102_0304_0506_0708, Width::Int), Ok(()));
    assert_eq!(stack, vec![0xff, 0xff, 0xff, 7, 8, 7, 6, 5]);
    assert_eq!(sp, 8);
    let mut value = 0x1111_1111_1111_1111u64;
    assert_eq!(pop_stack(&mut stack, &mut sp, &mut value, Width::Short), Ok(()));
    assert_eq!(value, 0x1111_1111_1111_0506);
    assert_eq!(sp, 6);
    assert_eq!(stack.len(), 8);
    let mut byte = 0u8;
    assert_eq!(pop_byte_stack(&mut stack, &mut sp, &mut byte), Ok(()));
    assert_eq!(byte, 7);
    sp = 1;
    assert_eq!(push_stack(&mut stack, &mut sp, 0xabcd, Width::Short), Ok(()));
    assert_eq!(stack, vec![0xff, 0xcd, 0xab, 7, 8, 7, 6, 5]);
    sp = 1;
    assert_eq!(pop_byte_stack(&mut stack, &mut sp, &mut byte), Ok(()));
    assert_eq!(byte, 0xff);
    assert_eq!(sp, 0);
}

#[test]
fn stack_faults() {
    let mut stack = vec![1, 2];
    let mut sp = 0u64;
    let mut byte = 9u8;
    assert_eq!(pop_byte_stack(&mut stack, &mut sp, &mut byte), Err(Fault::StackUnderflow));
    assert_eq!((sp, byte), (0, 9));
    sp = 3;
    assert_eq!(pop_byte_stack(&mut stack, &mut sp, &mut byte), Err(Fault::StackUnderflow));
    sp = 1;
    let mut value = 5u64;
    assert_eq!(pop_stack(&mut stack, &mut sp, &mut value, Width::Short), Err(Fault::StackUnderflow));
    assert_eq!((sp, value), (1, 5));
    sp = u64::MAX;
    assert_eq!(push_byte_stack(&mut stack, &mut sp, 1), Err(Fault::StackOverflow));
    sp = u64::MAX - 4;
    assert_eq!(push_stack(&mut stack, &mut sp, 1, Width::Long), Err(Fault::StackOverflow));
    assert_eq!(stack, vec![1, 2]);
    let mut vm = machine("PopRegisterByte: 1;");
    assert_eq!(vm.run(10).1, Err(Fault::StackUnderflow));
    let mut vm = machine(
        "LoadRegisterLong: 14, 0xff, 0xff, 0xff, 0xff, 0xff, 0xff, 0xff, 0xff; PushRegisterByte: 1;",
    );
    assert_eq!(vm.run(10).1, Err(Fault::StackOverflow));
}

#[test]
fn thread_faults() {
    let mut empty = Vec::new();
    let mut vm = VirtualMachine::new(&mut empty);
    assert_eq!(vm.run(10).1, Err(Fault::OutOfInstructions));
    let mut vm = machine("NoOperation;");
    let (thread, outcome) = vm.run(10);
    assert_eq!(outcome, Err(Fault::OutOfInstructions));
    assert_eq!(thread.registers[15], 2);
    let mut one = vec![0u8];
    let mut vm = VirtualMachine::new(&mut one);
    assert_eq!(vm.run(10).1, Err(Fault::OutOfInstructions));
    let mut vm = machine("LoadRegisterInt: 1, 2;");
    let (thread, outcome) = vm.run(10);
    assert_eq!(outcome, Err(Fault::OutOfInstructions));
    assert_eq!(thread.registers[15], 3);
    let mut bad = vec![INSTRUCTION_COUNT as u8, 0];
    let mut vm = VirtualMachine::new(&mut bad);
    assert_eq!(vm.run(10).1, Err(Fault::InvalidOpcode));
    let mut bad = vec![0, 1];
    let mut vm = VirtualMachine::new(&mut bad);
    assert_eq!(vm.run(10).1, Err(Fault::InvalidOpcode));
    let mut bad = vec![Instructions::SysCall.code() as u8, 0, SYSCALL_COUNT];
    let mut vm = VirtualMachine::new(&mut bad);
    assert_eq!(vm.run(10).1, Err(Fault::InvalidSyscall));
    let mut vm = machine("LoadRegisterByte: 16, 0;");
    assert_eq!(vm.run(10).1, Err(Fault::InvalidRegister));
    let mut vm = machine("CompareRegisterLiteralByte: 200, 0;");
    assert_eq!(vm.run(10).1, Err(Fault::InvalidRegister));
    let mut vm = machine("LoadRegisterByte: 0, 16; SysCall: PrintRegister;");
    assert_eq!(vm.run(10).1, Err(Fault::InvalidRegister));
}

#[test]
fn register_numbers_are_taken_by_their_low_nibble() {
    let text = "IncrementRegister: 0x31; AddRegisterImmediateByte: 0xf2, 5; Halt;";
    let (_, thread) = run_to_halt(text);
    assert_eq!(thread.registers[1], 1);
    assert_eq!(thread.registers[2], 5);
}

#[test]
fn memory_in_the_image() {
    let text = "MoveMemoryRegisterShort: &cell, 1; IncrementRegister: 1; \
                MoveRegisterMemoryShort: 1, &cell; PushMemoryByte: &cell; PopMemoryByte: &other; \
                LoadRegisterLong: 2, &cell; \
                LoadRegisterLong: 3, &other; MoveAddressedRegisterRegisterInt: 0x24; \
                MoveRegisterAddressedRegisterByte: 0x43; \
                LoadRegisterLong: 5, &third; MoveAddressedRegistersShort: 0x25; \
                Halt; () cell = 0xff, 0x01, 0x22, 0x33; (4) other; (2) third;";
    let (vm, thread) = run_to_halt(text);
    let n = vm.instructions.len();
    assert_eq!(&vm.instructions[n - 10..], &[0, 2, 0x22, 0x33, 0, 0, 0, 0, 0, 2]);
    assert_eq!(thread.registers[1], 0x200);
    assert_eq!(thread.registers[4], 0x3322_0200);
    assert_eq!(thread.stack, vec![0]);
    assert_eq!(thread.registers[14], 0);
}

#[test]
fn self_modifying_code() {
    let halt = Instructions::Halt.code() as u8;
    let text = format!(
        "LoadRegisterByte: 1, {}; MoveRegisterMemoryShort: 1, &patch; label patch; \
         LoadRegisterByte: 2, 7; LoadRegisterByte: 3, 7; Halt;",
        halt
    );
    let (_, thread) = run_to_halt(&text);
    assert_eq!(thread.registers[2], 0);
    assert_eq!(thread.registers[3], 0);
}

#[test]
fn memory_outside_the_image_is_asked_of_the_host() {
    let text = "LoadRegisterByte: 1, 0x44; MoveRegisterMemoryShort: 1, 0xf0, 0xff, 0, 0, 0, 0, 0, 0; \
                MoveMemoryRegisterInt: 0xf0, 0xff, 0, 0, 0, 0, 0, 0, 2; \
                PushMemoryByte: 0xf0, 0xff, 0, 0, 0, 0, 0, 0; \
                PushRegisterShort: 1; PopMemoryShort: 0xf0, 0xff, 0, 0, 0, 0, 0, 0; \
                LoadRegisterLong: 3, 0xff, 0xff, 0xff, 0xff, 0xff, 0xff, 0xff, 0xff; \
                MoveAddressedRegistersByte: 0x30; Halt;";
    let mut vm = machine(text);
    let length = vm.instructions.len();
    let (mut thread, outcome) = vm.run(100);
    assert_eq!(outcome, Ok(Action::Store { address: 0xfff0, width: Width::Short, value: 0x44 }));
    let outcome = thread.run(&mut vm, 100);
    let target = Target::Register(2);
    assert_eq!(outcome, Ok(Action::Load { address: 0xfff0, width: Width::Int, target }));
    thread.registers[2] = 0x1111_1111_1111_1111;
    let done = thread.complete_load(&mut vm.instructions, target, 0xaabb_ccdd_0102_0304, Width::Int);
    assert_eq!(done, Ok(Action::Nothing));
    assert_eq!(thread.registers[2], 0x1111_1111_0102_0304);
    let outcome = thread.run(&mut vm, 100);
    assert_eq!(
        outcome,
        Ok(Action::Load { address: 0xfff0, width: Width::Byte, target: Target::Stack })
    );
    assert_eq!(
        thread.complete_load(&mut vm.instructions, Target::Stack, 0x1ee, Width::Byte),
        Ok(Action::Nothing)
    );
    assert_eq!(thread.stack, vec![0xee]);
    let outcome = thread.run(&mut vm, 100);
    assert_eq!(outcome, Ok(Action::Store { address: 0xfff0, width: Width::Short, value: 0x44 }));
    assert_eq!(thread.registers[14], 1);
    let outcome = thread.run(&mut vm, 100);
    assert_eq!(
        outcome,
        Ok(Action::Load { address: u64::MAX, width: Width::Byte, target: Target::Memory(0) })
    );
    assert_eq!(
        thread.complete_load(&mut vm.instructions, Target::Memory(0), 0x99, Width::Byte),
        Ok(Action::Nothing)
    );
    assert_eq!(vm.instructions[0], 0x99);
    assert_eq!(
        thread.complete_load(&mut vm.instructions, Target::Memory(length as u64), 1, Width::Byte),
        Ok(Action::Store { address: length as u64, width: Width::Byte, value: 1 })
    );
    assert_eq!(
        thread.complete_load(&mut vm.instructions, Target::Register(16), 1, Width::Byte),
        Err(Fault::InvalidRegister)
    );
    assert_eq!(thread.run(&mut vm, 100), Ok(Action::Nothing));
    assert!(!thread.running);
}

#[test]
fn system_calls_ask_the_host() {
    let text = "LoadRegisterLong: 3, 0xfe, 0xff, 0xff, 0xff, 0xff, 0xff, 0xff, 0xff; \
                LoadRegisterByte: 0, 3; SysCall: PrintRegister; SysCall: PrintRegisterSigned; \
                LoadRegisterByte: 0, 10; LoadRegisterByte: 1, 20; LoadRegisterByte: 2, 30; \
                SysCall: PrintCString; SysCall: MemoryAllocate; LoadRegisterByte: 0, 10; \
                SysCall: MemoryFree; SysCall: FOpen; LoadRegisterByte: 0, 10; \
                SysCall: FClose; SysCall: FGetC; LoadRegisterByte: 1, 20; \
                SysCall: FTell; LoadRegisterLong: 1, 0xff, 0xff, 0xff, 0xff, 0xff, 0xff, 0xff, 0xff; \
                SysCall: FSeek; Halt;";
    let mut vm = machine(text);
    let mut thread = VirtualThread::new(0);
    let mut asked = Vec::new();
    loop {
        match thread.run(&mut vm, 1000) {
            Ok(Action::Nothing) => break,
            Ok(action) => {
                let call = match action {
                    Action::Allocate { .. } => Some((SysCalls::MemoryAllocate, 1000)),
                    Action::FileOpen { .. } => Some((SysCalls::FOpen, 2000)),
                    Action::FileGetC { .. } => Some((SysCalls::FGetC, 65)),
                    Action::FileTell { .. } => Some((SysCalls::FTell, 1)),
                    Action::FileSeek { .. } => Some((SysCalls::FSeek, 0)),
                    _ => None,
                };
                if let Some((call, value)) = call {
                    thread.deliver(call, value);
                    match action {
                        Action::Allocate { .. } => assert_eq!(thread.registers[0], 1000),
                        Action::FileOpen { .. } => assert_eq!(thread.registers[0], 2000),
                        _ => assert_eq!(thread.registers[1], value),
                    }
                }
                asked.push(action);
            }
            Err(fault) => panic!("{:?}", fault),
        }
    }
    assert_eq!(
        asked,
        vec![
            Action::PrintUnsigned(u64::MAX - 1),
            Action::PrintSigned(-2),
            Action::PrintCString { address: 10 },
            Action::Allocate { size: 10 },
            Action::Free { address: 10, size: 20 },
            Action::FileOpen { name: 10, mode: 20 },
            Action::FileClose { handle: 10 },
            Action::FileGetC { handle: 10 },
            Action::FileTell { handle: 10 },
            Action::FileSeek { handle: 10, offset: -1, whence: 30 },
        ]
    );
    thread.deliver(SysCalls::PrintRegister, 77);
    thread.deliver(SysCalls::MemoryFree, 77);
    thread.deliver(SysCalls::FClose, 77);
    assert_eq!(thread.registers[0], 10);
    assert_eq!(thread.registers[1], 0);
}

#[test]
fn signed_reading_of_a_register() {
    assert_eq!(to_signed(0), 0);
    assert_eq!(to_signed(5), 5);
    assert_eq!(to_signed(u64::MAX), -1);
    assert_eq!(to_signed(0x7fff_ffff_ffff_ffff), i64::MAX);
    assert_eq!(to_signed(0x8000_0000_0000_0000), i64::MIN);
}

#[test]
fn reading_at_the_program_counter() {
    let image = vec![1u8, 2, 3, 4, 5, 6, 7, 8, 9];
    let mut thread = VirtualThread::new(1);
    assert_eq!(thread.current(&image, Width::Short), Ok(0x0302));
    assert_eq!(thread.registers[15], 1);
    assert_eq!(thread.next(&image, Width::Byte), Ok(2));
    assert_eq!(thread.registers[15], 2);
    assert_eq!(thread.last(&image, Width::Int), Ok(0x0605_0403));
    assert_eq!(thread.registers[15], 6);
    assert_eq!(thread.next(&image, Width::Long), Err(Fault::OutOfInstructions));
    assert_eq!(thread.registers[15], 6);
    assert_eq!(thread.last(&image, Width::Short), Ok(0x0807));
    assert_eq!(thread.current(&image, Width::Byte), Ok(9));
    assert_eq!(thread.current(&image, Width::Short), Err(Fault::OutOfInstructions));
    thread.registers[15] = u64::MAX;
    assert_eq!(thread.current(&image, Width::Byte), Err(Fault::OutOfInstructions));
    let mut start = VirtualThread::new(0);
    assert_eq!(start.next(&image, Width::Long), Ok(0x0807_0605_0403_0201));
}

#[test]
fn new_threads_and_tables() {
    let thread = VirtualThread::new(42);
    assert!(thread.running);
    assert_eq!(thread.alu_flags, 0);
    assert!(thread.stack.is_empty());
    assert_eq!(thread.registers[RegisterRoles::ProgramCounter.index()], 42);
    assert_eq!(thread.registers.iter().filter(|r| **r != 0).count(), 1);
    let rules = VirtualMachine::get_rules();
    assert_eq!(rules.len(), INSTRUCTION_COUNT as usize);
    for (i, op) in rules.iter().enumerate() {
        assert_eq!(op.code() as usize, i);
    }
    let syscalls = VirtualMachine::get_syscalls();
    assert_eq!(syscalls.len(), SYSCALL_COUNT as usize);
    for (i, call) in syscalls.iter().enumerate() {
        assert_eq!(call.code() as usize, i);
    }
    let mut vm = machine("Halt;");
    vm.spawn(7);
    vm.spawn(9);
    assert_eq!(vm.threads.len(), 2);
    assert_eq!(vm.threads[1].registers[15], 9);
    assert_eq!(vm.instructions, vec![0, 0]);
}

#[test]
fn operand_layouts() {
    assert_eq!(Operands::of(Instructions::Halt), Operands::Nothing);
    assert_eq!(Operands::of(Instructions::SysCall), Operands::Byte);
    assert_eq!(
        Operands::of(Instructions::LoadRegister(Width::Int)),
        Operands::ByteValue(Width::Int)
    );
    assert_eq!(Operands::of(Instructions::JumpTo), Operands::Address);
    assert_eq!(Operands::of(Instructions::MoveMemoryRegister(Width::Byte)), Operands::AddressByte);
    assert_eq!(Operands::of(Instructions::MoveRegisterMemory(Width::Byte)), Operands::ByteAddress);
    assert_eq!(Operands::ByteValue(Width::Short).first_width(), Some(Width::Byte));
    assert_eq!(Operands::ByteValue(Width::Short).second_width(), Some(Width::Short));
    assert_eq!(Operands::Address.second_width(), None);
}

#[test]
fn step_and_execute() {
    let mut vm = machine("LoadRegisterByte: 1, 5; Halt;");
    let mut thread = VirtualThread::new(0);
    assert_eq!(thread.step(&mut vm), Ok(Action::Nothing));
    assert_eq!(thread.registers[1], 5);
    assert_eq!(thread.registers[15], 4);
    assert!(thread.running);
    assert_eq!(thread.step(&mut vm), Ok(Action::Nothing));
    assert!(!thread.running);
    let mut image = vec![3u8, 0];
    let syscalls = VirtualMachine::get_syscalls();
    let mut thread = VirtualThread::new(0);
    let op = Instructions::AddRegisterImmediate(Width::Byte);
    assert_eq!(thread.execute(op, &mut image, &syscalls), Ok(Action::Nothing));
    assert_eq!(thread.registers[3], 0);
    assert_eq!(thread.registers[15], 2);
}

#[test]
fn sample_program_is_what_its_text_assembles_to() {
    let text = "
        NoOperation; // do nothing
        LoadRegisterByte: 5, 0; // load 0 into r5
        AddRegisterImmediateByte: 5, 0; // add immediate 0 into r5
        IncrementRegister: 5; // increment r5
        LoadRegisterByte: 0, 5; // load register to print into r0
        SysCall: PrintRegister;
        LoadRegisterByte: 15, 30; // jump over the print
        SysCall: PrintRegister;
        IncrementRegister: 5;
        CompareRegisterByte: 0x50; // compare r5 and r0
        JumpIfLessThan: 24,0,0,0,0,0,0,0;
        LoadRegisterByte: 6, 10; // counter
        LoadRegisterByte: 7, 1;
        LoadRegisterByte: 8, 1;
        LoadRegisterByte: 9, 1;
        /* the loop */
        MoveRegistersLong: 0x87;
        MoveRegistersLong: 0x98;
        AddRegistersLong: 0x79;
        DecrementRegister: 6;
        LoadRegisterByte: 0, 9;
        SysCall: PrintRegister;
        CompareRegisterByte: 0x64;
        JumpIfEqualTo: 95,0,0,0,0,0,0,0;
        LoadRegisterByte: 15, 59;
        Halt; // end program
    ";
    assert_eq!(parse(text.as_bytes().to_vec()), Ok(get_instructions()));
}

#[test]
fn sum_of_a_table_in_memory() {
    let text = "
        LoadRegisterLong: 1, &table;      // r1: address of the next entry
        LoadRegisterLong: 2, $count;      // r2: bytes left
        label next;
        MoveAddressedRegisterRegisterShort: 0x13; // r3 <- entry at r1
        AddRegistersLong: 0x34;           // r4 += r3
        AddRegisterImmediateLong: 1, #2;  // r1 += 2
        SubtractRegisterImmediateLong: 2, #2;
        CompareRegisterLiteralLong: 2, #0;
        JumpIfGreaterThan: &next;
        PushRegisterLong: 4;
        PopMemoryLong: &total;
        Halt;
        (count) table = #1000:0->1, #2000:0->1, #3000:0->1, #65535:0->1;
        (8) total;
    ";
    let (vm, thread) = run_to_halt(text);
    assert_eq!(thread.registers[4], 71535);
    let n = vm.instructions.len();
    assert_eq!(&vm.instructions[n - 8..], &71535u64.to_le_bytes());
    assert_eq!(thread.registers[2], 0);
}

#[test]
fn two_threads_share_the_image() {
    let text = "
        label first;
        LoadRegisterByte: 1, 1; MoveRegisterMemoryByte: 1, &cell; Halt;
        label second;
        label wait;
        MoveMemoryRegisterByte: &cell, 2; CompareRegisterLiteralByte: 2, 0;
        JumpIfEqualTo: &wait;
        AddRegisterImmediateByte: 2, 41; MoveRegisterMemoryByte: 2, &cell; Halt;
        (1) cell; () entry = &second:0->0;
    ";
    let mut vm = machine(text);
    let second = *vm.instructions.last().unwrap() as u64;
    vm.spawn(second);
    let mut worker = vm.threads.pop().unwrap();
    assert_eq!(worker.run(&mut vm, 30), Ok(Action::Nothing));
    assert!(worker.running);
    let (main, outcome) = vm.run(100);
    assert_eq!(outcome, Ok(Action::Nothing));
    assert!(!main.running);
    assert_eq!(worker.run(&mut vm, 30), Ok(Action::Nothing));
    assert!(!worker.running);
    let n = vm.instructions.len();
    assert_eq!(vm.instructions[n - 2], 42);
}

#[test]
fn run_can_be_taken_up_again() {
    let text = "LoadRegisterByte: 5, 0; LoadRegisterByte: 6, 200; label again; \
                IncrementRegister: 5; CompareRegisterByte: 0x56; JumpIfLessThan: &again; Halt;";
    let (_, whole) = run_to_halt(text);
    let mut vm = machine(text);
    let mut thread = VirtualThread::new(0);
    let mut slices = 0;
    while thread.running {
        assert_eq!(thread.run(&mut vm, 7), Ok(Action::Nothing));
        slices += 1;
    }
    assert_eq!(thread.registers, whole.registers);
    assert_eq!(slices, 87);
}
