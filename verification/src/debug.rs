//! A sample program for trying the machine: it counts to five, then prints
//! Fibonacci numbers.

use crate::assembler::opcode_bytes;
use crate::instructions::{Instructions, SysCalls, Width};
use vstd::prelude::*;

verus! {

/// An instruction in the image: the two bytes of its opcode, then its
/// operands.
pub open spec fn instruction(op: Instructions, operands: Seq<u8>) -> Seq<u8> {
    opcode_bytes(op) + operands
}

/// An address as the eight bytes of a jump's operand.
pub open spec fn address(to: u8) -> Seq<u8> {
    seq![to, 0, 0, 0, 0, 0, 0, 0]
}

/// The part of the sample that counts register 5 up to 5 and prints it on
/// the way.
pub open spec fn counting() -> Seq<u8> {
    instruction(Instructions::NoOperation, seq![])
    + instruction(Instructions::LoadRegister(Width::Byte), seq![5, 0])
    + instruction(Instructions::AddRegisterImmediate(Width::Byte), seq![5, 0])
    + instruction(Instructions::IncrementRegister, seq![5])
    + instruction(Instructions::LoadRegister(Width::Byte), seq![0, 5])
    + instruction(Instructions::SysCall, seq![SysCalls::PrintRegister.spec_code() as u8])
    + instruction(Instructions::LoadRegister(Width::Byte), seq![15, 30])
    + instruction(Instructions::SysCall, seq![SysCalls::PrintRegister.spec_code() as u8])
    + instruction(Instructions::IncrementRegister, seq![5])
    + instruction(Instructions::CompareRegister(Width::Byte), seq![0x50])
    + instruction(Instructions::JumpIfLessThan, address(24))
}

/// The part of the sample that prints ten Fibonacci numbers and halts.
pub open spec fn fibonacci() -> Seq<u8> {
    instruction(Instructions::LoadRegister(Width::Byte), seq![6, 10])
    + instruction(Instructions::LoadRegister(Width::Byte), seq![7, 1])
    + instruction(Instructions::LoadRegister(Width::Byte), seq![8, 1])
    + instruction(Instructions::LoadRegister(Width::Byte), seq![9, 1])
    + instruction(Instructions::MoveRegisters(Width::Long), seq![0x87])
    + instruction(Instructions::MoveRegisters(Width::Long), seq![0x98])
    + instruction(Instructions::AddRegisters(Width::Long), seq![0x79])
    + instruction(Instructions::DecrementRegister, seq![6])
    + instruction(Instructions::LoadRegister(Width::Byte), seq![0, 9])
    + instruction(Instructions::SysCall, seq![SysCalls::PrintRegister.spec_code() as u8])
    + instruction(Instructions::CompareRegister(Width::Byte), seq![0x64])
    + instruction(Instructions::JumpIfEqualTo, address(95))
    + instruction(Instructions::LoadRegister(Width::Byte), seq![15, 59])
    + instruction(Instructions::Halt, seq![])
}

/// The sample's image.
pub open spec fn spec_get_instructions() -> Seq<u8> {
    counting() + fibonacci()
}

/// Appends an instruction to the image.
fn put(image: &mut Vec<u8>, op: Instructions, operands: &[u8])
    ensures
        final(image)@ == old(image)@ + instruction(op, operands@),
{
    let code = op.code();
    image.push((code % 256) as u8);
    image.push((code / 256) as u8);
    let ghost head = image@;
    let mut i: usize = 0;
    while i < operands.len()
        invariant
            i <= operands.len(),
            image@ =~= head + operands@.take(i as int),
        decreases operands.len() - i,
    {
        image.push(operands[i]);
        i += 1;
    }
}

/// Appends a jump to `to`.
fn put_jump(image: &mut Vec<u8>, op: Instructions, to: u8)
    ensures
        final(image)@ == old(image)@ + instruction(op, address(to)),
{
    let operands = [to, 0, 0, 0, 0, 0, 0, 0];
    put(image, op, operands.as_slice());
}

/// Appends an instruction with one operand byte.
fn put_one(image: &mut Vec<u8>, op: Instructions, a: u8)
    ensures
        final(image)@ == old(image)@ + instruction(op, seq![a]),
{
    let operands = [a];
    put(image, op, operands.as_slice());
}

/// Appends an instruction with two operand bytes.
fn put_two(image: &mut Vec<u8>, op: Instructions, a: u8, b: u8)
    ensures
        final(image)@ == old(image)@ + instruction(op, seq![a, b]),
{
    let operands = [a, b];
    put(image, op, operands.as_slice());
}

/// Appends an instruction without operands.
fn put_bare(image: &mut Vec<u8>, op: Instructions)
    ensures
        final(image)@ == old(image)@ + instruction(op, seq![]),
{
    let operands: [u8; 0] = [];
    put(image, op, operands.as_slice());
}

fn put_counting(image: &mut Vec<u8>)
    ensures
        final(image)@ == old(image)@ + counting(),
{
    let print = SysCalls::PrintRegister.code();
    put_bare(image, Instructions::NoOperation);
    put_two(image, Instructions::LoadRegister(Width::Byte), 5, 0);
    put_two(image, Instructions::AddRegisterImmediate(Width::Byte), 5, 0);
    put_one(image, Instructions::IncrementRegister, 5);
    put_two(image, Instructions::LoadRegister(Width::Byte), 0, 5);
    put_one(image, Instructions::SysCall, print);
    put_two(image, Instructions::LoadRegister(Width::Byte), 15, 30);
    put_one(image, Instructions::SysCall, print);
    put_one(image, Instructions::IncrementRegister, 5);
    put_one(image, Instructions::CompareRegister(Width::Byte), 0x50);
    put_jump(image, Instructions::JumpIfLessThan, 24);
}

fn put_fibonacci(image: &mut Vec<u8>)
    ensures
        final(image)@ == old(image)@ + fibonacci(),
{
    let print = SysCalls::PrintRegister.code();
    put_two(image, Instructions::LoadRegister(Width::Byte), 6, 10);
    put_two(image, Instructions::LoadRegister(Width::Byte), 7, 1);
    put_two(image, Instructions::LoadRegister(Width::Byte), 8, 1);
    put_two(image, Instructions::LoadRegister(Width::Byte), 9, 1);
    put_one(image, Instructions::MoveRegisters(Width::Long), 0x87);
    put_one(image, Instructions::MoveRegisters(Width::Long), 0x98);
    put_one(image, Instructions::AddRegisters(Width::Long), 0x79);
    put_one(image, Instructions::DecrementRegister, 6);
    put_two(image, Instructions::LoadRegister(Width::Byte), 0, 9);
    put_one(image, Instructions::SysCall, print);
    put_one(image, Instructions::CompareRegister(Width::Byte), 0x64);
    put_jump(image, Instructions::JumpIfEqualTo, 95);
    put_two(image, Instructions::LoadRegister(Width::Byte), 15, 59);
    put_bare(image, Instructions::Halt);
}

/// The image of the sample program.
pub fn get_instructions() -> (image: Vec<u8>)
    ensures
        image@ == spec_get_instructions(),
{
    let mut image: Vec<u8> = Vec::new();
    put_counting(&mut image);
    put_fibonacci(&mut image);
    image
}

} // verus!
