//! A thread of the machine: sixteen registers, the flags byte and a stack,
//! and the fetch-decode-dispatch step over a code image.

use crate::assembler::opcode_bytes;
use crate::endian::{
    byte_of, le_bytes, le_value, le_value_bound, le_value_of_le_bytes, low, merge_low, read_le,
    spec_write_le, truncate, write_le, write_low, write_low_keeps_high,
};
use crate::instructions::{Instructions, SysCalls, Width, INSTRUCTION_COUNT, SYSCALL_COUNT};
use crate::virtual_machine::{
    can_pop, can_push, pop_after_push, pop_stack, push_stack, spec_pop, spec_push, syscalls_wf,
    ALUFlags, Action, Fault, RegisterRoles, Target, VirtualMachine,
};
use vstd::prelude::*;

verus! {

pub struct VirtualThread {
    pub registers: [u64; 16],
    pub running: bool,
    pub alu_flags: u8,
    pub stack: Vec<u8>,
}

/// What a thread holds, as plain values.
pub struct ThreadState {
    pub registers: Seq<u64>,
    pub running: bool,
    pub alu_flags: u8,
    pub stack: Seq<u8>,
}

/// A thread and the image as an instruction leaves them, and what the
/// instruction asks of the host or why the thread cannot go on.
pub struct Effect {
    pub thread: ThreadState,
    pub image: Seq<u8>,
    pub outcome: Result<Action, Fault>,
}

impl View for VirtualThread {
    type V = ThreadState;

    open spec fn view(&self) -> ThreadState {
        ThreadState {
            registers: self.registers@,
            running: self.running,
            alu_flags: self.alu_flags,
            stack: self.stack@,
        }
    }
}

impl ThreadState {
    /// A thread that is about to start at `from`.
    pub open spec fn start(from: u64) -> ThreadState {
        ThreadState {
            registers: Seq::new(
                16,
                |i: int|
                    if i == RegisterRoles::ProgramCounter.spec_index() {
                        from
                    } else {
                        0u64
                    },
            ),
            running: true,
            alu_flags: 0,
            stack: Seq::empty(),
        }
    }

    pub open spec fn wf(self) -> bool {
        self.registers.len() == 16
    }

    /// The program counter.
    pub open spec fn pc(self) -> u64 {
        self.registers[RegisterRoles::ProgramCounter.spec_index()]
    }

    /// The stack pointer.
    pub open spec fn sp(self) -> u64 {
        self.registers[RegisterRoles::StackPointer.spec_index()]
    }

    pub open spec fn with_pc(self, value: u64) -> ThreadState {
        self.with_register(RegisterRoles::ProgramCounter.spec_index(), value)
    }

    pub open spec fn with_sp(self, value: u64) -> ThreadState {
        self.with_register(RegisterRoles::StackPointer.spec_index(), value)
    }

    pub open spec fn with_register(self, i: int, value: u64) -> ThreadState {
        ThreadState { registers: self.registers.update(i, value), ..self }
    }

    pub open spec fn with_flags(self, flags: u8) -> ThreadState {
        ThreadState { alu_flags: flags, ..self }
    }

    pub open spec fn with_stack(self, stack: Seq<u8>) -> ThreadState {
        ThreadState { stack: stack, ..self }
    }

    pub open spec fn stopped(self) -> ThreadState {
        ThreadState { running: false, ..self }
    }

    /// Register `i` with its low bytes at width `w` replaced by those of
    /// `value`.
    pub open spec fn with_low(self, i: int, value: int, w: Width) -> ThreadState {
        self.with_register(i, write_low(self.registers[i], value, w))
    }

    /// Whether `w.bytes()` bytes can be read at the program counter.
    pub open spec fn can_fetch(self, image: Seq<u8>, w: Width) -> bool {
        self.pc() + w.bytes() <= image.len()
    }

    /// The little-endian value at the program counter.
    pub open spec fn peek(self, image: Seq<u8>, w: Width) -> u64 {
        le_value(image.subrange(self.pc() as int, self.pc() + w.bytes())) as u64
    }

    /// The thread with the program counter moved past a value of width `w`.
    pub open spec fn advanced(self, w: Width) -> ThreadState {
        self.with_pc((self.pc() + w.bytes()) as u64)
    }
}

impl Effect {
    pub open spec fn new(
        thread: ThreadState,
        image: Seq<u8>,
        outcome: Result<Action, Fault>,
    ) -> Effect {
        Effect { thread, image, outcome }
    }

    /// The step is done and asks nothing of the host.
    pub open spec fn done(thread: ThreadState, image: Seq<u8>) -> Effect {
        Effect { thread, image, outcome: Ok(Action::Nothing) }
    }

    pub open spec fn ask(thread: ThreadState, image: Seq<u8>, action: Action) -> Effect {
        Effect { thread, image, outcome: Ok(action) }
    }

    pub open spec fn fault(thread: ThreadState, image: Seq<u8>, fault: Fault) -> Effect {
        Effect { thread, image, outcome: Err(fault) }
    }
}

/// How an opcode's operands lie behind it.
#[derive(Clone, Copy, Debug, PartialEq, Eq, Structural)]
pub enum Operands {
    /// No operand.
    Nothing,
    /// One byte: a register number, two of them, or a system call's number.
    Byte,
    /// A byte, then a value of the opcode's width.
    ByteValue(Width),
    /// A 64-bit address.
    Address,
    /// A 64-bit address, then a byte.
    AddressByte,
    /// A byte, then a 64-bit address.
    ByteAddress,
}

impl Operands {
    pub open spec fn first(self) -> Option<Width> {
        match self {
            Operands::Nothing => None,
            Operands::Byte | Operands::ByteValue(_) | Operands::ByteAddress => Some(Width::Byte),
            Operands::Address | Operands::AddressByte => Some(Width::Long),
        }
    }

    pub open spec fn second(self) -> Option<Width> {
        match self {
            Operands::Nothing | Operands::Byte | Operands::Address => None,
            Operands::ByteValue(w) => Some(w),
            Operands::AddressByte => Some(Width::Byte),
            Operands::ByteAddress => Some(Width::Long),
        }
    }

    pub open spec fn spec_of(op: Instructions) -> Operands {
        match op {
            Instructions::Halt | Instructions::NoOperation => Operands::Nothing,
            Instructions::SysCall
            | Instructions::AddRegisters(_)
            | Instructions::SubtractRegisters(_)
            | Instructions::IncrementRegister
            | Instructions::DecrementRegister
            | Instructions::CompareRegister(_)
            | Instructions::MoveRegisters(_)
            | Instructions::PushRegister(_)
            | Instructions::PopRegister(_)
            | Instructions::BitwiseAndRegisters(_)
            | Instructions::BitwiseOrRegisters(_)
            | Instructions::BitwiseXOrRegisters(_)
            | Instructions::BitwiseNotRegister(_)
            | Instructions::MoveAddressedRegisterRegister(_)
            | Instructions::MoveRegisterAddressedRegister(_)
            | Instructions::MoveAddressedRegisters(_) => Operands::Byte,
            Instructions::LoadRegister(w)
            | Instructions::AddRegisterImmediate(w)
            | Instructions::SubtractRegisterImmediate(w)
            | Instructions::CompareRegisterLiteral(w)
            | Instructions::BitwiseAndRegisterImmediate(w)
            | Instructions::BitwiseOrRegisterImmediate(w)
            | Instructions::BitwiseXOrRegisterImmediate(w) => Operands::ByteValue(w),
            Instructions::JumpTo
            | Instructions::JumpIfEqualTo
            | Instructions::JumpIfGreaterThan
            | Instructions::JumpIfLessThan
            | Instructions::JumpIfZero
            | Instructions::PushMemory(_)
            | Instructions::PopMemory(_) => Operands::Address,
            Instructions::MoveMemoryRegister(_) => Operands::AddressByte,
            Instructions::MoveRegisterMemory(_) => Operands::ByteAddress,
        }
    }

    pub fn first_width(self) -> (w: Option<Width>)
        ensures
            w == self.first(),
    {
        match self {
            Operands::Nothing => None,
            Operands::Byte | Operands::ByteValue(_) | Operands::ByteAddress => Some(Width::Byte),
            Operands::Address | Operands::AddressByte => Some(Width::Long),
        }
    }

    pub fn second_width(self) -> (w: Option<Width>)
        ensures
            w == self.second(),
    {
        match self {
            Operands::Nothing | Operands::Byte | Operands::Address => None,
            Operands::ByteValue(w) => Some(w),
            Operands::AddressByte => Some(Width::Byte),
            Operands::ByteAddress => Some(Width::Long),
        }
    }

    /// The layout of the operands of `op`.
    pub fn of(op: Instructions) -> (r: Operands)
        ensures
            r == Self::spec_of(op),
    {
        match op {
            Instructions::Halt | Instructions::NoOperation => Operands::Nothing,
            Instructions::SysCall
            | Instructions::AddRegisters(_)
            | Instructions::SubtractRegisters(_)
            | Instructions::IncrementRegister
            | Instructions::DecrementRegister
            | Instructions::CompareRegister(_)
            | Instructions::MoveRegisters(_)
            | Instructions::PushRegister(_)
            | Instructions::PopRegister(_)
            | Instructions::BitwiseAndRegisters(_)
            | Instructions::BitwiseOrRegisters(_)
            | Instructions::BitwiseXOrRegisters(_)
            | Instructions::BitwiseNotRegister(_)
            | Instructions::MoveAddressedRegisterRegister(_)
            | Instructions::MoveRegisterAddressedRegister(_)
            | Instructions::MoveAddressedRegisters(_) => Operands::Byte,
            Instructions::LoadRegister(w)
            | Instructions::AddRegisterImmediate(w)
            | Instructions::SubtractRegisterImmediate(w)
            | Instructions::CompareRegisterLiteral(w)
            | Instructions::BitwiseAndRegisterImmediate(w)
            | Instructions::BitwiseOrRegisterImmediate(w)
            | Instructions::BitwiseXOrRegisterImmediate(w) => Operands::ByteValue(w),
            Instructions::JumpTo
            | Instructions::JumpIfEqualTo
            | Instructions::JumpIfGreaterThan
            | Instructions::JumpIfLessThan
            | Instructions::JumpIfZero
            | Instructions::PushMemory(_)
            | Instructions::PopMemory(_) => Operands::Address,
            Instructions::MoveMemoryRegister(_) => Operands::AddressByte,
            Instructions::MoveRegisterMemory(_) => Operands::ByteAddress,
        }
    }
}

/// The flags of a compare of `left` with `right`; `Zero` tells of `left`.
pub open spec fn compare_flags(left: int, right: int) -> u8 {
    let equal: int = if left == right {
        8
    } else {
        0
    };
    let greater: int = if left > right {
        2
    } else {
        0
    };
    let lesser: int = if left < right {
        4
    } else {
        0
    };
    let zero: int = if left == 0 {
        1
    } else {
        0
    };
    (equal + greater + lesser + zero) as u8
}

/// Whether the flags byte has the flag set.
pub open spec fn has_flag(flags: u8, flag: ALUFlags) -> bool {
    flags & flag.spec_mask() != 0
}

/// The number `bits` read as a signed 64-bit number.
pub open spec fn signed(bits: u64) -> i64 {
    if bits < 0x8000_0000_0000_0000 {
        bits as i64
    } else {
        (bits - 0x1_0000_0000_0000_0000) as i64
    }
}

/// What a system call asks of the host, from the registers it reads.
pub open spec fn syscall_effect(call: SysCalls, t: ThreadState, image: Seq<u8>) -> Effect {
    let r0 = t.registers[0];
    let r1 = t.registers[1];
    let r2 = t.registers[2];
    match call {
        SysCalls::PrintRegister => if r0 < 16 {
            Effect::ask(t, image, Action::PrintUnsigned(t.registers[r0 as int]))
        } else {
            Effect::fault(t, image, Fault::InvalidRegister)
        },
        SysCalls::PrintRegisterSigned => if r0 < 16 {
            Effect::ask(t, image, Action::PrintSigned(signed(t.registers[r0 as int])))
        } else {
            Effect::fault(t, image, Fault::InvalidRegister)
        },
        SysCalls::PrintCString => Effect::ask(t, image, Action::PrintCString { address: r0 }),
        SysCalls::MemoryAllocate => Effect::ask(t, image, Action::Allocate { size: r0 }),
        SysCalls::MemoryFree => Effect::ask(t, image, Action::Free { address: r0, size: r1 }),
        SysCalls::FOpen => Effect::ask(t, image, Action::FileOpen { name: r0, mode: r1 }),
        SysCalls::FClose => Effect::ask(t, image, Action::FileClose { handle: r0 }),
        SysCalls::FGetC => Effect::ask(t, image, Action::FileGetC { handle: r0 }),
        SysCalls::FTell => Effect::ask(t, image, Action::FileTell { handle: r0 }),
        SysCalls::FSeek => Effect::ask(
            t,
            image,
            Action::FileSeek { handle: r0, offset: signed(r1), whence: r2 },
        ),
    }
}

/// The register that takes what the host hands back for a system call.
pub open spec fn result_register(call: SysCalls) -> Option<int> {
    match call {
        SysCalls::MemoryAllocate | SysCalls::FOpen => Some(0),
        SysCalls::FGetC | SysCalls::FTell | SysCalls::FSeek => Some(1),
        _ => None,
    }
}

/// Whether the `w.bytes()` bytes at `address` lie in the image.
pub open spec fn in_image(image: Seq<u8>, address: u64, w: Width) -> bool {
    address + w.bytes() <= image.len()
}

/// The low bytes of `value` at width `w` go on the stack.
pub open spec fn push_effect(t: ThreadState, image: Seq<u8>, value: int, w: Width) -> Effect {
    if can_push(t.sp(), w.bytes()) {
        Effect::done(
            t.with_stack(spec_push(t.stack, t.sp() as int, value, w.bytes())).with_sp(
                (t.sp() + w.bytes()) as u64,
            ),
            image,
        )
    } else {
        Effect::fault(t, image, Fault::StackOverflow)
    }
}

/// The low bytes of `value` at width `w` go to `address`: into the image
/// where they lie in it, else to the host.
pub open spec fn store_effect(
    t: ThreadState,
    image: Seq<u8>,
    address: u64,
    value: int,
    w: Width,
) -> Effect {
    if in_image(image, address, w) {
        Effect::done(t, spec_write_le(image, address as int, w.bytes(), low(value, w)))
    } else {
        Effect::ask(t, image, Action::Store { address, width: w, value: low(value, w) as u64 })
    }
}

/// A loaded `value` of width `w` goes to its target.
pub open spec fn deliver_effect(
    t: ThreadState,
    image: Seq<u8>,
    target: Target,
    value: int,
    w: Width,
) -> Effect {
    match target {
        Target::Register(r) => if r < 16 {
            Effect::done(t.with_low(r as int, value, w), image)
        } else {
            Effect::fault(t, image, Fault::InvalidRegister)
        },
        Target::Stack => push_effect(t, image, value, w),
        Target::Memory(address) => store_effect(t, image, address, value, w),
    }
}

/// The `w.bytes()` bytes at `address` go to `target`: read from the image
/// where they lie in it, else asked of the host.
pub open spec fn load_effect(
    t: ThreadState,
    image: Seq<u8>,
    address: u64,
    w: Width,
    target: Target,
) -> Effect {
    if in_image(image, address, w) {
        deliver_effect(
            t,
            image,
            target,
            le_value(image.subrange(address as int, address + w.bytes())),
            w,
        )
    } else {
        Effect::ask(t, image, Action::Load { address, width: w, target })
    }
}

/// `w.bytes()` bytes come off the stack and go to `target`.
pub open spec fn pop_effect(t: ThreadState, image: Seq<u8>, w: Width, target: Target) -> Effect {
    if can_pop(t.stack, t.sp(), w.bytes()) {
        deliver_effect(
            t.with_sp((t.sp() - w.bytes()) as u64),
            image,
            target,
            spec_pop(t.stack, t.sp() as int, w.bytes()),
            w,
        )
    } else {
        Effect::fault(t, image, Fault::StackUnderflow)
    }
}

/// A jump to `address` if `taken`.
pub open spec fn jump_effect(t: ThreadState, image: Seq<u8>, taken: bool, address: u64) -> Effect {
    if taken {
        Effect::done(t.with_pc(address), image)
    } else {
        Effect::done(t, image)
    }
}

/// What `op` does with its operands `a` and `b` read. In a byte that holds
/// two register numbers, `hi` is the high nibble and `lo` the low one.
pub open spec fn apply(op: Instructions, a: u64, b: u64, t: ThreadState, image: Seq<u8>) -> Effect {
    let hi = a as int / 16 % 16;
    let lo = a as int % 16;
    let x = t.registers[hi];
    let y = t.registers[lo];
    match op {
        Instructions::Halt => Effect::done(t.stopped(), image),
        Instructions::NoOperation => Effect::done(t, image),
        Instructions::SysCall => if a < SYSCALL_COUNT {
            syscall_effect(SysCalls::spec_from_code(a as int), t, image)
        } else {
            Effect::fault(t, image, Fault::InvalidSyscall)
        },
        Instructions::LoadRegister(_) => if a < 16 {
            Effect::done(t.with_register(a as int, b), image)
        } else {
            Effect::fault(t, image, Fault::InvalidRegister)
        },
        Instructions::AddRegisters(w) => Effect::done(t.with_low(lo, y + x, w), image),
        Instructions::SubtractRegisters(w) => Effect::done(t.with_low(lo, y - x, w), image),
        Instructions::AddRegisterImmediate(w) => Effect::done(t.with_low(lo, y + b, w), image),
        Instructions::SubtractRegisterImmediate(w) => Effect::done(
            t.with_low(lo, y - b, w),
            image,
        ),
        Instructions::IncrementRegister => Effect::done(t.with_low(lo, y + 1, Width::Long), image),
        Instructions::DecrementRegister => Effect::done(t.with_low(lo, y - 1, Width::Long), image),
        Instructions::CompareRegister(w) => Effect::done(
            t.with_flags(compare_flags(low(x as int, w), low(y as int, w))),
            image,
        ),
        Instructions::CompareRegisterLiteral(w) => if a < 16 {
            Effect::done(
                t.with_flags(compare_flags(low(t.registers[a as int] as int, w), b as int)),
                image,
            )
        } else {
            Effect::fault(t, image, Fault::InvalidRegister)
        },
        Instructions::JumpTo => jump_effect(t, image, true, a),
        Instructions::JumpIfEqualTo => jump_effect(
            t,
            image,
            has_flag(t.alu_flags, ALUFlags::Equal),
            a,
        ),
        Instructions::JumpIfGreaterThan => jump_effect(
            t,
            image,
            has_flag(t.alu_flags, ALUFlags::Greater),
            a,
        ),
        Instructions::JumpIfLessThan => jump_effect(
            t,
            image,
            has_flag(t.alu_flags, ALUFlags::Lesser),
            a,
        ),
        Instructions::JumpIfZero => jump_effect(t, image, has_flag(t.alu_flags, ALUFlags::Zero), a),
        Instructions::MoveRegisters(w) => Effect::done(t.with_low(lo, x as int, w), image),
        Instructions::PushRegister(w) => push_effect(t, image, y as int, w),
        Instructions::PopRegister(w) => pop_effect(t, image, w, Target::Register(lo as u8)),
        Instructions::MoveMemoryRegister(w) => load_effect(
            t,
            image,
            a,
            w,
            Target::Register((b % 16) as u8),
        ),
        Instructions::MoveRegisterMemory(w) => store_effect(t, image, b, y as int, w),
        Instructions::PushMemory(w) => load_effect(t, image, a, w, Target::Stack),
        Instructions::PopMemory(w) => pop_effect(t, image, w, Target::Memory(a)),
        Instructions::BitwiseAndRegisters(w) => Effect::done(
            t.with_low(lo, (y & x) as int, w),
            image,
        ),
        Instructions::BitwiseOrRegisters(w) => Effect::done(
            t.with_low(lo, (y | x) as int, w),
            image,
        ),
        Instructions::BitwiseXOrRegisters(w) => Effect::done(
            t.with_low(lo, (y ^ x) as int, w),
            image,
        ),
        Instructions::BitwiseNotRegister(w) => Effect::done(t.with_low(lo, (!y) as int, w), image),
        Instructions::BitwiseAndRegisterImmediate(w) => Effect::done(
            t.with_low(lo, (y & b) as int, w),
            image,
        ),
        Instructions::BitwiseOrRegisterImmediate(w) => Effect::done(
            t.with_low(lo, (y | b) as int, w),
            image,
        ),
        Instructions::BitwiseXOrRegisterImmediate(w) => Effect::done(
            t.with_low(lo, (y ^ b) as int, w),
            image,
        ),
        Instructions::MoveAddressedRegisterRegister(w) => load_effect(
            t,
            image,
            x,
            w,
            Target::Register(lo as u8),
        ),
        Instructions::MoveRegisterAddressedRegister(w) => store_effect(t, image, y, x as int, w),
        Instructions::MoveAddressedRegisters(w) => load_effect(t, image, x, w, Target::Memory(y)),
    }
}

/// What `op` does once its number is read: its operands are read, then it
/// is applied. Where the image ends before an operand does, the thread
/// stays at that operand.
pub open spec fn execute_effect(op: Instructions, t: ThreadState, image: Seq<u8>) -> Effect {
    let shape = Operands::spec_of(op);
    match shape.first() {
        None => apply(op, 0, 0, t, image),
        Some(w1) => if !t.can_fetch(image, w1) {
            Effect::fault(t, image, Fault::OutOfInstructions)
        } else {
            let a = t.peek(image, w1);
            let t1 = t.advanced(w1);
            match shape.second() {
                None => apply(op, a, 0, t1, image),
                Some(w2) => if !t1.can_fetch(image, w2) {
                    Effect::fault(t1, image, Fault::OutOfInstructions)
                } else {
                    apply(op, a, t1.peek(image, w2), t1.advanced(w2), image)
                },
            }
        },
    }
}

/// One step: the 16-bit opcode at the program counter is read and checked,
/// and the instruction is executed.
pub open spec fn step_effect(t: ThreadState, image: Seq<u8>) -> Effect {
    if !t.can_fetch(image, Width::Short) {
        Effect::fault(t, image, Fault::OutOfInstructions)
    } else {
        let code = t.peek(image, Width::Short);
        let t1 = t.advanced(Width::Short);
        if code >= INSTRUCTION_COUNT {
            Effect::fault(t1, image, Fault::InvalidOpcode)
        } else {
            execute_effect(Instructions::spec_from_code(code as int), t1, image)
        }
    }
}

/// Steps while the thread runs, asks nothing and no more than `budget` steps
/// are taken.
pub open spec fn run_effect(t: ThreadState, image: Seq<u8>, budget: nat) -> Effect
    decreases budget,
{
    if !t.running || budget == 0 {
        Effect::done(t, image)
    } else {
        let e = step_effect(t, image);
        if e.outcome == Ok::<Action, Fault>(Action::Nothing) {
            run_effect(e.thread, e.image, (budget - 1) as nat)
        } else {
            e
        }
    }
}

/// Whether `op` computes on registers alone: it can neither fault nor ask
/// anything of the host.
pub open spec fn is_arithmetic(op: Instructions) -> bool {
    match op {
        Instructions::AddRegisters(_)
        | Instructions::SubtractRegisters(_)
        | Instructions::AddRegisterImmediate(_)
        | Instructions::SubtractRegisterImmediate(_)
        | Instructions::IncrementRegister
        | Instructions::DecrementRegister
        | Instructions::MoveRegisters(_)
        | Instructions::BitwiseAndRegisters(_)
        | Instructions::BitwiseOrRegisters(_)
        | Instructions::BitwiseXOrRegisters(_)
        | Instructions::BitwiseNotRegister(_)
        | Instructions::BitwiseAndRegisterImmediate(_)
        | Instructions::BitwiseOrRegisterImmediate(_)
        | Instructions::BitwiseXOrRegisterImmediate(_) => true,
        _ => false,
    }
}

/// Whether `op` reads or writes the stack or memory.
pub open spec fn is_memory(op: Instructions) -> bool {
    match op {
        Instructions::PushRegister(_)
        | Instructions::PopRegister(_)
        | Instructions::MoveMemoryRegister(_)
        | Instructions::MoveRegisterMemory(_)
        | Instructions::PushMemory(_)
        | Instructions::PopMemory(_)
        | Instructions::MoveAddressedRegisterRegister(_)
        | Instructions::MoveRegisterAddressedRegister(_)
        | Instructions::MoveAddressedRegisters(_) => true,
        _ => false,
    }
}

fn arithmetic(op: Instructions) -> (r: bool)
    ensures
        r == is_arithmetic(op),
{
    match op {
        Instructions::AddRegisters(_)
        | Instructions::SubtractRegisters(_)
        | Instructions::AddRegisterImmediate(_)
        | Instructions::SubtractRegisterImmediate(_)
        | Instructions::IncrementRegister
        | Instructions::DecrementRegister
        | Instructions::MoveRegisters(_)
        | Instructions::BitwiseAndRegisters(_)
        | Instructions::BitwiseOrRegisters(_)
        | Instructions::BitwiseXOrRegisters(_)
        | Instructions::BitwiseNotRegister(_)
        | Instructions::BitwiseAndRegisterImmediate(_)
        | Instructions::BitwiseOrRegisterImmediate(_)
        | Instructions::BitwiseXOrRegisterImmediate(_) => true,
        _ => false,
    }
}

fn memory(op: Instructions) -> (r: bool)
    ensures
        r == is_memory(op),
{
    match op {
        Instructions::PushRegister(_)
        | Instructions::PopRegister(_)
        | Instructions::MoveMemoryRegister(_)
        | Instructions::MoveRegisterMemory(_)
        | Instructions::PushMemory(_)
        | Instructions::PopMemory(_)
        | Instructions::MoveAddressedRegisterRegister(_)
        | Instructions::MoveRegisterAddressedRegister(_)
        | Instructions::MoveAddressedRegisters(_) => true,
        _ => false,
    }
}

/// Writing the low bytes of two numbers that agree modulo 2^64 gives the
/// same register.
pub proof fn write_low_wraps(old: u64, value: int, w: Width)
    ensures
        write_low(old, value % 0x1_0000_0000_0000_0000, w) == write_low(old, value, w),
{
    let m = w.modulus();
    let k = 0x1_0000_0000_0000_0000int / m;
    vstd::arithmetic::div_mod::lemma_mod_mod(value, m, k);
}

/// An opcode of a sized family that computes on registers changes one
/// register, the one named by the low nibble of its first operand, and of
/// that register only the low bytes of the opcode's width: the bytes above
/// them, the other registers, the flags, the stack and the image stay.
pub proof fn sized_write_keeps_high_bytes(
    op: Instructions,
    a: u64,
    b: u64,
    t: ThreadState,
    image: Seq<u8>,
)
    requires
        t.wf(),
        is_arithmetic(op),
        op.spec_width() is Some,
    ensures
        ({
            let w = op.spec_width()->0;
            let e = apply(op, a, b, t, image);
            let lo = a as int % 16;
            &&& e.outcome == Ok::<Action, Fault>(Action::Nothing)
            &&& e.image == image
            &&& e.thread == t.with_register(lo, e.thread.registers[lo])
            &&& forall|i: int|
                w.bytes() <= i < 8 ==> byte_of(e.thread.registers[lo] as int, i)
                    == byte_of(t.registers[lo] as int, i)
        }),
{
    let w = op.spec_width()->0;
    let lo = a as int % 16;
    let e = apply(op, a, b, t, image);
    let value: int = choose|value: int| e.thread == t.with_low(lo, value, w);
    write_low_keeps_high(t.registers[lo], value, w);
}

/// An opcode that loads a register from memory in the image, or pops one
/// that is not the stack pointer, changes of that register only the low
/// bytes of the opcode's width.
pub proof fn sized_load_keeps_high_bytes(
    op: Instructions,
    a: u64,
    b: u64,
    t: ThreadState,
    image: Seq<u8>,
)
    requires
        t.wf(),
        match op {
            Instructions::MoveMemoryRegister(w) => in_image(image, a, w),
            Instructions::MoveAddressedRegisterRegister(w) => in_image(
                image,
                t.registers[a as int / 16 % 16],
                w,
            ),
            Instructions::PopRegister(w) => can_pop(t.stack, t.sp(), w.bytes()) && a as int % 16
                != RegisterRoles::StackPointer.spec_index(),
            _ => false,
        },
    ensures
        ({
            let w = op.spec_width()->0;
            let e = apply(op, a, b, t, image);
            let r = if op is MoveMemoryRegister {
                b as int % 16
            } else {
                a as int % 16
            };
            &&& e.outcome == Ok::<Action, Fault>(Action::Nothing)
            &&& e.image == image
            &&& forall|i: int|
                w.bytes() <= i < 8 ==> byte_of(e.thread.registers[r] as int, i)
                    == byte_of(t.registers[r] as int, i)
            &&& forall|i: int|
                0 <= i < 16 && i != r && i != RegisterRoles::StackPointer.spec_index()
                    ==> e.thread.registers[i] == t.registers[i]
        }),
{
    match op {
        Instructions::MoveMemoryRegister(w) => {
            let r = (b % 16) as u8;
            let value = le_value(image.subrange(a as int, a + w.bytes()));
            write_low_keeps_high(t.registers[r as int], value, w);
        },
        Instructions::MoveAddressedRegisterRegister(w) => {
            let r = (a as int % 16) as u8;
            let from = t.registers[a as int / 16 % 16];
            let value = le_value(image.subrange(from as int, from + w.bytes()));
            write_low_keeps_high(t.registers[r as int], value, w);
        },
        Instructions::PopRegister(w) => {
            let r = (a as int % 16) as u8;
            let t1 = t.with_sp((t.sp() - w.bytes()) as u64);
            let value = spec_pop(t.stack, t.sp() as int, w.bytes());
            write_low_keeps_high(t1.registers[r as int], value, w);
        },
        _ => {},
    }
}

/// Whether `op` writes a register at its width: the sized opcodes that
/// compute on registers, and those that pop a register or load one from
/// memory.
pub open spec fn writes_at_width(op: Instructions) -> bool {
    (is_arithmetic(op) && op.spec_width() is Some) || op is PopRegister || op is MoveMemoryRegister
        || op is MoveAddressedRegisterRegister
}

/// The register that `op` writes, from its operands: the low nibble of the
/// register byte.
pub open spec fn written_register(op: Instructions, a: u64, b: u64) -> int {
    if op is MoveMemoryRegister {
        b as int % 16
    } else {
        a as int % 16
    }
}

/// The register that `op` writes, from the operands that lie at the program
/// counter.
pub open spec fn destination(op: Instructions, t: ThreadState, image: Seq<u8>) -> int {
    let shape = Operands::spec_of(op);
    let a = t.peek(image, shape.first()->0);
    let t1 = t.advanced(shape.first()->0);
    match shape.second() {
        Some(w2) => written_register(op, a, t1.peek(image, w2)),
        None => written_register(op, a, 0),
    }
}

/// Whether the bytes of `new` from byte `n` on are those of `old`.
pub open spec fn same_high_bytes(new: u64, old: u64, n: int) -> bool {
    forall|k: int| n <= k < 8 ==> byte_of(new as int, k) == byte_of(old as int, k)
}

/// An opcode that writes a register at its width, applied to its operands,
/// leaves every other register as it was (a pop moves the stack pointer
/// besides), and of the register it writes the bytes above the width: be
/// it that it computes, loads, pops, asks the host or faults.
pub proof fn apply_keeps_high_bytes(
    op: Instructions,
    a: u64,
    b: u64,
    t: ThreadState,
    image: Seq<u8>,
)
    requires
        t.wf(),
        writes_at_width(op),
    ensures
        ({
            let e = apply(op, a, b, t, image);
            let d = written_register(op, a, b);
            let sp = RegisterRoles::StackPointer.spec_index();
            &&& e.thread.wf()
            &&& forall|i: int|
                0 <= i < 16 && i != d && (op is PopRegister ==> i != sp) ==> e.thread.registers[i]
                    == t.registers[i]
            &&& (op is PopRegister ==> d != sp) ==> same_high_bytes(
                e.thread.registers[d],
                t.registers[d],
                op.spec_width()->0.bytes(),
            )
        }),
{
    let d = written_register(op, a, b);
    match op {
        Instructions::MoveMemoryRegister(w) => {
            if in_image(image, a, w) {
                let value = le_value(image.subrange(a as int, a + w.bytes()));
                write_low_keeps_high(t.registers[d], value, w);
            }
        },
        Instructions::MoveAddressedRegisterRegister(w) => {
            let from = t.registers[a as int / 16 % 16];
            if in_image(image, from, w) {
                let value = le_value(image.subrange(from as int, from + w.bytes()));
                write_low_keeps_high(t.registers[d], value, w);
            }
        },
        Instructions::PopRegister(w) => {
            if can_pop(t.stack, t.sp(), w.bytes()) {
                let t1 = t.with_sp((t.sp() - w.bytes()) as u64);
                let value = spec_pop(t.stack, t.sp() as int, w.bytes());
                write_low_keeps_high(t1.registers[d], value, w);
            }
        },
        _ => {
            sized_write_keeps_high_bytes(op, a, b, t, image);
        },
    }
}

/// An instruction that writes a register at its width, executed from its
/// operands at the program counter on, changes besides the program counter
/// (and, for a pop, the stack pointer) no register but the one it writes,
/// and of that one, where it is neither of the two, only the low bytes of
/// its width.
pub proof fn sized_instruction_keeps_high_bytes(op: Instructions, t: ThreadState, image: Seq<u8>)
    requires
        t.wf(),
        writes_at_width(op),
    ensures
        ({
            let e = execute_effect(op, t, image);
            let d = destination(op, t, image);
            let sp = RegisterRoles::StackPointer.spec_index();
            let pc = RegisterRoles::ProgramCounter.spec_index();
            &&& e.thread.wf()
            &&& forall|i: int|
                0 <= i < 16 && i != d && i != pc && (op is PopRegister ==> i != sp)
                    ==> e.thread.registers[i] == t.registers[i]
            &&& d != sp && d != pc ==> same_high_bytes(
                e.thread.registers[d],
                t.registers[d],
                op.spec_width()->0.bytes(),
            )
        }),
{
    let shape = Operands::spec_of(op);
    let w1 = shape.first()->0;
    if t.can_fetch(image, w1) {
        let a = t.peek(image, w1);
        let t1 = t.advanced(w1);
        match shape.second() {
            None => {
                apply_keeps_high_bytes(op, a, 0, t1, image);
            },
            Some(w2) => {
                if t1.can_fetch(image, w2) {
                    apply_keeps_high_bytes(op, a, t1.peek(image, w2), t1.advanced(w2), image);
                }
            },
        }
    }
}

/// A step whose opcode writes a register at its width changes besides the
/// program counter (and, for a pop, the stack pointer) no register but the
/// one it writes, and of that one, where it is neither of the two, only the
/// low bytes of its width.
pub proof fn sized_step_keeps_high_bytes(t: ThreadState, image: Seq<u8>)
    requires
        t.wf(),
        t.can_fetch(image, Width::Short),
        t.peek(image, Width::Short) < INSTRUCTION_COUNT,
        writes_at_width(Instructions::spec_from_code(t.peek(image, Width::Short) as int)),
    ensures
        ({
            let op = Instructions::spec_from_code(t.peek(image, Width::Short) as int);
            let e = step_effect(t, image);
            let d = destination(op, t.advanced(Width::Short), image);
            let sp = RegisterRoles::StackPointer.spec_index();
            let pc = RegisterRoles::ProgramCounter.spec_index();
            &&& e.thread.wf()
            &&& forall|i: int|
                0 <= i < 16 && i != d && i != pc && (op is PopRegister ==> i != sp)
                    ==> e.thread.registers[i] == t.registers[i]
            &&& d != sp && d != pc ==> same_high_bytes(
                e.thread.registers[d],
                t.registers[d],
                op.spec_width()->0.bytes(),
            )
        }),
{
    let op = Instructions::spec_from_code(t.peek(image, Width::Short) as int);
    sized_instruction_keeps_high_bytes(op, t.advanced(Width::Short), image);
}

/// The system call that prints a string asks the host for the string at
/// the address in register 0, and leaves the thread and the image as they
/// are. What the host is to write is what `c_string_at` reads there.
pub proof fn print_c_string_asks_for_the_string(b: u64, t: ThreadState, image: Seq<u8>)
    ensures
        apply(Instructions::SysCall, SysCalls::PrintCString.spec_code() as u64, b, t, image)
            == Effect::ask(t, image, Action::PrintCString { address: t.registers[0] }),
{
}

/// The instruction `SysCall` with the number of the string-printing call
/// behind it asks the host for the string at the address in register 0. It
/// moves the program counter past its operand and changes nothing else:
/// not the other registers, the flags, the stack or the image.
pub proof fn print_c_string_executes(t: ThreadState, image: Seq<u8>)
    requires
        t.wf(),
        t.can_fetch(image, Width::Byte),
        t.peek(image, Width::Byte) == SysCalls::PrintCString.spec_code(),
    ensures
        execute_effect(Instructions::SysCall, t, image) == Effect::ask(
            t.advanced(Width::Byte),
            image,
            Action::PrintCString { address: t.registers[0] },
        ),
{
}

/// An operand of the width as it lies in the image; no bytes where the
/// opcode has no such operand.
pub open spec fn operand_bytes(value: u64, w: Option<Width>) -> Seq<u8> {
    match w {
        Some(w) => le_bytes(value as int, w.bytes()),
        None => Seq::empty(),
    }
}

/// Whether `value` is an operand of the width: below the width's modulus,
/// and 0 where the opcode has no such operand.
pub open spec fn is_operand(value: u64, w: Option<Width>) -> bool {
    match w {
        Some(w) => value < w.modulus(),
        None => value == 0,
    }
}

/// An instruction as it lies in the image: the two bytes of the opcode's
/// number, low byte first, then the operands that the opcode takes.
pub open spec fn encoded(op: Instructions, a: u64, b: u64) -> Seq<u8> {
    opcode_bytes(op) + operand_bytes(a, Operands::spec_of(op).first()) + operand_bytes(
        b,
        Operands::spec_of(op).second(),
    )
}

/// The bytes of an opcode's number at the program counter are read as
/// that number.
proof fn opcode_is_read(op: Instructions, t: ThreadState, image: Seq<u8>)
    requires
        t.pc() + 2 <= image.len(),
        image.subrange(t.pc() as int, t.pc() + 2) == opcode_bytes(op),
    ensures
        t.can_fetch(image, Width::Short),
        t.peek(image, Width::Short) == op.spec_code(),
        op.spec_code() < INSTRUCTION_COUNT,
        Instructions::spec_from_code(op.spec_code()) == op,
{
    Instructions::code_round_trip(op);
    let code = op.spec_code();
    let head = image.subrange(t.pc() as int, t.pc() + 2);
    reveal_with_fuel(le_value, 3);
    assert(head[0] == (code % 256) as u8 && head[1] == (code / 256) as u8);
    assert(head.drop_first() =~= seq![(code / 256) as u8]);
    assert(head.drop_first().drop_first() =~= Seq::<u8>::empty());
    assert(le_value(head) == code);
}

/// The bytes of an operand at the program counter are read as the operand.
proof fn operand_is_read(value: u64, w: Width, t: ThreadState, image: Seq<u8>)
    requires
        value < w.modulus(),
        t.pc() + w.bytes() <= image.len(),
        image.subrange(t.pc() as int, t.pc() + w.bytes()) == le_bytes(value as int, w.bytes()),
    ensures
        t.can_fetch(image, w),
        t.peek(image, w) == value,
{
    le_value_of_le_bytes(value as int, w.bytes());
}

/// The parts of an encoded instruction as they lie in an image that holds
/// it at `at`.
proof fn encoded_parts(op: Instructions, a: u64, b: u64, image: Seq<u8>, at: int)
    requires
        0 <= at,
        at + encoded(op, a, b).len() <= image.len(),
        image.subrange(at, at + encoded(op, a, b).len()) == encoded(op, a, b),
    ensures
        ({
            let n1 = operand_bytes(a, Operands::spec_of(op).first()).len() as int;
            let n2 = operand_bytes(b, Operands::spec_of(op).second()).len() as int;
            &&& encoded(op, a, b).len() == 2 + n1 + n2
            &&& image.subrange(at, at + 2) == opcode_bytes(op)
            &&& image.subrange(at + 2, at + 2 + n1) == operand_bytes(
                a,
                Operands::spec_of(op).first(),
            )
            &&& image.subrange(at + 2 + n1, at + 2 + n1 + n2) == operand_bytes(
                b,
                Operands::spec_of(op).second(),
            )
        }),
{
    let all = encoded(op, a, b);
    let first = operand_bytes(a, Operands::spec_of(op).first());
    let second = operand_bytes(b, Operands::spec_of(op).second());
    let n1 = first.len() as int;
    let n2 = second.len() as int;
    let part = image.subrange(at, at + all.len());
    assert(image.subrange(at, at + 2) =~= part.subrange(0, 2));
    assert(part.subrange(0, 2) =~= opcode_bytes(op));
    assert(image.subrange(at + 2, at + 2 + n1) =~= part.subrange(2, 2 + n1));
    assert(part.subrange(2, 2 + n1) =~= first);
    assert(image.subrange(at + 2 + n1, at + 2 + n1 + n2) =~= part.subrange(2 + n1, 2 + n1 + n2));
    assert(part.subrange(2 + n1, 2 + n1 + n2) =~= second);
}

/// What is encoded is what a step decodes: where an instruction lies at the
/// program counter as the assembler writes it, the step applies its opcode
/// to its operands, with the program counter behind the instruction.
pub proof fn step_decodes_what_was_encoded(
    op: Instructions,
    a: u64,
    b: u64,
    t: ThreadState,
    image: Seq<u8>,
)
    requires
        t.wf(),
        is_operand(a, Operands::spec_of(op).first()),
        is_operand(b, Operands::spec_of(op).second()),
        t.pc() + encoded(op, a, b).len() <= image.len() <= u64::MAX,
        image.subrange(t.pc() as int, t.pc() + encoded(op, a, b).len()) == encoded(op, a, b),
    ensures
        step_effect(t, image) == apply(
            op,
            a,
            b,
            t.with_pc((t.pc() + encoded(op, a, b).len()) as u64),
            image,
        ),
{
    let shape = Operands::spec_of(op);
    let behind = t.with_pc((t.pc() + encoded(op, a, b).len()) as u64);
    encoded_parts(op, a, b, image, t.pc() as int);
    opcode_is_read(op, t, image);
    let t1 = t.advanced(Width::Short);
    assert(step_effect(t, image) == execute_effect(op, t1, image));
    match shape.first() {
        None => {
            assert(t1.registers =~= behind.registers);
        },
        Some(w1) => {
            operand_is_read(a, w1, t1, image);
            let t2 = t1.advanced(w1);
            match shape.second() {
                None => {
                    assert(t2.registers =~= behind.registers);
                },
                Some(w2) => {
                    operand_is_read(b, w2, t2, image);
                    assert(t2.advanced(w2).registers =~= behind.registers);
                },
            }
        },
    }
}

/// A value of width `w` that is loaded or popped into a register changes of
/// that register only the low bytes of the width, and makes them the low
/// bytes of the value.
pub proof fn load_keeps_high_bytes(t: ThreadState, image: Seq<u8>, r: u8, value: u64, w: Width)
    requires
        t.wf(),
        r < 16,
    ensures
        ({
            let e = deliver_effect(t, image, Target::Register(r), value as int, w);
            &&& e.outcome == Ok::<Action, Fault>(Action::Nothing)
            &&& e.image == image
            &&& e.thread == t.with_register(r as int, e.thread.registers[r as int])
            &&& e.thread.registers[r as int] as int % w.modulus() == value as int % w.modulus()
            &&& forall|i: int|
                w.bytes() <= i < 8 ==> byte_of(
                    e.thread.registers[r as int] as int,
                    i,
                ) == byte_of(t.registers[r as int] as int, i)
        }),
{
    write_low_keeps_high(t.registers[r as int], value as int, w);
}

/// A push of a register's low bytes and then a pop at the same width into
/// register `r`, which is not the stack pointer, leaves the low bytes of
/// `r` equal to those that were pushed, and the stack pointer where it was.
pub proof fn push_then_pop(t: ThreadState, image: Seq<u8>, value: u64, w: Width, r: u8)
    requires
        t.wf(),
        can_push(t.sp(), w.bytes()),
        r < 16,
        r != RegisterRoles::StackPointer.spec_index(),
    ensures
        ({
            let pushed = push_effect(t, image, value as int, w);
            let popped = pop_effect(pushed.thread, pushed.image, w, Target::Register(r));
            &&& pushed.outcome == Ok::<Action, Fault>(Action::Nothing)
            &&& popped.outcome == Ok::<Action, Fault>(Action::Nothing)
            &&& popped.thread.registers[r as int] == write_low(
                t.registers[r as int],
                value as int,
                w,
            )
            &&& popped.thread.registers[r as int] as int % w.modulus() == value as int
                % w.modulus()
            &&& popped.thread.sp() == t.sp()
        }),
{
    pop_after_push(t.stack, t.sp(), value, w);
    let pushed = push_effect(t, image, value as int, w);
    let t1 = pushed.thread;
    let popped_value = spec_pop(t1.stack, t1.sp() as int, w.bytes());
    write_low_keeps_high(t.registers[r as int], value as int, w);
    write_low_keeps_high(t.registers[r as int], popped_value, w);
}

/// A run can be taken up again: `a + b` steps are `a` steps and then, where
/// those ended without a fault and without asking anything, `b` more.
pub proof fn run_resumes(t: ThreadState, image: Seq<u8>, a: nat, b: nat)
    ensures
        ({
            let first = run_effect(t, image, a);
            run_effect(t, image, a + b) == if first.outcome == Ok::<Action, Fault>(
                Action::Nothing,
            ) {
                run_effect(first.thread, first.image, b)
            } else {
                first
            }
        }),
    decreases a,
{
    if t.running && a > 0 {
        let e = step_effect(t, image);
        if e.outcome == Ok::<Action, Fault>(Action::Nothing) {
            run_resumes(e.thread, e.image, (a - 1) as nat, b);
        }
    }
}

/// A run that has ended with the thread halted, without a fault and without
/// asking anything, is the whole run: every budget that is no smaller gives
/// the same effect. So a host that runs a thread until it has halted sees
/// what a run without a budget would give.
pub proof fn halted_run_is_final(t: ThreadState, image: Seq<u8>, n: nat, more: nat)
    requires
        !run_effect(t, image, n).thread.running,
        run_effect(t, image, n).outcome == Ok::<Action, Fault>(Action::Nothing),
        more >= n,
    ensures
        run_effect(t, image, more) == run_effect(t, image, n),
{
    run_resumes(t, image, n, (more - n) as nat);
    assert(n + (more - n) as nat == more);
}

/// A run that has not ended with the thread halted has used its budget up,
/// asks something of the host, or has faulted: with budget left and nothing
/// asked, a thread that runs goes on.
pub proof fn run_stops_only_for_a_reason(t: ThreadState, image: Seq<u8>, budget: nat)
    ensures
        ({
            let e = run_effect(t, image, budget);
            e.outcome == Ok::<Action, Fault>(Action::Nothing) && e.thread.running ==> budget_used(
                t,
                image,
                budget,
            )
        }),
    decreases budget,
{
    if t.running && budget > 0 {
        let e = step_effect(t, image);
        if e.outcome == Ok::<Action, Fault>(Action::Nothing) {
            run_stops_only_for_a_reason(e.thread, e.image, (budget - 1) as nat);
        }
    }
}

/// Whether a run takes all the steps of its budget: each step is taken by a
/// thread that runs, and asks nothing.
pub open spec fn budget_used(t: ThreadState, image: Seq<u8>, budget: nat) -> bool
    decreases budget,
{
    budget == 0 || (t.running && step_effect(t, image).outcome == Ok::<Action, Fault>(
        Action::Nothing,
    ) && budget_used(
        step_effect(t, image).thread,
        step_effect(t, image).image,
        (budget - 1) as nat,
    ))
}

impl VirtualThread {
    /// A thread that is about to start at `from`: the program counter is
    /// `from`, all else is zero, the stack is empty.
    pub fn new(from: u64) -> (t: VirtualThread)
        ensures
            t@ == ThreadState::start(from),
    {
        let mut registers = [0u64; 16];
        registers[RegisterRoles::ProgramCounter.index()] = from;
        let t = VirtualThread { registers, running: true, alu_flags: 0, stack: Vec::new() };
        assert(t@.registers =~= ThreadState::start(from).registers);
        t
    }

    /// The value of width `w` at the program counter.
    pub fn current(&self, image: &Vec<u8>, w: Width) -> (r: Result<u64, Fault>)
        ensures
            self@.can_fetch(image@, w) ==> r == Ok::<u64, Fault>(self@.peek(image@, w)),
            !self@.can_fetch(image@, w) ==> r == Err::<u64, Fault>(Fault::OutOfInstructions),
    {
        let pc = self.registers[RegisterRoles::ProgramCounter.index()];
        let n = w.size();
        if image.len() < n || pc > (image.len() - n) as u64 {
            Err(Fault::OutOfInstructions)
        } else {
            Ok(read_le(image, pc as usize, w))
        }
    }

    /// Reads the value of width `w` at the program counter and moves the
    /// program counter past it.
    pub fn next(&mut self, image: &Vec<u8>, w: Width) -> (r: Result<u64, Fault>)
        ensures
            old(self)@.can_fetch(image@, w) ==> r == Ok::<u64, Fault>(old(self)@.peek(image@, w))
                && final(self)@ == old(self)@.advanced(w),
            !old(self)@.can_fetch(image@, w) ==> r == Err::<u64, Fault>(Fault::OutOfInstructions)
                && final(self)@ == old(self)@,
    {
        match self.current(image, w) {
            Ok(value) => {
                assert(image@.len() == image.len());
                let pc = RegisterRoles::ProgramCounter.index();
                self.registers[pc] = self.registers[pc] + w.size() as u64;
                Ok(value)
            },
            Err(fault) => Err(fault),
        }
    }

    /// Reads the value of width `w` at the program counter and moves the
    /// program counter past it, as `next` does.
    pub fn last(&mut self, image: &Vec<u8>, w: Width) -> (r: Result<u64, Fault>)
        ensures
            old(self)@.can_fetch(image@, w) ==> r == Ok::<u64, Fault>(old(self)@.peek(image@, w))
                && final(self)@ == old(self)@.advanced(w),
            !old(self)@.can_fetch(image@, w) ==> r == Err::<u64, Fault>(Fault::OutOfInstructions)
                && final(self)@ == old(self)@,
    {
        self.next(image, w)
    }

    /// Replaces the low bytes of register `i` at width `w` by those of
    /// `value`.
    fn set_low(&mut self, i: usize, value: u64, w: Width)
        requires
            i < 16,
        ensures
            final(self)@ == old(self)@.with_low(i as int, value as int, w),
    {
        self.registers[i] = merge_low(self.registers[i], value, w);
    }

    fn push(&mut self, value: u64, w: Width, Ghost(image): Ghost<Seq<u8>>) -> (r: Result<
        Action,
        Fault,
    >)
        ensures
            Effect::new(final(self)@, image, r) == push_effect(old(self)@, image, value as int, w),
    {
        let mut sp = self.registers[RegisterRoles::StackPointer.index()];
        match push_stack(&mut self.stack, &mut sp, value, w) {
            Ok(()) => {
                self.registers[RegisterRoles::StackPointer.index()] = sp;
                Ok(Action::Nothing)
            },
            Err(fault) => Err(fault),
        }
    }

    fn store(&mut self, image: &mut Vec<u8>, address: u64, value: u64, w: Width) -> (r: Result<
        Action,
        Fault,
    >)
        ensures
            Effect::new(final(self)@, final(image)@, r) == store_effect(
                old(self)@,
                old(image)@,
                address,
                value as int,
                w,
            ),
    {
        let n = w.size();
        let kept = truncate(value, w);
        if image.len() < n || address > (image.len() - n) as u64 {
            Ok(Action::Store { address, width: w, value: kept })
        } else {
            write_le(image, address as usize, w, kept);
            Ok(Action::Nothing)
        }
    }

    /// Hands a value that the host loaded for `Action::Load` to its target;
    /// `value` is the little-endian value of the bytes read.
    pub fn complete_load(
        &mut self,
        image: &mut Vec<u8>,
        target: Target,
        value: u64,
        w: Width,
    ) -> (r: Result<Action, Fault>)
        ensures
            Effect::new(final(self)@, final(image)@, r) == deliver_effect(
                old(self)@,
                old(image)@,
                target,
                value as int,
                w,
            ),
    {
        match target {
            Target::Register(register) => {
                if register < 16 {
                    self.set_low(register as usize, value, w);
                    Ok(Action::Nothing)
                } else {
                    Err(Fault::InvalidRegister)
                }
            },
            Target::Stack => self.push(value, w, Ghost(image@)),
            Target::Memory(address) => self.store(image, address, value, w),
        }
    }

    fn load(&mut self, image: &mut Vec<u8>, address: u64, w: Width, target: Target) -> (r: Result<
        Action,
        Fault,
    >)
        ensures
            Effect::new(final(self)@, final(image)@, r) == load_effect(
                old(self)@,
                old(image)@,
                address,
                w,
                target,
            ),
    {
        let n = w.size();
        if image.len() < n || address > (image.len() - n) as u64 {
            Ok(Action::Load { address, width: w, target })
        } else {
            let value = read_le(image, address as usize, w);
            self.complete_load(image, target, value, w)
        }
    }

    fn pop(&mut self, image: &mut Vec<u8>, w: Width, target: Target) -> (r: Result<Action, Fault>)
        ensures
            Effect::new(final(self)@, final(image)@, r) == pop_effect(
                old(self)@,
                old(image)@,
                w,
                target,
            ),
    {
        let mut sp = self.registers[RegisterRoles::StackPointer.index()];
        let mut value: u64 = 0;
        match pop_stack(&mut self.stack, &mut sp, &mut value, w) {
            Ok(()) => {
                proof {
                    let t = old(self)@;
                    le_value_bound(t.stack.subrange(t.sp() - w.bytes(), t.sp() as int));
                    assert(value == spec_pop(t.stack, t.sp() as int, w.bytes()));
                }
                self.registers[RegisterRoles::StackPointer.index()] = sp;
                assert(self@ == old(self)@.with_sp((old(self)@.sp() - w.bytes()) as u64));
                self.complete_load(image, target, value, w)
            },
            Err(fault) => Err(fault),
        }
    }

    /// Hands the host's result for a system call to the register that takes
    /// it; a system call without a result leaves the thread as it is.
    pub fn deliver(&mut self, call: SysCalls, value: u64)
        ensures
            final(self)@ == (match result_register(call) {
                Some(i) => old(self)@.with_register(i, value),
                None => old(self)@,
            }),
    {
        match call {
            SysCalls::MemoryAllocate | SysCalls::FOpen => {
                self.registers[0] = value;
            },
            SysCalls::FGetC | SysCalls::FTell | SysCalls::FSeek => {
                self.registers[1] = value;
            },
            _ => {},
        }
    }

    /// Replaces the low bytes of register `i` at width `w` by those of the
    /// number `value`, which is `wrapped` modulo 2^64.
    fn set_low_wrapped(&mut self, i: usize, wrapped: u64, w: Width, Ghost(value): Ghost<int>)
        requires
            i < 16,
            wrapped == value % 0x1_0000_0000_0000_0000,
        ensures
            final(self)@ == old(self)@.with_low(i as int, value, w),
    {
        proof {
            write_low_wraps(self.registers[i as int], value, w);
        }
        self.set_low(i, wrapped, w);
    }

    fn jump(&mut self, taken: bool, address: u64, Ghost(image): Ghost<Seq<u8>>)
        ensures
            Effect::done(final(self)@, image) == jump_effect(old(self)@, image, taken, address),
    {
        if taken {
            self.registers[RegisterRoles::ProgramCounter.index()] = address;
        }
    }

    fn has(&self, flag: ALUFlags) -> (r: bool)
        ensures
            r == has_flag(self@.alu_flags, flag),
    {
        (self.alu_flags & flag.mask()) != 0
    }

    /// What a system call asks of the host.
    fn syscall(&self, call: SysCalls, Ghost(image): Ghost<Seq<u8>>) -> (r: Result<Action, Fault>)
        ensures
            Effect::new(self@, image, r) == syscall_effect(call, self@, image),
    {
        let r0 = self.registers[0];
        let r1 = self.registers[1];
        let r2 = self.registers[2];
        match call {
            SysCalls::PrintRegister => if r0 < 16 {
                Ok(Action::PrintUnsigned(self.registers[r0 as usize]))
            } else {
                Err(Fault::InvalidRegister)
            },
            SysCalls::PrintRegisterSigned => if r0 < 16 {
                Ok(Action::PrintSigned(to_signed(self.registers[r0 as usize])))
            } else {
                Err(Fault::InvalidRegister)
            },
            SysCalls::PrintCString => Ok(Action::PrintCString { address: r0 }),
            SysCalls::MemoryAllocate => Ok(Action::Allocate { size: r0 }),
            SysCalls::MemoryFree => Ok(Action::Free { address: r0, size: r1 }),
            SysCalls::FOpen => Ok(Action::FileOpen { name: r0, mode: r1 }),
            SysCalls::FClose => Ok(Action::FileClose { handle: r0 }),
            SysCalls::FGetC => Ok(Action::FileGetC { handle: r0 }),
            SysCalls::FTell => Ok(Action::FileTell { handle: r0 }),
            SysCalls::FSeek => Ok(
                Action::FileSeek { handle: r0, offset: to_signed(r1), whence: r2 },
            ),
        }
    }

    /// Applies an opcode that computes on registers alone.
    fn apply_arithmetic(&mut self, op: Instructions, a: u64, b: u64, Ghost(image): Ghost<Seq<u8>>)
        requires
            is_arithmetic(op),
        ensures
            Effect::done(final(self)@, image) == apply(op, a, b, old(self)@, image),
    {
        let hi = (a / 16 % 16) as usize;
        let lo = (a % 16) as usize;
        let x = self.registers[hi];
        let y = self.registers[lo];
        match op {
            Instructions::AddRegisters(w) => {
                self.set_low_wrapped(lo, wrapping_sum(y, x), w, Ghost(y + x));
            },
            Instructions::SubtractRegisters(w) => {
                self.set_low_wrapped(lo, wrapping_difference(y, x), w, Ghost(y - x));
            },
            Instructions::AddRegisterImmediate(w) => {
                self.set_low_wrapped(lo, wrapping_sum(y, b), w, Ghost(y + b));
            },
            Instructions::SubtractRegisterImmediate(w) => {
                self.set_low_wrapped(lo, wrapping_difference(y, b), w, Ghost(y - b));
            },
            Instructions::IncrementRegister => {
                self.set_low_wrapped(lo, wrapping_sum(y, 1), Width::Long, Ghost(y + 1));
            },
            Instructions::DecrementRegister => {
                self.set_low_wrapped(lo, wrapping_difference(y, 1), Width::Long, Ghost(y - 1));
            },
            Instructions::MoveRegisters(w) => {
                self.set_low(lo, x, w);
            },
            Instructions::BitwiseAndRegisters(w) => {
                self.set_low(lo, y & x, w);
            },
            Instructions::BitwiseOrRegisters(w) => {
                self.set_low(lo, y | x, w);
            },
            Instructions::BitwiseXOrRegisters(w) => {
                self.set_low(lo, y ^ x, w);
            },
            Instructions::BitwiseNotRegister(w) => {
                self.set_low(lo, !y, w);
            },
            Instructions::BitwiseAndRegisterImmediate(w) => {
                self.set_low(lo, y & b, w);
            },
            Instructions::BitwiseOrRegisterImmediate(w) => {
                self.set_low(lo, y | b, w);
            },
            Instructions::BitwiseXOrRegisterImmediate(w) => {
                self.set_low(lo, y ^ b, w);
            },
            _ => {},
        }
    }

    /// Applies an opcode that reads or writes the stack or memory.
    fn apply_memory(&mut self, op: Instructions, a: u64, b: u64, image: &mut Vec<u8>) -> (r: Result<
        Action,
        Fault,
    >)
        requires
            is_memory(op),
        ensures
            Effect::new(final(self)@, final(image)@, r) == apply(
                op,
                a,
                b,
                old(self)@,
                old(image)@,
            ),
    {
        let hi = (a / 16 % 16) as usize;
        let lo = (a % 16) as usize;
        let x = self.registers[hi];
        let y = self.registers[lo];
        match op {
            Instructions::PushRegister(w) => self.push(y, w, Ghost(image@)),
            Instructions::PopRegister(w) => self.pop(image, w, Target::Register(lo as u8)),
            Instructions::MoveMemoryRegister(w) => self.load(
                image,
                a,
                w,
                Target::Register((b % 16) as u8),
            ),
            Instructions::MoveRegisterMemory(w) => self.store(image, b, y, w),
            Instructions::PushMemory(w) => self.load(image, a, w, Target::Stack),
            Instructions::PopMemory(w) => self.pop(image, w, Target::Memory(a)),
            Instructions::MoveAddressedRegisterRegister(w) => self.load(
                image,
                x,
                w,
                Target::Register(lo as u8),
            ),
            Instructions::MoveRegisterAddressedRegister(w) => self.store(image, y, x, w),
            Instructions::MoveAddressedRegisters(w) => self.load(image, x, w, Target::Memory(y)),
            _ => Ok(Action::Nothing),
        }
    }

    /// Applies an opcode that halts, jumps, compares, loads a register or
    /// calls the system.
    fn apply_control(
        &mut self,
        op: Instructions,
        a: u64,
        b: u64,
        syscalls: &Vec<SysCalls>,
        Ghost(image): Ghost<Seq<u8>>,
    ) -> (r: Result<Action, Fault>)
        requires
            syscalls_wf(syscalls@),
            !is_arithmetic(op),
            !is_memory(op),
        ensures
            Effect::new(final(self)@, image, r) == apply(op, a, b, old(self)@, image),
    {
        let hi = (a / 16 % 16) as usize;
        let lo = (a % 16) as usize;
        let x = self.registers[hi];
        let y = self.registers[lo];
        match op {
            Instructions::Halt => {
                self.running = false;
                Ok(Action::Nothing)
            },
            Instructions::SysCall => if a < SYSCALL_COUNT as u64 {
                self.syscall(syscalls[a as usize], Ghost(image))
            } else {
                Err(Fault::InvalidSyscall)
            },
            Instructions::LoadRegister(_) => if a < 16 {
                self.registers[a as usize] = b;
                Ok(Action::Nothing)
            } else {
                Err(Fault::InvalidRegister)
            },
            Instructions::CompareRegister(w) => {
                self.alu_flags = compare(truncate(x, w), truncate(y, w));
                Ok(Action::Nothing)
            },
            Instructions::CompareRegisterLiteral(w) => if a < 16 {
                self.alu_flags = compare(truncate(self.registers[a as usize], w), b);
                Ok(Action::Nothing)
            } else {
                Err(Fault::InvalidRegister)
            },
            Instructions::JumpTo => {
                self.jump(true, a, Ghost(image));
                Ok(Action::Nothing)
            },
            Instructions::JumpIfEqualTo => {
                let taken = self.has(ALUFlags::Equal);
                self.jump(taken, a, Ghost(image));
                Ok(Action::Nothing)
            },
            Instructions::JumpIfGreaterThan => {
                let taken = self.has(ALUFlags::Greater);
                self.jump(taken, a, Ghost(image));
                Ok(Action::Nothing)
            },
            Instructions::JumpIfLessThan => {
                let taken = self.has(ALUFlags::Lesser);
                self.jump(taken, a, Ghost(image));
                Ok(Action::Nothing)
            },
            Instructions::JumpIfZero => {
                let taken = self.has(ALUFlags::Zero);
                self.jump(taken, a, Ghost(image));
                Ok(Action::Nothing)
            },
            _ => Ok(Action::Nothing),
        }
    }

    /// Applies `op` to its operands `a` and `b`.
    fn apply(
        &mut self,
        op: Instructions,
        a: u64,
        b: u64,
        image: &mut Vec<u8>,
        syscalls: &Vec<SysCalls>,
    ) -> (r: Result<Action, Fault>)
        requires
            syscalls_wf(syscalls@),
        ensures
            Effect::new(final(self)@, final(image)@, r) == apply(
                op,
                a,
                b,
                old(self)@,
                old(image)@,
            ),
    {
        if arithmetic(op) {
            self.apply_arithmetic(op, a, b, Ghost(image@));
            Ok(Action::Nothing)
        } else if memory(op) {
            self.apply_memory(op, a, b, image)
        } else {
            self.apply_control(op, a, b, syscalls, Ghost(image@))
        }
    }

    /// Reads the operands of `op` and applies it.
    pub fn execute(
        &mut self,
        op: Instructions,
        image: &mut Vec<u8>,
        syscalls: &Vec<SysCalls>,
    ) -> (r: Result<Action, Fault>)
        requires
            syscalls_wf(syscalls@),
        ensures
            Effect::new(final(self)@, final(image)@, r) == execute_effect(
                op,
                old(self)@,
                old(image)@,
            ),
    {
        let shape = Operands::of(op);
        let a = match shape.first_width() {
            Some(w) => match self.next(image, w) {
                Ok(value) => value,
                Err(fault) => {
                    return Err(fault);
                },
            },
            None => 0,
        };
        let b = match shape.second_width() {
            Some(w) => match self.next(image, w) {
                Ok(value) => value,
                Err(fault) => {
                    return Err(fault);
                },
            },
            None => 0,
        };
        self.apply(op, a, b, image, syscalls)
    }

    /// Takes one step on the machine's image: reads the opcode at the
    /// program counter, finds its rule in the opcode table and executes it.
    pub fn step(&mut self, vm: &mut VirtualMachine) -> (r: Result<Action, Fault>)
        requires
            old(vm).wf(),
        ensures
            final(vm).rules == old(vm).rules,
            final(vm).syscalls == old(vm).syscalls,
            final(vm).threads == old(vm).threads,
            Effect::new(final(self)@, final(vm).instructions@, r) == step_effect(
                old(self)@,
                old(vm).instructions@,
            ),
    {
        match self.next(&vm.instructions, Width::Short) {
            Ok(code) => {
                if code >= vm.rules.len() as u64 {
                    Err(Fault::InvalidOpcode)
                } else {
                    let op = vm.rules[code as usize];
                    self.execute(op, &mut vm.instructions, &vm.syscalls)
                }
            },
            Err(fault) => Err(fault),
        }
    }

    /// Steps until the thread halts, faults, asks something of the host or
    /// has taken `budget` steps, and returns for no other reason:
    /// `Ok(Action::Nothing)` with `running` still set says that all steps of
    /// the budget were taken.
    pub fn run(&mut self, vm: &mut VirtualMachine, budget: u64) -> (r: Result<Action, Fault>)
        requires
            old(vm).wf(),
        ensures
            final(vm).rules == old(vm).rules,
            final(vm).syscalls == old(vm).syscalls,
            final(vm).threads == old(vm).threads,
            Effect::new(final(self)@, final(vm).instructions@, r) == run_effect(
                old(self)@,
                old(vm).instructions@,
                budget as nat,
            ),
            r == Ok::<Action, Fault>(Action::Nothing) && final(self).running ==> budget_used(
                old(self)@,
                old(vm).instructions@,
                budget as nat,
            ),
    {
        proof {
            run_stops_only_for_a_reason(old(self)@, old(vm).instructions@, budget as nat);
        }
        let mut left = budget;
        while self.running && left > 0
            invariant
                vm.wf(),
                vm.rules == old(vm).rules,
                vm.syscalls == old(vm).syscalls,
                vm.threads == old(vm).threads,
                run_effect(self@, vm.instructions@, left as nat) == run_effect(
                    old(self)@,
                    old(vm).instructions@,
                    budget as nat,
                ),
            decreases left,
        {
            match self.step(vm) {
                Ok(Action::Nothing) => {},
                other => {
                    return other;
                },
            }
            left -= 1;
        }
        Ok(Action::Nothing)
    }
}

/// The sum of `x` and `y` modulo 2^64.
fn wrapping_sum(x: u64, y: u64) -> (r: u64)
    ensures
        r == (x + y) % 0x1_0000_0000_0000_0000,
{
    x.wrapping_add(y)
}

/// The difference of `x` and `y` modulo 2^64.
fn wrapping_difference(x: u64, y: u64) -> (r: u64)
    ensures
        r == (x - y) % 0x1_0000_0000_0000_0000,
{
    x.wrapping_sub(y)
}

/// The flags of a compare of `left` with `right`.
fn compare(left: u64, right: u64) -> (flags: u8)
    ensures
        flags == compare_flags(left as int, right as int),
{
    let mut flags: u8 = 0;
    if left == right {
        flags += 8;
    }
    if left > right {
        flags += 2;
    }
    if left < right {
        flags += 4;
    }
    if left == 0 {
        flags += 1;
    }
    flags
}

/// The number `bits` read as a signed 64-bit number.
pub fn to_signed(bits: u64) -> (r: i64)
    ensures
        r == signed(bits),
{
    if bits < 0x8000_0000_0000_0000 {
        bits as i64
    } else {
        ((bits - 0x8000_0000_0000_0000) as i64) + i64::MIN
    }
}

} // verus!
