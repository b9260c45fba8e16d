//! The machine: the code image, the dispatch tables, the stack primitives,
//! and what a thread hands to its host when an instruction needs outside
//! work.

use crate::endian::{
    byte_at, byte_of, le_bytes, le_value, le_value_bound, le_value_of_le_bytes, merge_low, pow256,
    write_low,
};
use crate::instructions::{Instructions, SysCalls, Width, INSTRUCTION_COUNT, SYSCALL_COUNT};
use crate::virtual_thread::{budget_used, run_effect, Effect, ThreadState, VirtualThread};
use vstd::prelude::*;

verus! {

/// The registers that the machine itself uses.
#[derive(Clone, Copy, Debug, PartialEq, Eq, Structural)]
pub enum RegisterRoles {
    StackPointer,
    ProgramCounter,
}

impl RegisterRoles {
    pub open spec fn spec_index(self) -> int {
        match self {
            RegisterRoles::StackPointer => 14,
            RegisterRoles::ProgramCounter => 15,
        }
    }

    /// The register's place in the register file.
    pub fn index(self) -> (i: usize)
        ensures
            i == self.spec_index(),
    {
        match self {
            RegisterRoles::StackPointer => 14,
            RegisterRoles::ProgramCounter => 15,
        }
    }
}

/// The flags that a compare sets.
#[derive(Clone, Copy, Debug, PartialEq, Eq, Structural)]
pub enum ALUFlags {
    Zero,
    Greater,
    Lesser,
    Equal,
}

impl ALUFlags {
    pub open spec fn spec_mask(self) -> u8 {
        match self {
            ALUFlags::Zero => 1,
            ALUFlags::Greater => 2,
            ALUFlags::Lesser => 4,
            ALUFlags::Equal => 8,
        }
    }

    /// The flag's bit in the flags byte.
    pub fn mask(self) -> (m: u8)
        ensures
            m == self.spec_mask(),
    {
        match self {
            ALUFlags::Zero => 1,
            ALUFlags::Greater => 2,
            ALUFlags::Lesser => 4,
            ALUFlags::Equal => 8,
        }
    }
}

/// Why a thread cannot go on.
#[derive(Clone, Copy, Debug, PartialEq, Eq, Structural)]
pub enum Fault {
    /// The program counter leaves no room in the image for what is read.
    OutOfInstructions,
    /// The opcode's number is not below `INSTRUCTION_COUNT`.
    InvalidOpcode,
    /// The system call's number is not below `SYSCALL_COUNT`.
    InvalidSyscall,
    /// A register number that is taken whole is not below 16.
    InvalidRegister,
    /// A push would move the stack pointer past what the host can index.
    StackOverflow,
    /// A pop would read below or above the bytes that the stack holds.
    StackUnderflow,
}

/// Where a loaded value goes.
#[derive(Clone, Copy, Debug, PartialEq, Eq, Structural)]
pub enum Target {
    /// Into the low bytes of the register with this number.
    Register(u8),
    /// Onto the stack.
    Stack,
    /// To this address.
    Memory(u64),
}

/// What the host is asked to do after a step. Addresses and handles count
/// from the first byte of the code image. The machine keeps no record of
/// what a program allocates or opens: what the program does not free or
/// close stays with the host when the thread halts.
#[derive(Clone, Copy, Debug, PartialEq, Eq, Structural)]
pub enum Action {
    /// Nothing; the thread can take its next step.
    Nothing,
    /// Write the number to standard output, in decimal.
    PrintUnsigned(u64),
    /// Write the signed number to standard output, in decimal.
    PrintSigned(i64),
    /// Write the bytes from `address` up to the first zero byte.
    PrintCString { address: u64 },
    /// Allocate `size` bytes and hand their address to `deliver`.
    Allocate { size: u64 },
    /// Free the `size` bytes at `address`.
    Free { address: u64, size: u64 },
    /// Open the file named at `name` in the mode at `mode`, and hand the
    /// handle to `deliver`.
    FileOpen { name: u64, mode: u64 },
    FileClose { handle: u64 },
    /// Read the next byte and hand it to `deliver`.
    FileGetC { handle: u64 },
    /// Hand the position in the file to `deliver`.
    FileTell { handle: u64 },
    /// Seek by `offset` in the way `whence` names, and hand the result to
    /// `deliver`.
    FileSeek { handle: u64, offset: i64, whence: u64 },
    /// Read `width` bytes outside the image at `address` and hand their
    /// little-endian value to `complete_load` with `target`.
    Load { address: u64, width: Width, target: Target },
    /// Write the low `width` bytes of `value` outside the image at `address`.
    Store { address: u64, width: Width, value: u64 },
}

/// Whether `rules` is the opcode table: one entry for each opcode, at the
/// opcode's number.
pub open spec fn rules_wf(rules: Seq<Instructions>) -> bool {
    &&& rules.len() == INSTRUCTION_COUNT
    &&& forall|i: int| 0 <= i < INSTRUCTION_COUNT ==> rules[i] == Instructions::spec_from_code(i)
}

/// Whether `syscalls` is the system call table: one entry for each system
/// call, at its number.
pub open spec fn syscalls_wf(syscalls: Seq<SysCalls>) -> bool {
    &&& syscalls.len() == SYSCALL_COUNT
    &&& forall|i: int| 0 <= i < SYSCALL_COUNT ==> syscalls[i] == SysCalls::spec_from_code(i)
}

/// A code image with the tables by which its threads dispatch, and the
/// worker threads that were spawned on it. All threads of a machine share
/// the image and may write to it; a thread reads each opcode anew when it
/// steps, so a program can change its own instructions. The library steps
/// one thread at a time: in which order threads step, and so which of two
/// writes to the same bytes comes last, is the host's to decide.
pub struct VirtualMachine {
    pub rules: Vec<Instructions>,
    pub syscalls: Vec<SysCalls>,
    pub instructions: Vec<u8>,
    pub threads: Vec<VirtualThread>,
}

impl VirtualMachine {
    pub open spec fn wf(&self) -> bool {
        rules_wf(self.rules@) && syscalls_wf(self.syscalls@)
    }

    /// A machine over the image in `data`, which is taken out of `data`.
    pub fn new(data: &mut Vec<u8>) -> (vm: Self)
        ensures
            vm.wf(),
            vm.instructions@ == old(data)@,
            vm.threads@.len() == 0,
            final(data)@.len() == 0,
    {
        let rules = Self::get_rules();
        let syscalls = Self::get_syscalls();
        let mut instructions: Vec<u8> = Vec::new();
        core::mem::swap(data, &mut instructions);
        Self { rules, syscalls, instructions, threads: Vec::new() }
    }

    /// Whether the tables are those that `get_rules` and `get_syscalls`
    /// build; threads step only on such a machine.
    pub fn well_formed(&self) -> (ok: bool)
        ensures
            ok == self.wf(),
    {
        if self.rules.len() != INSTRUCTION_COUNT as usize || self.syscalls.len()
            != SYSCALL_COUNT as usize {
            return false;
        }
        let mut i: u16 = 0;
        while i < INSTRUCTION_COUNT
            invariant
                i <= INSTRUCTION_COUNT,
                self.rules@.len() == INSTRUCTION_COUNT,
                forall|j: int| 0 <= j < i ==> self.rules@[j] == Instructions::spec_from_code(j),
            decreases INSTRUCTION_COUNT - i,
        {
            proof {
                Instructions::code_round_trip(self.rules@[i as int]);
                Instructions::from_code_round_trip(i as int);
            }
            if self.rules[i as usize].code() != i {
                return false;
            }
            i += 1;
        }
        let mut k: u8 = 0;
        while k < SYSCALL_COUNT
            invariant
                k <= SYSCALL_COUNT,
                self.syscalls@.len() == SYSCALL_COUNT,
                rules_wf(self.rules@),
                forall|j: int| 0 <= j < k ==> self.syscalls@[j] == SysCalls::spec_from_code(j),
            decreases SYSCALL_COUNT - k,
        {
            proof {
                SysCalls::code_round_trip(self.syscalls@[k as int]);
                assert(SysCalls::spec_from_code(k as int).spec_code() == k);
            }
            if self.syscalls[k as usize].code() != k {
                return false;
            }
            k += 1;
        }
        true
    }

    /// Runs a main thread from address 0 until it halts, faults, asks
    /// something of the host or has taken `budget` steps, and hands the
    /// thread back with what it asks or why it stopped.
    pub fn run(&mut self, budget: u64) -> (r: (VirtualThread, Result<Action, Fault>))
        requires
            old(self).wf(),
        ensures
            final(self).rules == old(self).rules,
            final(self).syscalls == old(self).syscalls,
            final(self).threads == old(self).threads,
            Effect::new(r.0@, final(self).instructions@, r.1) == run_effect(
                ThreadState::start(0),
                old(self).instructions@,
                budget as nat,
            ),
            r.1 == Ok::<Action, Fault>(Action::Nothing) && r.0.running ==> budget_used(
                ThreadState::start(0),
                old(self).instructions@,
                budget as nat,
            ),
    {
        let mut thread = VirtualThread::new(0);
        let outcome = thread.run(self, budget);
        (thread, outcome)
    }

    /// Adds a worker thread that is about to start at `start`.
    pub fn spawn(&mut self, start: u64)
        ensures
            final(self).rules == old(self).rules,
            final(self).syscalls == old(self).syscalls,
            final(self).instructions == old(self).instructions,
            final(self).threads@.len() == old(self).threads@.len() + 1,
            final(self).threads@.drop_last() == old(self).threads@,
            final(self).threads@.last()@ == ThreadState::start(start),
    {
        let thread = VirtualThread::new(start);
        self.threads.push(thread);
    }

    /// The opcode table: the entry at an opcode's number says which
    /// instruction a thread executes for it.
    pub fn get_rules() -> (rules: Vec<Instructions>)
        ensures
            rules_wf(rules@),
    {
        let mut rules: Vec<Instructions> = Vec::new();
        let mut code: u16 = 0;
        while code < INSTRUCTION_COUNT
            invariant
                code <= INSTRUCTION_COUNT,
                rules@.len() == code,
                forall|i: int| 0 <= i < code ==> rules@[i] == Instructions::spec_from_code(i),
            decreases INSTRUCTION_COUNT - code,
        {
            match Instructions::from_code(code) {
                Some(op) => {
                    rules.push(op);
                },
                None => {},
            }
            code += 1;
        }
        rules
    }

    /// The system call table, by the system calls' numbers.
    pub fn get_syscalls() -> (syscalls: Vec<SysCalls>)
        ensures
            syscalls_wf(syscalls@),
    {
        let mut syscalls: Vec<SysCalls> = Vec::new();
        let mut code: u8 = 0;
        while code < SYSCALL_COUNT
            invariant
                code <= SYSCALL_COUNT,
                syscalls@.len() == code,
                forall|i: int| 0 <= i < code ==> syscalls@[i] == SysCalls::spec_from_code(i),
            decreases SYSCALL_COUNT - code,
        {
            match SysCalls::from_code(code) {
                Some(call) => {
                    syscalls.push(call);
                },
                None => {},
            }
            code += 1;
        }
        syscalls
    }
}

/// The stack after a byte is put at `sp`: in place where the stack reaches
/// that far, else behind as many fill bytes (0xff) as it takes to reach.
pub open spec fn spec_push_byte(stack: Seq<u8>, sp: int, byte: u8) -> Seq<u8> {
    Seq::new(
        if sp < stack.len() {
            stack.len()
        } else {
            (sp + 1) as nat
        },
        |i: int|
            if i == sp {
                byte
            } else if i < stack.len() {
                stack[i]
            } else {
                0xffu8
            },
    )
}

/// The stack after the low `n` bytes of `value` are put at `sp`, least
/// significant first.
pub open spec fn spec_push(stack: Seq<u8>, sp: int, value: int, n: int) -> Seq<u8> {
    Seq::new(
        if sp + n <= stack.len() || n <= 0 {
            stack.len()
        } else {
            (sp + n) as nat
        },
        |i: int|
            if sp <= i < sp + n {
                byte_of(value, i - sp)
            } else if i < stack.len() {
                stack[i]
            } else {
                0xffu8
            },
    )
}

/// Whether `n` bytes can be pushed at `sp`: the pointer stays in what the
/// host can index.
pub open spec fn can_push(sp: u64, n: int) -> bool {
    sp + n <= usize::MAX
}

/// Whether `n` bytes can be popped at `sp`: they lie in the stack.
pub open spec fn can_pop(stack: Seq<u8>, sp: u64, n: int) -> bool {
    n <= sp <= stack.len()
}

/// The value of the `n` bytes below `sp`.
pub open spec fn spec_pop(stack: Seq<u8>, sp: int, n: int) -> int {
    le_value(stack.subrange(sp - n, sp))
}

/// What is pushed comes back: after the low `n` bytes of `value` are pushed
/// at `sp`, the `n` bytes below the new stack pointer can be popped, and
/// their value is that of the low `n` bytes of `value`.
pub proof fn pop_after_push(stack: Seq<u8>, sp: u64, value: u64, w: Width)
    requires
        can_push(sp, w.bytes()),
    ensures
        can_pop(
            spec_push(stack, sp as int, value as int, w.bytes()),
            (sp + w.bytes()) as u64,
            w.bytes(),
        ),
        spec_pop(spec_push(stack, sp as int, value as int, w.bytes()), sp + w.bytes(), w.bytes())
            == value as int % w.modulus(),
{
    let n = w.bytes();
    let pushed = spec_push(stack, sp as int, value as int, n);
    let top = pushed.subrange(sp as int, sp + n);
    assert(top =~= le_bytes(value as int, n));
    le_value_of_le_bytes(value as int, n);
}

/// Whether a zero-terminated string of `n` bytes starts at `address` in the
/// image: `n` bytes that are not zero, then a zero byte.
pub open spec fn is_c_string(image: Seq<u8>, address: int, n: int) -> bool {
    &&& 0 <= address
    &&& 0 <= n
    &&& address + n < image.len()
    &&& image[address + n] == 0
    &&& forall|i: int| address <= i < address + n ==> image[i] != 0
}

/// At most one zero-terminated string starts at an address: its length is
/// the way to the first zero byte.
pub proof fn c_string_is_unique(image: Seq<u8>, address: int, n: int, m: int)
    requires
        is_c_string(image, address, n),
        is_c_string(image, address, m),
    ensures
        n == m,
{
    if n < m {
        assert(image[address + n] != 0);
    } else if m < n {
        assert(image[address + m] != 0);
    }
}

/// The zero-terminated string at `address` in the image, without its zero
/// byte, for `Action::PrintCString`. There is none where no zero byte
/// follows `address` in the image: the string then lies outside, with the
/// host.
pub fn c_string_at(image: &Vec<u8>, address: u64) -> (r: Option<Vec<u8>>)
    ensures
        r matches Some(text) ==> is_c_string(image@, address as int, text@.len() as int) && text@
            == image@.subrange(address as int, address + text@.len()),
        r is None ==> forall|n: int| !is_c_string(image@, address as int, n),
{
    if address >= image.len() as u64 {
        return None;
    }
    let from = address as usize;
    let mut text: Vec<u8> = Vec::new();
    let mut i: usize = from;
    while i < image.len()
        invariant
            from <= i <= image.len(),
            from == address,
            text@ =~= image@.subrange(from as int, i as int),
            forall|j: int| from <= j < i ==> image@[j] != 0,
        decreases image.len() - i,
    {
        if image[i] == 0 {
            return Some(text);
        }
        text.push(image[i]);
        i += 1;
    }
    None
}

/// Puts `byte` on the stack at `sp` and moves `sp` up by one. A stack that
/// does not reach `sp` is grown with the fill byte 0xff.
pub fn push_byte_stack(stack: &mut Vec<u8>, sp: &mut u64, byte: u8) -> (r: Result<(), Fault>)
    ensures
        r is Ok <==> can_push(*old(sp), 1),
        r is Err ==> r == Err::<(), Fault>(Fault::StackOverflow) && *final(sp) == *old(sp)
            && final(stack)@ == old(stack)@,
        r is Ok ==> *final(sp) == *old(sp) + 1 && final(stack)@ == spec_push_byte(
            old(stack)@,
            *old(sp) as int,
            byte,
        ),
{
    if *sp >= usize::MAX as u64 {
        return Err(Fault::StackOverflow);
    }
    let at = *sp as usize;
    while stack.len() <= at
        invariant
            at == *sp == *old(sp),
            at < usize::MAX,
            stack@.len() >= old(stack)@.len(),
            stack@.len() <= old(stack)@.len() || stack@.len() <= at + 1,
            forall|i: int| 0 <= i < old(stack)@.len() ==> stack@[i] == old(stack)@[i],
            forall|i: int| old(stack)@.len() <= i < stack@.len() ==> stack@[i] == 0xffu8,
        decreases at + 1 - stack.len(),
    {
        stack.push(0xff);
    }
    stack[at] = byte;
    *sp = *sp + 1;
    assert(stack@ =~= spec_push_byte(old(stack)@, at as int, byte));
    Ok(())
}

/// Pushes the low bytes of `data` at width `w`, least significant first.
pub fn push_stack(stack: &mut Vec<u8>, sp: &mut u64, data: u64, w: Width) -> (r: Result<(), Fault>)
    ensures
        r is Ok <==> can_push(*old(sp), w.bytes()),
        r is Err ==> r == Err::<(), Fault>(Fault::StackOverflow) && *final(sp) == *old(sp)
            && final(stack)@ == old(stack)@,
        r is Ok ==> *final(sp) == *old(sp) + w.bytes() && final(stack)@ == spec_push(
            old(stack)@,
            *old(sp) as int,
            data as int,
            w.bytes(),
        ),
{
    let n = w.size();
    if *sp > (usize::MAX - n) as u64 {
        return Err(Fault::StackOverflow);
    }
    let mut i: usize = 0;
    while i < n
        invariant
            n == w.bytes(),
            i <= n,
            *old(sp) + n <= usize::MAX,
            *sp == *old(sp) + i,
            stack@ =~= spec_push(old(stack)@, *old(sp) as int, data as int, i as int),
        decreases n - i,
    {
        match push_byte_stack(stack, sp, byte_at(data, i as u8)) {
            Ok(()) => {},
            Err(fault) => {
                return Err(fault);
            },
        }
        i += 1;
    }
    Ok(())
}

/// Moves `sp` down by one and reads the byte there into `location`.
pub fn pop_byte_stack(stack: &mut Vec<u8>, sp: &mut u64, location: &mut u8) -> (r: Result<
    (),
    Fault,
>)
    ensures
        r is Ok <==> can_pop(old(stack)@, *old(sp), 1),
        final(stack)@ == old(stack)@,
        r is Err ==> r == Err::<(), Fault>(Fault::StackUnderflow) && *final(sp) == *old(sp)
            && *final(location) == *old(location),
        r is Ok ==> *final(sp) == *old(sp) - 1 && *final(location) == old(stack)@[*old(sp) - 1],
{
    if *sp == 0 || *sp > stack.len() as u64 {
        return Err(Fault::StackUnderflow);
    }
    if *sp < (stack.len() / 2) as u64 {
        shrink_to(stack, stack.len() / 2);
    }
    *sp = *sp - 1;
    *location = stack[*sp as usize];
    Ok(())
}

/// Pops `w.bytes()` bytes, most significant first, into the low bytes of
/// `location`; the bytes of `location` above the width stay.
pub fn pop_stack(stack: &mut Vec<u8>, sp: &mut u64, location: &mut u64, w: Width) -> (r: Result<
    (),
    Fault,
>)
    ensures
        r is Ok <==> can_pop(old(stack)@, *old(sp), w.bytes()),
        final(stack)@ == old(stack)@,
        r is Err ==> r == Err::<(), Fault>(Fault::StackUnderflow) && *final(sp) == *old(sp)
            && *final(location) == *old(location),
        r is Ok ==> *final(sp) == *old(sp) - w.bytes() && *final(location)
            == write_low(
            *old(location),
            spec_pop(old(stack)@, *old(sp) as int, w.bytes()),
            w,
        ),
{
    let n = w.size();
    if *sp < n as u64 || *sp > stack.len() as u64 {
        return Err(Fault::StackUnderflow);
    }
    let ghost top = *sp as int;
    let mut value: u64 = 0;
    let mut i: usize = 0;
    while i < n
        invariant
            n == w.bytes(),
            i <= n,
            top == *old(sp),
            n <= top <= stack@.len(),
            *sp == top - i,
            stack@ == old(stack)@,
            value == le_value(stack@.subrange(top - i, top)),
        decreases n - i,
    {
        let mut byte: u8 = 0;
        match pop_byte_stack(stack, sp, &mut byte) {
            Ok(()) => {},
            Err(fault) => {
                return Err(fault);
            },
        }
        proof {
            let tail = stack@.subrange(top - i, top);
            let next = stack@.subrange(top - i - 1, top);
            le_value_bound(tail);
            assert(next.drop_first() =~= tail);
            assert(next[0] == byte);
            assert(pow256(i as int) * 256 <= pow256(8));
        }
        value = value * 256 + byte as u64;
        i += 1;
    }
    *location = merge_low(*location, value, w);
    Ok(())
}

/// `Vec::shrink_to`: lets the vector give up capacity above `capacity`. It
/// never goes below the vector's length, so what the vector holds stays.
#[verifier::external_body]
fn shrink_to(stack: &mut Vec<u8>, capacity: usize)
    ensures
        final(stack)@ == old(stack)@,
{
    stack.shrink_to(capacity);
}

} // verus!
