//! Calls into dynamic libraries, as far as they can be prepared without
//! loading one: the file name of a library, and the arguments of a call as
//! they lie packed in a buffer.

use crate::endian::{le_value, read_le};
use crate::instructions::Width;
use vstd::prelude::*;
use vstd::string::*;

verus! {

/// The kinds of operating system that name their libraries differently.
#[derive(Clone, Copy, Debug, PartialEq, Eq, Structural)]
pub enum Platform {
    Windows,
    Unix,
    MacOs,
}

/// The file name of the library `name` on a platform.
pub open spec fn spec_library_file_name(name: Seq<char>, platform: Platform) -> Seq<char> {
    match platform {
        Platform::Windows => name + ".dll"@,
        Platform::Unix => "lib"@ + name + ".so"@,
        Platform::MacOs => "lib"@ + name + ".dylib"@,
    }
}

/// The file name under which the library `name` is looked for.
pub fn library_file_name(name: &str, platform: Platform) -> (file: String)
    ensures
        file@ == spec_library_file_name(name@, platform),
{
    match platform {
        Platform::Windows => {
            let mut file = String::from_str(name);
            file.append(".dll");
            file
        },
        Platform::Unix => {
            let mut file = String::from_str("lib");
            file.append(name);
            file.append(".so");
            file
        },
        Platform::MacOs => {
            let mut file = String::from_str("lib");
            file.append(name);
            file.append(".dylib");
            file
        },
    }
}

/// The type of a call's result or argument: nothing, or a signed integer.
#[derive(Clone, Copy, Debug, PartialEq, Eq, Structural)]
pub enum CType {
    Void,
    Int8,
    Int16,
    Int32,
    Int64,
    /// An integer of the machine's word size.
    IntWord,
}

impl CType {
    /// The type that a tag byte names.
    pub open spec fn spec_from_tag(tag: u8) -> Option<CType> {
        if tag == 0 {
            Some(CType::Void)
        } else if tag == 1 {
            Some(CType::Int8)
        } else if tag == 2 {
            Some(CType::Int16)
        } else if tag == 3 {
            Some(CType::Int32)
        } else if tag == 4 {
            Some(CType::Int64)
        } else if tag == 5 {
            Some(CType::IntWord)
        } else {
            None
        }
    }

    /// The width of a value of the type, where a word has the width `word`;
    /// a void has none.
    pub open spec fn spec_width(self, word: Width) -> Option<Width> {
        match self {
            CType::Void => None,
            CType::Int8 => Some(Width::Byte),
            CType::Int16 => Some(Width::Short),
            CType::Int32 => Some(Width::Int),
            CType::Int64 => Some(Width::Long),
            CType::IntWord => Some(word),
        }
    }

    pub fn from_tag(tag: u8) -> (r: Option<CType>)
        ensures
            r == Self::spec_from_tag(tag),
    {
        if tag == 0 {
            Some(CType::Void)
        } else if tag == 1 {
            Some(CType::Int8)
        } else if tag == 2 {
            Some(CType::Int16)
        } else if tag == 3 {
            Some(CType::Int32)
        } else if tag == 4 {
            Some(CType::Int64)
        } else if tag == 5 {
            Some(CType::IntWord)
        } else {
            None
        }
    }

    pub fn width(self, word: Width) -> (r: Option<Width>)
        ensures
            r == self.spec_width(word),
    {
        match self {
            CType::Void => None,
            CType::Int8 => Some(Width::Byte),
            CType::Int16 => Some(Width::Short),
            CType::Int32 => Some(Width::Int),
            CType::Int64 => Some(Width::Long),
            CType::IntWord => Some(word),
        }
    }
}

/// An argument of a call: its type, and its value as a signed integer in
/// 64 bits.
#[derive(Clone, Copy, Debug, PartialEq, Eq, Structural)]
pub struct Argument {
    pub kind: CType,
    pub bits: u64,
}

/// A call that is ready to be made: the type of its result and its
/// arguments in order.
#[derive(Debug)]
pub struct CallPlan {
    pub result: CType,
    pub arguments: Vec<Argument>,
}

#[derive(Clone, Copy, Debug, PartialEq, Eq, Structural)]
pub enum CallError {
    /// A tag byte names no type.
    InvalidType,
    /// The data end before the arguments do.
    MissingData,
}

/// The unsigned number `value` of width `w`, read as a signed number and
/// written in 64 bits.
pub open spec fn sign_extended(value: int, w: Width) -> u64 {
    if 2 * value >= w.modulus() {
        (value + 0x1_0000_0000_0000_0000 - w.modulus()) as u64
    } else {
        value as u64
    }
}

/// The arguments that the tags from `at` on name, read from `data` from
/// `offset` on: each takes as many bytes as its type is wide, a void takes
/// none and is no argument.
pub open spec fn spec_arguments(
    types: Seq<u8>,
    at: int,
    data: Seq<u8>,
    offset: int,
    word: Width,
) -> Result<Seq<Argument>, CallError>
    decreases types.len() - at,
{
    if at < 0 || at >= types.len() {
        Ok(Seq::empty())
    } else {
        match CType::spec_from_tag(types[at]) {
            None => Err(CallError::InvalidType),
            Some(kind) => match kind.spec_width(word) {
                None => spec_arguments(types, at + 1, data, offset, word),
                Some(w) => if offset + w.bytes() > data.len() {
                    Err(CallError::MissingData)
                } else {
                    match spec_arguments(types, at + 1, data, offset + w.bytes(), word) {
                        Err(e) => Err(e),
                        Ok(rest) => Ok(
                            seq![
                                Argument {
                                    kind,
                                    bits: sign_extended(
                                        le_value(data.subrange(offset, offset + w.bytes())),
                                        w,
                                    ),
                                },
                            ] + rest,
                        ),
                    }
                },
            },
        }
    }
}

/// The call that a type buffer and a data buffer describe. The first tag is
/// the type of the result, the others are the types of the arguments, whose
/// values lie in `data` one behind the other. Without any tag the call takes
/// nothing and gives nothing.
pub open spec fn spec_plan_call(types: Seq<u8>, data: Seq<u8>, word: Width) -> Result<
    (CType, Seq<Argument>),
    CallError,
> {
    if types.len() == 0 {
        Ok((CType::Void, Seq::empty()))
    } else {
        match CType::spec_from_tag(types[0]) {
            None => Err(CallError::InvalidType),
            Some(result) => match spec_arguments(types, 1, data, 0, word) {
                Err(e) => Err(e),
                Ok(arguments) => Ok((result, arguments)),
            },
        }
    }
}

/// The number of data bytes that the argument tags from `at` on ask for. A
/// tag that names no type asks for none.
pub open spec fn spec_data_length(types: Seq<u8>, at: int, word: Width) -> int
    decreases types.len() - at,
{
    if at < 0 || at >= types.len() {
        0
    } else {
        (match CType::spec_from_tag(types[at]) {
            Some(kind) => match kind.spec_width(word) {
                Some(w) => w.bytes(),
                None => 0,
            },
            None => 0,
        }) + spec_data_length(types, at + 1, word)
    }
}

/// The number of data bytes that the arguments of a call take: those that
/// the tags behind the first ask for. `None` says that the number does not
/// fit in `usize`.
pub fn data_length(types: &Vec<u8>, word: Width) -> (r: Option<usize>)
    ensures
        r == (if spec_data_length(types@, 1, word) <= usize::MAX {
            Some(spec_data_length(types@, 1, word) as usize)
        } else {
            None
        }),
{
    let mut total: usize = 0;
    let mut at: usize = types.len();
    while at > 1
        invariant
            at <= types.len(),
            at >= 1 || types.len() == 0,
            total == spec_data_length(types@, at as int, word),
        decreases at,
    {
        at -= 1;
        let n = match CType::from_tag(types[at]) {
            Some(kind) => match kind.width(word) {
                Some(w) => w.size(),
                None => 0,
            },
            None => 0,
        };
        proof {
            data_length_grows(types@, 1, at as int, word);
        }
        match total.checked_add(n) {
            Some(sum) => {
                total = sum;
            },
            None => {
                return None;
            },
        }
    }
    Some(total)
}

/// The tags from an earlier place on ask for no fewer bytes than those from
/// a later place on.
proof fn data_length_grows(types: Seq<u8>, from: int, to: int, word: Width)
    requires
        0 <= from <= to,
    ensures
        spec_data_length(types, from, word) >= spec_data_length(types, to, word) >= 0,
    decreases types.len() - from,
{
    if from < to && from < types.len() {
        data_length_grows(types, from + 1, to, word);
    } else if from < to {
    } else {
        data_length_nonnegative(types, to, word);
    }
}

proof fn data_length_nonnegative(types: Seq<u8>, at: int, word: Width)
    ensures
        spec_data_length(types, at, word) >= 0,
    decreases types.len() - at,
{
    if 0 <= at < types.len() {
        data_length_nonnegative(types, at + 1, word);
    }
}

/// The unsigned number `value` of width `w`, read as a signed number and
/// written in 64 bits.
pub fn sign_extend(value: u64, w: Width) -> (bits: u64)
    requires
        value < w.modulus(),
    ensures
        bits == sign_extended(value as int, w),
{
    match w {
        Width::Byte => if value >= 0x80 {
            value + 0xffff_ffff_ffff_ff00
        } else {
            value
        },
        Width::Short => if value >= 0x8000 {
            value + 0xffff_ffff_ffff_0000
        } else {
            value
        },
        Width::Int => if value >= 0x8000_0000 {
            value + 0xffff_ffff_0000_0000
        } else {
            value
        },
        Width::Long => value,
    }
}

/// Reads the call that `types` and `data` describe, on a machine whose
/// words have the width `word`.
pub fn plan_call(types: &Vec<u8>, data: &Vec<u8>, word: Width) -> (r: Result<CallPlan, CallError>)
    ensures
        r matches Ok(plan) ==> spec_plan_call(types@, data@, word) == Ok::<
            (CType, Seq<Argument>),
            CallError,
        >((plan.result, plan.arguments@)),
        r matches Err(e) ==> spec_plan_call(types@, data@, word) == Err::<
            (CType, Seq<Argument>),
            CallError,
        >(e),
{
    if types.len() == 0 {
        return Ok(CallPlan { result: CType::Void, arguments: Vec::new() });
    }
    let result = match CType::from_tag(types[0]) {
        Some(result) => result,
        None => {
            return Err(CallError::InvalidType);
        },
    };
    let mut arguments: Vec<Argument> = Vec::new();
    let mut offset: usize = 0;
    let mut at: usize = 1;
    while at < types.len()
        invariant
            1 <= at <= types.len(),
            offset <= data.len(),
            CType::spec_from_tag(types@[0]) == Some(result),
            match spec_arguments(types@, at as int, data@, offset as int, word) {
                Ok(rest) => spec_arguments(types@, 1, data@, 0, word) == Ok::<
                    Seq<Argument>,
                    CallError,
                >(arguments@ + rest),
                Err(e) => spec_arguments(types@, 1, data@, 0, word) == Err::<
                    Seq<Argument>,
                    CallError,
                >(e),
            },
        decreases types.len() - at,
    {
        let kind = match CType::from_tag(types[at]) {
            Some(kind) => kind,
            None => {
                return Err(CallError::InvalidType);
            },
        };
        match kind.width(word) {
            None => {},
            Some(w) => {
                let n = w.size();
                if n > data.len() - offset {
                    return Err(CallError::MissingData);
                }
                let bits = sign_extend(read_le(data, offset, w), w);
                let ghost before = arguments@;
                arguments.push(Argument { kind, bits });
                proof {
                    match spec_arguments(types@, at + 1, data@, offset + n, word) {
                        Ok(rest) => {
                            assert(arguments@ + rest =~= before + (seq![Argument { kind, bits }]
                                + rest));
                        },
                        Err(_) => {},
                    }
                }
                offset += n;
            },
        }
        at += 1;
    }
    Ok(CallPlan { result, arguments })
}

} // verus!
