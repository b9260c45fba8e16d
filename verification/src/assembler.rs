//! The assembler: tokens to a data plan with its two symbol tables, and the
//! plan to the byte image.

use crate::endian::{byte_at, le_bytes, le_slice};
use crate::instructions::{Instructions, SysCalls};
use crate::literals::{
    hex_number, next_number, spec_hex_number, spec_next_number, spec_string_bytes, string_bytes,
};
use crate::tokenizer::{spec_tokenize, tokenize, views, ArsenalToken, TokenKind, TokenView};
use vstd::hash_map::StringHashMap;
use vstd::prelude::*;
use vstd::string::*;
use vstd::utf8::{decode_utf8, encode_utf8, valid_utf8};

verus! {

/// Why a source text has no image.
#[derive(Clone, Copy, Debug, PartialEq, Eq, Structural)]
pub enum AssembleError {
    /// The source is not valid UTF-8.
    InvalidEncoding,
    /// A token stands where the grammar has no place for it, or a number
    /// is out of the range that its place allows.
    UnexpectedToken,
    /// A statement starts with a name that is no opcode.
    UnknownInstruction,
    /// An argument is a name that is no system call.
    UnknownSyscall,
    /// A label is referred to and nowhere declared.
    UndefinedLabel,
    /// A size is referred to and nowhere captured.
    UndefinedSize,
    /// The arguments of a fixed-width capture take more bytes than its
    /// width.
    CaptureOverflow,
    /// The image would be longer than a 64-bit count can say.
    ImageTooLarge,
}

/// The bytes `start..=stop` of a 64-bit value, and what is added to the
/// value first.
#[derive(Clone, Copy, Debug, PartialEq, Eq, Structural)]
pub struct Slice {
    pub start: u32,
    pub stop: u32,
    pub shift: u64,
}

impl Slice {
    pub open spec fn wf(self) -> bool {
        self.start <= self.stop <= 7
    }

    /// All eight bytes, nothing added.
    pub open spec fn full() -> Slice {
        Slice { start: 0, stop: 7, shift: 0 }
    }
}

/// An entry of the data plan.
#[derive(Debug, Clone)]
pub enum DataObject {
    /// A byte of the image.
    Byte(u8),
    /// The bytes `start..=stop` of a label's address plus an increment.
    LabelRequest(String, u32, u32, u64),
    /// The bytes `start..=stop` of a captured size.
    SizeRequest(String, u32, u32),
}

/// An entry of the data plan as plain values.
pub enum DataObjectView {
    Byte(u8),
    LabelRequest(Seq<char>, u32, u32, u64),
    SizeRequest(Seq<char>, u32, u32),
}

impl View for DataObject {
    type V = DataObjectView;

    open spec fn view(&self) -> DataObjectView {
        match self {
            DataObject::Byte(b) => DataObjectView::Byte(*b),
            DataObject::LabelRequest(name, start, stop, shift) => DataObjectView::LabelRequest(
                name@,
                *start,
                *stop,
                *shift,
            ),
            DataObject::SizeRequest(name, start, stop) => DataObjectView::SizeRequest(
                name@,
                *start,
                *stop,
            ),
        }
    }
}

impl DataObjectView {
    /// A request's slice lies in the eight bytes of its value.
    pub open spec fn wf(self) -> bool {
        match self {
            DataObjectView::Byte(_) => true,
            DataObjectView::LabelRequest(_, start, stop, _) => start <= stop <= 7,
            DataObjectView::SizeRequest(_, start, stop) => start <= stop <= 7,
        }
    }

    /// The number of bytes that the entry stands for in the image.
    pub open spec fn size(self) -> int {
        match self {
            DataObjectView::Byte(_) => 1,
            DataObjectView::LabelRequest(_, start, stop, _) => stop - start + 1,
            DataObjectView::SizeRequest(_, start, stop) => stop - start + 1,
        }
    }
}

/// The number of bytes that a plan stands for.
pub open spec fn plan_bytes(plan: Seq<DataObjectView>) -> int
    decreases plan.len(),
{
    if plan.len() == 0 {
        0
    } else {
        plan_bytes(plan.drop_last()) + plan.last().size()
    }
}

pub open spec fn plan_wf(plan: Seq<DataObjectView>) -> bool {
    forall|i: int| 0 <= i < plan.len() ==> (#[trigger] plan[i]).wf()
}

/// The plan that emits `bytes` as they are.
pub open spec fn bytes_plan(bytes: Seq<u8>) -> Seq<DataObjectView> {
    Seq::new(bytes.len(), |i: int| DataObjectView::Byte(bytes[i]))
}

/// `n` zero bytes.
pub open spec fn zeros(n: int) -> Seq<u8> {
    Seq::new(n as nat, |i: int| 0u8)
}

/// The two bytes of an opcode's number, low byte first.
pub open spec fn opcode_bytes(op: Instructions) -> Seq<u8> {
    seq![(op.spec_code() % 256) as u8, (op.spec_code() / 256) as u8]
}

/// What the assembler has gathered: the plan, the symbol tables and the
/// number of bytes declared so far.
pub struct Assembly {
    pub plan: Seq<DataObjectView>,
    pub labels: Map<Seq<char>, u64>,
    pub sizes: Map<Seq<char>, u64>,
    pub count: int,
}

impl Assembly {
    pub open spec fn empty() -> Assembly {
        Assembly { plan: Seq::empty(), labels: Map::empty(), sizes: Map::empty(), count: 0 }
    }

    /// The declared byte count is what the plan stands for, it fits in 64
    /// bits, and every request's slice lies in its value.
    pub open spec fn wf(self) -> bool {
        &&& self.count == plan_bytes(self.plan)
        &&& 0 <= self.count <= u64::MAX
        &&& plan_wf(self.plan)
    }

    /// The entries are added to the plan and their bytes to the count.
    pub open spec fn emit(self, entries: Seq<DataObjectView>) -> Result<Assembly, AssembleError> {
        if self.count + plan_bytes(entries) > u64::MAX {
            Err(AssembleError::ImageTooLarge)
        } else {
            Ok(
                Assembly {
                    plan: self.plan + entries,
                    count: self.count + plan_bytes(entries),
                    ..self
                },
            )
        }
    }

    /// The label `name` is recorded at the current byte count.
    pub open spec fn with_label(self, name: Seq<char>) -> Assembly {
        Assembly { labels: self.labels.insert(name, self.count as u64), ..self }
    }

    pub open spec fn with_size(self, name: Seq<char>, size: u64) -> Assembly {
        Assembly { sizes: self.sizes.insert(name, size), ..self }
    }
}

pub open spec fn kind_at(tokens: Seq<TokenView>, at: int) -> Option<TokenKind> {
    if 0 <= at < tokens.len() {
        Some(tokens[at].kind)
    } else {
        None
    }
}

pub open spec fn is_kind(tokens: Seq<TokenView>, at: int, kind: TokenKind) -> bool {
    kind_at(tokens, at) == Some(kind)
}

/// The number of the decimal or hexadecimal token at `at`.
pub open spec fn spec_literal(tokens: Seq<TokenView>, at: int) -> Option<u64> {
    if is_kind(tokens, at, TokenKind::Number) {
        spec_next_number(tokens[at].lexeme)
    } else if is_kind(tokens, at, TokenKind::Hex) {
        spec_hex_number(tokens[at].lexeme)
    } else {
        None
    }
}

/// The number of the decimal token at `at`.
pub open spec fn spec_decimal(tokens: Seq<TokenView>, at: int) -> Option<u64> {
    if is_kind(tokens, at, TokenKind::Number) {
        spec_next_number(tokens[at].lexeme)
    } else {
        None
    }
}

/// The byte index that the decimal token at `at` gives: a number up to 7.
pub open spec fn spec_index(tokens: Seq<TokenView>, at: int) -> Option<u32> {
    match spec_decimal(tokens, at) {
        Some(v) => if v <= 7 {
            Some(v as u32)
        } else {
            None
        },
        None => None,
    }
}

/// The slice at `at` and the place behind it. Without `:` there is no
/// slice there and all eight bytes are meant; without `->` the slice ends at
/// byte 7; without `=>` nothing is added.
pub open spec fn spec_slice(tokens: Seq<TokenView>, at: int) -> Result<
    (Slice, int),
    AssembleError,
> {
    if !is_kind(tokens, at, TokenKind::Selection) {
        Ok((Slice::full(), at))
    } else {
        match spec_index(tokens, at + 1) {
            None => Err(AssembleError::UnexpectedToken),
            Some(start) => if !is_kind(tokens, at + 2, TokenKind::Range) {
                Ok((Slice { start, stop: 7, shift: 0 }, at + 2))
            } else {
                match spec_index(tokens, at + 3) {
                    None => Err(AssembleError::UnexpectedToken),
                    Some(stop) => if start > stop {
                        Err(AssembleError::UnexpectedToken)
                    } else if !is_kind(tokens, at + 4, TokenKind::Shift) {
                        Ok((Slice { start, stop, shift: 0 }, at + 4))
                    } else {
                        match spec_decimal(tokens, at + 5) {
                            None => Err(AssembleError::UnexpectedToken),
                            Some(shift) => Ok((Slice { start, stop, shift }, at + 6)),
                        }
                    },
                }
            },
        }
    }
}

/// What the argument at `at` adds to the plan, and the place behind it: a
/// system call's name its number, a number its lowest byte, a string its
/// bytes, `&` and a name a request for a slice of the label's address, `$`
/// and a name a request for a slice of the size, `#` and a number the
/// bytes of a slice of the number. What a slice adds with `=>` goes into a
/// label's request; behind `$` and `#` it is read and changes nothing.
pub open spec fn spec_argument(tokens: Seq<TokenView>, at: int) -> Result<
    (Seq<DataObjectView>, int),
    AssembleError,
> {
    match kind_at(tokens, at) {
        Some(TokenKind::Identifier) => match SysCalls::spec_from_name(tokens[at].lexeme) {
            Some(call) => Ok((bytes_plan(seq![call.spec_code() as u8]), at + 1)),
            None => Err(AssembleError::UnknownSyscall),
        },
        Some(TokenKind::Number) | Some(TokenKind::Hex) => match spec_literal(tokens, at) {
            Some(v) => Ok((bytes_plan(seq![(v % 256) as u8]), at + 1)),
            None => Err(AssembleError::UnexpectedToken),
        },
        Some(TokenKind::StringLiteral) => match spec_string_bytes(tokens[at].lexeme) {
            Some(bytes) => Ok((bytes_plan(bytes), at + 1)),
            None => Err(AssembleError::UnexpectedToken),
        },
        Some(TokenKind::IDGrab) => if !is_kind(tokens, at + 1, TokenKind::Identifier) {
            Err(AssembleError::UnexpectedToken)
        } else {
            match spec_slice(tokens, at + 2) {
                Err(e) => Err(e),
                Ok((slice, next)) => Ok(
                    (
                        seq![
                            DataObjectView::LabelRequest(
                                tokens[at + 1].lexeme,
                                slice.start,
                                slice.stop,
                                slice.shift,
                            ),
                        ],
                        next,
                    ),
                ),
            }
        },
        Some(TokenKind::SizeGrab) => if !is_kind(tokens, at + 1, TokenKind::Identifier) {
            Err(AssembleError::UnexpectedToken)
        } else {
            match spec_slice(tokens, at + 2) {
                Err(e) => Err(e),
                Ok((slice, next)) => Ok(
                    (
                        seq![
                            DataObjectView::SizeRequest(
                                tokens[at + 1].lexeme,
                                slice.start,
                                slice.stop,
                            ),
                        ],
                        next,
                    ),
                ),
            }
        },
        Some(TokenKind::NumericSlice) => match spec_decimal(tokens, at + 1) {
            None => Err(AssembleError::UnexpectedToken),
            Some(value) => match spec_slice(tokens, at + 2) {
                Err(e) => Err(e),
                Ok((slice, next)) => Ok(
                    (
                        bytes_plan(le_slice(value as int, slice.start as int, slice.stop as int)),
                        next,
                    ),
                ),
            },
        },
        _ => Err(AssembleError::UnexpectedToken),
    }
}

/// The argument at `at`, added to `state`, and the place behind it.
pub open spec fn spec_emit_argument(tokens: Seq<TokenView>, at: int, state: Assembly) -> Result<
    (Assembly, int),
    AssembleError,
> {
    match spec_argument(tokens, at) {
        Err(e) => Err(e),
        Ok((entries, next)) => match state.emit(entries) {
            Err(e) => Err(e),
            Ok(emitted) => Ok((emitted, next)),
        },
    }
}

/// The arguments from `at` up to the line end, added to `state`, and the
/// place of the line end. Arguments may stand apart by one separator;
/// `first` says that no argument was read yet, so that none may stand here.
pub open spec fn spec_arguments(
    tokens: Seq<TokenView>,
    at: int,
    state: Assembly,
    first: bool,
) -> Result<(Assembly, int), AssembleError>
    decreases tokens.len() - at,
{
    if at < 0 || at >= tokens.len() {
        Err(AssembleError::UnexpectedToken)
    } else if is_kind(tokens, at, TokenKind::LineEnd) {
        Ok((state, at))
    } else {
        let from = if !first && is_kind(tokens, at, TokenKind::Separator) {
            at + 1
        } else {
            at
        };
        match spec_emit_argument(tokens, from, state) {
            Err(e) => Err(e),
            Ok((emitted, next)) => if at < next <= tokens.len() {
                spec_arguments(tokens, next, emitted, false)
            } else {
                Err(AssembleError::UnexpectedToken)
            },
        }
    }
}

/// The line end behind the arguments is passed.
pub open spec fn past_line_end(body: Result<(Assembly, int), AssembleError>) -> Result<
    (Assembly, int),
    AssembleError,
> {
    match body {
        Err(e) => Err(e),
        Ok((state, at)) => Ok((state, at + 1)),
    }
}

/// The capture whose `(` stands at `at`, and the place behind its line end.
/// The name is recorded as a label at the byte count before the arguments.
/// A capture with a name in the parentheses records the bytes of its
/// arguments as that size; one with a number is filled with zero bytes up
/// to that width, and is the only one that may go without `=`.
pub open spec fn spec_capture(tokens: Seq<TokenView>, at: int, state: Assembly) -> Result<
    (Assembly, int),
    AssembleError,
> {
    match kind_at(tokens, at + 1) {
        Some(TokenKind::ClosedParen) => if is_kind(tokens, at + 2, TokenKind::Identifier)
            && is_kind(tokens, at + 3, TokenKind::VarAssignment) {
            past_line_end(
                spec_arguments(tokens, at + 4, state.with_label(tokens[at + 2].lexeme), true),
            )
        } else {
            Err(AssembleError::UnexpectedToken)
        },
        Some(TokenKind::Identifier) => if is_kind(tokens, at + 2, TokenKind::ClosedParen)
            && is_kind(tokens, at + 3, TokenKind::Identifier) && is_kind(
            tokens,
            at + 4,
            TokenKind::VarAssignment,
        ) {
            match spec_arguments(
                tokens,
                at + 5,
                state.with_label(tokens[at + 3].lexeme),
                true,
            ) {
                Err(e) => Err(e),
                Ok((body, end)) => Ok(
                    (
                        body.with_size(tokens[at + 1].lexeme, (body.count - state.count) as u64),
                        end + 1,
                    ),
                ),
            }
        } else {
            Err(AssembleError::UnexpectedToken)
        },
        Some(TokenKind::Number) | Some(TokenKind::Hex) => match spec_literal(tokens, at + 1) {
            None => Err(AssembleError::UnexpectedToken),
            Some(width) => if is_kind(tokens, at + 2, TokenKind::ClosedParen) && is_kind(
                tokens,
                at + 3,
                TokenKind::Identifier,
            ) {
                let named = state.with_label(tokens[at + 3].lexeme);
                let body = if is_kind(tokens, at + 4, TokenKind::VarAssignment) {
                    spec_arguments(tokens, at + 5, named, true)
                } else if is_kind(tokens, at + 4, TokenKind::LineEnd) {
                    Ok((named, at + 4))
                } else {
                    Err(AssembleError::UnexpectedToken)
                };
                match body {
                    Err(e) => Err(e),
                    Ok((filled, end)) => if filled.count - state.count > width {
                        Err(AssembleError::CaptureOverflow)
                    } else {
                        match filled.emit(
                            bytes_plan(zeros(width - (filled.count - state.count))),
                        ) {
                            Err(e) => Err(e),
                            Ok(padded) => Ok((padded, end + 1)),
                        }
                    },
                }
            } else {
                Err(AssembleError::UnexpectedToken)
            },
        },
        _ => Err(AssembleError::UnexpectedToken),
    }
}

/// The statement at `at`, added to `state`, and the place behind its line
/// end: a label declaration, a capture, or an instruction, whose name may
/// be followed by `:` before its arguments.
pub open spec fn spec_statement(tokens: Seq<TokenView>, at: int, state: Assembly) -> Result<
    (Assembly, int),
    AssembleError,
> {
    match kind_at(tokens, at) {
        Some(TokenKind::Label) => if is_kind(tokens, at + 1, TokenKind::Identifier) && is_kind(
            tokens,
            at + 2,
            TokenKind::LineEnd,
        ) {
            Ok((state.with_label(tokens[at + 1].lexeme), at + 3))
        } else {
            Err(AssembleError::UnexpectedToken)
        },
        Some(TokenKind::OpenParen) => spec_capture(tokens, at, state),
        Some(TokenKind::Identifier) => match Instructions::spec_from_name(tokens[at].lexeme) {
            None => Err(AssembleError::UnknownInstruction),
            Some(op) => match state.emit(bytes_plan(opcode_bytes(op))) {
                Err(e) => Err(e),
                Ok(started) => past_line_end(
                    spec_arguments(
                        tokens,
                        if is_kind(tokens, at + 1, TokenKind::Selection) {
                            at + 2
                        } else {
                            at + 1
                        },
                        started,
                        true,
                    ),
                ),
            },
        },
        _ => Err(AssembleError::UnexpectedToken),
    }
}

/// The statements from `at` on, added to `state`. Line ends between
/// statements are passed over.
pub open spec fn spec_program(tokens: Seq<TokenView>, at: int, state: Assembly) -> Result<
    Assembly,
    AssembleError,
>
    decreases tokens.len() - at,
{
    if at < 0 || at >= tokens.len() {
        Ok(state)
    } else if is_kind(tokens, at, TokenKind::LineEnd) {
        spec_program(tokens, at + 1, state)
    } else {
        match spec_statement(tokens, at, state) {
            Err(e) => Err(e),
            Ok((next_state, next)) => if at < next <= tokens.len() {
                spec_program(tokens, next, next_state)
            } else {
                Err(AssembleError::UnexpectedToken)
            },
        }
    }
}

/// The bytes that an entry stands for, once the names are known.
pub open spec fn resolve_entry(
    entry: DataObjectView,
    labels: Map<Seq<char>, u64>,
    sizes: Map<Seq<char>, u64>,
) -> Result<Seq<u8>, AssembleError> {
    match entry {
        DataObjectView::Byte(b) => Ok(seq![b]),
        DataObjectView::LabelRequest(name, start, stop, shift) => if labels.contains_key(name) {
            Ok(
                le_slice(
                    (labels[name] + shift) % 0x1_0000_0000_0000_0000,
                    start as int,
                    stop as int,
                ),
            )
        } else {
            Err(AssembleError::UndefinedLabel)
        },
        DataObjectView::SizeRequest(name, start, stop) => if sizes.contains_key(name) {
            Ok(le_slice(sizes[name] as int, start as int, stop as int))
        } else {
            Err(AssembleError::UndefinedSize)
        },
    }
}

/// The image of a plan: the bytes of its entries in order, or the error of
/// the first entry that names what is not known.
pub open spec fn spec_resolve(
    plan: Seq<DataObjectView>,
    labels: Map<Seq<char>, u64>,
    sizes: Map<Seq<char>, u64>,
) -> Result<Seq<u8>, AssembleError>
    decreases plan.len(),
{
    if plan.len() == 0 {
        Ok(Seq::empty())
    } else {
        match spec_resolve(plan.drop_last(), labels, sizes) {
            Err(e) => Err(e),
            Ok(front) => match resolve_entry(plan.last(), labels, sizes) {
                Err(e) => Err(e),
                Ok(bytes) => Ok(front + bytes),
            },
        }
    }
}

/// The image of a token sequence: its statements are gathered into a plan,
/// and the plan is resolved.
pub open spec fn spec_assemble(tokens: Seq<TokenView>) -> Result<Seq<u8>, AssembleError> {
    match spec_program(tokens, 0, Assembly::empty()) {
        Err(e) => Err(e),
        Ok(state) => spec_resolve(state.plan, state.labels, state.sizes),
    }
}

/// The image of a source: it must be UTF-8; its text is read into tokens,
/// and the tokens are assembled.
pub open spec fn spec_parse(data: Seq<u8>) -> Result<Seq<u8>, AssembleError> {
    if valid_utf8(data) {
        spec_assemble(spec_tokenize::<ArsenalToken>(decode_utf8(data)))
    } else {
        Err(AssembleError::InvalidEncoding)
    }
}

/// The views of the entries of a plan.
pub open spec fn plan_view(data: Seq<DataObject>) -> Seq<DataObjectView> {
    Seq::new(data.len(), |i: int| data[i]@)
}

/// The assembler's state: the plan, the labels, the sizes and the number of
/// bytes declared so far.
pub struct Assembler {
    pub data: Vec<DataObject>,
    pub labels: StringHashMap<u64>,
    pub sizes: StringHashMap<u64>,
    pub bytes_count: u64,
}

impl View for Assembler {
    type V = Assembly;

    open spec fn view(&self) -> Assembly {
        Assembly {
            plan: plan_view(self.data@),
            labels: self.labels@,
            sizes: self.sizes@,
            count: self.bytes_count as int,
        }
    }
}

/// Whether a state or an error is the expected one.
pub open spec fn state_is(
    r: Result<Assembler, AssembleError>,
    expected: Result<Assembly, AssembleError>,
) -> bool {
    match r {
        Ok(state) => expected == Ok::<Assembly, AssembleError>(state@),
        Err(e) => expected == Err::<Assembly, AssembleError>(e),
    }
}

/// Whether a state with a place, or an error, is the expected one.
pub open spec fn step_is(
    r: Result<(Assembler, usize), AssembleError>,
    expected: Result<(Assembly, int), AssembleError>,
) -> bool {
    match r {
        Ok((state, next)) => expected == Ok::<(Assembly, int), AssembleError>(
            (state@, next as int),
        ),
        Err(e) => expected == Err::<(Assembly, int), AssembleError>(e),
    }
}

/// Whether a slice with a place, or an error, is the expected one.
pub open spec fn slice_is(
    r: Result<(Slice, usize), AssembleError>,
    expected: Result<(Slice, int), AssembleError>,
) -> bool {
    match r {
        Ok((slice, next)) => expected == Ok::<(Slice, int), AssembleError>((slice, next as int)),
        Err(e) => expected == Err::<(Slice, int), AssembleError>(e),
    }
}

/// Whether an image or an error is the expected one.
pub open spec fn image_is(
    r: Result<Vec<u8>, AssembleError>,
    expected: Result<Seq<u8>, AssembleError>,
) -> bool {
    match r {
        Ok(image) => expected == Ok::<Seq<u8>, AssembleError>(image@),
        Err(e) => expected == Err::<Seq<u8>, AssembleError>(e),
    }
}

/// The bytes of two plans in a row are the bytes of the one and the bytes
/// of the other.
pub proof fn plan_bytes_concat(a: Seq<DataObjectView>, b: Seq<DataObjectView>)
    ensures
        plan_bytes(a + b) == plan_bytes(a) + plan_bytes(b),
    decreases b.len(),
{
    if b.len() == 0 {
    } else {
        assert((a + b).drop_last() =~= a + b.drop_last());
        plan_bytes_concat(a, b.drop_last());
    }
}

/// A plan of plain bytes stands for as many bytes as it has entries.
pub proof fn plan_bytes_of_bytes(bytes: Seq<u8>)
    ensures
        plan_bytes(bytes_plan(bytes)) == bytes.len(),
        plan_wf(bytes_plan(bytes)),
    decreases bytes.len(),
{
    if bytes.len() > 0 {
        assert(bytes_plan(bytes).drop_last() =~= bytes_plan(bytes.drop_last()));
        plan_bytes_of_bytes(bytes.drop_last());
    }
}

/// A state whose count is that of its plan keeps it so when well-formed
/// entries are added.
pub proof fn emit_keeps_wf(state: Assembly, entries: Seq<DataObjectView>)
    requires
        state.wf(),
        plan_wf(entries),
        state.emit(entries) is Ok,
    ensures
        state.emit(entries)->Ok_0.wf(),
        plan_bytes(entries) >= 0,
{
    plan_bytes_concat(state.plan, entries);
    plan_bytes_nonnegative(entries);
}

pub proof fn plan_bytes_nonnegative(plan: Seq<DataObjectView>)
    requires
        plan_wf(plan),
    ensures
        plan_bytes(plan) >= plan.len(),
    decreases plan.len(),
{
    if plan.len() > 0 {
        assert forall|i: int| 0 <= i < plan.drop_last().len() implies (
        #[trigger] plan.drop_last()[i]).wf() by {}
        plan_bytes_nonnegative(plan.drop_last());
    }
}

impl Assembler {
    /// The state before anything is assembled.
    pub fn new() -> (state: Assembler)
        ensures
            state@ == Assembly::empty(),
    {
        let state = Assembler {
            data: Vec::new(),
            labels: StringHashMap::new(),
            sizes: StringHashMap::new(),
            bytes_count: 0,
        };
        assert(state@.plan =~= Seq::<DataObjectView>::empty());
        state
    }

    /// Adds an entry to the plan and its bytes to the count.
    fn emit(self, entry: DataObject) -> (r: Result<Assembler, AssembleError>)
        requires
            entry@.wf(),
        ensures
            state_is(r, self@.emit(seq![entry@])),
            r matches Ok(after) ==> after@.count >= self@.count && (self@.wf() ==> after@.wf()),
    {
        proof {
            plan_bytes_nonnegative(seq![entry@]);
            if self@.emit(seq![entry@]) is Ok && self@.wf() {
                emit_keeps_wf(self@, seq![entry@]);
            }
        }
        let size: u64 = match &entry {
            DataObject::Byte(_) => 1,
            DataObject::LabelRequest(_, start, stop, _) => (*stop - *start + 1) as u64,
            DataObject::SizeRequest(_, start, stop) => (*stop - *start + 1) as u64,
        };
        proof {
            let one = seq![entry@];
            assert(plan_bytes(one.drop_last()) == 0);
        }
        if size > u64::MAX - self.bytes_count {
            return Err(AssembleError::ImageTooLarge);
        }
        let mut state = self;
        let ghost before = state.data@;
        state.data.push(entry);
        state.bytes_count = state.bytes_count + size;
        assert(plan_view(state.data@) =~= plan_view(before) + seq![entry@]);
        Ok(state)
    }

    /// Adds plain bytes to the plan and their number to the count.
    fn emit_bytes(self, bytes: &Vec<u8>) -> (r: Result<Assembler, AssembleError>)
        ensures
            state_is(r, self@.emit(bytes_plan(bytes@))),
            r matches Ok(after) ==> after@.count >= self@.count && (self@.wf() ==> after@.wf()),
    {
        proof {
            plan_bytes_of_bytes(bytes@);
            if self@.emit(bytes_plan(bytes@)) is Ok && self@.wf() {
                emit_keeps_wf(self@, bytes_plan(bytes@));
            }
        }
        if bytes.len() as u64 > u64::MAX - self.bytes_count {
            return Err(AssembleError::ImageTooLarge);
        }
        let mut state = self;
        let ghost before = state.data@;
        let mut i: usize = 0;
        while i < bytes.len()
            invariant
                i <= bytes.len(),
                state.labels == self.labels,
                state.sizes == self.sizes,
                state.bytes_count == self.bytes_count,
                before == self.data@,
                plan_view(state.data@) =~= plan_view(before) + bytes_plan(bytes@.take(i as int)),
            decreases bytes.len() - i,
        {
            let ghost so_far = state.data@;
            state.data.push(DataObject::Byte(bytes[i]));
            assert(plan_view(state.data@) =~= plan_view(so_far) + seq![
                DataObjectView::Byte(bytes@[i as int]),
            ]);
            i += 1;
        }
        assert(bytes@.take(bytes.len() as int) =~= bytes@);
        state.bytes_count = state.bytes_count + bytes.len() as u64;
        Ok(state)
    }

    /// Adds `n` zero bytes to the plan and `n` to the count.
    fn emit_zeros(self, n: u64) -> (r: Result<Assembler, AssembleError>)
        ensures
            state_is(r, self@.emit(bytes_plan(zeros(n as int)))),
            r matches Ok(after) ==> after@.count >= self@.count && (self@.wf() ==> after@.wf()),
    {
        proof {
            plan_bytes_of_bytes(zeros(n as int));
            if self@.emit(bytes_plan(zeros(n as int))) is Ok && self@.wf() {
                emit_keeps_wf(self@, bytes_plan(zeros(n as int)));
            }
        }
        if n > u64::MAX - self.bytes_count {
            return Err(AssembleError::ImageTooLarge);
        }
        let mut state = self;
        let ghost before = state.data@;
        let mut i: u64 = 0;
        while i < n
            invariant
                i <= n,
                state.labels == self.labels,
                state.sizes == self.sizes,
                state.bytes_count == self.bytes_count,
                before == self.data@,
                plan_view(state.data@) =~= plan_view(before) + bytes_plan(zeros(i as int)),
            decreases n - i,
        {
            let ghost so_far = state.data@;
            state.data.push(DataObject::Byte(0));
            assert(plan_view(state.data@) =~= plan_view(so_far) + seq![DataObjectView::Byte(0u8)]);
            i += 1;
        }
        state.bytes_count = state.bytes_count + n;
        Ok(state)
    }

    /// Records the label `name` at the current byte count.
    fn label(self, name: &str) -> (state: Assembler)
        ensures
            state@ == self@.with_label(name@),
    {
        let mut state = self;
        state.labels.insert(String::from_str(name), state.bytes_count);
        state
    }

    /// Records `size` as the size `name`.
    fn size(self, name: &str, size: u64) -> (state: Assembler)
        ensures
            state@ == self@.with_size(name@, size),
    {
        let mut state = self;
        state.sizes.insert(String::from_str(name), size);
        state
    }
}

/// Whether the token `offset` places behind `at` is of the kind.
fn peek(tokens: &Vec<ArsenalToken>, at: usize, offset: usize, kind: TokenKind) -> (r: bool)
    ensures
        r == is_kind(views(tokens@), at + offset, kind),
{
    if at < tokens.len() && offset < tokens.len() - at {
        tokens[at + offset].kind() == kind
    } else {
        false
    }
}

/// The text of the token `offset` places behind `at`.
fn text_at(tokens: &Vec<ArsenalToken>, at: usize, offset: usize) -> (text: &str)
    requires
        at + offset < tokens.len(),
    ensures
        text@ == views(tokens@)[at + offset].lexeme,
{
    tokens[at + offset].lexeme()
}

/// The number of the decimal token `offset` places behind `at`.
fn decimal_at(tokens: &Vec<ArsenalToken>, at: usize, offset: usize) -> (r: Option<u64>)
    ensures
        r == spec_decimal(views(tokens@), at + offset),
{
    if peek(tokens, at, offset, TokenKind::Number) {
        next_number(text_at(tokens, at, offset))
    } else {
        None
    }
}

/// The number of the decimal or hexadecimal token `offset` places behind
/// `at`.
fn literal_at(tokens: &Vec<ArsenalToken>, at: usize, offset: usize) -> (r: Option<u64>)
    ensures
        r == spec_literal(views(tokens@), at + offset),
{
    if peek(tokens, at, offset, TokenKind::Number) {
        next_number(text_at(tokens, at, offset))
    } else if peek(tokens, at, offset, TokenKind::Hex) {
        hex_number(text_at(tokens, at, offset))
    } else {
        None
    }
}

/// The byte index that the decimal token `offset` places behind `at` gives.
fn index_at(tokens: &Vec<ArsenalToken>, at: usize, offset: usize) -> (r: Option<u32>)
    ensures
        r == spec_index(views(tokens@), at + offset),
{
    match decimal_at(tokens, at, offset) {
        Some(v) => if v <= 7 {
            Some(v as u32)
        } else {
            None
        },
        None => None,
    }
}

/// Reads the slice at `at`, if one stands there.
pub fn parse_slice(tokens: &Vec<ArsenalToken>, at: usize) -> (r: Result<
    (Slice, usize),
    AssembleError,
>)
    requires
        at <= tokens.len(),
    ensures
        slice_is(r, spec_slice(views(tokens@), at as int)),
        r matches Ok((slice, next)) ==> slice.wf() && at <= next <= tokens.len(),
{
    if !peek(tokens, at, 0, TokenKind::Selection) {
        return Ok((Slice { start: 0, stop: 7, shift: 0 }, at));
    }
    let start = match index_at(tokens, at, 1) {
        Some(start) => start,
        None => {
            return Err(AssembleError::UnexpectedToken);
        },
    };
    if !peek(tokens, at, 2, TokenKind::Range) {
        return Ok((Slice { start, stop: 7, shift: 0 }, at + 2));
    }
    let stop = match index_at(tokens, at, 3) {
        Some(stop) => stop,
        None => {
            return Err(AssembleError::UnexpectedToken);
        },
    };
    if start > stop {
        return Err(AssembleError::UnexpectedToken);
    }
    if !peek(tokens, at, 4, TokenKind::Shift) {
        return Ok((Slice { start, stop, shift: 0 }, at + 4));
    }
    match decimal_at(tokens, at, 5) {
        Some(shift) => Ok((Slice { start, stop, shift }, at + 6)),
        None => Err(AssembleError::UnexpectedToken),
    }
}

/// The bytes `start..=stop` of the little-endian encoding of `value`.
fn slice_bytes(value: u64, slice: Slice) -> (bytes: Vec<u8>)
    requires
        slice.wf(),
    ensures
        bytes@ == le_slice(value as int, slice.start as int, slice.stop as int),
{
    let mut bytes: Vec<u8> = Vec::new();
    let mut i: u32 = slice.start;
    while i <= slice.stop
        invariant
            slice.wf(),
            slice.start <= i <= slice.stop + 1,
            bytes@ =~= le_slice(value as int, slice.start as int, i - 1),
        decreases slice.stop + 1 - i,
    {
        bytes.push(byte_at(value, i as u8));
        i += 1;
    }
    bytes
}

/// Reads the argument at `at` and adds what it stands for to `state`.
pub fn parse_argument(tokens: &Vec<ArsenalToken>, at: usize, state: Assembler) -> (r: Result<
    (Assembler, usize),
    AssembleError,
>)
    requires
        at <= tokens.len(),
    ensures
        step_is(r, spec_emit_argument(views(tokens@), at as int, state@)),
        r matches Ok((after, next)) ==> at < next <= tokens.len() && (state@.wf() ==> after@.wf())
            && after@.count >= state@.count,
{
    if at >= tokens.len() {
        return Err(AssembleError::UnexpectedToken);
    }
    let kind = tokens[at].kind();
    let text = tokens[at].lexeme();
    match kind {
        TokenKind::Identifier => match SysCalls::from_name(text) {
            Some(call) => {
                let mut bytes: Vec<u8> = Vec::new();
                bytes.push(call.code());
                match state.emit_bytes(&bytes) {
                    Ok(after) => Ok((after, at + 1)),
                    Err(e) => Err(e),
                }
            },
            None => Err(AssembleError::UnknownSyscall),
        },
        TokenKind::Number | TokenKind::Hex => match literal_at(tokens, at, 0) {
            Some(v) => {
                let mut bytes: Vec<u8> = Vec::new();
                bytes.push((v % 256) as u8);
                match state.emit_bytes(&bytes) {
                    Ok(after) => Ok((after, at + 1)),
                    Err(e) => Err(e),
                }
            },
            None => Err(AssembleError::UnexpectedToken),
        },
        TokenKind::StringLiteral => match string_bytes(text) {
            Some(bytes) => {
                match state.emit_bytes(&bytes) {
                    Ok(after) => Ok((after, at + 1)),
                    Err(e) => Err(e),
                }
            },
            None => Err(AssembleError::UnexpectedToken),
        },
        TokenKind::IDGrab => {
            if !peek(tokens, at, 1, TokenKind::Identifier) {
                return Err(AssembleError::UnexpectedToken);
            }
            let name = text_at(tokens, at, 1);
            match parse_slice(tokens, at + 2) {
                Ok((slice, next)) => {
                    let entry = DataObject::LabelRequest(
                        String::from_str(name),
                        slice.start,
                        slice.stop,
                        slice.shift,
                    );
                    match state.emit(entry) {
                        Ok(after) => Ok((after, next)),
                        Err(e) => Err(e),
                    }
                },
                Err(e) => Err(e),
            }
        },
        TokenKind::SizeGrab => {
            if !peek(tokens, at, 1, TokenKind::Identifier) {
                return Err(AssembleError::UnexpectedToken);
            }
            let name = text_at(tokens, at, 1);
            match parse_slice(tokens, at + 2) {
                Ok((slice, next)) => {
                    let entry = DataObject::SizeRequest(
                        String::from_str(name),
                        slice.start,
                        slice.stop,
                    );
                    match state.emit(entry) {
                        Ok(after) => Ok((after, next)),
                        Err(e) => Err(e),
                    }
                },
                Err(e) => Err(e),
            }
        },
        TokenKind::NumericSlice => {
            let value = match decimal_at(tokens, at, 1) {
                Some(value) => value,
                None => {
                    return Err(AssembleError::UnexpectedToken);
                },
            };
            match parse_slice(tokens, at + 2) {
                Ok((slice, next)) => {
                    let bytes = slice_bytes(value, slice);
                    match state.emit_bytes(&bytes) {
                        Ok(after) => Ok((after, next)),
                        Err(e) => Err(e),
                    }
                },
                Err(e) => Err(e),
            }
        },
        _ => Err(AssembleError::UnexpectedToken),
    }
}

/// Reads the arguments from `at` up to the line end and adds what they
/// stand for to `state`; hands back the place of the line end.
pub fn parse_data(tokens: &Vec<ArsenalToken>, at: usize, state: Assembler) -> (r: Result<
    (Assembler, usize),
    AssembleError,
>)
    requires
        at <= tokens.len(),
    ensures
        step_is(r, spec_arguments(views(tokens@), at as int, state@, true)),
        r matches Ok((after, end)) ==> at <= end < tokens.len() && (state@.wf() ==> after@.wf())
            && after@.count >= state@.count,
{
    let ghost all = views(tokens@);
    let ghost start = state@;
    let mut current = state;
    let mut place: usize = at;
    let mut first = true;
    loop
        invariant
            all == views(tokens@),
            start == state@,
            at <= place <= tokens.len(),
            spec_arguments(all, place as int, current@, first) == spec_arguments(
                all,
                at as int,
                start,
                true,
            ),
            start.wf() ==> current@.wf(),
            current@.count >= start.count,
        decreases tokens.len() - place,
    {
        if place >= tokens.len() {
            return Err(AssembleError::UnexpectedToken);
        }
        if peek(tokens, place, 0, TokenKind::LineEnd) {
            return Ok((current, place));
        }
        let from = if !first && peek(tokens, place, 0, TokenKind::Separator) {
            place + 1
        } else {
            place
        };
        match parse_argument(tokens, from, current) {
            Ok((after, next)) => {
                current = after;
                place = next;
                first = false;
            },
            Err(e) => {
                return Err(e);
            },
        }
    }
}

/// The result of reading arguments, with the line end behind them passed.
fn pass_line_end(body: Result<(Assembler, usize), AssembleError>, Ghost(len): Ghost<int>) -> (r:
    Result<(Assembler, usize), AssembleError>)
    requires
        body matches Ok((_, end)) ==> end < len <= usize::MAX,
    ensures
        forall|expected: Result<(Assembly, int), AssembleError>|
            step_is(body, expected) ==> step_is(r, past_line_end(expected)),
        body is Ok <==> r is Ok,
        body matches Ok((state, end)) ==> r matches Ok((after, next)) && after == state && next
            == end + 1,
{
    match body {
        Ok((state, end)) => Ok((state, end + 1)),
        Err(e) => Err(e),
    }
}

/// Reads the capture whose `(` stands at `at`.
pub fn parse_capture(tokens: &Vec<ArsenalToken>, at: usize, state: Assembler) -> (r: Result<
    (Assembler, usize),
    AssembleError,
>)
    requires
        at < tokens.len(),
        state@.wf(),
    ensures
        step_is(r, spec_capture(views(tokens@), at as int, state@)),
        r matches Ok((after, next)) ==> at < next <= tokens.len() && after@.wf(),
{
    let before = state.bytes_count;
    if peek(tokens, at, 1, TokenKind::ClosedParen) {
        if !(peek(tokens, at, 2, TokenKind::Identifier) && peek(
            tokens,
            at,
            3,
            TokenKind::VarAssignment,
        )) {
            return Err(AssembleError::UnexpectedToken);
        }
        let named = state.label(text_at(tokens, at, 2));
        pass_line_end(parse_data(tokens, at + 4, named), Ghost(tokens.len() as int))
    } else if peek(tokens, at, 1, TokenKind::Identifier) {
        if !(peek(tokens, at, 2, TokenKind::ClosedParen) && peek(
            tokens,
            at,
            3,
            TokenKind::Identifier,
        ) && peek(tokens, at, 4, TokenKind::VarAssignment)) {
            return Err(AssembleError::UnexpectedToken);
        }
        let named = state.label(text_at(tokens, at, 3));
        match parse_data(tokens, at + 5, named) {
            Ok((body, end)) => {
                let size = body.bytes_count - before;
                Ok((body.size(text_at(tokens, at, 1), size), end + 1))
            },
            Err(e) => Err(e),
        }
    } else if peek(tokens, at, 1, TokenKind::Number) || peek(tokens, at, 1, TokenKind::Hex) {
        let width = match literal_at(tokens, at, 1) {
            Some(width) => width,
            None => {
                return Err(AssembleError::UnexpectedToken);
            },
        };
        if !(peek(tokens, at, 2, TokenKind::ClosedParen) && peek(
            tokens,
            at,
            3,
            TokenKind::Identifier,
        )) {
            return Err(AssembleError::UnexpectedToken);
        }
        let named = state.label(text_at(tokens, at, 3));
        let body = if peek(tokens, at, 4, TokenKind::VarAssignment) {
            parse_data(tokens, at + 5, named)
        } else if peek(tokens, at, 4, TokenKind::LineEnd) {
            Ok((named, at + 4))
        } else {
            Err(AssembleError::UnexpectedToken)
        };
        match body {
            Ok((filled, end)) => {
                let used = filled.bytes_count - before;
                if used > width {
                    return Err(AssembleError::CaptureOverflow);
                }
                match filled.emit_zeros(width - used) {
                    Ok(padded) => Ok((padded, end + 1)),
                    Err(e) => Err(e),
                }
            },
            Err(e) => Err(e),
        }
    } else {
        Err(AssembleError::UnexpectedToken)
    }
}

/// The two bytes of an opcode's number, low byte first.
fn opcode(op: Instructions) -> (bytes: Vec<u8>)
    ensures
        bytes@ == opcode_bytes(op),
{
    let code = op.code();
    let mut bytes: Vec<u8> = Vec::new();
    bytes.push((code % 256) as u8);
    bytes.push((code / 256) as u8);
    bytes
}

/// Reads the statement at `at`: a label declaration, a capture or an
/// instruction.
pub fn parse_statement(tokens: &Vec<ArsenalToken>, at: usize, state: Assembler) -> (r: Result<
    (Assembler, usize),
    AssembleError,
>)
    requires
        at < tokens.len(),
        state@.wf(),
    ensures
        step_is(r, spec_statement(views(tokens@), at as int, state@)),
        r matches Ok((after, next)) ==> at < next <= tokens.len() && after@.wf(),
{
    if peek(tokens, at, 0, TokenKind::Label) {
        if peek(tokens, at, 1, TokenKind::Identifier) && peek(tokens, at, 2, TokenKind::LineEnd) {
            Ok((state.label(text_at(tokens, at, 1)), at + 3))
        } else {
            Err(AssembleError::UnexpectedToken)
        }
    } else if peek(tokens, at, 0, TokenKind::OpenParen) {
        parse_capture(tokens, at, state)
    } else if peek(tokens, at, 0, TokenKind::Identifier) {
        match Instructions::from_name(text_at(tokens, at, 0)) {
            Some(op) => {
                let bytes = opcode(op);
                match state.emit_bytes(&bytes) {
                    Ok(started) => {
                        let from = if peek(tokens, at, 1, TokenKind::Selection) {
                            at + 2
                        } else {
                            at + 1
                        };
                        pass_line_end(
                            parse_data(tokens, from, started),
                            Ghost(tokens.len() as int),
                        )
                    },
                    Err(e) => Err(e),
                }
            },
            None => Err(AssembleError::UnknownInstruction),
        }
    } else {
        Err(AssembleError::UnexpectedToken)
    }
}

/// Reads all statements of `tokens` into a plan with its symbol tables.
pub fn parse_program(tokens: &Vec<ArsenalToken>) -> (r: Result<Assembler, AssembleError>)
    ensures
        state_is(r, spec_program(views(tokens@), 0, Assembly::empty())),
        r matches Ok(state) ==> state@.wf(),
{
    let ghost all = views(tokens@);
    let mut state = Assembler::new();
    let mut place: usize = 0;
    while place < tokens.len()
        invariant
            all == views(tokens@),
            place <= tokens.len(),
            state@.wf(),
            spec_program(all, place as int, state@) == spec_program(all, 0, Assembly::empty()),
        decreases tokens.len() - place,
    {
        if peek(tokens, place, 0, TokenKind::LineEnd) {
            place += 1;
        } else {
            match parse_statement(tokens, place, state) {
                Ok((after, next)) => {
                    state = after;
                    place = next;
                },
                Err(e) => {
                    return Err(e);
                },
            }
        }
    }
    Ok(state)
}

/// A decimal or hexadecimal argument emits one byte: its number modulo 256.
pub proof fn literal_is_truncated(tokens: Seq<TokenView>, at: int, value: u64)
    requires
        spec_literal(tokens, at) == Some(value),
    ensures
        spec_argument(tokens, at) == Ok::<(Seq<DataObjectView>, int), AssembleError>(
            (bytes_plan(seq![(value % 256) as u8]), at + 1),
        ),
{
}

/// A label reference without a slice asks for all eight bytes of the
/// label's address, nothing added, and resolves to the address in
/// little-endian order.
pub proof fn bare_label_reference_is_eight_bytes(
    tokens: Seq<TokenView>,
    at: int,
    labels: Map<Seq<char>, u64>,
    sizes: Map<Seq<char>, u64>,
)
    requires
        is_kind(tokens, at, TokenKind::IDGrab),
        is_kind(tokens, at + 1, TokenKind::Identifier),
        !is_kind(tokens, at + 2, TokenKind::Selection),
        labels.contains_key(tokens[at + 1].lexeme),
    ensures
        spec_argument(tokens, at) == Ok::<(Seq<DataObjectView>, int), AssembleError>(
            (seq![DataObjectView::LabelRequest(tokens[at + 1].lexeme, 0, 7, 0)], at + 2),
        ),
        resolve_entry(
            DataObjectView::LabelRequest(tokens[at + 1].lexeme, 0, 7, 0),
            labels,
            sizes,
        ) == Ok::<Seq<u8>, AssembleError>(
            le_bytes(labels[tokens[at + 1].lexeme] as int, 8),
        ),
        le_bytes(labels[tokens[at + 1].lexeme] as int, 8).len() == 8,
{
}

/// A numeric slice from byte 0 to byte 0 emits the least significant byte
/// of its number.
pub proof fn lowest_byte_of_a_number(tokens: Seq<TokenView>, at: int, value: u64)
    requires
        is_kind(tokens, at, TokenKind::NumericSlice),
        spec_decimal(tokens, at + 1) == Some(value),
        is_kind(tokens, at + 2, TokenKind::Selection),
        spec_index(tokens, at + 3) == Some(0u32),
        is_kind(tokens, at + 4, TokenKind::Range),
        spec_index(tokens, at + 5) == Some(0u32),
        !is_kind(tokens, at + 6, TokenKind::Shift),
    ensures
        spec_argument(tokens, at) == Ok::<(Seq<DataObjectView>, int), AssembleError>(
            (bytes_plan(seq![(value % 256) as u8]), at + 6),
        ),
{
    assert(le_slice(value as int, 0, 0) =~= seq![(value % 256) as u8]);
}

/// A capture of width 0 without arguments adds nothing to the plan and
/// records its name as a label at the current byte count.
pub proof fn empty_capture_records_the_label(tokens: Seq<TokenView>, at: int, state: Assembly)
    requires
        state.wf(),
        is_kind(tokens, at, TokenKind::OpenParen),
        spec_literal(tokens, at + 1) == Some(0u64),
        is_kind(tokens, at + 2, TokenKind::ClosedParen),
        is_kind(tokens, at + 3, TokenKind::Identifier),
        is_kind(tokens, at + 4, TokenKind::VarAssignment),
        is_kind(tokens, at + 5, TokenKind::LineEnd),
    ensures
        spec_statement(tokens, at, state) == Ok::<(Assembly, int), AssembleError>(
            (state.with_label(tokens[at + 3].lexeme), at + 6),
        ),
        state.with_label(tokens[at + 3].lexeme).plan == state.plan,
        state.with_label(tokens[at + 3].lexeme).count == state.count,
        state.with_label(tokens[at + 3].lexeme).labels[tokens[at + 3].lexeme] == state.count,
{
}

/// A well-formed plan that resolves has an image of as many bytes as the
/// plan stands for: each request gives the bytes of its slice, each plain
/// byte one.
pub proof fn resolved_length(
    plan: Seq<DataObjectView>,
    labels: Map<Seq<char>, u64>,
    sizes: Map<Seq<char>, u64>,
)
    requires
        plan_wf(plan),
        spec_resolve(plan, labels, sizes) is Ok,
    ensures
        spec_resolve(plan, labels, sizes)->Ok_0.len() == plan_bytes(plan),
        forall|i: int|
            0 <= i < plan.len() ==> (#[trigger] resolve_entry(plan[i], labels, sizes)) is Ok
                && resolve_entry(plan[i], labels, sizes)->Ok_0.len() == plan[i].size(),
    decreases plan.len(),
{
    if plan.len() > 0 {
        let front = plan.drop_last();
        assert forall|i: int| 0 <= i < front.len() implies (#[trigger] front[i]).wf() by {}
        resolved_length(front, labels, sizes);
        assert forall|i: int| 0 <= i < plan.len() implies (#[trigger] resolve_entry(
            plan[i],
            labels,
            sizes,
        )) is Ok && resolve_entry(plan[i], labels, sizes)->Ok_0.len() == plan[i].size() by {
            if i < front.len() {
                assert(front[i] == plan[i]);
            }
        }
    }
}

/// Every slice lies in the eight bytes of its value, and ends in the tokens.
pub proof fn slice_is_wf(tokens: Seq<TokenView>, at: int)
    requires
        0 <= at <= tokens.len(),
    ensures
        spec_slice(tokens, at) matches Ok((slice, next)) ==> slice.wf() && at <= next
            <= tokens.len(),
{
}

/// Every argument adds well-formed entries that stand for no fewer bytes
/// than there are entries, and ends behind its first token.
pub proof fn argument_is_wf(tokens: Seq<TokenView>, at: int)
    requires
        0 <= at <= tokens.len(),
    ensures
        spec_argument(tokens, at) matches Ok((entries, next)) ==> plan_wf(entries) && plan_bytes(
            entries,
        ) >= 0 && at < next <= tokens.len(),
{
    match spec_argument(tokens, at) {
        Ok((entries, next)) => {
            if is_kind(tokens, at, TokenKind::IDGrab) || is_kind(tokens, at, TokenKind::SizeGrab)
                || is_kind(tokens, at, TokenKind::NumericSlice) {
                slice_is_wf(tokens, at + 2);
            }
            match kind_at(tokens, at) {
                Some(TokenKind::StringLiteral) => {
                    plan_bytes_of_bytes(spec_string_bytes(tokens[at].lexeme)->0);
                },
                Some(TokenKind::NumericSlice) => {
                    let slice = spec_slice(tokens, at + 2)->Ok_0.0;
                    plan_bytes_of_bytes(
                        le_slice(
                            spec_decimal(tokens, at + 1)->0 as int,
                            slice.start as int,
                            slice.stop as int,
                        ),
                    );
                },
                Some(TokenKind::Identifier) | Some(TokenKind::Number) | Some(TokenKind::Hex) => {
                    plan_bytes_nonnegative(entries);
                },
                _ => {
                    plan_bytes_nonnegative(entries);
                },
            }
        },
        Err(_) => {},
    }
}

/// Arguments keep a well-formed state well-formed, do not lower its count
/// and leave its labels and sizes, and end at a line end.
pub proof fn arguments_keep_wf(tokens: Seq<TokenView>, at: int, state: Assembly, first: bool)
    requires
        state.wf(),
        0 <= at,
    ensures
        spec_arguments(tokens, at, state, first) matches Ok((after, end)) ==> after.wf()
            && after.count >= state.count && after.labels == state.labels && after.sizes
            == state.sizes && at <= end < tokens.len() && is_kind(tokens, end, TokenKind::LineEnd),
    decreases tokens.len() - at,
{
    if at < tokens.len() && !is_kind(tokens, at, TokenKind::LineEnd) {
        let from = if !first && is_kind(tokens, at, TokenKind::Separator) {
            at + 1
        } else {
            at
        };
        argument_is_wf(tokens, from);
        match spec_emit_argument(tokens, from, state) {
            Ok((emitted, next)) => {
                emit_keeps_wf(state, spec_argument(tokens, from)->Ok_0.0);
                if at < next <= tokens.len() {
                    arguments_keep_wf(tokens, next, emitted, false);
                }
            },
            Err(_) => {},
        }
    }
}

/// A statement keeps a well-formed state well-formed and ends behind its
/// first token.
pub proof fn statement_keeps_wf(tokens: Seq<TokenView>, at: int, state: Assembly)
    requires
        state.wf(),
        0 <= at < tokens.len(),
    ensures
        spec_statement(tokens, at, state) matches Ok((after, next)) ==> after.wf() && at < next
            <= tokens.len(),
{
    match kind_at(tokens, at) {
        Some(TokenKind::OpenParen) => {
            match kind_at(tokens, at + 1) {
                Some(TokenKind::ClosedParen) => {
                    arguments_keep_wf(
                        tokens,
                        at + 4,
                        state.with_label(tokens[at + 2].lexeme),
                        true,
                    );
                },
                Some(TokenKind::Identifier) => {
                    arguments_keep_wf(
                        tokens,
                        at + 5,
                        state.with_label(tokens[at + 3].lexeme),
                        true,
                    );
                },
                Some(TokenKind::Number) | Some(TokenKind::Hex) => {
                    let named = state.with_label(tokens[at + 3].lexeme);
                    arguments_keep_wf(tokens, at + 5, named, true);
                    match spec_capture(tokens, at, state) {
                        Ok(_) => {
                            let width = spec_literal(tokens, at + 1)->0;
                            let filled = if is_kind(tokens, at + 4, TokenKind::VarAssignment) {
                                spec_arguments(tokens, at + 5, named, true)->Ok_0.0
                            } else {
                                named
                            };
                            let fill = bytes_plan(zeros(width - (filled.count - state.count)));
                            plan_bytes_of_bytes(zeros(width - (filled.count - state.count)));
                            emit_keeps_wf(filled, fill);
                        },
                        Err(_) => {},
                    }
                },
                _ => {},
            }
        },
        Some(TokenKind::Identifier) => {
            match Instructions::spec_from_name(tokens[at].lexeme) {
                Some(op) => {
                    plan_bytes_of_bytes(opcode_bytes(op));
                    match state.emit(bytes_plan(opcode_bytes(op))) {
                        Ok(started) => {
                            emit_keeps_wf(state, bytes_plan(opcode_bytes(op)));
                            arguments_keep_wf(
                                tokens,
                                if is_kind(tokens, at + 1, TokenKind::Selection) {
                                    at + 2
                                } else {
                                    at + 1
                                },
                                started,
                                true,
                            );
                        },
                        Err(_) => {},
                    }
                },
                None => {},
            }
        },
        _ => {},
    }
}

/// The statements of any tokens keep a well-formed state well-formed: the
/// declared count stays the number of bytes that the plan stands for, and
/// every request's slice lies in its value.
pub proof fn program_keeps_wf(tokens: Seq<TokenView>, at: int, state: Assembly)
    requires
        state.wf(),
        0 <= at,
    ensures
        spec_program(tokens, at, state) matches Ok(after) ==> after.wf(),
    decreases tokens.len() - at,
{
    if at < tokens.len() {
        if is_kind(tokens, at, TokenKind::LineEnd) {
            program_keeps_wf(tokens, at + 1, state);
        } else {
            statement_keeps_wf(tokens, at, state);
            match spec_statement(tokens, at, state) {
                Ok((next_state, next)) => {
                    program_keeps_wf(tokens, next, next_state);
                },
                Err(_) => {},
            }
        }
    }
}

/// The image of any tokens has as many bytes as their statements declare.
pub proof fn image_has_the_declared_length(tokens: Seq<TokenView>)
    ensures
        spec_assemble(tokens) matches Ok(image) ==> spec_program(
            tokens,
            0,
            Assembly::empty(),
        ) matches Ok(state) && image.len() == state.count,
{
    program_keeps_wf(tokens, 0, Assembly::empty());
    match spec_program(tokens, 0, Assembly::empty()) {
        Ok(state) => {
            if spec_assemble(tokens) is Ok {
                resolved_length(state.plan, state.labels, state.sizes);
            }
        },
        Err(_) => {},
    }
}

/// Resolves the plan to the image: plain bytes as they are, each request
/// as the bytes of its slice of the value that its name has.
pub fn resolve(state: &Assembler) -> (r: Result<Vec<u8>, AssembleError>)
    requires
        plan_wf(state@.plan),
    ensures
        image_is(r, spec_resolve(state@.plan, state@.labels, state@.sizes)),
        r matches Ok(image) ==> image@.len() == plan_bytes(state@.plan),
{
    let ghost plan = state@.plan;
    let ghost labels = state@.labels;
    let ghost sizes = state@.sizes;
    let mut image: Vec<u8> = Vec::new();
    let mut i: usize = 0;
    while i < state.data.len()
        invariant
            i <= state.data.len(),
            plan == state@.plan,
            labels == state@.labels,
            sizes == state@.sizes,
            plan_wf(plan),
            spec_resolve(plan.take(i as int), labels, sizes) == Ok::<Seq<u8>, AssembleError>(
                image@,
            ),
        decreases state.data.len() - i,
    {
        let ghost front = plan.take(i as int);
        let ghost next = plan.take(i + 1);
        let ghost before = image@;
        proof {
            assert(next.drop_last() =~= front);
            assert(plan[i as int].wf());
        }
        let found = match &state.data[i] {
            DataObject::Byte(b) => {
                image.push(*b);
                assert(image@ =~= before + seq![*b]);
                None
            },
            DataObject::LabelRequest(name, start, stop, shift) => {
                match state.labels.get(name.as_str()) {
                    Some(address) => {
                        let value = (*address).wrapping_add(*shift);
                        let slice = Slice { start: *start, stop: *stop, shift: 0 };
                        let mut bytes = slice_bytes(value, slice);
                        image.append(&mut bytes);
                        None
                    },
                    None => Some(AssembleError::UndefinedLabel),
                }
            },
            DataObject::SizeRequest(name, start, stop) => {
                match state.sizes.get(name.as_str()) {
                    Some(value) => {
                        let slice = Slice { start: *start, stop: *stop, shift: 0 };
                        let mut bytes = slice_bytes(*value, slice);
                        image.append(&mut bytes);
                        None
                    },
                    None => Some(AssembleError::UndefinedSize),
                }
            },
        };
        match found {
            Some(e) => {
                proof {
                    unresolved_stays(plan, i + 1, labels, sizes);
                }
                return Err(e);
            },
            None => {},
        }
        i += 1;
    }
    proof {
        assert(plan.take(i as int) =~= plan);
        resolved_length(plan, labels, sizes);
    }
    Ok(image)
}

/// Where the first `n` entries of a plan do not resolve, the plan does not,
/// and for the same reason.
proof fn unresolved_stays(
    plan: Seq<DataObjectView>,
    n: int,
    labels: Map<Seq<char>, u64>,
    sizes: Map<Seq<char>, u64>,
)
    requires
        0 <= n <= plan.len(),
        spec_resolve(plan.take(n), labels, sizes) is Err,
    ensures
        spec_resolve(plan, labels, sizes) == spec_resolve(plan.take(n), labels, sizes),
    decreases plan.len() - n,
{
    if n < plan.len() {
        assert(plan.take(n + 1).drop_last() =~= plan.take(n));
        unresolved_stays(plan, n + 1, labels, sizes);
    } else {
        assert(plan.take(n) =~= plan);
    }
}

/// Assembles tokens to the image. An image has as many bytes as were
/// declared while its plan was built.
pub fn assemble_tokens(tokens: &Vec<ArsenalToken>) -> (r: Result<Vec<u8>, AssembleError>)
    ensures
        image_is(r, spec_assemble(views(tokens@))),
        r matches Ok(image) ==> spec_program(views(tokens@), 0, Assembly::empty()) matches Ok(
            state,
        ) && image@.len() == state.count,
{
    match parse_program(tokens) {
        Ok(state) => resolve(&state),
        Err(e) => Err(e),
    }
}

/// `String::from_utf8`: the text whose UTF-8 encoding `data` is, if `data`
/// is valid UTF-8.
#[verifier::external_body]
fn text_of(data: Vec<u8>) -> (r: Option<String>)
    ensures
        r is Some <==> valid_utf8(data@),
        r matches Some(text) ==> encode_utf8(text@) == data@,
{
    match String::from_utf8(data) {
        Ok(text) => Some(text),
        Err(_) => None,
    }
}

/// The number of bytes that the statements of a source declare, where the
/// source is UTF-8 and its statements follow the grammar.
pub open spec fn declared_bytes(data: Seq<u8>) -> Option<int> {
    if valid_utf8(data) {
        match spec_program(
            spec_tokenize::<ArsenalToken>(decode_utf8(data)),
            0,
            Assembly::empty(),
        ) {
            Ok(state) => Some(state.count),
            Err(_) => None,
        }
    } else {
        None
    }
}

/// Assembles a source to the image, or says why it has none. An image has
/// as many bytes as the source's statements declare.
pub fn parse(data: Vec<u8>) -> (r: Result<Vec<u8>, AssembleError>)
    ensures
        image_is(r, spec_parse(data@)),
        r matches Ok(image) ==> declared_bytes(data@) == Some(image@.len() as int),
{
    broadcast use vstd::utf8::encode_utf8_decode_utf8;

    match text_of(data) {
        Some(text) => {
            let tokens = tokenize::<ArsenalToken>(text.as_str());
            assemble_tokens(&tokens)
        },
        None => Err(AssembleError::InvalidEncoding),
    }
}

} // verus!
