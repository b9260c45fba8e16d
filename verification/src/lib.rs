//! A small virtual machine toolchain: an assembler that turns source text
//! into a byte image, and the machine that runs such an image.
//!
//! The way from text to a running program:
//!
//! - `tokenizer` reads the text into tokens and drops whitespace and
//!   comments;
//! - `assembler` reads the tokens into a data plan with its labels and
//!   sizes, and resolves the plan to the image; `literals` reads its
//!   numbers and strings;
//! - `linker` wraps an image as an object and encodes objects as bytes;
//! - `virtual_machine` holds the image with the dispatch tables and the
//!   stack primitives, `virtual_thread` the registers of a thread and the
//!   step that executes one instruction;
//! - `instructions` names and numbers the opcodes and system calls for
//!   both, and `endian` reads and writes little-endian values at any byte
//!   offset.
//!
//! The library neither prints nor opens files nor starts threads. A thread
//! steps until it halts, faults or needs something done; it then hands its
//! host an `Action`, and the host hands results back with `deliver` and
//! `complete_load`. `application`, `dll_handler` and `debug` hold what a
//! command-line host needs besides: its arguments, the layout of a foreign
//! call, and a sample program.
//!
//! Every function's contract is proved, down to three calls whose contracts
//! are taken on trust: the regex crate's search in `tokenizer`,
//! `String::from_utf8` in `assembler`, and `Vec::shrink_to` in
//! `virtual_machine`.

pub mod application;
pub mod assembler;
pub mod debug;
pub mod dll_handler;
pub mod endian;
pub mod instructions;
pub mod linker;
pub mod literals;
pub mod tokenizer;
pub mod virtual_machine;
pub mod virtual_thread;
