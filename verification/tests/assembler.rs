use arsenal::assembler::{assemble_tokens, parse, AssembleError};
use arsenal::instructions::{Instructions, SysCalls, Width};
use arsenal::tokenizer::{tokenize, ArsenalToken, TokenKind};

fn assemble(text: &str) -> Result<Vec<u8>, AssembleError> {
    parse(text.as_bytes().to_vec())
}

fn opcode(op: Instructions) -> Vec<u8> {
    let code = op.code();
    vec![(code % 256) as u8, (code / 256) as u8]
}

#[test]
fn label_address() {
    let image = assemble("label here; LoadRegisterLong: 0, &here;").unwrap();
    let mut expected = opcode(Instructions::LoadRegister(Width::Long));
    expected.push(0);
    expected.extend_from_slice(&[0u8; 8]);
    assert_eq!(image, expected);
    assert_eq!(image.len(), 11);
}

#[test]
fn size_capture() {
    let image = assemble("(sz) blk = 0x01, 0x02, 0x03; LoadRegisterLong: 0, $sz;").unwrap();
    let mut expected = vec![1u8, 2, 3];
    expected.extend(opcode(Instructions::LoadRegister(Width::Long)));
    expected.push(0);
    expected.extend_from_slice(&[3, 0, 0, 0, 0, 0, 0, 0]);
    assert_eq!(image, expected);
}

#[test]
fn fixed_width_capture_padding() {
    let image = assemble("(5) buf = 0x41, 0x42;").unwrap();
    assert_eq!(image, vec![0x41, 0x42, 0, 0, 0]);
    let image = assemble("Halt; (5) buf = 0x41, 0x42; LoadRegisterLong: 0, &buf;").unwrap();
    assert_eq!(&image[2..7], &[0x41, 0x42, 0, 0, 0]);
    assert_eq!(&image[10..18], &[2, 0, 0, 0, 0, 0, 0, 0]);
}

#[test]
fn numeric_slice() {
    let image = assemble("LoadRegisterByte: 0, #256:1->1;").unwrap();
    let mut expected = opcode(Instructions::LoadRegister(Width::Byte));
    expected.extend_from_slice(&[0, 1]);
    assert_eq!(image, expected);
}

#[test]
fn string_emission_image() {
    let image = assemble("() msg = \"hi\"; LoadRegisterLong: 0, &msg; SysCall: PrintCString;").unwrap();
    let mut expected = vec![b'h', b'i'];
    expected.extend(opcode(Instructions::LoadRegister(Width::Long)));
    expected.push(0);
    expected.extend_from_slice(&[0u8; 8]);
    expected.extend(opcode(Instructions::SysCall));
    expected.push(SysCalls::PrintCString.code());
    assert_eq!(image, expected);
}

#[test]
fn tokens_of_a_statement() {
    let tokens: Vec<ArsenalToken> = tokenize("label here; // note\nHalt;");
    let kinds: Vec<TokenKind> = tokens.iter().map(|t| t.kind()).collect();
    assert_eq!(
        kinds,
        vec![
            TokenKind::Label,
            TokenKind::Identifier,
            TokenKind::LineEnd,
            TokenKind::Identifier,
            TokenKind::LineEnd
        ]
    );
    assert_eq!(tokens[1].lexeme(), "here");
    assert_eq!(assemble_tokens(&tokens), Ok(opcode(Instructions::Halt)));
}

#[test]
fn literal_arguments_are_truncated_to_a_byte() {
    assert_eq!(assemble("() a = 300;"), Ok(vec![44]));
    assert_eq!(assemble("() a = 256;"), Ok(vec![0]));
    assert_eq!(assemble("() a = 0x1ff;"), Ok(vec![0xff]));
    assert_eq!(assemble("() a = 0X100, 255;"), Ok(vec![0, 255]));
    assert_eq!(assemble("() a = 18446744073709551615;"), Ok(vec![255]));
}

#[test]
fn label_reference_without_slice_is_eight_bytes() {
    let image = assemble("NoOperation; label here; () x = &here;").unwrap();
    assert_eq!(image.len(), 10);
    assert_eq!(&image[2..], &[2, 0, 0, 0, 0, 0, 0, 0]);
}

#[test]
fn numeric_slice_of_the_lowest_byte() {
    assert_eq!(assemble("() x = #513:0->0;"), Ok(vec![1]));
    assert_eq!(assemble("() x = #513:1->1;"), Ok(vec![2]));
    assert_eq!(assemble("() x = #513;"), Ok(vec![1, 2, 0, 0, 0, 0, 0, 0]));
    assert_eq!(assemble("() x = #72623859790382856:6;"), Ok(vec![2, 1]));
    assert_eq!(
        assemble("() x = #72623859790382856:2->4;"),
        Ok(vec![6, 5, 4])
    );
}

#[test]
fn empty_fixed_capture_records_the_label() {
    let image = assemble("Halt; (0) mark =; () x = &mark:0->0;").unwrap();
    assert_eq!(image, vec![0, 0, 2]);
    let image = assemble("Halt; (0) mark; () x = &mark:0->0;").unwrap();
    assert_eq!(image, vec![0, 0, 2]);
    assert_eq!(assemble("(3) gap;"), Ok(vec![0, 0, 0]));
    assert_eq!(assemble("(0x3) gap = 7;"), Ok(vec![7, 0, 0]));
}

#[test]
fn label_slices_and_shift() {
    let text = "(300) pad; label far; () x = &far:0->1, &far:1->1, &far:0->1=>2, &far:7;";
    let image = assemble(text).unwrap();
    assert_eq!(&image[300..], &[44, 1, 1, 46, 1, 0]);
}

#[test]
fn later_label_is_resolved_and_redeclaration_wins() {
    let image = assemble("() x = &end:0->0; Halt; label end;").unwrap();
    assert_eq!(image, vec![3, 0, 0]);
    let image = assemble("label a; Halt; label a; () x = &a:0->0;").unwrap();
    assert_eq!(image, vec![0, 0, 2]);
    let text = "(n) a = 1, 2; (n) b = 3; label a; () x = $n:0->0, &a:0->0, &b:0->0, &c:0->0; label c;";
    assert_eq!(assemble(text), Ok(vec![1, 2, 3, 1, 3, 2, 7]));
}

#[test]
fn size_of_a_capture_counts_requests() {
    let image = assemble("(n) blk = &blk, \"ab\", 1; () x = $n:0->0, $n:0->1;").unwrap();
    assert_eq!(image.len(), 11 + 3);
    assert_eq!(&image[11..], &[11, 11, 0]);
}

#[test]
fn arguments_without_separators_and_colon() {
    let with = assemble("LoadRegisterByte: 1, 2;").unwrap();
    assert_eq!(assemble("LoadRegisterByte 1 2;"), Ok(with.clone()));
    assert_eq!(assemble(";;LoadRegisterByte: 1 2;;"), Ok(with));
}

#[test]
fn opcode_is_two_bytes_low_first() {
    for code in 0..arsenal::instructions::INSTRUCTION_COUNT {
        let op = Instructions::from_code(code).unwrap();
        let text = format!("{};", op.name());
        assert_eq!(assemble(&text), Ok(vec![code as u8, 0]));
    }
}

#[test]
fn syscall_names_are_one_byte() {
    for code in 0..arsenal::instructions::SYSCALL_COUNT {
        let call = SysCalls::from_code(code).unwrap();
        let text = format!("SysCall: {};", call.name());
        let image = assemble(&text).unwrap();
        assert_eq!(image, vec![Instructions::SysCall.code() as u8, 0, code]);
    }
}

#[test]
fn string_escapes() {
    assert_eq!(assemble("() s = \"a\\\"b\";"), Ok(vec![b'a', b'"', b'b']));
    assert_eq!(assemble("() s = \"a\\nb\";"), Ok(vec![b'a', b'n', b'b']));
    assert_eq!(assemble("() s = \"\";"), Ok(vec![]));
    assert_eq!(assemble("() s = \"h\u{e9}\";"), Ok(vec![b'h', 0xc3, 0xa9]));
}

#[test]
fn comments_are_left_out() {
    let image = assemble("Halt; // stop here\n/* and\n nothing */ NoOperation;").unwrap();
    assert_eq!(image, vec![0, 0, 1, 0]);
    let image = assemble("Halt; //\nNoOperation; //\n//\nHalt;").unwrap();
    assert_eq!(image, vec![0, 0, 1, 0, 0, 0]);
}

#[test]
fn invalid_encoding_is_rejected() {
    assert_eq!(parse(vec![0xff, 0xfe]), Err(AssembleError::InvalidEncoding));
    assert_eq!(parse(vec![b'H', 0x80]), Err(AssembleError::InvalidEncoding));
}

#[test]
fn unexpected_tokens_are_rejected() {
    assert_eq!(assemble("label;"), Err(AssembleError::UnexpectedToken));
    assert_eq!(assemble("label a b;"), Err(AssembleError::UnexpectedToken));
    assert_eq!(assemble("Halt"), Err(AssembleError::UnexpectedToken));
    assert_eq!(assemble(", Halt;"), Err(AssembleError::UnexpectedToken));
    assert_eq!(assemble("() x 1;"), Err(AssembleError::UnexpectedToken));
    assert_eq!(assemble("(n) x 1;"), Err(AssembleError::UnexpectedToken));
    assert_eq!(assemble("() x = 1,;"), Err(AssembleError::UnexpectedToken));
    assert_eq!(assemble("() x = ,1;"), Err(AssembleError::UnexpectedToken));
    assert_eq!(assemble("() x = 1,,2;"), Err(AssembleError::UnexpectedToken));
    assert_eq!(assemble("() x = &;"), Err(AssembleError::UnexpectedToken));
    assert_eq!(assemble("() x = #a;"), Err(AssembleError::UnexpectedToken));
    assert_eq!(assemble("() x = .name;"), Err(AssembleError::UnexpectedToken));
    assert_eq!(assemble("() x = 18446744073709551616;"), Err(AssembleError::UnexpectedToken));
    assert_eq!(assemble("() x = 0x10000000000000000;"), Err(AssembleError::UnexpectedToken));
}

#[test]
fn slices_outside_the_value_are_rejected() {
    assert_eq!(assemble("label a; () x = &a:8;"), Err(AssembleError::UnexpectedToken));
    assert_eq!(assemble("label a; () x = &a:0->8;"), Err(AssembleError::UnexpectedToken));
    assert_eq!(assemble("label a; () x = &a:5->3;"), Err(AssembleError::UnexpectedToken));
    assert_eq!(assemble("label a; () x = &a:;"), Err(AssembleError::UnexpectedToken));
    assert_eq!(assemble("label a; () x = &a:1->;"), Err(AssembleError::UnexpectedToken));
    assert_eq!(assemble("label a; () x = &a:1->2=>;"), Err(AssembleError::UnexpectedToken));
    assert_eq!(assemble("label a; () x = &a:7->7;"), Ok(vec![0]));
}

#[test]
fn unknown_names_are_rejected() {
    assert_eq!(assemble("Stop;"), Err(AssembleError::UnknownInstruction));
    assert_eq!(assemble("LoadRegister: 0, 1;"), Err(AssembleError::UnknownInstruction));
    assert_eq!(assemble("SysCall: Shout;"), Err(AssembleError::UnknownSyscall));
    assert_eq!(assemble("() x = &nowhere;"), Err(AssembleError::UndefinedLabel));
    assert_eq!(assemble("() x = $nothing;"), Err(AssembleError::UndefinedSize));
    assert_eq!(assemble("(n) a = 1; () x = &n;"), Err(AssembleError::UndefinedLabel));
    assert_eq!(assemble("label a; () x = $a;"), Err(AssembleError::UndefinedSize));
}

#[test]
fn capture_overflow_is_rejected() {
    assert_eq!(assemble("(1) x = 1, 2;"), Err(AssembleError::CaptureOverflow));
    assert_eq!(assemble("(0) x = \"a\";"), Err(AssembleError::CaptureOverflow));
    assert_eq!(assemble("(7) x = &x;"), Err(AssembleError::CaptureOverflow));
    assert_eq!(assemble("(8) x = &x;"), Ok(vec![0; 8]));
}

#[test]
fn image_too_large_is_rejected() {
    assert_eq!(
        assemble("Halt; (18446744073709551615) x;"),
        Err(AssembleError::ImageTooLarge)
    );
}

#[test]
fn first_error_in_the_text_wins() {
    assert_eq!(assemble("() x = &nowhere; Stop;"), Err(AssembleError::UnknownInstruction));
    assert_eq!(assemble("() x = $s, &l;"), Err(AssembleError::UndefinedSize));
    assert_eq!(assemble("Stop; label;"), Err(AssembleError::UnknownInstruction));
}

#[test]
fn hand_made_tokens_are_checked() {
    let tokens = vec![
        ArsenalToken::OpenParen("(".to_string()),
        ArsenalToken::ClosedParen(")".to_string()),
        ArsenalToken::Identifier("x".to_string()),
        ArsenalToken::VarAssignment("=".to_string()),
        ArsenalToken::Number("007".to_string()),
        ArsenalToken::StringLiteral("\"ok\"".to_string()),
        ArsenalToken::LineEnd(";".to_string()),
    ];
    assert_eq!(assemble_tokens(&tokens), Ok(vec![7, b'o', b'k']));
    let tokens = vec![
        ArsenalToken::Identifier("Halt".to_string()),
        ArsenalToken::Number("1x".to_string()),
        ArsenalToken::LineEnd(";".to_string()),
    ];
    assert_eq!(assemble_tokens(&tokens), Err(AssembleError::UnexpectedToken));
    let tokens = vec![
        ArsenalToken::Identifier("Halt".to_string()),
        ArsenalToken::StringLiteral("open".to_string()),
        ArsenalToken::LineEnd(";".to_string()),
    ];
    assert_eq!(assemble_tokens(&tokens), Err(AssembleError::UnexpectedToken));
}
