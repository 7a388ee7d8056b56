use emoji_bf::BfMachine;
use emoji_bf::Error;

#[test]
fn test_empty() {
    let mut bf = BfMachine::new("");
    let mut writer: Vec<u8> = Vec::new();
    assert!(bf.run(&[], &mut writer).is_ok());
}

#[test]
fn test_rw() {
    let mut bf = BfMachine::new(",.");
    let mut writer: Vec<u8> = Vec::new();
    assert!(bf.run(&[55], &mut writer).is_ok());
    assert_eq!(writer.len(), 1);
    assert_eq!(writer[0], 55);
}

#[test]
fn test_bracket1() {
    let mut bf = BfMachine::new("[");
    let mut writer: Vec<u8> = Vec::new();
    assert!(bf.run(&[], &mut writer).is_err());
}

#[test]
fn test_bracket2() {
    let mut bf = BfMachine::new("[[]]");
    let mut writer: Vec<u8> = Vec::new();
    assert!(bf.run(&[], &mut writer).is_ok());
}

#[test]
fn test_bracket3() {
    let mut bf = BfMachine::new("++]");
    let mut writer: Vec<u8> = Vec::new();
    assert!(bf.run(&[], &mut writer).is_err());
}

#[test]
fn test_bracket4() {
    let mut bf = BfMachine::new("[[");
    let mut writer: Vec<u8> = Vec::new();
    assert!(bf.run(&[], &mut writer).is_err());
}

#[test]
fn test_hw() {
    let mut bf = BfMachine::new("++++++++[>++++[>++>+++>+++>+<<<<-]>+>+>->>+[<]<-]>>.>---.+++++++..+++.>>.<-.<.+++.------.--------.>>+.>++.");
    let mut writer: Vec<u8> = Vec::new();
    assert!(bf.run(&[], &mut writer).is_ok());
    let s = String::from_utf8(writer).unwrap();
    assert_eq!(s, "Hello World!\n");
}

#[test]
fn test_hw_hands() {
    let mut bf = BfMachine::new("👆👆👆👆👆👆👆👆🤜👉👆👆👆👆🤜👉👆👆👉👆👆👆👉👆👆👆👉👆👈👈👈👈👇🤛👉👆👉👆👉👇👉👉👆🤜👈🤛👈👇🤛👉👉🤌👉👇👇👇🤌👆👆👆👆👆👆👆🤌🤌👆👆👆🤌👉👉🤌👈👇🤌👈🤌👆👆👆🤌👇👇👇👇👇👇🤌👇👇👇👇👇👇👇👇🤌👉👉👆🤌👉👆👆🤌");
    let mut writer: Vec<u8> = Vec::new();
    assert!(bf.run(&[], &mut writer).is_ok());
    let s = String::from_utf8(writer).unwrap();
    assert_eq!(s, "Hello World!\n");
}

#[test]
fn test_hw_emoji() {
    let mut bf = BfMachine::new("💔💚❤️🧡💗🤎💔🤍🤰😋💕🖤🤎🫀💃😇💚❤😀💕🤎🧡😂💓💘💝😉💝😰😡😣🤢👒👴😜💓😋💖🥰⛑😃😃❤💃🙁♂😠👒♂😌🥰🐐😉🎩👒🎓🦋🧡🖤💓💛🤍💟💞🕊🐀💞💚💕🐵🙃😜🙈😖👑🦄😔🐨🖤🤎🧡🐹⛑🧢👑🪖🧢🧢🐹👑⛑🪖🎩🎓🪖⛑🎩🐂😝😝❤🐮🥰🤎💔🐼");
    let mut writer: Vec<u8> = Vec::new();
    assert!(bf.run(&[], &mut writer).is_ok());
    let s = String::from_utf8(writer).unwrap();
    assert_eq!(s, "Hello World!\n");
}

#[test]
fn test_empty_no_output() {
    let mut bf = BfMachine::new("");
    let mut writer: Vec<u8> = Vec::new();
    assert!(bf.run(&[], &mut writer).is_ok());
    assert!(writer.is_empty());
}

#[test]
fn test_never_entered_loop_no_output() {
    // The tape starts at zero, so the nested loop is skipped whole.
    let mut bf = BfMachine::new("[[]]");
    let mut writer: Vec<u8> = Vec::new();
    assert!(bf.run(&[], &mut writer).is_ok());
    assert!(writer.is_empty());
}

#[test]
fn test_unmatched_brackets_error_kind() {
    let mut bf = BfMachine::new("[");
    let mut writer: Vec<u8> = Vec::new();
    assert_eq!(bf.run(&[], &mut writer), Err(Error::MismatchedBracket));
    let mut bf = BfMachine::new("+]");
    let mut writer: Vec<u8> = Vec::new();
    assert_eq!(bf.run(&[], &mut writer), Err(Error::MismatchedBracket));
}

#[test]
fn test_underflow_at_origin() {
    // Moving left at cell 0 underflows whatever the cell holds.
    let mut bf = BfMachine::new("<");
    let mut writer: Vec<u8> = Vec::new();
    assert_eq!(bf.run(&[], &mut writer), Err(Error::Underflow));
    let mut bf = BfMachine::new("+++<");
    let mut writer: Vec<u8> = Vec::new();
    assert_eq!(bf.run(&[], &mut writer), Err(Error::Underflow));
}

#[test]
fn test_input_exhausted_is_io_error() {
    let mut bf = BfMachine::new(",");
    let mut writer: Vec<u8> = Vec::new();
    assert_eq!(bf.run(&[], &mut writer), Err(Error::IoError));
}

#[test]
fn test_cell_wraps_modulo_256() {
    // 0 - 1 = 255
    let mut bf = BfMachine::new("-.");
    let mut writer: Vec<u8> = Vec::new();
    assert!(bf.run(&[], &mut writer).is_ok());
    assert_eq!(writer, vec![255]);
    // 255 + 1 = 0
    let src = format!("{}.", "+".repeat(256));
    let mut bf = BfMachine::new(&src);
    let mut writer: Vec<u8> = Vec::new();
    assert!(bf.run(&[], &mut writer).is_ok());
    assert_eq!(writer, vec![0]);
}

#[test]
fn test_multi_iteration_loop() {
    // Reads 3, then prints and decrements until zero: the loop body must
    // re-enter without skipping or doubling an instruction.
    let mut bf = BfMachine::new(",[.-]");
    let mut writer: Vec<u8> = Vec::new();
    assert!(bf.run(&[3], &mut writer).is_ok());
    assert_eq!(writer, vec![3, 2, 1]);
}

#[test]
fn test_fresh_cell_reads_zero() {
    // Addressing a cell past the end of the tape grows it with zeros.
    let mut bf = BfMachine::new(">.");
    let mut writer: Vec<u8> = Vec::new();
    assert!(bf.run(&[], &mut writer).is_ok());
    assert_eq!(writer, vec![0]);
}

#[test]
fn test_comments_are_dropped() {
    let mut bf = BfMachine::new("read one byte , and print it . thanks");
    let mut writer: Vec<u8> = Vec::new();
    assert!(bf.run(&[7], &mut writer).is_ok());
    assert_eq!(writer, vec![7]);
    assert_eq!(bf.get_program_string_classic(), ",.");
}

#[test]
fn test_mixed_dialects_in_one_source() {
    // A heart increments, a herbivore prints: dialects mix freely.
    let mut bf = BfMachine::new("❤🐮");
    let mut writer: Vec<u8> = Vec::new();
    assert!(bf.run(&[], &mut writer).is_ok());
    assert_eq!(writer, vec![1]);
}

#[test]
fn test_render_classic_round_trip() {
    let src = "+[->,.<]";
    let bf = BfMachine::new(src);
    let rendered = bf.get_program_string_classic();
    assert_eq!(rendered, src);
    let again = BfMachine::new(&rendered);
    assert_eq!(again.get_program_string_classic(), src);
}

#[test]
fn test_render_hands_round_trip() {
    let src = "+[->,.<]";
    let bf = BfMachine::new(src);
    let hands = bf.get_program_string_emoji_hands();
    let again = BfMachine::new(&hands);
    assert_eq!(again.get_program_string_classic(), src);
}

#[test]
fn test_render_random_round_trip_by_kind() {
    // The randomized rendering may differ between calls, but it always
    // decodes back to the very same program.
    let src = "+[->,.<]";
    let bf = BfMachine::new(src);
    for _ in 0..16 {
        let random = bf.get_program_string_emoji_random();
        let again = BfMachine::new(&random);
        assert_eq!(again.get_program_string_classic(), src);
    }
}

#[test]
fn test_hello_world_survives_transliteration() {
    let src = "++++++++[>++++[>++>+++>+++>+<<<<-]>+>+>->>+[<]<-]>>.>---.+++++++..+++.>>.<-.<.+++.------.--------.>>+.>++.";
    let bf = BfMachine::new(src);
    let hands = bf.get_program_string_emoji_hands();
    let random = bf.get_program_string_emoji_random();
    for text in [hands, random] {
        let mut again = BfMachine::new(&text);
        let mut writer: Vec<u8> = Vec::new();
        assert!(again.run(&[], &mut writer).is_ok());
        assert_eq!(String::from_utf8(writer).unwrap(), "Hello World!\n");
    }
}

#[test]
fn test_step_by_step_drive() {
    let mut bf = BfMachine::new("+.");
    let input: Vec<u8> = vec![];
    let mut in_pos: usize = 0;
    let mut out: Vec<u8> = Vec::new();
    assert!(bf.tape_ok());
    assert_eq!(bf.step(&input, &mut in_pos, &mut out), Ok(true));
    assert!(bf.tape_ok());
    assert_eq!(bf.step(&input, &mut in_pos, &mut out), Ok(false));
    assert_eq!(out, vec![1]);
    // the program has finished: further steps report completion
    assert_eq!(bf.step(&input, &mut in_pos, &mut out), Ok(false));
    assert_eq!(out, vec![1]);
}
