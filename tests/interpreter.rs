use brainfuck::bracket::bracket_match;
use brainfuck::error::Error;
use brainfuck::machine::{interpret, Machine, TAPE_SIZE};

fn run_to_end(program: &str, input: &[u8]) -> Result<Vec<u8>, Error> {
    interpret(program, input, 1_000_000_000).expect("the program ends within the budget")
}

#[test]
fn hello_world() {
    let out = run_to_end("++++++++[>++++[>++>+++>+++>+<<<<-]>+>+>->>+[<]<-]>>.>---.+++++++..+++.>>.<-.<.+++.------.--------.>>+.>++.", &[]);
    assert_eq!(out, Ok(b"Hello World!\n".to_vec()));
}

#[test]
fn big_enough() {
    let out = run_to_end("++++[>++++++<-]>[>+++++>+++++++<<-]>>++++<[[>[[>>+<<-]<]>>>-]>-[>+>+<<-]>]+++++[>+++++++<<++>-]>.<<.", &[]);
    assert_eq!(out, Ok(b"#\n".to_vec()));
}

#[test]
fn several_obscure() {
    let out = run_to_end(
        "[]++++++++++[>>+>+>++++++[<<+<+++>>>-]<<<<-]\"A*$\";?@![#>>+<<]>[>>]<<<<[>++<[-]]>.>.",
        &[],
    );
    assert_eq!(out, Ok(b"H\n".to_vec()));
}

#[test]
fn unmatched_lhs() {
    let out = run_to_end("+++++[>+++++++>++<<-]>.>.[", &[]);
    assert_eq!(out, Err(Error::UnmatchedOpenBracket));
}

#[test]
fn unmatched_rhs() {
    let out = run_to_end("+++++[>+++++++>++<<-]>.>.][", &[]);
    assert_eq!(out, Err(Error::UnmatchedCloseBracket));
}

#[test]
fn io_two_characters() {
    let program = ">,>+++++++++,>+++++++++++[<++++++<++++++<+>>>-]<<.>.<<-.>.>.<<.";
    assert_eq!(run_to_end(program, &[b'\n', 255]), Ok(b"LA\nLA\n".to_vec()));
    assert_eq!(run_to_end(program, &[b'\n', 0]), Ok(b"LB\nLB\n".to_vec()));
}

#[test]
fn input_exhausted_fails() {
    let program = ">,>+++++++++,>+++++++++++[<++++++<++++++<+>>>-]<<.>.<<-.>.>.<<.";
    assert_eq!(run_to_end(program, &[b'\n']), Err(Error::InputFailure));
    assert_eq!(run_to_end(",", &[]), Err(Error::InputFailure));
}

#[test]
fn input_is_stored_in_the_cell() {
    assert_eq!(run_to_end(",+.,.", &[b'a', b'z']), Ok(b"bz".to_vec()));
}

#[test]
fn comment_only_program_is_silent() {
    assert_eq!(run_to_end("", &[]), Ok(vec![]));
    assert_eq!(run_to_end("hello world! #$%", &[1, 2, 3]), Ok(vec![]));
}

#[test]
fn increment_then_decrement_round_trip() {
    assert_eq!(run_to_end("+-.", &[]), Ok(vec![0]));
    assert_eq!(run_to_end("-+.", &[]), Ok(vec![0]));
    assert_eq!(run_to_end(",+-.", &[255]), Ok(vec![255]));
    assert_eq!(run_to_end(",+-.", &[77]), Ok(vec![77]));
}

#[test]
fn cells_wrap() {
    assert_eq!(run_to_end("-.", &[]), Ok(vec![255]));
    assert_eq!(run_to_end(",+.", &[255]), Ok(vec![0]));
}

#[test]
fn tape_edge() {
    let mut at_end = ">".repeat(TAPE_SIZE);
    at_end.push('+');
    assert_eq!(
        run_to_end(&at_end, &[]),
        Err(Error::CellIndexOutOfRange(30000, 30000))
    );
    let mut at_end = ">".repeat(TAPE_SIZE);
    at_end.push('.');
    assert_eq!(
        run_to_end(&at_end, &[]),
        Err(Error::CellIndexOutOfRange(30000, 30000))
    );
    let mut at_end = ">".repeat(TAPE_SIZE);
    at_end.push('-');
    assert_eq!(
        run_to_end(&at_end, &[]),
        Err(Error::CellIndexOutOfRange(30000, 30000))
    );
    let mut last = ">".repeat(TAPE_SIZE - 1);
    last.push_str("+-+.");
    assert_eq!(run_to_end(&last, &[]), Ok(vec![1]));
}

#[test]
fn pointer_is_checked_only_on_access() {
    let mut there_and_back = ">".repeat(TAPE_SIZE + 5);
    there_and_back.push_str(&"<".repeat(TAPE_SIZE + 5));
    there_and_back.push_str("+.");
    assert_eq!(run_to_end(&there_and_back, &[]), Ok(vec![1]));
    assert_eq!(run_to_end("<>+.", &[]), Ok(vec![1]));
}

#[test]
fn left_of_first_cell_fails() {
    assert_eq!(run_to_end("<+", &[]), Err(Error::CellIndexOutOfRange(-1, 30000)));
    assert_eq!(run_to_end("<<.", &[]), Err(Error::CellIndexOutOfRange(-2, 30000)));
}

#[test]
fn single_brackets() {
    assert_eq!(run_to_end("[", &[]), Err(Error::UnmatchedOpenBracket));
    assert_eq!(run_to_end("+]", &[]), Err(Error::UnmatchedCloseBracket));
    assert_eq!(run_to_end("]", &[]), Ok(vec![]));
}

#[test]
fn skipped_loop_lands_after_its_close() {
    assert_eq!(run_to_end("[+[.]+.]+.", &[]), Ok(vec![1]));
}

#[test]
fn nested_loops_golden_output() {
    assert_eq!(run_to_end("++[>+++[>++<-]<-]>>.", &[]), Ok(vec![12]));
    assert_eq!(run_to_end("+++[>++[-]<-]>.<.", &[]), Ok(vec![0, 0]));
}

#[test]
fn unchanging_loop_keeps_running() {
    let mut machine = Machine::new("+[.]");
    for _ in 0..1000 {
        assert!(!machine.is_halted());
        assert_eq!(machine.step(None), Ok(()));
    }
    assert!(!machine.is_halted());
}

#[test]
fn error_leaves_machine_unchanged() {
    let mut machine = Machine::new("+]");
    assert_eq!(machine.step(None), Ok(()));
    assert_eq!(machine.step(None), Err(Error::UnmatchedCloseBracket));
    assert_eq!(machine.step(None), Err(Error::UnmatchedCloseBracket));
    assert!(!machine.is_halted());
}

#[test]
fn awaits_input_only_before_a_read() {
    let mut machine = Machine::new("+,");
    assert!(!machine.awaits_input());
    assert_eq!(machine.step(None), Ok(()));
    assert!(machine.awaits_input());
    assert_eq!(machine.step(Some(9)), Ok(()));
    assert!(machine.is_halted());
    assert!(!machine.awaits_input());
}

#[test]
fn bracket_match_finds_the_close() {
    assert_eq!(bracket_match(0, b"[[]]"), Ok(3));
    assert_eq!(bracket_match(1, b"[[]]"), Ok(2));
    assert_eq!(bracket_match(0, b"[a]b"), Ok(2));
    assert_eq!(bracket_match(0, b"[[]"), Err(Error::UnmatchedOpenBracket));
    assert_eq!(bracket_match(0, b"["), Err(Error::UnmatchedOpenBracket));
    assert_eq!(bracket_match(2, b"[][[][]]"), Ok(7));
}

#[test]
fn budget_runs_out_in_an_endless_loop() {
    assert_eq!(interpret("+[.]", &[], 1000), None);
    assert_eq!(interpret("+[]", &[], 5000), None);
}

#[test]
fn budget_counts_instructions() {
    assert_eq!(interpret("+++.", &[], 3), None);
    assert_eq!(interpret("+++.", &[], 4), Some(Ok(vec![3])));
    assert_eq!(interpret("", &[], 0), Some(Ok(vec![])));
}

#[test]
fn stepping_matches_interpret() {
    let program = "++[>+++[>++<-]<-]>>.";
    let mut machine = Machine::new(program);
    while !machine.is_halted() {
        assert_eq!(machine.step(None), Ok(()));
    }
    assert_eq!(machine.finish(), Ok(vec![12]));
    assert_eq!(interpret(program, &[], 1000), Some(Ok(vec![12])));
}

#[test]
fn descriptions() {
    assert_eq!(
        Error::CellIndexOutOfRange(30000, 30000).description(),
        "data pointer at index `30000` moved outside of cells with size 30000"
    );
    assert_eq!(
        Error::CellIndexOutOfRange(-1, 30000).description(),
        "data pointer at index `-1` moved outside of cells with size 30000"
    );
    assert_eq!(
        Error::CellIndexOutOfRange(0, 7).description(),
        "data pointer at index `0` moved outside of cells with size 7"
    );
    assert_eq!(
        Error::UnmatchedOpenBracket.description(),
        "no `[` in character range"
    );
    assert_eq!(
        Error::UnmatchedCloseBracket.description(),
        "no `]` in character range"
    );
    assert_eq!(Error::InputFailure.description(), "failed to read input");
}

#[test]
fn unmatched_brackets_are_named_in_the_description() {
    let open = run_to_end("+++++[>+++++++>++<<-]>.>.[", &[]).unwrap_err();
    assert!(open.description().contains('['));
    let close = run_to_end("+++++[>+++++++>++<<-]>.>.][", &[]).unwrap_err();
    assert!(close.description().contains(']'));
}

#[test]
fn io_two_characters_wrap() {
    let program = ">,>+++++++++,>+++++++++++[<++++++<++++++<+>>>-]<<.>.<<-.>.>.<<.";
    assert_eq!(
        interpret(program, &[200, 190, 7], 300),
        Some(Ok(vec![10, 0, 10, 10, 0, 10]))
    );
}
