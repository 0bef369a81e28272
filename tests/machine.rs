use rpn_calc::error::{ArithmeticErr, Errors, ParserErr, StackErr};
use rpn_calc::lexer::{tokenize_line, Token};
use rpn_calc::machine::{Action, ProgState, Reply, Request};
use rpn_calc::symbol::{classify, BinaryOp, Command, Symbol, UnaryOp};

fn parse(b: &[u8]) -> Option<f64> {
    std::str::from_utf8(b).ok()?.parse::<f64>().ok()
}

/// Runs a line through the machine and collects every action but `Nothing`.
fn feed(state: &mut ProgState<f64>, line: &str) -> Vec<Action<f64>> {
    let mut acts = Vec::new();
    for tok in tokenize_line(line.as_bytes()) {
        let a = match tok {
            Token::Literal(b) => state.commit_literal(parse(&b)),
            Token::Symbol(c) => state.dispatch(c),
        };
        if a != Action::Nothing {
            acts.push(a);
        }
    }
    acts
}

fn stack(state: &ProgState<f64>) -> Vec<f64> {
    let mut v = state.stack().top_first();
    v.reverse();
    v
}

fn few() -> Action<f64> {
    Action::Report(Errors::S(StackErr::FewElements))
}

fn binary(op: BinaryOp, left: f64, right: f64) -> Request<f64> {
    Request::Binary { op, left, right }
}

#[test]
fn binary_arithmetic_takes_earlier_value_as_left() {
    for (line, op, result) in [
        ("3 4 +", BinaryOp::Add, 7.0),
        ("3 4 -", BinaryOp::Sub, -1.0),
        ("3 4 *", BinaryOp::Mul, 12.0),
    ] {
        let mut st = ProgState::new("dc");
        let acts = feed(&mut st, line);
        let req = binary(op, 3.0, 4.0);
        assert_eq!(acts, vec![Action::Compute(req)]);
        assert_eq!(stack(&st), vec![3.0, 4.0]);
        assert_eq!(st.complete(req, Reply::Value(result)), Action::Nothing);
        assert_eq!(feed(&mut st, "p"), vec![Action::Print(vec![result])]);
    }
}

#[test]
fn divide_by_zero_keeps_operands() {
    for (line, op) in [("5 0 /", BinaryOp::Div), ("5 0 %", BinaryOp::Rem), ("5 0 ~", BinaryOp::QuotRem)] {
        let mut st = ProgState::new("dc");
        let acts = feed(&mut st, line);
        let req = binary(op, 5.0, 0.0);
        assert_eq!(acts, vec![Action::Compute(req)]);
        assert_eq!(
            st.complete(req, Reply::DivideByZero),
            Action::Report(Errors::A(ArithmeticErr::DivideByZero))
        );
        assert_eq!(stack(&st), vec![5.0, 0.0]);
    }
}

#[test]
fn quotient_and_remainder_push_two_values() {
    let mut st = ProgState::new("dc");
    feed(&mut st, "1 7 2");
    let acts = feed(&mut st, "~");
    let req = binary(BinaryOp::QuotRem, 7.0, 2.0);
    assert_eq!(acts, vec![Action::Compute(req)]);
    assert_eq!(st.complete(req, Reply::Pair(3.5, 1.0)), Action::Nothing);
    assert_eq!(stack(&st), vec![1.0, 3.5, 1.0]);
}

#[test]
fn square_root_scenario() {
    for (n, root) in [(4.0, 2.0), (9.0, 3.0)] {
        let mut st = ProgState::new("dc");
        let acts = feed(&mut st, &format!("{n} v"));
        let req = Request::Unary { op: UnaryOp::Sqrt, operand: n };
        assert_eq!(acts, vec![Action::Compute(req)]);
        assert_eq!(st.complete(req, Reply::Value(f64::sqrt(n))), Action::Nothing);
        assert_eq!(feed(&mut st, "p"), vec![Action::Print(vec![root])]);
    }
}

#[test]
fn less_than_compares_top_against_second() {
    let mut st = ProgState::new("dc");
    assert_eq!(feed(&mut st, "3 4 ("), vec![Action::Compute(binary(BinaryOp::TopLess, 3.0, 4.0))]);
    let mut st = ProgState::new("dc");
    assert_eq!(feed(&mut st, "4 3 ("), vec![Action::Compute(binary(BinaryOp::TopLess, 4.0, 3.0))]);
    let req = binary(BinaryOp::TopLess, 4.0, 3.0);
    assert_eq!(st.complete(req, Reply::Value(1.0)), Action::Nothing);
    assert_eq!(stack(&st), vec![1.0]);
}

#[test]
fn duplicate_then_print_all() {
    let mut st = ProgState::new("dc");
    assert_eq!(feed(&mut st, "5 d f"), vec![Action::Print(vec![5.0, 5.0])]);
}

#[test]
fn print_all_is_top_first() {
    let mut st = ProgState::new("dc");
    assert_eq!(feed(&mut st, "1 2 3 f"), vec![Action::Print(vec![3.0, 2.0, 1.0])]);
    let mut empty = ProgState::<f64>::new("dc");
    assert_eq!(feed(&mut empty, "f"), vec![Action::Print(vec![])]);
}

#[test]
fn depth_scenario() {
    let mut st = ProgState::new("dc");
    let acts = feed(&mut st, "1 2 3 z");
    let req = Request::Depth { depth: 3 };
    assert_eq!(acts, vec![Action::Compute(req)]);
    assert_eq!(st.complete(req, Reply::Value(3.0)), Action::Nothing);
    assert_eq!(feed(&mut st, "p"), vec![Action::Print(vec![3.0])]);
    assert_eq!(stack(&st), vec![1.0, 2.0, 3.0, 3.0]);
}

#[test]
fn push_then_discard_round_trip() {
    let mut st = ProgState::new("dc");
    assert_eq!(feed(&mut st, "1 2 3 R R R"), vec![]);
    assert_eq!(st.stack().len(), 0);
    assert_eq!(feed(&mut st, "R"), vec![few()]);
}

#[test]
fn clear_twice() {
    let mut st = ProgState::new("dc");
    feed(&mut st, "1 2 3 c");
    assert_eq!(st.stack().len(), 0);
    assert_eq!(feed(&mut st, "c"), vec![]);
    assert_eq!(st.stack().len(), 0);
}

#[test]
fn unknown_byte_is_bad_character() {
    let mut st = ProgState::new("dc");
    let acts = feed(&mut st, "7 & A");
    assert_eq!(
        acts,
        vec![
            Action::Report(Errors::P(ParserErr::BadCharacter { c: '&' })),
            Action::Report(Errors::P(ParserErr::BadCharacter { c: 'A' })),
        ]
    );
    assert_eq!(stack(&st), vec![7.0]);
}

#[test]
fn recognised_dc_codes_are_unimplemented() {
    let mut st = ProgState::new("dc");
    let acts = feed(&mut st, "7 @ s");
    assert_eq!(
        acts,
        vec![Action::Report(Errors::Unimplemented { c: '@' }), Action::Report(Errors::Unimplemented { c: 's' })]
    );
    assert_eq!(stack(&st), vec![7.0]);
}

#[test]
fn malformed_literal_reports_float_parse() {
    let mut st = ProgState::new("dc");
    let acts = feed(&mut st, "1.2.3");
    assert_eq!(acts, vec![Action::Report(Errors::P(ParserErr::FloatParse))]);
    assert_eq!(st.stack().len(), 0);
    assert_eq!(feed(&mut st, "8 p"), vec![Action::Print(vec![8.0])]);
}

#[test]
fn failed_literal_does_not_leak_into_next() {
    let mut st = ProgState::new("dc");
    let acts = feed(&mut st, "1.2.3 5 f");
    assert_eq!(
        acts,
        vec![Action::Report(Errors::P(ParserErr::FloatParse)), Action::Print(vec![5.0])]
    );
}

#[test]
fn underflow_leaves_stack() {
    let mut st = ProgState::new("dc");
    for op in ["+", "/", "~", "(", "G", "r"] {
        assert_eq!(feed(&mut st, &format!("1 {op}")), vec![few()]);
        assert_eq!(stack(&st), vec![1.0]);
        feed(&mut st, "c");
    }
    for op in ["v", "b", "_", "$", "N", "d", "R", "p", "n"] {
        assert_eq!(feed(&mut st, op), vec![few()]);
        assert_eq!(st.stack().len(), 0);
    }
}

#[test]
fn swap_exchanges_top_two() {
    let mut st = ProgState::new("dc");
    assert_eq!(feed(&mut st, "1 2 3 r"), vec![]);
    assert_eq!(stack(&st), vec![1.0, 3.0, 2.0]);
}

#[test]
fn print_top_keeps_and_pop_print_removes() {
    let mut st = ProgState::new("dc");
    assert_eq!(feed(&mut st, "6 p"), vec![Action::Print(vec![6.0])]);
    assert_eq!(stack(&st), vec![6.0]);
    assert_eq!(feed(&mut st, "n"), vec![Action::Print(vec![6.0])]);
    assert_eq!(st.stack().len(), 0);
}

#[test]
fn unary_operators_ask_for_top_value() {
    for (c, op) in [('v', UnaryOp::Sqrt), ('b', UnaryOp::Abs), ('_', UnaryOp::Neg), ('$', UnaryOp::Trunc), ('N', UnaryOp::Not)] {
        let mut st = ProgState::new("dc");
        let req = Request::Unary { op, operand: 2.5 };
        assert_eq!(feed(&mut st, &format!("1 2.5 {c}")), vec![Action::Compute(req)]);
        assert_eq!(st.complete(req, Reply::Value(-7.0)), Action::Nothing);
        assert_eq!(stack(&st), vec![1.0, -7.0]);
    }
}

#[test]
fn quit_halts() {
    let mut st = ProgState::<f64>::new("dc");
    assert_eq!(feed(&mut st, "q"), vec![Action::Halt]);
}

#[test]
fn operator_table() {
    assert_eq!(classify(b'+'), Symbol::Command(Command::Binary(BinaryOp::Add)));
    assert_eq!(classify(b'^'), Symbol::Command(Command::Binary(BinaryOp::Pow)));
    assert_eq!(classify(b'}'), Symbol::Command(Command::Binary(BinaryOp::TopGreaterEq)));
    assert_eq!(classify(b'm'), Symbol::Command(Command::Binary(BinaryOp::Or)));
    assert_eq!(classify(b'$'), Symbol::Command(Command::Unary(UnaryOp::Trunc)));
    assert_eq!(classify(b'z'), Symbol::Command(Command::Depth));
    assert_eq!(classify(b'q'), Symbol::Command(Command::Quit));
    assert_eq!(classify(b'\t'), Symbol::Blank);
    assert_eq!(classify(b'X'), Symbol::Unimplemented);
    assert_eq!(classify(b'"'), Symbol::Unimplemented);
    assert_eq!(classify(b'k'), Symbol::Unknown);
    assert_eq!(classify(200), Symbol::Unknown);
}

#[test]
fn diagnostics_carry_program_name() {
    let st = ProgState::<f64>::new("dc");
    assert_eq!(st.prog_name(), "dc");
    assert_eq!(
        st.print_error(Errors::A(ArithmeticErr::DivideByZero)),
        "dc: Arithmetic error: divide by zero"
    );
    assert_eq!(
        st.print_error(Errors::P(ParserErr::FloatParse)),
        "dc: Parser error: cannot parse floating point number"
    );
    assert_eq!(
        st.print_error(Errors::P(ParserErr::BadCharacter { c: '&' })),
        "dc: Parser error: bad character '&'"
    );
    assert_eq!(
        st.print_error(Errors::S(StackErr::FewElements)),
        "dc: Runtime error: stack has too few elements"
    );
    assert_eq!(st.print_error(Errors::Unimplemented { c: 'Z' }), "dc: 'Z' feature is not implemented");
}
