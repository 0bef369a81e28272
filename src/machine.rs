//! The calculator's state and what each operator does to it.
//!
//! The machine decides everything about an operator but the values it
//! computes: it checks the stack depth, picks the operands in order, and
//! either carries the operator out or asks for the new value with a
//! `Request`. The caller computes that value in the value type's own
//! arithmetic and hands it back as a `Reply`, which `complete` applies.
//!
//! Error policy: an operator that fails leaves the stack as it found it.
//! This holds for too few operands and for a zero divisor alike, so a
//! failed `/`, `%` or `~` keeps both operands on the stack.
use vstd::prelude::*;
use crate::error::{ArithmeticErr, Errors, ParserErr, StackErr, diagnostic};
use crate::stack::{Stack, top_first};
use crate::symbol::{BinaryOp, Command, Symbol, UnaryOp, classify, symbol_of};

verus! {

/// Work on values that the machine leaves to the caller.
#[derive(Debug, Clone, Copy, PartialEq)]
#[allow(inconsistent_fields)]
pub enum Request<V> {
    /// The result of `op` on (second from the top, top).
    Binary { op: BinaryOp, left: V, right: V },
    /// The result of `op` on the top value.
    Unary { op: UnaryOp, operand: V },
    /// The stack depth as a value.
    Depth { depth: usize },
}

impl<V> Request<V> {
    /// How many values the request consumes from the top of the stack.
    pub open spec fn arity(self) -> nat {
        match self {
            Request::Binary { .. } => 2,
            Request::Unary { .. } => 1,
            Request::Depth { .. } => 0,
        }
    }

    pub fn operands(&self) -> (r: usize)
        ensures
            r == self.arity(),
    {
        match self {
            Request::Binary { .. } => 2,
            Request::Unary { .. } => 1,
            Request::Depth { .. } => 0,
        }
    }
}

/// The caller's answer to a `Request`.
#[derive(Debug, Clone, Copy, PartialEq)]
pub enum Reply<V> {
    /// One value replaces the operands.
    Value(V),
    /// Two values replace the operands, the first pushed first
    /// (quotient, then remainder).
    Pair(V, V),
    /// The right operand was zero.
    DivideByZero,
}

/// What the caller has to do after a step of the machine.
#[derive(Debug, PartialEq)]
pub enum Action<V> {
    /// Nothing: the step is done.
    Nothing,
    /// Print these values, one per line, in this order.
    Print(Vec<V>),
    /// Report this error on the diagnostic output.
    Report(Errors),
    /// Compute this and hand the answer to `complete`.
    Compute(Request<V>),
    /// Stop reading input.
    Halt,
}

/// The mathematical model of an `Action`.
pub enum Act<V> {
    Nothing,
    Print(Seq<V>),
    Report(Errors),
    Compute(Request<V>),
    Halt,
}

impl<V> View for Action<V> {
    type V = Act<V>;

    open spec fn view(&self) -> Act<V> {
        match self {
            Action::Nothing => Act::Nothing,
            Action::Print(vs) => Act::Print(vs@),
            Action::Report(e) => Act::Report(*e),
            Action::Compute(r) => Act::Compute(*r),
            Action::Halt => Act::Halt,
        }
    }
}

/// The stack left alone and an underflow reported.
pub open spec fn underflow<V>(s: Seq<V>) -> (Seq<V>, Act<V>) {
    (s, Act::Report(Errors::S(StackErr::FewElements)))
}

/// What `cmd` does to the stack `s` (bottom first), and what it asks of the
/// caller.
pub open spec fn command_step<V>(s: Seq<V>, cmd: Command) -> (Seq<V>, Act<V>) {
    let n = s.len();
    match cmd {
        Command::Binary(op) => if n < 2 {
            underflow(s)
        } else {
            (s, Act::Compute(Request::Binary { op, left: s[n - 2], right: s[n - 1] }))
        },
        Command::Unary(op) => if n < 1 {
            underflow(s)
        } else {
            (s, Act::Compute(Request::Unary { op, operand: s[n - 1] }))
        },
        Command::Dup => if n < 1 {
            underflow(s)
        } else {
            (s.push(s[n - 1]), Act::Nothing)
        },
        Command::Swap => if n < 2 {
            underflow(s)
        } else {
            (s.subrange(0, n - 2).push(s[n - 1]).push(s[n - 2]), Act::Nothing)
        },
        Command::Drop => if n < 1 {
            underflow(s)
        } else {
            (s.drop_last(), Act::Nothing)
        },
        Command::Clear => (Seq::empty(), Act::Nothing),
        Command::Depth => (s, Act::Compute(Request::Depth { depth: n as usize })),
        Command::PrintTop => if n < 1 {
            underflow(s)
        } else {
            (s, Act::Print(seq![s[n - 1]]))
        },
        Command::PopPrint => if n < 1 {
            underflow(s)
        } else {
            (s.drop_last(), Act::Print(seq![s[n - 1]]))
        },
        Command::PrintAll => (s, Act::Print(top_first(s))),
        Command::Quit => (s, Act::Halt),
    }
}

/// What the byte `c`, met outside a literal, does to the stack `s`.
pub open spec fn symbol_step<V>(s: Seq<V>, c: u8) -> (Seq<V>, Act<V>) {
    match symbol_of(c) {
        Symbol::Blank => (s, Act::Nothing),
        Symbol::Command(cmd) => command_step(s, cmd),
        Symbol::Unimplemented => (s, Act::Report(Errors::Unimplemented { c: c as char })),
        Symbol::Unknown => (s, Act::Report(Errors::P(ParserErr::BadCharacter { c: c as char }))),
    }
}

/// Committing a literal whose reading as a value is `parsed` (`None` when
/// it does not read as a number).
pub open spec fn literal_step<V>(s: Seq<V>, parsed: Option<V>) -> (Seq<V>, Act<V>) {
    match parsed {
        Some(v) => (s.push(v), Act::Nothing),
        None => (s, Act::Report(Errors::P(ParserErr::FloatParse))),
    }
}

/// Applying the answer `reply` to the request `req` on the stack `s`.
pub open spec fn reply_step<V>(s: Seq<V>, req: Request<V>, reply: Reply<V>) -> (Seq<V>, Act<V>) {
    let k = req.arity();
    match reply {
        Reply::DivideByZero => (s, Act::Report(Errors::A(ArithmeticErr::DivideByZero))),
        Reply::Value(v) => if s.len() < k {
            underflow(s)
        } else {
            (s.subrange(0, s.len() - k).push(v), Act::Nothing)
        },
        Reply::Pair(a, b) => if s.len() < k {
            underflow(s)
        } else {
            (s.subrange(0, s.len() - k).push(a).push(b), Act::Nothing)
        },
    }
}

/// The calculator's state: the program name that prefixes its diagnostics,
/// and the value stack.
pub struct ProgState<V> {
    prog_name: String,
    stack: Stack<V>,
}

impl<V> View for ProgState<V> {
    type V = Seq<V>;

    /// The stack, bottom first.
    closed spec fn view(&self) -> Seq<V> {
        self.stack@
    }
}

impl<V> ProgState<V> {
    /// The program name.
    pub closed spec fn name(&self) -> Seq<char> {
        self.prog_name@
    }
}

impl<V: Copy> ProgState<V> {
    /// A calculator with an empty stack, reporting as the program `s`.
    pub fn new(s: &str) -> (r: ProgState<V>)
        ensures
            r@ == Seq::<V>::empty(),
            r.name() == s@,
    {
        ProgState { prog_name: String::from_str(s), stack: Stack::new() }
    }

    pub fn prog_name(&self) -> (r: &str)
        ensures
            r@ == self.name(),
    {
        self.prog_name.as_str()
    }

    pub fn stack(&self) -> (r: &Stack<V>)
        ensures
            r@ == self@,
    {
        &self.stack
    }

    /// The diagnostic line for `e`, prefixed with the program name.
    pub fn print_error(&self, e: Errors) -> (r: String)
        ensures
            r@ == diagnostic(self.name(), e),
    {
        e.message(self.prog_name.as_str())
    }

    /// Carries out the byte `c`, met outside a literal.
    pub fn dispatch(&mut self, c: u8) -> (r: Action<V>)
        ensures
            (final(self)@, r@) == symbol_step(old(self)@, c),
            final(self).name() == old(self).name(),
    {
        match classify(c) {
            Symbol::Blank => Action::Nothing,
            Symbol::Command(cmd) => self.command(cmd),
            Symbol::Unimplemented => Action::Report(Errors::Unimplemented { c: c as char }),
            Symbol::Unknown => Action::Report(Errors::P(ParserErr::BadCharacter { c: c as char })),
        }
    }

    /// Carries out one operator.
    pub fn command(&mut self, cmd: Command) -> (r: Action<V>)
        ensures
            (final(self)@, r@) == command_step(old(self)@, cmd),
            final(self).name() == old(self).name(),
    {
        let few = Action::Report(Errors::S(StackErr::FewElements));
        match cmd {
            Command::Binary(op) => match self.stack.peek_two() {
                Ok((left, right)) => Action::Compute(Request::Binary { op, left, right }),
                Err(_) => few,
            },
            Command::Unary(op) => match self.stack.peek() {
                Ok(operand) => Action::Compute(Request::Unary { op, operand }),
                Err(_) => few,
            },
            Command::Dup => match self.stack.peek() {
                Ok(top) => {
                    self.stack.push(top);
                    Action::Nothing
                },
                Err(_) => few,
            },
            Command::Swap => match self.stack.pop_two() {
                Ok((second, top)) => {
                    self.stack.push(top);
                    self.stack.push(second);
                    assert(self@ =~= command_step(old(self)@, cmd).0);
                    Action::Nothing
                },
                Err(_) => few,
            },
            Command::Drop => match self.stack.pop_one() {
                Ok(_) => Action::Nothing,
                Err(_) => few,
            },
            Command::Clear => {
                self.stack.clear();
                Action::Nothing
            },
            Command::Depth => Action::Compute(Request::Depth { depth: self.stack.len() }),
            Command::PrintTop => match self.stack.peek() {
                Ok(top) => {
                    let shown = vec![top];
                    assert(shown@ =~= seq![top]);
                    Action::Print(shown)
                },
                Err(_) => few,
            },
            Command::PopPrint => match self.stack.pop_one() {
                Ok(top) => {
                    let shown = vec![top];
                    assert(shown@ =~= seq![top]);
                    Action::Print(shown)
                },
                Err(_) => few,
            },
            Command::PrintAll => Action::Print(self.stack.top_first()),
            Command::Quit => Action::Halt,
        }
    }

    /// Commits a literal: pushes its value, or reports that it does not read
    /// as a number.
    pub fn commit_literal(&mut self, parsed: Option<V>) -> (r: Action<V>)
        ensures
            (final(self)@, r@) == literal_step(old(self)@, parsed),
            final(self).name() == old(self).name(),
    {
        match parsed {
            Some(v) => {
                self.stack.push(v);
                Action::Nothing
            },
            None => Action::Report(Errors::P(ParserErr::FloatParse)),
        }
    }

    /// Applies the caller's answer to a request: the request's operands are
    /// replaced by the answer, or, on a zero divisor, the stack is left as it
    /// is and the error reported.
    pub fn complete(&mut self, req: Request<V>, reply: Reply<V>) -> (r: Action<V>)
        ensures
            (final(self)@, r@) == reply_step(old(self)@, req, reply),
            final(self).name() == old(self).name(),
    {
        let k = req.operands();
        match reply {
            Reply::DivideByZero => Action::Report(Errors::A(ArithmeticErr::DivideByZero)),
            Reply::Value(v) => {
                if self.stack.len() < k {
                    return Action::Report(Errors::S(StackErr::FewElements));
                }
                self.discard(k);
                self.stack.push(v);
                Action::Nothing
            },
            Reply::Pair(a, b) => {
                if self.stack.len() < k {
                    return Action::Report(Errors::S(StackErr::FewElements));
                }
                self.discard(k);
                self.stack.push(a);
                self.stack.push(b);
                Action::Nothing
            },
        }
    }

    /// Removes the `k` topmost values.
    fn discard(&mut self, k: usize)
        requires
            k <= old(self)@.len(),
        ensures
            final(self)@ == old(self)@.subrange(0, old(self)@.len() - k),
            final(self).name() == old(self).name(),
    {
        let mut i: usize = 0;
        while i < k
            invariant
                i <= k,
                k <= old(self)@.len(),
                self@ == old(self)@.subrange(0, old(self)@.len() - i),
                self.name() == old(self).name(),
            decreases k - i,
        {
            let _ = self.stack.pop_one();
            i = i + 1;
        }
    }
}

} // verus!
