//! The error taxonomy and the diagnostic text for each kind.
use vstd::prelude::*;

verus! {

/// Failures of arithmetic on values.
#[derive(Debug, Clone, Copy, PartialEq, Eq, Structural)]
pub enum ArithmeticErr {
    DivideByZero,
}

/// Failures while reading the input line.
#[derive(Debug, Clone, Copy, PartialEq, Eq, Structural)]
pub enum ParserErr {
    /// A byte that is neither part of a literal, whitespace, nor an operator.
    BadCharacter { c: char },
    /// A literal that does not read as a number.
    FloatParse,
}

/// Failures of the value stack.
#[derive(Debug, Clone, Copy, PartialEq, Eq, Structural)]
pub enum StackErr {
    /// An operator needs more operands than the stack holds.
    FewElements,
}

/// Every error the calculator reports. None of them is fatal.
#[derive(Debug, Clone, Copy, PartialEq, Eq, Structural)]
pub enum Errors {
    A(ArithmeticErr),
    P(ParserErr),
    S(StackErr),
    /// An operator code of the dc family that this calculator recognises but
    /// does not carry out.
    Unimplemented { c: char },
}

/// The text of the diagnostic for `e`, without the program name.
pub open spec fn error_text(e: Errors) -> Seq<char> {
    match e {
        Errors::A(ArithmeticErr::DivideByZero) => "Arithmetic error: divide by zero"@,
        Errors::P(ParserErr::FloatParse) => "Parser error: cannot parse floating point number"@,
        Errors::P(ParserErr::BadCharacter { c }) => "Parser error: bad character '"@ + seq![c]
            + "'"@,
        Errors::S(StackErr::FewElements) => "Runtime error: stack has too few elements"@,
        Errors::Unimplemented { c } => "'"@ + seq![c] + "' feature is not implemented"@,
    }
}

/// The full diagnostic line for `e` reported by the program called `prog`.
pub open spec fn diagnostic(prog: Seq<char>, e: Errors) -> Seq<char> {
    prog + ": "@ + error_text(e)
}

/// Relies on `String::push`: appends the one character to the string.
#[verifier::external_body]
fn push_char(s: &mut String, c: char)
    ensures
        final(s)@ == old(s)@.push(c),
{
    s.push(c)
}

impl Errors {
    /// The diagnostic line for this error, prefixed with the program name.
    pub fn message(&self, prog: &str) -> (r: String)
        ensures
            r@ == diagnostic(prog@, *self),
    {
        let mut s = String::from_str(prog);
        s.append(": ");
        match *self {
            Errors::A(ArithmeticErr::DivideByZero) => {
                s.append("Arithmetic error: divide by zero");
            },
            Errors::P(ParserErr::FloatParse) => {
                s.append("Parser error: cannot parse floating point number");
            },
            Errors::P(ParserErr::BadCharacter { c }) => {
                s.append("Parser error: bad character '");
                push_char(&mut s, c);
                s.append("'");
            },
            Errors::S(StackErr::FewElements) => {
                s.append("Runtime error: stack has too few elements");
            },
            Errors::Unimplemented { c } => {
                s.append("'");
                push_char(&mut s, c);
                s.append("' feature is not implemented");
            },
        }
        s
    }
}

} // verus!
