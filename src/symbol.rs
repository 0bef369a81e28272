//! The operator table: what each byte outside a literal stands for.
use vstd::prelude::*;

verus! {

/// Operators that take the two topmost values. The value pushed earlier
/// (second from the top) is the left operand, the top value the right one.
#[derive(Debug, Clone, Copy, PartialEq, Eq, Structural)]
pub enum BinaryOp {
    /// `+`: left + right.
    Add,
    /// `-`: left - right.
    Sub,
    /// `*`: left * right.
    Mul,
    /// `/`: left / right; fails when right is zero.
    Div,
    /// `%`: remainder of left / right; fails when right is zero.
    Rem,
    /// `^`: left raised to the power right.
    Pow,
    /// `~`: quotient and remainder of left / right, quotient pushed first;
    /// fails when right is zero.
    QuotRem,
    /// `(`: 1 when top < second, else 0.
    TopLess,
    /// `)`: 1 when top > second, else 0.
    TopGreater,
    /// `{`: 1 when top <= second, else 0.
    TopLessEq,
    /// `}`: 1 when top >= second, else 0.
    TopGreaterEq,
    /// `M`: 1 when both are nonzero, else 0.
    And,
    /// `m`: 1 when either is nonzero, else 0.
    Or,
    /// `G`: 1 when the two are equal, else 0.
    Equal,
}

/// Operators that take the topmost value.
#[derive(Debug, Clone, Copy, PartialEq, Eq, Structural)]
pub enum UnaryOp {
    /// `v`: square root.
    Sqrt,
    /// `b`: absolute value; a zero is kept as it is.
    Abs,
    /// `_`: negation.
    Neg,
    /// `$`: truncation toward zero.
    Trunc,
    /// `N`: 1 when the value is zero, else 0.
    Not,
}

/// The operators this calculator carries out.
#[derive(Debug, Clone, Copy, PartialEq, Eq, Structural)]
pub enum Command {
    Binary(BinaryOp),
    Unary(UnaryOp),
    /// `d`: push a copy of the top value.
    Dup,
    /// `r`: exchange the two topmost values.
    Swap,
    /// `R`: discard the top value.
    Drop,
    /// `c`: empty the stack.
    Clear,
    /// `z`: push the current depth of the stack.
    Depth,
    /// `p`: print the top value and keep it.
    PrintTop,
    /// `n`: print the top value and remove it.
    PopPrint,
    /// `f`: print every value, top first.
    PrintAll,
    /// `q`: stop the calculator.
    Quit,
}

/// What a byte outside a literal stands for.
#[derive(Debug, Clone, Copy, PartialEq, Eq, Structural)]
pub enum Symbol {
    /// Whitespace: only separates.
    Blank,
    Command(Command),
    /// A dc operator code (registers, macros, strings) that is recognised
    /// but not carried out.
    Unimplemented,
    /// Any other byte.
    Unknown,
}

/// The operator table.
pub open spec fn symbol_of(c: u8) -> Symbol {
    match c as char {
        ' ' | '\t' | '\r' | '\n' => Symbol::Blank,
        '+' => Symbol::Command(Command::Binary(BinaryOp::Add)),
        '-' => Symbol::Command(Command::Binary(BinaryOp::Sub)),
        '*' => Symbol::Command(Command::Binary(BinaryOp::Mul)),
        '/' => Symbol::Command(Command::Binary(BinaryOp::Div)),
        '%' => Symbol::Command(Command::Binary(BinaryOp::Rem)),
        '~' => Symbol::Command(Command::Binary(BinaryOp::QuotRem)),
        '^' => Symbol::Command(Command::Binary(BinaryOp::Pow)),
        '(' => Symbol::Command(Command::Binary(BinaryOp::TopLess)),
        ')' => Symbol::Command(Command::Binary(BinaryOp::TopGreater)),
        '{' => Symbol::Command(Command::Binary(BinaryOp::TopLessEq)),
        '}' => Symbol::Command(Command::Binary(BinaryOp::TopGreaterEq)),
        'M' => Symbol::Command(Command::Binary(BinaryOp::And)),
        'm' => Symbol::Command(Command::Binary(BinaryOp::Or)),
        'G' => Symbol::Command(Command::Binary(BinaryOp::Equal)),
        'v' => Symbol::Command(Command::Unary(UnaryOp::Sqrt)),
        'b' => Symbol::Command(Command::Unary(UnaryOp::Abs)),
        '_' => Symbol::Command(Command::Unary(UnaryOp::Neg)),
        '$' => Symbol::Command(Command::Unary(UnaryOp::Trunc)),
        'N' => Symbol::Command(Command::Unary(UnaryOp::Not)),
        'd' => Symbol::Command(Command::Dup),
        'r' => Symbol::Command(Command::Swap),
        'R' => Symbol::Command(Command::Drop),
        'c' => Symbol::Command(Command::Clear),
        'z' => Symbol::Command(Command::Depth),
        'p' => Symbol::Command(Command::PrintTop),
        'n' => Symbol::Command(Command::PopPrint),
        'f' => Symbol::Command(Command::PrintAll),
        'q' => Symbol::Command(Command::Quit),
        'P' | '|' | '@' | 'H' | 'h' | '\'' | '"' | 's' | 'l' | 'S' | 'L' | 'Z' | 'X' =>
            Symbol::Unimplemented,
        _ => Symbol::Unknown,
    }
}

/// Looks a byte up in the operator table.
pub fn classify(c: u8) -> (r: Symbol)
    ensures
        r == symbol_of(c),
{
    match c as char {
        ' ' | '\t' | '\r' | '\n' => Symbol::Blank,
        '+' => Symbol::Command(Command::Binary(BinaryOp::Add)),
        '-' => Symbol::Command(Command::Binary(BinaryOp::Sub)),
        '*' => Symbol::Command(Command::Binary(BinaryOp::Mul)),
        '/' => Symbol::Command(Command::Binary(BinaryOp::Div)),
        '%' => Symbol::Command(Command::Binary(BinaryOp::Rem)),
        '~' => Symbol::Command(Command::Binary(BinaryOp::QuotRem)),
        '^' => Symbol::Command(Command::Binary(BinaryOp::Pow)),
        '(' => Symbol::Command(Command::Binary(BinaryOp::TopLess)),
        ')' => Symbol::Command(Command::Binary(BinaryOp::TopGreater)),
        '{' => Symbol::Command(Command::Binary(BinaryOp::TopLessEq)),
        '}' => Symbol::Command(Command::Binary(BinaryOp::TopGreaterEq)),
        'M' => Symbol::Command(Command::Binary(BinaryOp::And)),
        'm' => Symbol::Command(Command::Binary(BinaryOp::Or)),
        'G' => Symbol::Command(Command::Binary(BinaryOp::Equal)),
        'v' => Symbol::Command(Command::Unary(UnaryOp::Sqrt)),
        'b' => Symbol::Command(Command::Unary(UnaryOp::Abs)),
        '_' => Symbol::Command(Command::Unary(UnaryOp::Neg)),
        '$' => Symbol::Command(Command::Unary(UnaryOp::Trunc)),
        'N' => Symbol::Command(Command::Unary(UnaryOp::Not)),
        'd' => Symbol::Command(Command::Dup),
        'r' => Symbol::Command(Command::Swap),
        'R' => Symbol::Command(Command::Drop),
        'c' => Symbol::Command(Command::Clear),
        'z' => Symbol::Command(Command::Depth),
        'p' => Symbol::Command(Command::PrintTop),
        'n' => Symbol::Command(Command::PopPrint),
        'f' => Symbol::Command(Command::PrintAll),
        'q' => Symbol::Command(Command::Quit),
        'P' | '|' | '@' | 'H' | 'h' | '\'' | '"' | 's' | 'l' | 'S' | 'L' | 'Z' | 'X' =>
            Symbol::Unimplemented,
        _ => Symbol::Unknown,
    }
}

} // verus!
