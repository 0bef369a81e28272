//! Splitting an input line into numeric literals and operator bytes.
//!
//! A literal starts at a digit or `.`, and goes on through digits, `.`,
//! exponent markers `e`/`E`, and a sign `+`/`-` that directly follows an
//! exponent marker. Any other byte ends it. Whitespace separates and is
//! otherwise dropped; every other byte becomes a symbol for the operator
//! table. Whether a literal reads as a number is decided when it is
//! committed, not here.
use vstd::prelude::*;

verus! {

/// A piece of an input line.
#[derive(Debug, PartialEq, Eq)]
pub enum Token {
    /// The bytes of one numeric literal, never empty.
    Literal(Vec<u8>),
    /// One byte that is neither whitespace nor part of a literal.
    Symbol(u8),
}

/// The mathematical model of a `Token`.
pub enum Tok {
    Literal(Seq<u8>),
    Symbol(u8),
}

impl View for Token {
    type V = Tok;

    open spec fn view(&self) -> Tok {
        match self {
            Token::Literal(b) => Tok::Literal(b@),
            Token::Symbol(c) => Tok::Symbol(*c),
        }
    }
}

/// The models of a sequence of tokens.
pub open spec fn tokens_view(ts: Seq<Token>) -> Seq<Tok> {
    ts.map_values(|t: Token| t@)
}

pub open spec fn is_digit_or_point(c: u8) -> bool {
    ('0' <= c as char && c as char <= '9') || c as char == '.'
}

pub open spec fn is_exponent_marker(c: u8) -> bool {
    c as char == 'e' || c as char == 'E'
}

pub open spec fn is_sign(c: u8) -> bool {
    c as char == '+' || c as char == '-'
}

pub open spec fn is_whitespace(c: u8) -> bool {
    c as char == ' ' || c as char == '\t' || c as char == '\r' || c as char == '\n'
}

/// Whether `c` continues a literal whose bytes so far are `buf`.
pub open spec fn continues_literal(buf: Seq<u8>, c: u8) -> bool {
    ||| is_digit_or_point(c)
    ||| is_exponent_marker(c)
    ||| (is_sign(c) && buf.len() > 0 && is_exponent_marker(buf.last()))
}

/// The tokens that a byte outside a literal stands for.
pub open spec fn symbol_tokens(c: u8) -> Seq<Tok> {
    if is_whitespace(c) {
        seq![]
    } else {
        seq![Tok::Symbol(c)]
    }
}

/// One step of the lexer: from the pending literal (`None` when no literal is
/// in progress) and the next byte, the new pending literal and the tokens
/// that are complete.
pub open spec fn lex_step(pending: Option<Seq<u8>>, c: u8) -> (Option<Seq<u8>>, Seq<Tok>) {
    match pending {
        None => if is_digit_or_point(c) {
            (Some(seq![c]), seq![])
        } else {
            (None, symbol_tokens(c))
        },
        Some(buf) => if continues_literal(buf, c) {
            (Some(buf.push(c)), seq![])
        } else {
            (None, seq![Tok::Literal(buf)] + symbol_tokens(c))
        },
    }
}

/// The tokens still owed at the end of the line.
pub open spec fn lex_flush(pending: Option<Seq<u8>>) -> Seq<Tok> {
    match pending {
        None => seq![],
        Some(buf) => seq![Tok::Literal(buf)],
    }
}

/// The tokens of `s` when the lexer starts with `pending`.
pub open spec fn lex_from(pending: Option<Seq<u8>>, s: Seq<u8>) -> Seq<Tok>
    decreases s.len(),
{
    if s.len() == 0 {
        lex_flush(pending)
    } else {
        let (next, out) = lex_step(pending, s[0]);
        out + lex_from(next, s.drop_first())
    }
}

/// The tokens of a whole line.
pub open spec fn tokens_of(line: Seq<u8>) -> Seq<Tok> {
    lex_from(None, line)
}

/// The lexer's state between bytes.
#[derive(Debug, PartialEq, Eq)]
pub enum Lexer {
    /// No literal is in progress.
    Idle,
    /// A literal is in progress; these are its bytes so far.
    Accumulating(Vec<u8>),
}

impl View for Lexer {
    type V = Option<Seq<u8>>;

    open spec fn view(&self) -> Option<Seq<u8>> {
        match self {
            Lexer::Idle => None,
            Lexer::Accumulating(b) => Some(b@),
        }
    }
}

proof fn lemma_push_token(ts: Seq<Token>, t: Token)
    ensures
        tokens_view(ts.push(t)) == tokens_view(ts).push(t@),
{
    assert(tokens_view(ts.push(t)) =~= tokens_view(ts).push(t@));
}

fn push_symbol(out: &mut Vec<Token>, c: u8)
    ensures
        tokens_view(final(out)@) == tokens_view(old(out)@) + symbol_tokens(c),
{
    let ch = c as char;
    if ch == ' ' || ch == '\t' || ch == '\r' || ch == '\n' {
        assert(tokens_view(old(out)@) + symbol_tokens(c) =~= tokens_view(old(out)@));
    } else {
        proof {
            lemma_push_token(out@, Token::Symbol(c));
        }
        out.push(Token::Symbol(c));
        assert(tokens_view(old(out)@) + symbol_tokens(c) =~= tokens_view(old(out)@).push(
            Tok::Symbol(c),
        ));
    }
}

impl Lexer {
    /// A lexer with no literal in progress.
    pub fn new() -> (r: Lexer)
        ensures
            r@ == None::<Seq<u8>>,
    {
        Lexer::Idle
    }

    /// Takes in the next byte: appends to `out` the tokens it completes and
    /// returns the lexer's next state.
    pub fn feed(self, c: u8, out: &mut Vec<Token>) -> (next: Lexer)
        ensures
            next@ == lex_step(self@, c).0,
            tokens_view(final(out)@) == tokens_view(old(out)@) + lex_step(self@, c).1,
    {
        let ghost start = out@;
        let ch = c as char;
        match self {
            Lexer::Idle => {
                if ('0' <= ch && ch <= '9') || ch == '.' {
                    let mut buf: Vec<u8> = Vec::new();
                    buf.push(c);
                    assert(buf@ =~= seq![c]);
                    assert(tokens_view(start) + seq![] =~= tokens_view(start));
                    Lexer::Accumulating(buf)
                } else {
                    push_symbol(out, c);
                    Lexer::Idle
                }
            },
            Lexer::Accumulating(mut buf) => {
                let n = buf.len();
                let after_marker = n > 0 && (buf[n - 1] as char == 'e' || buf[n - 1] as char
                    == 'E');
                if ('0' <= ch && ch <= '9') || ch == '.' || ch == 'e' || ch == 'E' || ((ch == '+'
                    || ch == '-') && after_marker) {
                    buf.push(c);
                    assert(tokens_view(start) + seq![] =~= tokens_view(start));
                    Lexer::Accumulating(buf)
                } else {
                    let ghost lit = buf@;
                    proof {
                        lemma_push_token(out@, Token::Literal(buf));
                    }
                    out.push(Token::Literal(buf));
                    push_symbol(out, c);
                    assert(tokens_view(start) + (seq![Tok::Literal(lit)] + symbol_tokens(c))
                        =~= tokens_view(start).push(Tok::Literal(lit)) + symbol_tokens(c));
                    Lexer::Idle
                }
            },
        }
    }

    /// Ends the line: appends the literal in progress, if any, to `out`.
    pub fn finish(self, out: &mut Vec<Token>)
        ensures
            tokens_view(final(out)@) == tokens_view(old(out)@) + lex_flush(self@),
    {
        match self {
            Lexer::Idle => {
                assert(tokens_view(out@) + seq![] =~= tokens_view(out@));
            },
            Lexer::Accumulating(buf) => {
                proof {
                    lemma_push_token(out@, Token::Literal(buf));
                }
                let ghost lit = buf@;
                out.push(Token::Literal(buf));
                assert(tokens_view(old(out)@) + seq![Tok::Literal(lit)] =~= tokens_view(
                    old(out)@,
                ).push(Tok::Literal(lit)));
            },
        }
    }
}

/// Splits a whole line into tokens; a literal still in progress at the end
/// of the line is committed there.
pub fn tokenize_line(line: &[u8]) -> (r: Vec<Token>)
    ensures
        tokens_view(r@) == tokens_of(line@),
{
    let mut out: Vec<Token> = Vec::new();
    let mut lexer = Lexer::new();
    let mut i: usize = 0;
    assert(line@.subrange(0, line@.len() as int) =~= line@);
    assert(tokens_view(out@) =~= seq![]);
    while i < line.len()
        invariant
            i <= line@.len(),
            tokens_view(out@) + lex_from(lexer@, line@.subrange(i as int, line@.len() as int))
                == tokens_of(line@),
        decreases line@.len() - i,
    {
        let ghost rest = line@.subrange(i as int, line@.len() as int);
        let ghost before = tokens_view(out@);
        let ghost state = lexer@;
        assert(rest.drop_first() =~= line@.subrange(i + 1, line@.len() as int));
        lexer = lexer.feed(line[i], &mut out);
        assert(tokens_view(out@) + lex_from(lexer@, rest.drop_first()) =~= before + lex_from(
            state,
            rest,
        ));
        i = i + 1;
    }
    lexer.finish(&mut out);
    assert(line@.subrange(i as int, line@.len() as int) =~= seq![]);
    out
}

} // verus!
