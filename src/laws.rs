//! Properties of the calculator that span several steps or hold of every
//! state, proved over the models that the machine's and the lexer's
//! contracts are stated in.
use vstd::prelude::*;
use crate::error::{ArithmeticErr, Errors, ParserErr};
use crate::lexer::{Tok, is_digit_or_point, lex_from, tokens_of};
use crate::machine::{Act, Reply, Request, literal_step, reply_step, symbol_step};
use crate::symbol::{BinaryOp, Command, Symbol, symbol_of};

verus! {

/// The stack after committing each of `vals` as a literal, in order.
pub open spec fn push_literals<V>(s: Seq<V>, vals: Seq<V>) -> Seq<V>
    decreases vals.len(),
{
    if vals.len() == 0 {
        s
    } else {
        push_literals(literal_step(s, Some(vals[0])).0, vals.drop_first())
    }
}

/// The stack after the discard operator `R` is given `n` times.
pub open spec fn discard_times<V>(s: Seq<V>, n: nat) -> Seq<V>
    decreases n,
{
    if n == 0 {
        s
    } else {
        discard_times(symbol_step(s, 'R' as u8).0, (n - 1) as nat)
    }
}

proof fn lemma_push_literals_appends<V>(s: Seq<V>, vals: Seq<V>)
    ensures
        push_literals(s, vals) == s + vals,
    decreases vals.len(),
{
    if vals.len() > 0 {
        lemma_push_literals_appends(s.push(vals[0]), vals.drop_first());
        assert(s.push(vals[0]) + vals.drop_first() =~= s + vals);
    } else {
        assert(s + vals =~= s);
    }
}

proof fn lemma_discard_times_truncates<V>(s: Seq<V>, n: nat)
    requires
        n <= s.len(),
    ensures
        discard_times(s, n) == s.subrange(0, s.len() - n),
    decreases n,
{
    if n == 0 {
        assert(s.subrange(0, s.len() as int) =~= s);
    } else {
        assert(symbol_of('R' as u8) == Symbol::Command(Command::Drop));
        lemma_discard_times_truncates(s.drop_last(), (n - 1) as nat);
        assert(s.drop_last().subrange(0, s.drop_last().len() - (n - 1)) =~= s.subrange(
            0,
            s.len() - n,
        ));
    }
}

/// Pushing any number of literals and then discarding as many values gives
/// back the stack that was there before; from an empty stack, an empty one.
pub proof fn lemma_push_then_discard_restores<V>(s: Seq<V>, vals: Seq<V>)
    ensures
        discard_times(push_literals(s, vals), vals.len()) == s,
        discard_times(push_literals(Seq::<V>::empty(), vals), vals.len()).len() == 0,
{
    lemma_push_literals_appends(s, vals);
    lemma_discard_times_truncates(s + vals, vals.len());
    assert((s + vals).subrange(0, s.len() as int) =~= s);
    lemma_push_literals_appends(Seq::<V>::empty(), vals);
    lemma_discard_times_truncates(Seq::<V>::empty() + vals, vals.len());
}

/// Clearing leaves an empty stack whatever was on it, and clearing a second
/// time changes nothing and reports nothing.
pub proof fn lemma_clear_is_idempotent<V>(s: Seq<V>)
    ensures
        symbol_step(s, 'c' as u8).0.len() == 0,
        symbol_step(s, 'c' as u8).1 == Act::<V>::Nothing,
        symbol_step(symbol_step(s, 'c' as u8).0, 'c' as u8) == symbol_step(s, 'c' as u8),
{
    assert(symbol_of('c' as u8) == Symbol::Command(Command::Clear));
}

/// A binary operator takes the value pushed earlier as its left operand and
/// the later one as its right operand, leaves the stack alone while the
/// value is computed, and then replaces both operands with the result.
pub proof fn lemma_binary_operand_order<V>(s: Seq<V>, a: V, b: V, c: u8, v: V)
    requires
        symbol_of(c) is Command,
        symbol_of(c)->Command_0 is Binary,
    ensures
        ({
            let pushed = literal_step(literal_step(s, Some(a)).0, Some(b)).0;
            let op = symbol_of(c)->Command_0->Binary_0;
            let req = Request::Binary { op, left: a, right: b };
            &&& symbol_step(pushed, c) == (pushed, Act::Compute(req))
            &&& reply_step(pushed, req, Reply::Value(v)) == (s.push(v), Act::<V>::Nothing)
        }),
{
    let pushed = s.push(a).push(b);
    assert(pushed.subrange(0, pushed.len() - 2) =~= s);
}

/// `/`, `%` and `~` with a zero divisor report the division by zero and keep
/// both operands on the stack as they were.
pub proof fn lemma_divide_by_zero_keeps_operands<V>(s: Seq<V>, a: V, zero: V, c: u8)
    requires
        symbol_of(c) == Symbol::Command(Command::Binary(BinaryOp::Div)) || symbol_of(c)
            == Symbol::Command(Command::Binary(BinaryOp::Rem)) || symbol_of(c) == Symbol::Command(
            Command::Binary(BinaryOp::QuotRem),
        ),
    ensures
        ({
            let pushed = s.push(a).push(zero);
            let req = symbol_step(pushed, c).1->Compute_0;
            &&& symbol_step(pushed, c).0 == pushed
            &&& req == Request::Binary { op: symbol_of(c)->Command_0->Binary_0, left: a, right: zero }
            &&& reply_step(pushed, req, Reply::DivideByZero) == (
                pushed,
                Act::<V>::Report(Errors::A(ArithmeticErr::DivideByZero)),
            )
        }),
{
}

/// A byte that is neither whitespace, an operator, nor a recognised dc code
/// is reported as a bad character and leaves the stack alone.
pub proof fn lemma_unknown_byte_is_reported<V>(s: Seq<V>, c: u8)
    requires
        symbol_of(c) == Symbol::Unknown,
    ensures
        symbol_step(s, c) == (s, Act::<V>::Report(Errors::P(ParserErr::BadCharacter { c: c as char }))),
{
}

/// Whenever a step reports an error, the stack is left as it was: for an
/// operator byte, for a literal, and for an answer to a request.
pub proof fn lemma_errors_leave_stack<V>(s: Seq<V>, c: u8, parsed: Option<V>, req: Request<V>, reply: Reply<V>)
    ensures
        symbol_step(s, c).1 is Report ==> symbol_step(s, c).0 == s,
        literal_step(s, parsed).1 is Report ==> literal_step(s, parsed).0 == s,
        reply_step(s, req, reply).1 is Report ==> reply_step(s, req, reply).0 == s,
{
}

/// A run of digits and decimal points, however many points it holds, is one
/// literal, committed whole.
pub proof fn lemma_digit_run_is_one_literal(run: Seq<u8>)
    requires
        run.len() > 0,
        forall|i: int| 0 <= i < run.len() ==> is_digit_or_point(#[trigger] run[i]),
    ensures
        tokens_of(run) == seq![Tok::Literal(run)],
{
    lemma_digit_run_extends(seq![run[0]], run.drop_first());
    assert(seq![run[0]] + run.drop_first() =~= run);
    assert(seq![] + seq![Tok::Literal(run)] =~= seq![Tok::Literal(run)]);
}

proof fn lemma_digit_run_extends(buf: Seq<u8>, rest: Seq<u8>)
    requires
        forall|i: int| 0 <= i < rest.len() ==> is_digit_or_point(#[trigger] rest[i]),
    ensures
        lex_from(Some(buf), rest) == seq![Tok::Literal(buf + rest)],
    decreases rest.len(),
{
    if rest.len() == 0 {
        assert(buf + rest =~= buf);
    } else {
        let tail = rest.drop_first();
        assert(is_digit_or_point(rest[0]));
        assert forall|i: int| 0 <= i < tail.len() implies is_digit_or_point(#[trigger] tail[i]) by {
            assert(tail[i] == rest[i + 1]);
        }
        lemma_digit_run_extends(buf.push(rest[0]), tail);
        assert(buf.push(rest[0]) + tail =~= buf + rest);
        assert(seq![] + seq![Tok::Literal(buf + rest)] =~= seq![Tok::Literal(buf + rest)]);
    }
}

} // verus!
