//! Rendering of values as SQL text: decimal numbers and quoted text literals.

use vstd::prelude::*;
use vstd::string::StringExecFns;

verus! {

/// `String::push` appends one character at the end.
pub assume_specification[ String::push ](s: &mut String, c: char)
    ensures
        final(s)@ == old(s)@.push(c),
;

/// The character of a single decimal digit.
pub open spec fn digit_char(d: nat) -> char
    recommends
        d < 10,
{
    if d == 0 {
        '0'
    } else if d == 1 {
        '1'
    } else if d == 2 {
        '2'
    } else if d == 3 {
        '3'
    } else if d == 4 {
        '4'
    } else if d == 5 {
        '5'
    } else if d == 6 {
        '6'
    } else if d == 7 {
        '7'
    } else if d == 8 {
        '8'
    } else {
        '9'
    }
}

/// The decimal numeral of `n`, without sign or leading zeros.
pub open spec fn decimal(n: nat) -> Seq<char>
    decreases n,
{
    if n < 10 {
        seq![digit_char(n)]
    } else {
        decimal(n / 10).push(digit_char(n % 10))
    }
}

/// The decimal numeral of an integer, with a minus sign where it is negative.
pub open spec fn signed_decimal(n: int) -> Seq<char> {
    if n < 0 {
        seq!['-'] + decimal((-n) as nat)
    } else {
        decimal(n as nat)
    }
}

fn digit_of(d: u64) -> (c: char)
    requires
        d < 10,
    ensures
        c == digit_char(d as nat),
{
    if d == 0 {
        '0'
    } else if d == 1 {
        '1'
    } else if d == 2 {
        '2'
    } else if d == 3 {
        '3'
    } else if d == 4 {
        '4'
    } else if d == 5 {
        '5'
    } else if d == 6 {
        '6'
    } else if d == 7 {
        '7'
    } else if d == 8 {
        '8'
    } else {
        '9'
    }
}

/// Appends the decimal numeral of `n` to `out`.
pub fn push_decimal(out: &mut String, n: u64)
    ensures
        final(out)@ == old(out)@ + decimal(n as nat),
    decreases n,
{
    if n < 10 {
        out.push(digit_of(n));
    } else {
        push_decimal(out, n / 10);
        out.push(digit_of(n % 10));
        assert((old(out)@ + decimal((n / 10) as nat)).push(digit_char((n % 10) as nat))
            =~= old(out)@ + decimal(n as nat));
    }
}

/// The characters that stand for `c` inside a quoted SQL literal: a single
/// quote is doubled, every other character stands for itself.
pub open spec fn escaped_char(c: char) -> Seq<char> {
    if c == '\'' {
        seq!['\'', '\'']
    } else {
        seq![c]
    }
}

/// `text` with every single quote doubled.
pub open spec fn escaped(text: Seq<char>) -> Seq<char>
    decreases text.len(),
{
    if text.len() == 0 {
        Seq::empty()
    } else {
        escaped(text.drop_last()) + escaped_char(text.last())
    }
}

/// The SQL text literal that denotes `text`: the escaped text between single
/// quotes.
pub open spec fn quoted(text: Seq<char>) -> Seq<char> {
    seq!['\''] + escaped(text) + seq!['\'']
}

/// The SQL expression for an optional text: a quoted literal, or the keyword
/// `NULL` where the text is absent.
pub open spec fn nullable(text: Option<Seq<char>>) -> Seq<char> {
    match text {
        Some(t) => quoted(t),
        None => "NULL"@,
    }
}

/// Appends to `out` the SQL text literal that denotes `text`.
pub fn push_quoted(out: &mut String, text: &str)
    ensures
        final(out)@ == old(out)@ + quoted(text@),
{
    broadcast use vstd::string::group_string_axioms;

    out.push('\'');
    for c in it: text.chars()
        invariant
            it.seq() == text@,
            out@ == old(out)@ + seq!['\''] + escaped(text@.take(it.index())),
    {
        proof {
            let k = it.index();
            assert(text@.take(k + 1).drop_last() =~= text@.take(k));
        }
        if c == '\'' {
            out.push('\'');
            out.push('\'');
        } else {
            out.push(c);
        }
    }
    proof {
        assert(text@.take(text@.len() as int) =~= text@);
    }
    out.push('\'');
}

/// Appends to `out` the SQL expression for the optional `text`.
pub fn push_nullable(out: &mut String, text: Option<&String>)
    ensures
        final(out)@ == old(out)@ + nullable(
            match text {
                Some(t) => Some(t@),
                None => None,
            },
        ),
{
    match text {
        Some(t) => push_quoted(out, t.as_str()),
        None => out.append("NULL"),
    }
}

/// The text of a literal, read by the rule of SQL from the position after
/// its opening quote: two quotes in a row stand for one quote of the text, a
/// single quote closes the literal.  The result is the text and the position
/// after the closing quote; there is none where the literal is not closed.
pub open spec fn literal_text(sql: Seq<char>, from: int) -> Option<(Seq<char>, int)>
    decreases sql.len() - from,
{
    if from < 0 || from >= sql.len() {
        None
    } else if sql[from] != '\'' {
        match literal_text(sql, from + 1) {
            Some((text, end)) => Some((seq![sql[from]] + text, end)),
            None => None,
        }
    } else if from + 1 < sql.len() && sql[from + 1] == '\'' {
        match literal_text(sql, from + 2) {
            Some((text, end)) => Some((seq!['\''] + text, end)),
            None => None,
        }
    } else {
        Some((Seq::empty(), from + 1))
    }
}

/// Escaping goes character by character from the front as well.
proof fn escaped_from_the_front(c: char, text: Seq<char>)
    ensures
        escaped(seq![c] + text) == escaped_char(c) + escaped(text),
    decreases text.len(),
{
    let whole = seq![c] + text;
    if text.len() == 0 {
        assert(escaped(whole.drop_last()) =~= Seq::<char>::empty());
    } else {
        assert(whole.drop_last() =~= seq![c] + text.drop_last());
        escaped_from_the_front(c, text.drop_last());
    }
}

/// The escaped `text`, followed by a quote and by `rest`, reads back as
/// `text`, from any position `from` at which it stands.
proof fn escaped_reads_back(sql: Seq<char>, from: int, text: Seq<char>)
    requires
        0 <= from,
        from + escaped(text).len() < sql.len(),
        sql.subrange(from, from + escaped(text).len()) == escaped(text),
        sql[from + escaped(text).len()] == '\'',
        from + escaped(text).len() + 1 < sql.len() ==> sql[from + escaped(text).len() + 1] != '\'',
    ensures
        literal_text(sql, from) == Some((text, from + escaped(text).len() + 1)),
    decreases text.len(),
{
    if text.len() > 0 {
        let c = text[0];
        let tail = text.drop_first();
        assert(text =~= seq![c] + tail);
        escaped_from_the_front(c, tail);
        let body = escaped(text);
        let step = escaped_char(c).len() as int;
        // The statement holds the escaped text character by character.
        assert forall|k: int| 0 <= k < body.len() implies sql[from + k] == body[k] by {
            assert(sql.subrange(from, from + body.len())[k] == body[k]);
        }
        assert(sql.subrange(from + step, from + step + escaped(tail).len()) =~= escaped(tail)) by {
            assert forall|k: int| 0 <= k < escaped(tail).len() implies sql[from + step + k]
                == escaped(tail)[k] by {
                assert(body[step + k] == escaped(tail)[k]);
            }
        }
        escaped_reads_back(sql, from + step, tail);
        // What stands first is the first character, doubled if it is a quote.
        if c == '\'' {
            assert(body[0] == '\'' && body[1] == '\'');
        } else {
            assert(body[0] == c);
        }
    }
}

/// Quoting is faithful: a quoted text, wherever it stands in a statement,
/// reads back by the rule of SQL as the text itself, and the literal ends
/// where the quoted text ends, whatever the text holds.  So no text can end
/// its own literal early, provided that what follows the literal does not
/// begin with a quote.
pub proof fn quoted_reads_back(before: Seq<char>, text: Seq<char>, rest: Seq<char>)
    requires
        rest.len() > 0 ==> rest[0] != '\'',
    ensures
        literal_text(before + quoted(text) + rest, before.len() as int + 1) == Some(
            (text, (before.len() + quoted(text).len()) as int),
        ),
{
    let sql = before + quoted(text) + rest;
    let from: int = before.len() as int + 1;
    let body = escaped(text);
    assert(sql.subrange(from, from + body.len()) =~= body);
    escaped_reads_back(sql, from, text);
}

} // verus!
