//! Building the texts that the library puts into its error values.
//!
//! Every text is described by a spec function on `Seq<char>`, and the
//! executable builder next to it is proved to produce exactly that text.

use vstd::prelude::*;
use vstd::string::*;

verus! {

/// The character that writes the decimal digit `d`; meaningful for `d < 10`.
pub open spec fn digit_char(d: nat) -> char {
    if d == 0 {
        '0'
    } else if d == 1 {
        '1'
    } else if d == 2 {
        '2'
    } else if d == 3 {
        '3'
    } else if d == 4 {
        '4'
    } else if d == 5 {
        '5'
    } else if d == 6 {
        '6'
    } else if d == 7 {
        '7'
    } else if d == 8 {
        '8'
    } else {
        '9'
    }
}

/// Decimal notation of `n`: most significant digit first, no leading zero
/// (so `0` is written `"0"`).
pub open spec fn decimal(n: nat) -> Seq<char>
    decreases n,
{
    if n < 10 {
        seq![digit_char(n)]
    } else {
        decimal(n / 10) + seq![digit_char(n % 10)]
    }
}

/// The one-character text of a single decimal digit.
fn digit_str(d: usize) -> (s: &'static str)
    requires
        d < 10,
    ensures
        s@ == seq![digit_char(d as nat)],
{
    proof {
        reveal_strlit("0");
        reveal_strlit("1");
        reveal_strlit("2");
        reveal_strlit("3");
        reveal_strlit("4");
        reveal_strlit("5");
        reveal_strlit("6");
        reveal_strlit("7");
        reveal_strlit("8");
        reveal_strlit("9");
    }
    let s = if d == 0 {
        "0"
    } else if d == 1 {
        "1"
    } else if d == 2 {
        "2"
    } else if d == 3 {
        "3"
    } else if d == 4 {
        "4"
    } else if d == 5 {
        "5"
    } else if d == 6 {
        "6"
    } else if d == 7 {
        "7"
    } else if d == 8 {
        "8"
    } else {
        "9"
    };
    assert(s@ =~= seq![digit_char(d as nat)]);
    s
}

/// Writes `n` in decimal notation.
pub fn decimal_string(n: usize) -> (s: String)
    ensures
        s@ == decimal(n as nat),
    decreases n,
{
    if n < 10 {
        digit_str(n).to_owned()
    } else {
        let mut s = decimal_string(n / 10);
        s.append(digit_str(n % 10));
        s
    }
}

/// The text that reports an override array whose length differs from the
/// batch size: the field's name, the array's length and the batch size.
pub open spec fn vector_length_message(field: Seq<char>, len: nat, n: nat) -> Seq<char> {
    field + " vector length ("@ + decimal(len) + ") does not match number of inferences ("@
        + decimal(n) + ")"@
}

/// Builds [`vector_length_message`].
pub fn vector_length_message_string(field: &str, len: usize, n: usize) -> (s: String)
    ensures
        s@ == vector_length_message(field@, len as nat, n as nat),
{
    let mut s = field.to_owned();
    s.append(" vector length (");
    let len_text = decimal_string(len);
    s.append(len_text.as_str());
    s.append(") does not match number of inferences (");
    let n_text = decimal_string(n);
    s.append(n_text.as_str());
    s.append(")");
    s
}

/// Whether `c` is a decimal digit.
pub open spec fn is_digit(c: char) -> bool {
    c == '0' || c == '1' || c == '2' || c == '3' || c == '4' || c == '5' || c == '6' || c == '7'
        || c == '8' || c == '9'
}

/// A decimal notation is not empty and holds digits only.
pub proof fn lemma_decimal_is_digits(n: nat)
    ensures
        decimal(n).len() >= 1,
        forall|i: int| 0 <= i < decimal(n).len() ==> is_digit(#[trigger] decimal(n)[i]),
    decreases n,
{
    if n >= 10 {
        lemma_decimal_is_digits(n / 10);
    }
}

/// Two digits that are written by the same character are the same digit.
proof fn lemma_digit_char_is_injective(x: nat, y: nat)
    requires
        x < 10,
        y < 10,
        digit_char(x) == digit_char(y),
    ensures
        x == y,
{
}

/// Two numbers with the same decimal notation are the same number.
pub proof fn law_decimal_is_injective(a: nat, b: nat)
    requires
        decimal(a) == decimal(b),
    ensures
        a == b,
    decreases a,
{
    lemma_decimal_is_digits(a / 10);
    lemma_decimal_is_digits(b / 10);
    if a < 10 && b < 10 {
        assert(decimal(a)[0] == digit_char(a));
        assert(decimal(b)[0] == digit_char(b));
        lemma_digit_char_is_injective(a, b);
    } else if a >= 10 && b >= 10 {
        let da = decimal(a / 10);
        let db = decimal(b / 10);
        assert(decimal(a).last() == digit_char(a % 10));
        assert(decimal(b).last() == digit_char(b % 10));
        assert(decimal(a).drop_last() =~= da);
        assert(decimal(b).drop_last() =~= db);
        law_decimal_is_injective(a / 10, b / 10);
        lemma_digit_char_is_injective(a % 10, b % 10);
    } else {
        assert(decimal(a).len() != decimal(b).len());
    }
}

/// Two decimal notations that are each followed by a character that is no
/// digit, and that agree as far as both texts go, are the same notation.
proof fn lemma_decimal_ends_at_non_digit(x: Seq<char>, y: Seq<char>, start: int, a: nat, b: nat)
    requires
        0 <= start,
        x.len() == y.len(),
        x == y,
        start + decimal(a).len() < x.len(),
        start + decimal(b).len() < y.len(),
        x.subrange(start, start + decimal(a).len()) == decimal(a),
        y.subrange(start, start + decimal(b).len()) == decimal(b),
        !is_digit(x[start + decimal(a).len()]),
        !is_digit(y[start + decimal(b).len()]),
    ensures
        a == b,
{
    let da = decimal(a);
    let db = decimal(b);
    lemma_decimal_is_digits(a);
    lemma_decimal_is_digits(b);
    if da.len() < db.len() {
        assert(y.subrange(start, start + db.len())[da.len() as int] == y[start + da.len()]);
        assert(is_digit(db[da.len() as int]));
    } else if db.len() < da.len() {
        assert(x.subrange(start, start + da.len())[db.len() as int] == x[start + db.len()]);
        assert(is_digit(da[db.len() as int]));
    } else {
        assert(da =~= db);
        law_decimal_is_injective(a, b);
    }
}

/// The text that reports an array of the wrong length tells both lengths:
/// two such texts for one field are the same text only where they report
/// the same array length and the same batch size.
pub proof fn law_message_tells_both_lengths(field: Seq<char>, len: nat, n: nat, len2: nat, n2: nat)
    requires
        vector_length_message(field, len, n) == vector_length_message(field, len2, n2),
    ensures
        len == len2,
        n == n2,
{
    reveal_strlit(") does not match number of inferences (");
    reveal_strlit(")");
    let head = field + " vector length ("@;
    let middle = ") does not match number of inferences ("@;
    let tail = ")"@;
    let x = vector_length_message(field, len, n);
    let y = vector_length_message(field, len2, n2);
    let start = head.len() as int;
    assert(x.subrange(start, start + decimal(len).len()) =~= decimal(len));
    assert(y.subrange(start, start + decimal(len2).len()) =~= decimal(len2));
    assert(x[start + decimal(len).len()] == middle[0]);
    assert(y[start + decimal(len2).len()] == middle[0]);
    lemma_decimal_ends_at_non_digit(x, y, start, len, len2);
    let second = start + decimal(len).len() + middle.len();
    assert(x.subrange(second, second + decimal(n).len()) =~= decimal(n));
    assert(y.subrange(second, second + decimal(n2).len()) =~= decimal(n2));
    assert(x[second + decimal(n).len()] == tail[0]);
    assert(y[second + decimal(n2).len()] == tail[0]);
    lemma_decimal_ends_at_non_digit(x, y, second, n, n2);
}

/// The text of an optional string.
pub open spec fn text_of(s: Option<String>) -> Option<Seq<char>> {
    match s {
        Some(s) => Some(s@),
        None => None,
    }
}

} // verus!
