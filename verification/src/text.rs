//! Character sequences: dictionary order and decimal notation.
//!
//! Everything that the rest of the crate says about text is said over
//! `Seq<char>`, the view of `str` and `String`.

use vstd::prelude::*;
use vstd::string::*;

verus! {

/// Dictionary order on character sequences, read from position `from` on:
/// the first position at which the two differ decides, and where one ends
/// before they differ, the shorter one comes first.
pub open spec fn precedes_from(a: Seq<char>, b: Seq<char>, from: int) -> bool
    decreases a.len() - from,
{
    if from >= b.len() {
        false
    } else if from >= a.len() {
        true
    } else if a[from] != b[from] {
        (a[from] as int) < (b[from] as int)
    } else {
        precedes_from(a, b, from + 1)
    }
}

/// `a` comes strictly before `b` in dictionary order. On valid UTF-8 this is
/// the order in which `str` compares its bytes.
pub open spec fn precedes(a: Seq<char>, b: Seq<char>) -> bool {
    precedes_from(a, b, 0)
}

pub proof fn lemma_precedes_from_irreflexive(a: Seq<char>, from: int)
    requires
        0 <= from,
    ensures
        !precedes_from(a, a, from),
    decreases a.len() - from,
{
    if from < a.len() {
        lemma_precedes_from_irreflexive(a, from + 1);
    }
}

pub proof fn lemma_precedes_from_transitive(a: Seq<char>, b: Seq<char>, c: Seq<char>, from: int)
    requires
        0 <= from,
        precedes_from(a, b, from),
        precedes_from(b, c, from),
    ensures
        precedes_from(a, c, from),
    decreases c.len() - from,
{
    if from < a.len() && from < b.len() && from < c.len() && a[from] == b[from] && b[from]
        == c[from] {
        lemma_precedes_from_transitive(a, b, c, from + 1);
    }
}

pub proof fn lemma_precedes_from_total(a: Seq<char>, b: Seq<char>, from: int)
    requires
        0 <= from <= a.len(),
        from <= b.len(),
        forall|j: int| 0 <= j < from ==> a[j] == b[j],
    ensures
        a == b || precedes_from(a, b, from) || precedes_from(b, a, from),
    decreases a.len() - from,
{
    if from < a.len() && from < b.len() {
        if a[from] == b[from] {
            lemma_precedes_from_total(a, b, from + 1);
        } else {
            assert(a[from] as int != b[from] as int);
        }
    } else if from == a.len() && from == b.len() {
        assert(a =~= b);
    }
}

/// No sequence precedes itself.
pub proof fn lemma_precedes_irreflexive(a: Seq<char>)
    ensures
        !precedes(a, a),
{
    lemma_precedes_from_irreflexive(a, 0);
}

/// The order is transitive.
pub proof fn lemma_precedes_transitive(a: Seq<char>, b: Seq<char>, c: Seq<char>)
    requires
        precedes(a, b),
        precedes(b, c),
    ensures
        precedes(a, c),
{
    lemma_precedes_from_transitive(a, b, c, 0);
}

/// Two different sequences are ordered one way or the other.
pub proof fn lemma_precedes_total(a: Seq<char>, b: Seq<char>)
    ensures
        a == b || precedes(a, b) || precedes(b, a),
{
    lemma_precedes_from_total(a, b, 0);
}

/// Never both ways.
pub proof fn lemma_precedes_asymmetric(a: Seq<char>, b: Seq<char>)
    requires
        precedes(a, b),
    ensures
        !precedes(b, a),
        a != b,
{
    lemma_precedes_irreflexive(a);
    if precedes(b, a) {
        lemma_precedes_transitive(a, b, a);
    }
}

/// Decides [`precedes`] on two string slices.
pub fn str_precedes(a: &str, b: &str) -> (r: bool)
    ensures
        r == precedes(a@, b@),
{
    let la = a.unicode_len();
    let lb = b.unicode_len();
    let mut i: usize = 0;
    while i < la && i < lb
        invariant
            i <= la,
            i <= lb,
            la == a@.len(),
            lb == b@.len(),
            precedes(a@, b@) == precedes_from(a@, b@, i as int),
        decreases la - i,
    {
        let ca = a.get_char(i);
        let cb = b.get_char(i);
        if ca != cb {
            return (ca as u32) < (cb as u32);
        }
        i += 1;
    }
    i < lb
}

/// Decides whether two string slices hold the same characters.
pub fn str_equal(a: &str, b: &str) -> (r: bool)
    ensures
        r == (a@ == b@),
{
    let la = a.unicode_len();
    let lb = b.unicode_len();
    if la != lb {
        return false;
    }
    let mut i: usize = 0;
    while i < la
        invariant
            i <= la,
            la == a@.len(),
            lb == b@.len(),
            la == lb,
            forall|j: int| 0 <= j < i ==> a@[j] == b@[j],
        decreases la - i,
    {
        if a.get_char(i) != b.get_char(i) {
            return false;
        }
        i += 1;
    }
    assert(a@ =~= b@);
    true
}

/// The parts one after the other, with `separator` between each two.
pub open spec fn join(parts: Seq<Seq<char>>, separator: Seq<char>) -> Seq<char>
    decreases parts.len(),
{
    if parts.len() == 0 {
        Seq::empty()
    } else if parts.len() == 1 {
        parts[0]
    } else {
        join(parts.drop_last(), separator) + separator + parts.last()
    }
}

/// Appends the next part of a joined text to `text`, which holds the
/// `done` parts before it.
pub(crate) fn append_part(text: &mut String, part: &str, separator: &str, Ghost(parts): Ghost<Seq<Seq<char>>>, done: usize)
    requires
        done < parts.len(),
        parts[done as int] == part@,
        old(text)@ == join(parts.take(done as int), separator@),
    ensures
        final(text)@ == join(parts.take(done + 1), separator@),
{
    if done > 0 {
        text.append(separator);
    }
    text.append(part);
    proof {
        let upto = parts.take(done + 1);
        assert(upto.drop_last() =~= parts.take(done as int));
        assert(upto.last() == part@);
        if done == 0 {
            assert(text@ =~= part@);
        }
    }
}

/// The character that writes the digit `d`.
pub open spec fn digit(d: int) -> char {
    if d == 0 {
        '0'
    } else if d == 1 {
        '1'
    } else if d == 2 {
        '2'
    } else if d == 3 {
        '3'
    } else if d == 4 {
        '4'
    } else if d == 5 {
        '5'
    } else if d == 6 {
        '6'
    } else if d == 7 {
        '7'
    } else if d == 8 {
        '8'
    } else {
        '9'
    }
}

/// Decimal notation of a natural number, without leading zeros.
pub open spec fn decimal(n: nat) -> Seq<char>
    decreases n,
{
    if n < 10 {
        seq![digit(n as int)]
    } else {
        decimal(n / 10).push(digit((n % 10) as int))
    }
}

/// Decimal notation of an integer: a minus sign in front of a negative one.
pub open spec fn signed_decimal(i: int) -> Seq<char> {
    if i < 0 {
        seq!['-'] + decimal((-i) as nat)
    } else {
        decimal(i as nat)
    }
}

fn digit_text(d: u64) -> (s: &'static str)
    requires
        d < 10,
    ensures
        s@ == seq![digit(d as int)],
{
    proof {
        reveal_strlit("0");
        reveal_strlit("1");
        reveal_strlit("2");
        reveal_strlit("3");
        reveal_strlit("4");
        reveal_strlit("5");
        reveal_strlit("6");
        reveal_strlit("7");
        reveal_strlit("8");
        reveal_strlit("9");
    }
    let s = if d == 0 {
        "0"
    } else if d == 1 {
        "1"
    } else if d == 2 {
        "2"
    } else if d == 3 {
        "3"
    } else if d == 4 {
        "4"
    } else if d == 5 {
        "5"
    } else if d == 6 {
        "6"
    } else if d == 7 {
        "7"
    } else if d == 8 {
        "8"
    } else {
        "9"
    };
    assert(s@ =~= seq![digit(d as int)]);
    s
}

/// Writes a natural number in decimal notation.
pub fn decimal_string(n: u64) -> (s: String)
    ensures
        s@ == decimal(n as nat),
    decreases n,
{
    if n < 10 {
        String::from_str(digit_text(n))
    } else {
        let mut s = decimal_string(n / 10);
        s.append(digit_text(n % 10));
        assert(s@ =~= decimal(n as nat));
        s
    }
}

/// Writes an integer in decimal notation.
pub fn signed_decimal_string(i: i32) -> (s: String)
    ensures
        s@ == signed_decimal(i as int),
{
    if i < 0 {
        let m: u64 = (0 - (i as i64)) as u64;
        let mut s = String::from_str("-");
        let digits = decimal_string(m);
        s.append(digits.as_str());
        proof {
            reveal_strlit("-");
            assert(s@ =~= signed_decimal(i as int));
        }
        s
    } else {
        decimal_string(i as u64)
    }
}

} // verus!
