//! Text: decimal numbers, comparison, and the pieces of a path.

use vstd::prelude::*;
use vstd::string::*;

verus! {

/// What a list of strings holds.
pub open spec fn texts(list: Seq<String>) -> Seq<Seq<char>> {
    list.map_values(|s: String| s@)
}

/// The decimal digit for `d`, which is below ten.
pub open spec fn digit(d: int) -> char {
    ('0' as int + d) as char
}

/// A natural number in decimal, without leading zeros.
pub open spec fn decimal_nat(n: nat) -> Seq<char>
    decreases n,
{
    if n < 10 {
        seq![digit(n as int)]
    } else {
        decimal_nat(n / 10).push(digit((n % 10) as int))
    }
}

/// An integer in decimal, with a leading `-` when it is negative.
pub open spec fn decimal(n: int) -> Seq<char> {
    if n < 0 {
        seq!['-'] + decimal_nat((-n) as nat)
    } else {
        decimal_nat(n as nat)
    }
}

/// Two natural numbers with the same decimal are the same.
proof fn lemma_decimal_nat_injective(a: nat, b: nat)
    requires
        decimal_nat(a) == decimal_nat(b),
    ensures
        a == b,
    decreases a,
{
    lemma_decimal_nat_nonempty(a / 10);
    lemma_decimal_nat_nonempty(b / 10);
    assert(decimal_nat(a).last() == digit((a % 10) as int));
    assert(decimal_nat(b).last() == digit((b % 10) as int));
    if a >= 10 && b >= 10 {
        assert(decimal_nat(a).drop_last() =~= decimal_nat(a / 10));
        assert(decimal_nat(b).drop_last() =~= decimal_nat(b / 10));
        lemma_decimal_nat_injective(a / 10, b / 10);
    }
}

/// The decimal of a natural number has a digit, and begins with one.
proof fn lemma_decimal_nat_nonempty(n: nat)
    ensures
        decimal_nat(n).len() > 0,
        decimal_nat(n)[0] != '-',
    decreases n,
{
    if n >= 10 {
        lemma_decimal_nat_nonempty(n / 10);
    }
}

/// Two integers with the same decimal are the same.
pub proof fn decimal_injective(a: int, b: int)
    requires
        decimal(a) == decimal(b),
    ensures
        a == b,
{
    if a < 0 {
        assert(decimal(a)[0] == '-');
        assert(decimal(a).skip(1) =~= decimal_nat((-a) as nat));
    } else {
        lemma_decimal_nat_nonempty(a as nat);
    }
    if b < 0 {
        assert(decimal(b)[0] == '-');
        assert(decimal(b).skip(1) =~= decimal_nat((-b) as nat));
    } else {
        lemma_decimal_nat_nonempty(b as nat);
    }
    if a < 0 {
        lemma_decimal_nat_injective((-a) as nat, (-b) as nat);
    } else {
        lemma_decimal_nat_injective(a as nat, b as nat);
    }
}

/// Whether `a` and `b` hold the same characters.
pub fn same_text(a: &str, b: &str) -> (r: bool)
    ensures
        r == (a@ == b@),
{
    a.to_owned() == b.to_owned()
}

fn digit_text(d: u64) -> (r: &'static str)
    requires
        d < 10,
    ensures
        r@ == seq![digit(d as int)],
{
    let r = if d == 0 {
        "0"
    } else if d == 1 {
        "1"
    } else if d == 2 {
        "2"
    } else if d == 3 {
        "3"
    } else if d == 4 {
        "4"
    } else if d == 5 {
        "5"
    } else if d == 6 {
        "6"
    } else if d == 7 {
        "7"
    } else if d == 8 {
        "8"
    } else {
        "9"
    };
    proof {
        reveal_strlit("0");
        reveal_strlit("1");
        reveal_strlit("2");
        reveal_strlit("3");
        reveal_strlit("4");
        reveal_strlit("5");
        reveal_strlit("6");
        reveal_strlit("7");
        reveal_strlit("8");
        reveal_strlit("9");
    }
    assert(r@ =~= seq![digit(d as int)]);
    r
}

fn append_digits(n: u64, out: &mut String)
    ensures
        final(out)@ == old(out)@ + decimal_nat(n as nat),
    decreases n,
{
    if n >= 10 {
        append_digits(n / 10, out);
    }
    out.append(digit_text(n % 10));
    assert(out@ =~= old(out)@ + decimal_nat(n as nat));
}

/// `n` in decimal.
pub fn decimal_text(n: i64) -> (r: String)
    ensures
        r@ == decimal(n as int),
{
    let mut out = String::new();
    let magnitude: u64 = if n < 0 {
        out.append("-");
        proof {
            reveal_strlit("-");
        }
        assert(out@ =~= seq!['-']);
        (-(n as i128)) as u64
    } else {
        n as u64
    };
    append_digits(magnitude, &mut out);
    assert(out@ =~= decimal(n as int));
    out
}

/// What follows the last `/` of a path: all of it when there is none.
pub open spec fn last_component(path: Seq<char>) -> Seq<char>
    decreases path.len(),
{
    if path.len() == 0 || path.last() == '/' {
        Seq::empty()
    } else {
        last_component(path.drop_last()).push(path.last())
    }
}

/// A suffix without `/`, right behind a `/` or at the start, is the last component.
proof fn lemma_last_component(path: Seq<char>, from: int)
    requires
        0 <= from <= path.len(),
        from > 0 ==> path[from - 1] == '/',
        forall|i: int| from <= i < path.len() ==> path[i] != '/',
    ensures
        last_component(path) == path.skip(from),
    decreases path.len(),
{
    if from < path.len() {
        lemma_last_component(path.drop_last(), from);
        assert(path.skip(from) =~= path.drop_last().skip(from).push(path.last()));
    } else {
        assert(path.skip(from) =~= Seq::empty());
    }
}

/// The last component of `path`.
pub fn base_name(path: &str) -> (r: &str)
    ensures
        r@ == last_component(path@),
{
    let len: usize = path.unicode_len();
    let mut from: usize = len;
    while from > 0 && path.get_char(from - 1) != '/'
        invariant
            from <= len,
            len == path@.len(),
            forall|i: int| from <= i < len ==> path@[i] != '/',
        decreases from,
    {
        from = from - 1;
    }
    proof {
        lemma_last_component(path@, from as int);
    }
    assert(path@.subrange(from as int, len as int) =~= path@.skip(from as int));
    path.substring_char(from, len)
}

/// Whether `s` begins with `-`.
pub fn begins_with_dash(s: &str) -> (r: bool)
    ensures
        r == (s@.len() > 0 && s@[0] == '-'),
{
    s.unicode_len() > 0 && s.get_char(0) == '-'
}

} // verus!
