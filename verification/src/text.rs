//! String-building blocks with exact specifications: decimal
//! rendering, padding, character pushes and name sanitising.

use vstd::prelude::*;

verus! {

/// The decimal digit character for `d < 10`.
pub open spec fn digit_char(d: nat) -> char {
    if d == 0 { '0' }
    else if d == 1 { '1' }
    else if d == 2 { '2' }
    else if d == 3 { '3' }
    else if d == 4 { '4' }
    else if d == 5 { '5' }
    else if d == 6 { '6' }
    else if d == 7 { '7' }
    else if d == 8 { '8' }
    else { '9' }
}

/// Decimal rendering of a natural number, without leading zeros.
pub open spec fn nat_decimal(n: nat) -> Seq<char>
    decreases n,
{
    if n < 10 {
        seq![digit_char(n)]
    } else {
        nat_decimal(n / 10) + seq![digit_char(n % 10)]
    }
}

/// Decimal rendering of an integer: a leading `-` for negatives.
pub open spec fn int_decimal(i: int) -> Seq<char> {
    if i < 0 {
        seq!['-'] + nat_decimal((-i) as nat)
    } else {
        nat_decimal(i as nat)
    }
}

/// `n` space characters.
pub open spec fn spaces(n: nat) -> Seq<char>
    decreases n,
{
    if n == 0 { seq![] } else { spaces((n - 1) as nat).push(' ') }
}

/// Right-aligned in a field of `width` characters (`{:>w}`).
pub open spec fn pad_left(s: Seq<char>, width: nat) -> Seq<char> {
    if s.len() < width { spaces((width - s.len()) as nat) + s } else { s }
}

/// Left-aligned in a field of `width` characters (`{:<w}`).
pub open spec fn pad_right(s: Seq<char>, width: nat) -> Seq<char> {
    if s.len() < width { s + spaces((width - s.len()) as nat) } else { s }
}

/// Appends one character to a `String`.
///
/// Trusted: calls `String::push`, which appends `c` at the end.
#[verifier::external_body]
pub(crate) fn push_char(s: &mut String, c: char)
    ensures
        final(s)@ == old(s)@.push(c),
{
    s.push(c);
}

fn digit(d: u64) -> (c: char)
    requires
        d < 10,
    ensures
        c == digit_char(d as nat),
{
    if d == 0 { '0' }
    else if d == 1 { '1' }
    else if d == 2 { '2' }
    else if d == 3 { '3' }
    else if d == 4 { '4' }
    else if d == 5 { '5' }
    else if d == 6 { '6' }
    else if d == 7 { '7' }
    else if d == 8 { '8' }
    else { '9' }
}

/// Appends the decimal rendering of `n`.
pub fn push_u64(s: &mut String, n: u64)
    ensures
        final(s)@ == old(s)@ + nat_decimal(n as nat),
    decreases n,
{
    if n >= 10 {
        push_u64(s, n / 10);
    }
    push_char(s, digit(n % 10));
    assert(nat_decimal(n as nat) == if n < 10 { seq![digit_char(n as nat)] } else {
        nat_decimal((n / 10) as nat) + seq![digit_char((n % 10) as nat)]
    });
}

/// Appends the decimal rendering of `n`, with `-` for negatives.
pub fn push_i64(s: &mut String, n: i64)
    ensures
        final(s)@ == old(s)@ + int_decimal(n as int),
{
    if n < 0 {
        s.append("-");
        proof { reveal_strlit("-"); }
        let magnitude: u64 = ((-(n + 1)) as u64) + 1;
        push_u64(s, magnitude);
    } else {
        push_u64(s, n as u64);
    }
}

/// Appends `n` spaces.
pub fn push_spaces(s: &mut String, n: usize)
    ensures
        final(s)@ == old(s)@ + spaces(n as nat),
{
    let mut i: usize = 0;
    let ghost start = s@;
    while i < n
        invariant
            i <= n,
            s@ == start + spaces(i as nat),
        decreases n - i,
    {
        push_char(s, ' ');
        assert(spaces((i + 1) as nat) == spaces(i as nat).push(' '));
        i = i + 1;
    }
}


/// ASCII letters and digits (`char::is_ascii_alphanumeric`).
pub open spec fn is_ascii_alnum(c: char) -> bool {
    ('0' <= c && c <= '9') || ('a' <= c && c <= 'z') || ('A' <= c && c <= 'Z')
}

/// Every character that is not an ASCII letter or digit becomes `-`.
pub open spec fn dashed(s: Seq<char>) -> Seq<char> {
    s.map_values(|c: char| if is_ascii_alnum(c) { c } else { '-' })
}

/// Replaces every character that is not an ASCII letter or digit with `-`.
pub fn dash_non_alnum(s: &str) -> (r: String)
    ensures
        r@ == dashed(s@),
{
    let mut out = String::new();
    for c in it: s.chars()
        invariant
            it.seq() == s@,
            out@ == dashed(s@.take(it.index() as int)),
    {
        let ok = ('0' <= c && c <= '9') || ('a' <= c && c <= 'z') || ('A' <= c && c <= 'Z');
        if ok {
            push_char(&mut out, c);
        } else {
            push_char(&mut out, '-');
        }
        assert(s@.take(it.index() + 1) == s@.take(it.index() as int).push(c));
    }
    assert(s@.take(s@.len() as int) == s@);
    out
}


/// Concatenation of `f(x)` over the elements `x` of `s`, in order.
pub open spec fn concat_map<T>(s: Seq<T>, f: spec_fn(T) -> Seq<char>) -> Seq<char>
    decreases s.len(),
{
    if s.len() == 0 {
        seq![]
    } else {
        concat_map(s.drop_last(), f) + f(s.last())
    }
}

/// The texts `f(x)` of the elements of `s`, in order, with `sep`
/// between consecutive ones.
pub open spec fn join_map<T>(s: Seq<T>, f: spec_fn(T) -> Seq<char>, sep: Seq<char>) -> Seq<char>
    decreases s.len(),
{
    if s.len() == 0 {
        seq![]
    } else if s.len() == 1 {
        f(s[0])
    } else {
        join_map(s.drop_last(), f, sep) + sep + f(s.last())
    }
}

/// Sum of `f(x)` over the elements `x` of `s`.
pub open spec fn sum_map<T>(s: Seq<T>, f: spec_fn(T) -> nat) -> nat
    decreases s.len(),
{
    if s.len() == 0 {
        0
    } else {
        sum_map(s.drop_last(), f) + f(s.last())
    }
}

/// One more element extends `concat_map` by that element's text.
pub proof fn lemma_concat_map_step<T>(s: Seq<T>, f: spec_fn(T) -> Seq<char>, i: int)
    requires
        0 <= i < s.len(),
    ensures
        concat_map(s.take(i + 1), f) == concat_map(s.take(i), f) + f(s[i]),
{
    assert(s.take(i + 1).drop_last() =~= s.take(i));
}

/// One more element extends `join_map` by the separator (if there
/// was an element before) and that element's text.
pub proof fn lemma_join_map_step<T>(s: Seq<T>, f: spec_fn(T) -> Seq<char>, sep: Seq<char>, i: int)
    requires
        0 <= i < s.len(),
    ensures
        i == 0 ==> join_map(s.take(i + 1), f, sep) == f(s[i]),
        i > 0 ==> join_map(s.take(i + 1), f, sep) == join_map(s.take(i), f, sep) + sep + f(s[i]),
{
    assert(s.take(i + 1).drop_last() =~= s.take(i));
    assert(s.take(i + 1)[0] == s[0]);
}

/// Two sequences whose elements have, position by position, the same
/// images join to the same text.
pub proof fn lemma_join_map_congruent<A, B>(
    a: Seq<A>,
    f: spec_fn(A) -> Seq<char>,
    b: Seq<B>,
    g: spec_fn(B) -> Seq<char>,
    sep: Seq<char>,
)
    requires
        a.len() == b.len(),
        forall|i: int| 0 <= i < a.len() ==> f(#[trigger] a[i]) == g(b[i]),
    ensures
        join_map(a, f, sep) == join_map(b, g, sep),
    decreases a.len(),
{
    if a.len() > 1 {
        lemma_join_map_congruent(a.drop_last(), f, b.drop_last(), g, sep);
        assert(f(a[a.len() - 1]) == g(b[b.len() - 1]));
    } else if a.len() == 1 {
        assert(f(a[0]) == g(b[0]));
    }
}

/// `concat_map` of two sequences one after the other.
pub proof fn lemma_concat_map_append<T>(a: Seq<T>, b: Seq<T>, f: spec_fn(T) -> Seq<char>)
    ensures
        concat_map(a + b, f) == concat_map(a, f) + concat_map(b, f),
    decreases b.len(),
{
    if b.len() == 0 {
        assert(a + b =~= a);
        assert(concat_map(a, f) + concat_map(b, f) =~= concat_map(a, f));
    } else {
        lemma_concat_map_append(a, b.drop_last(), f);
        assert((a + b).drop_last() =~= a + b.drop_last());
        assert((a + b).last() == b.last());
    }
}

/// `sum_map` of two sequences one after the other.
pub proof fn lemma_sum_map_append<T>(a: Seq<T>, b: Seq<T>, f: spec_fn(T) -> nat)
    ensures
        sum_map(a + b, f) == sum_map(a, f) + sum_map(b, f),
    decreases b.len(),
{
    if b.len() == 0 {
        assert(a + b =~= a);
    } else {
        lemma_sum_map_append(a, b.drop_last(), f);
        assert((a + b).drop_last() =~= a + b.drop_last());
        assert((a + b).last() == b.last());
    }
}

/// One more element adds its value to `sum_map`.
pub proof fn lemma_sum_map_step<T>(s: Seq<T>, f: spec_fn(T) -> nat, i: int)
    requires
        0 <= i < s.len(),
    ensures
        sum_map(s.take(i + 1), f) == sum_map(s.take(i), f) + f(s[i]),
{
    assert(s.take(i + 1).drop_last() =~= s.take(i));
}

/// Partial sums never exceed the full sum.
pub proof fn lemma_sum_map_prefix<T>(s: Seq<T>, f: spec_fn(T) -> nat, i: int)
    requires
        0 <= i <= s.len(),
    ensures
        sum_map(s.take(i), f) <= sum_map(s, f),
    decreases s.len() - i,
{
    if i < s.len() {
        lemma_sum_map_step(s, f, i);
        lemma_sum_map_prefix(s, f, i + 1);
    } else {
        assert(s.take(i) =~= s);
    }
}

/// `s` with every `from` character replaced by `to`.
pub open spec fn map_char(s: Seq<char>, from: char, to: char) -> Seq<char> {
    s.map_values(|c: char| if c == from { to } else { c })
}

/// Replaces every `from` character with `to`.
pub fn replace_char(s: &str, from: char, to: char) -> (r: String)
    ensures
        r@ == map_char(s@, from, to),
{
    let mut out = String::new();
    for c in it: s.chars()
        invariant
            it.seq() == s@,
            out@ == map_char(s@.take(it.index() as int), from, to),
    {
        if c == from {
            push_char(&mut out, to);
        } else {
            push_char(&mut out, c);
        }
        assert(s@.take(it.index() + 1) == s@.take(it.index() as int).push(c));
    }
    assert(s@.take(s@.len() as int) == s@);
    out
}

/// What `to_uppercase` gives for a string: the Unicode uppercase
/// mapping of each character, one or more characters each.
pub uninterp spec fn uppercase_text(s: Seq<char>) -> Seq<char>;

/// Unicode uppercase of `s`.
///
/// Trusted: calls `str::to_uppercase`. The contract claims only
/// that the result is a function of the characters of `s`; the
/// Unicode case tables are not stated.
#[verifier::external_body]
pub(crate) fn to_uppercase(s: &str) -> (r: String)
    ensures
        r@ == uppercase_text(s@),
{
    s.to_uppercase()
}

/// What `{:?}` prints for a string: the quoted, escaped form.
pub uninterp spec fn str_debug_text(s: Seq<char>) -> Seq<char>;

/// The `{:?}` rendering of `s`.
///
/// Trusted: calls `<str as Debug>::fmt` through `format!`. The
/// contract claims only that the result is a function of the
/// characters of `s`; the escaping rules are not stated.
#[verifier::external_body]
pub(crate) fn str_debug(s: &str) -> (r: String)
    ensures
        r@ == str_debug_text(s@),
{
    format!("{:?}", s)
}

} // verus!
