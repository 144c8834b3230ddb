use vstd::prelude::*;

verus! {

/// One of the four selectable character categories.
#[derive(Clone, Copy, Debug, PartialEq, Eq, Structural)]
pub enum Charset {
    Upper,
    Lower,
    Digits,
    Symbols,
}

/// The `n` characters whose code points follow on from `first`.
pub open spec fn span(first: char, n: nat) -> Seq<char> {
    Seq::new(n, |i: int| ((first as u32) + i) as u32 as char)
}

/// `A` to `Z`.
pub open spec fn upper_chars() -> Seq<char> {
    span('A', 26)
}

/// `a` to `z`.
pub open spec fn lower_chars() -> Seq<char> {
    span('a', 26)
}

/// `0` to `9`.
pub open spec fn digit_chars() -> Seq<char> {
    span('0', 10)
}

/// The fixed symbol set, in pool order.
pub open spec fn symbol_chars() -> Seq<char> {
    seq!['!', '@', '#', '$', '%', '&', '*', '+', '-', '[', ']', '(', ')', '{', '}']
}

/// The characters of one charset, in pool order.
pub open spec fn chars_of(c: Charset) -> Seq<char> {
    match c {
        Charset::Upper => upper_chars(),
        Charset::Lower => lower_chars(),
        Charset::Digits => digit_chars(),
        Charset::Symbols => symbol_chars(),
    }
}

/// `c` belongs to charset `set`.
pub open spec fn in_charset(c: char, set: Charset) -> bool {
    match set {
        Charset::Upper => ('A' as u32) <= (c as u32) <= ('Z' as u32),
        Charset::Lower => ('a' as u32) <= (c as u32) <= ('z' as u32),
        Charset::Digits => ('0' as u32) <= (c as u32) <= ('9' as u32),
        Charset::Symbols => symbol_chars().contains(c),
    }
}

/// `c` belongs to one of the charsets that the flags enable.
pub open spec fn in_enabled(upper: bool, lower: bool, num: bool, sym: bool, c: char) -> bool {
    ||| upper && in_charset(c, Charset::Upper)
    ||| lower && in_charset(c, Charset::Lower)
    ||| num && in_charset(c, Charset::Digits)
    ||| sym && in_charset(c, Charset::Symbols)
}

/// The characters of `set` when `on` holds, else none.
pub open spec fn chars_if(on: bool, set: Seq<char>) -> Seq<char> {
    if on {
        set
    } else {
        Seq::empty()
    }
}

/// The pool: the enabled charsets concatenated as upper, lower, digits, symbols.
pub open spec fn pool_of(upper: bool, lower: bool, num: bool, sym: bool) -> Seq<char> {
    chars_if(upper, upper_chars()) + chars_if(lower, lower_chars()) + chars_if(num, digit_chars())
        + chars_if(sym, symbol_chars())
}

/// A span holds exactly the characters whose code points lie in its range.
proof fn lemma_span_members(first: char, n: nat, c: char)
    requires
        (first as u32) + n <= 128,
    ensures
        span(first, n).contains(c) <==> (first as u32) <= (c as u32) && (c as u32) < (first as u32)
            + n,
{
    if (first as u32) <= (c as u32) && (c as u32) < (first as u32) + n {
        let i: int = (c as u32) - (first as u32);
        assert(span(first, n)[i] == c);
    }
}

/// Each charset's characters, in pool order, are exactly its members.
pub proof fn lemma_charset_members(set: Charset, c: char)
    ensures
        chars_of(set).contains(c) <==> in_charset(c, set),
{
    match set {
        Charset::Upper => lemma_span_members('A', 26, c),
        Charset::Lower => lemma_span_members('a', 26, c),
        Charset::Digits => lemma_span_members('0', 10, c),
        Charset::Symbols => {},
    }
}

/// The pool holds a character if and only if it belongs to an enabled
/// charset: a disabled charset contributes nothing.
pub proof fn lemma_pool_members(upper: bool, lower: bool, num: bool, sym: bool, c: char)
    ensures
        pool_of(upper, lower, num, sym).contains(c) <==> in_enabled(upper, lower, num, sym, c),
{
    lemma_charset_members(Charset::Upper, c);
    lemma_charset_members(Charset::Lower, c);
    lemma_charset_members(Charset::Digits, c);
    lemma_charset_members(Charset::Symbols, c);
    let a = chars_if(upper, upper_chars());
    let b = chars_if(lower, lower_chars());
    let d = chars_if(num, digit_chars());
    let e = chars_if(sym, symbol_chars());
    lemma_concat_members(a, b, c);
    lemma_concat_members(a + b, d, c);
    lemma_concat_members(a + b + d, e, c);
}

/// No character belongs to two charsets.
pub proof fn lemma_charsets_disjoint(c: char, a: Charset, b: Charset)
    requires
        in_charset(c, a),
        in_charset(c, b),
    ensures
        a == b,
{
    let v = c as u32;
    if a == Charset::Symbols || b == Charset::Symbols {
        let i = choose|i: int| 0 <= i < symbol_chars().len() && symbol_chars()[i] == c;
        assert(v == 33 || v == 64 || v == 35 || v == 36 || v == 37 || v == 38 || v == 42 || v == 43
            || v == 45 || v == 91 || v == 93 || v == 40 || v == 41 || v == 123 || v == 125);
    }
}

/// A concatenation holds exactly what either part holds.
proof fn lemma_concat_members(a: Seq<char>, b: Seq<char>, c: char)
    ensures
        (a + b).contains(c) <==> a.contains(c) || b.contains(c),
{
    if a.contains(c) {
        let i = choose|i: int| 0 <= i < a.len() && a[i] == c;
        assert((a + b)[i] == c);
    }
    if b.contains(c) {
        let i = choose|i: int| 0 <= i < b.len() && b[i] == c;
        assert((a + b)[a.len() + i] == c);
    }
    if (a + b).contains(c) {
        let i = choose|i: int| 0 <= i < (a + b).len() && (a + b)[i] == c;
        if i < a.len() {
            assert(a[i] == c);
        } else {
            assert(b[i - a.len()] == c);
        }
    }
}

/// Appends the characters from `first` to `last` (both included) to `v`.
fn push_span(v: &mut Vec<char>, first: u8, last: u8)
    requires
        first <= last,
        last < 128,
    ensures
        final(v)@ == old(v)@ + span(first as char, (last - first + 1) as nat),
{
    let mut b: u8 = first;
    while b <= last
        invariant
            first <= b <= last + 1,
            last < 128,
            v@ == old(v)@ + span(first as char, (b - first) as nat),
        decreases last + 1 - b,
    {
        v.push(b as char);
        proof {
            assert(v@ =~= old(v)@ + span(first as char, (b + 1 - first) as nat));
        }
        b = b + 1;
    }
}

/// Builds the pool for the given charset selection.
pub fn build_pool(upper: bool, lower: bool, num: bool, sym: bool) -> (pool: Vec<char>)
    ensures
        pool@ == pool_of(upper, lower, num, sym),
{
    let mut pool: Vec<char> = Vec::with_capacity(77);
    if upper {
        push_span(&mut pool, 65, 90);
    }
    assert(pool@ =~= chars_if(upper, upper_chars()));
    if lower {
        push_span(&mut pool, 97, 122);
    }
    assert(pool@ =~= chars_if(upper, upper_chars()) + chars_if(lower, lower_chars()));
    if num {
        push_span(&mut pool, 48, 57);
    }
    assert(pool@ =~= chars_if(upper, upper_chars()) + chars_if(lower, lower_chars()) + chars_if(
        num,
        digit_chars(),
    ));
    if sym {
        let mut symbols: Vec<char> = vec![
            '!', '@', '#', '$', '%', '&', '*', '+', '-', '[', ']', '(', ')', '{', '}',
        ];
        pool.append(&mut symbols);
    }
    assert(pool@ =~= pool_of(upper, lower, num, sym));
    pool
}

} // verus!
