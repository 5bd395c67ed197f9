//! Text helpers the evaluator needs: building strings from characters,
//! concatenation, lexicographic comparison, removal of every occurrence of a
//! substring, and decimal rendering of counts.
use vstd::prelude::*;

verus! {

/// Relies on `Iterator::collect` for `String`: the string of exactly the
/// given characters in order.
#[verifier::external_body]
pub fn string_from_chars(v: &Vec<char>) -> (r: String)
    ensures
        r@ == v@,
{
    v.iter().collect()
}

/// Concatenation of a string and a string slice.
pub fn strcat(a: String, b: &str) -> (r: String)
    ensures
        r@ == a@ + b@,
{
    let mut a = a;
    a.append(b);
    a
}

/// What is left of `s` after removing every occurrence of `t`, scanning from
/// the left and never rescanning removed text; removing the empty string
/// leaves `s` as it is.
pub open spec fn remove_all(s: Seq<char>, t: Seq<char>) -> Seq<char>
    decreases s.len(),
{
    if t.len() == 0 {
        s
    } else if s.len() < t.len() {
        s
    } else if s.subrange(0, t.len() as int) == t {
        remove_all(s.skip(t.len() as int), t)
    } else {
        seq![s[0]] + remove_all(s.skip(1), t)
    }
}

/// Relies on `str::replace` with an empty replacement: it removes each
/// non-overlapping occurrence of the pattern, scanning left to right, and
/// with an empty pattern inserts nothing.
#[verifier::external_body]
pub fn remove_occurrences(s: &str, t: &str) -> (r: String)
    ensures
        r@ == remove_all(s@, t@),
{
    s.replace(t, "")
}

/// Lexicographic order on character sequences, by code point; a proper
/// prefix comes first. `str` comparison in the host orders the same way,
/// since UTF-8 byte order agrees with code-point order.
pub open spec fn lex_lt(a: Seq<char>, b: Seq<char>) -> bool
    decreases a.len(),
{
    if b.len() == 0 {
        false
    } else if a.len() == 0 {
        true
    } else if a[0] != b[0] {
        (a[0] as u32) < (b[0] as u32)
    } else {
        lex_lt(a.skip(1), b.skip(1))
    }
}

proof fn lemma_lex_skip(a: Seq<char>, b: Seq<char>, i: int)
    requires
        0 <= i <= a.len(),
        i <= b.len(),
        forall|k: int| 0 <= k < i ==> a[k] == b[k],
    ensures
        lex_lt(a, b) == lex_lt(a.skip(i), b.skip(i)),
    decreases i,
{
    if i > 0 {
        assert(a[0] == b[0]);
        assert forall|k: int| 0 <= k < i - 1 implies #[trigger] a.skip(1)[k] == b.skip(1)[k] by {
            assert(a[k + 1] == b[k + 1]);
        }
        lemma_lex_skip(a.skip(1), b.skip(1), i - 1);
        assert(a.skip(1).skip(i - 1) =~= a.skip(i));
        assert(b.skip(1).skip(i - 1) =~= b.skip(i));
    } else {
        assert(a.skip(0) =~= a);
        assert(b.skip(0) =~= b);
    }
}

/// Decides lexicographic order of two strings by comparing characters.
pub fn str_lex_lt(a: &str, b: &str) -> (r: bool)
    ensures
        r == lex_lt(a@, b@),
{
    let alen = a.unicode_len();
    let blen = b.unicode_len();
    let mut i: usize = 0;
    loop
        invariant
            i <= alen,
            i <= blen,
            alen == a@.len(),
            blen == b@.len(),
            forall|k: int| 0 <= k < i ==> a@[k] == b@[k],
        decreases alen - i,
    {
        proof {
            lemma_lex_skip(a@, b@, i as int);
        }
        if i >= alen {
            assert(a@.skip(i as int) =~= Seq::<char>::empty());
            return alen < blen;
        }
        if i >= blen {
            assert(b@.skip(i as int) =~= Seq::<char>::empty());
            return false;
        }
        let ca = a.get_char(i);
        let cb = b.get_char(i);
        assert(a@.skip(i as int)[0] == a@[i as int]);
        assert(b@.skip(i as int)[0] == b@[i as int]);
        if ca != cb {
            return (ca as u32) < (cb as u32);
        }
        i = i + 1;
    }
}

proof fn lemma_rev_push(v: Seq<char>, d: char)
    ensures
        v.push(d).reverse() == seq![d] + v.reverse(),
{
    assert(v.push(d).reverse() =~= seq![d] + v.reverse());
}

/// Whether a character occurs in a sequence.
pub open spec fn has_char(s: Seq<char>, c: char) -> bool {
    exists|i: int| 0 <= i < s.len() && s[i] == c
}

/// Decides whether a character occurs in a string.
pub fn str_has_char(s: &str, c: char) -> (r: bool)
    ensures
        r == has_char(s@, c),
{
    let n = s.unicode_len();
    let mut i: usize = 0;
    while i < n
        invariant
            i <= n,
            n == s@.len(),
            forall|j: int| 0 <= j < i ==> s@[j] != c,
        decreases n - i,
    {
        if s.get_char(i) == c {
            return true;
        }
        i = i + 1;
    }
    false
}

/// The character for one decimal digit.
pub open spec fn digit_char(d: nat) -> char {
    if d == 0 {
        '0'
    } else if d == 1 {
        '1'
    } else if d == 2 {
        '2'
    } else if d == 3 {
        '3'
    } else if d == 4 {
        '4'
    } else if d == 5 {
        '5'
    } else if d == 6 {
        '6'
    } else if d == 7 {
        '7'
    } else if d == 8 {
        '8'
    } else {
        '9'
    }
}

/// The decimal numeral of a non-negative integer, most significant digit
/// first.
pub open spec fn dec_chars(n: nat) -> Seq<char>
    decreases n,
{
    if n < 10 {
        seq![digit_char(n)]
    } else {
        dec_chars(n / 10) + seq![digit_char(n % 10)]
    }
}

fn digit_char_exec(d: u64) -> (r: char)
    requires
        d < 10,
    ensures
        r == digit_char(d as nat),
{
    match d {
        0 => '0',
        1 => '1',
        2 => '2',
        3 => '3',
        4 => '4',
        5 => '5',
        6 => '6',
        7 => '7',
        8 => '8',
        _ => '9',
    }
}

/// Renders a count in decimal.
pub fn dec_string(n: u64) -> (r: String)
    ensures
        r@ == dec_chars(n as nat),
{
    let mut digits: Vec<char> = Vec::new();
    let mut m: u64 = n;
    loop
        invariant_except_break
            dec_chars(n as nat) == dec_chars(m as nat) + digits@.reverse(),
        ensures
            dec_chars(n as nat) == digits@.reverse(),
        decreases m,
    {
        let d = digit_char_exec(m % 10);
        let ghost pre = digits@;
        digits.push(d);
        proof {
            lemma_rev_push(pre, d);
        }
        if m < 10 {
            assert(dec_chars(m as nat) == seq![digit_char((m % 10) as nat)]);
            break;
        }
        m = m / 10;
    }
    let mut out: Vec<char> = Vec::new();
    let mut i: usize = digits.len();
    while i > 0
        invariant
            i <= digits@.len(),
            out@ == digits@.skip(i as int).reverse(),
        decreases i,
    {
        i = i - 1;
        out.push(digits[i]);
        proof {
            assert(digits@.skip(i as int).reverse() =~= digits@.skip(i + 1).reverse().push(
                digits@[i as int],
            ));
        }
    }
    proof {
        assert(digits@.skip(0) =~= digits@);
    }
    string_from_chars(&out)
}

} // verus!
