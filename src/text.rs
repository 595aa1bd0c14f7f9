//! Text helpers shared by the argument builders: token sequences, decimal
//! rendering and exact string comparison.
use vstd::prelude::*;

verus! {

/// The texts of a sequence of owned strings.
pub open spec fn texts(v: Seq<String>) -> Seq<Seq<char>> {
    v.map_values(|s: String| s@)
}

/// A flag token followed by its value token.
pub open spec fn flag_value(flag: Seq<char>, value: Seq<char>) -> Seq<Seq<char>> {
    seq![flag, value]
}

/// `s` when `c` holds, else the empty text.
pub open spec fn text_when(c: bool, s: Seq<char>) -> Seq<char> {
    if c {
        s
    } else {
        Seq::empty()
    }
}

/// `s` when `c` holds, else no tokens.
#[verifier::opaque]
pub open spec fn tokens_when(c: bool, s: Seq<Seq<char>>) -> Seq<Seq<char>> {
    if c {
        s
    } else {
        Seq::empty()
    }
}

/// The character of a decimal digit.
pub open spec fn digit_char(d: nat) -> char {
    ((d % 10) + 48) as char
}

/// Decimal rendering of a natural number, without leading zeros.
pub open spec fn decimal(n: nat) -> Seq<char>
    decreases n,
{
    if n < 10 {
        seq![digit_char(n)]
    } else {
        decimal(n / 10).push(digit_char(n % 10))
    }
}

/// The parts joined by commas, with no separator at either end.
pub open spec fn join(parts: Seq<Seq<char>>) -> Seq<char>
    decreases parts.len(),
{
    if parts.len() == 0 {
        Seq::empty()
    } else if parts.len() == 1 {
        parts[0]
    } else {
        join(parts.drop_last()).push(',') + parts.last()
    }
}

/// Relies on String::push: the character is added at the end.
#[verifier::external_body]
fn push_char(s: &mut String, c: char)
    ensures
        final(s)@ == old(s)@.push(c),
{
    s.push(c)
}

/// The quoted, escaped form of a text that `Debug` gives.
pub uninterp spec fn debug_text_of(s: Seq<char>) -> Seq<char>;

/// Relies on str's Debug impl: the quoted, escaped form of the text.
#[verifier::external_body]
pub(crate) fn debug_text(s: &str) -> (r: String)
    ensures
        r@ == debug_text_of(s@),
{
    format!("{:?}", s)
}

/// The bracketed list of quoted texts that `Debug` gives for a vector of
/// strings.
pub uninterp spec fn debug_list_of(v: Seq<Seq<char>>) -> Seq<char>;

/// Relies on Vec<String>'s Debug impl: the bracketed list of the quoted
/// texts.
#[verifier::external_body]
pub(crate) fn debug_list(v: &Vec<String>) -> (r: String)
    ensures
        r@ == debug_list_of(texts(v@)),
{
    format!("{:?}", v)
}

/// Appends one token to an argument vector.
pub fn push_token(v: &mut Vec<String>, t: String)
    ensures
        texts(final(v)@) == texts(old(v)@).push(t@),
{
    v.push(t);
    assert(texts(final(v)@) =~= texts(old(v)@).push(t@));
}

/// Appends one token when `on` holds.
pub fn push_token_if(v: &mut Vec<String>, on: bool, t: &str)
    ensures
        texts(final(v)@) == texts(old(v)@) + tokens_when(on, seq![t@]),
{
    reveal(tokens_when);
    if on {
        push_token(v, t.to_owned());
    }
    assert(texts(final(v)@) =~= texts(old(v)@) + tokens_when(on, seq![t@]));
}

/// Appends a flag and its value as two tokens.
pub fn push_pair(v: &mut Vec<String>, flag: &str, value: String)
    ensures
        texts(final(v)@) == texts(old(v)@) + flag_value(flag@, value@),
{
    push_token(v, flag.to_owned());
    push_token(v, value);
    assert(texts(final(v)@) =~= texts(old(v)@) + flag_value(flag@, value@));
}

/// The decimal text of `n`.
pub fn decimal_text(n: u64) -> (r: String)
    ensures
        r@ == decimal(n as nat),
    decreases n,
{
    if n < 10 {
        let mut s = String::new();
        push_char(&mut s, ((n as u8) + 48) as char);
        assert(s@ =~= decimal(n as nat));
        s
    } else {
        let mut s = decimal_text(n / 10);
        push_char(&mut s, (((n % 10) as u8) + 48) as char);
        s
    }
}

/// The parts joined by commas.
pub fn join_comma(parts: &Vec<String>) -> (r: String)
    ensures
        r@ == join(texts(parts@)),
{
    let mut s = String::new();
    let mut i: usize = 0;
    while i < parts.len()
        invariant
            i <= parts@.len(),
            s@ == join(texts(parts@).take(i as int)),
        decreases parts@.len() - i,
    {
        let ghost before = texts(parts@).take(i as int);
        if i > 0 {
            push_char(&mut s, ',');
        }
        s.append(parts[i].as_str());
        proof {
            let after = texts(parts@).take(i + 1);
            assert(after.drop_last() =~= before);
            assert(after.last() == parts@[i as int]@);
            if i == 0 {
                assert(before.len() == 0);
                assert(s@ =~= after[0]);
            }
        }
        i = i + 1;
    }
    assert(texts(parts@).take(parts@.len() as int) =~= texts(parts@));
    s
}

/// Whether two texts are the same character for character.
pub fn same_text(a: &str, b: &str) -> (r: bool)
    ensures
        r == (a@ == b@),
{
    let n = a.unicode_len();
    if n != b.unicode_len() {
        return false;
    }
    let mut i: usize = 0;
    while i < n
        invariant
            n == a@.len(),
            n == b@.len(),
            i <= n,
            a@.subrange(0, i as int) == b@.subrange(0, i as int),
        decreases n - i,
    {
        if a.get_char(i) != b.get_char(i) {
            return false;
        }
        assert(a@.subrange(0, i + 1) =~= a@.subrange(0, i as int).push(a@[i as int]));
        assert(b@.subrange(0, i + 1) =~= b@.subrange(0, i as int).push(b@[i as int]));
        i = i + 1;
    }
    assert(a@ =~= a@.subrange(0, n as int));
    assert(b@ =~= b@.subrange(0, n as int));
    true
}

/// Whether a text equals a given literal.
pub fn is_text(a: &String, lit: &str) -> (r: bool)
    ensures
        r == (a@ == lit@),
{
    same_text(a.as_str(), lit)
}

/// `a` followed by `b`.
pub fn concat(a: &str, b: &str) -> (r: String)
    ensures
        r@ == a@ + b@,
{
    let mut s = a.to_owned();
    s.append(b);
    s
}

} // verus!
