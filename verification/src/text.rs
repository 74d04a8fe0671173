//! Small string helpers with exact contracts over `Seq<char>`.
use vstd::prelude::*;

verus! {

/// The views of a sequence of strings.
pub open spec fn strs(v: Seq<String>) -> Seq<Seq<char>> {
    v.map_values(|s: String| s@)
}

/// Whether two string slices hold the same characters.
pub fn str_eq(a: &str, b: &str) -> (r: bool)
    ensures
        r == (a@ == b@),
{
    a.to_owned() == b.to_owned()
}

/// Appends one character: `String::push`.
///
/// Trusted: std documents that `push` appends the given `char` to the end
/// of the string.
#[verifier::external_body]
pub(crate) fn push_char(s: &mut String, c: char)
    ensures
        final(s)@ == old(s)@.push(c),
{
    s.push(c)
}

/// The characters of a string slice.
pub fn chars_of(s: &str) -> (v: Vec<char>)
    ensures
        v@ == s@,
{
    let n = s.unicode_len();
    let mut v: Vec<char> = Vec::new();
    let mut i: usize = 0;
    while i < n
        invariant
            n == s@.len(),
            0 <= i <= n,
            v@ == s@.subrange(0, i as int),
        decreases n - i,
    {
        let c = s.get_char(i);
        v.push(c);
        i = i + 1;
        assert(v@ =~= s@.subrange(0, i as int));
    }
    assert(v@ =~= s@);
    v
}

/// The string made of the given characters.
pub fn string_from_chars(v: &Vec<char>) -> (s: String)
    ensures
        s@ == v@,
{
    let mut s = String::new();
    let mut i: usize = 0;
    while i < v.len()
        invariant
            0 <= i <= v.len(),
            s@ == v@.subrange(0, i as int),
        decreases v.len() - i,
    {
        push_char(&mut s, v[i]);
        i = i + 1;
        assert(s@ =~= v@.subrange(0, i as int));
    }
    assert(s@ =~= v@);
    s
}

/// `a` followed by `b`.
pub fn concat2(a: &str, b: &str) -> (s: String)
    ensures
        s@ == a@ + b@,
{
    let mut s = String::from_str(a);
    s.append(b);
    s
}

/// `a`, `b` and `c` in turn.
pub fn concat3(a: &str, b: &str, c: &str) -> (s: String)
    ensures
        s@ == a@ + b@ + c@,
{
    let mut s = String::from_str(a);
    s.append(b);
    s.append(c);
    s
}

/// The characters of `s` from position `from` on.
pub fn skip_chars(s: &str, from: usize) -> (r: String)
    requires
        from <= s@.len(),
    ensures
        r@ == s@.subrange(from as int, s@.len() as int),
{
    let n = s.unicode_len();
    s.substring_char(from, n).to_owned()
}

/// Whether the first character is `c`.
pub fn first_char_is(s: &str, c: char) -> (r: bool)
    ensures
        r == (s@.len() > 0 && s@[0] == c),
{
    let n = s.unicode_len();
    if n == 0 {
        false
    } else {
        s.get_char(0) == c
    }
}

/// Whether the second character is `c`.
pub fn second_char_is(s: &str, c: char) -> (r: bool)
    ensures
        r == (s@.len() > 1 && s@[1] == c),
{
    let n = s.unicode_len();
    if n <= 1 {
        false
    } else {
        s.get_char(1) == c
    }
}

/// A copy of every string of the vector from `start` on.
pub fn tail_from(v: &Vec<String>, start: usize) -> (r: Vec<String>)
    requires
        start <= v.len(),
    ensures
        strs(r@) == strs(v@).subrange(start as int, v@.len() as int),
{
    let mut r: Vec<String> = Vec::new();
    let mut i: usize = start;
    while i < v.len()
        invariant
            start <= i <= v.len(),
            r@.len() == i - start,
            forall|k: int| 0 <= k < r@.len() ==> (#[trigger] r@[k])@ == v@[start + k]@,
        decreases v.len() - i,
    {
        let item = v[i].clone();
        r.push(item);
        i = i + 1;
    }
    assert(strs(r@) =~= strs(v@).subrange(start as int, v@.len() as int));
    r
}


/// The decimal digit character of `d` (`0 <= d < 10`).
pub open spec fn digit_char(d: nat) -> char {
    (('0' as nat) + d) as char
}

/// The decimal rendering of `n`, without leading zeros.
pub open spec fn decimal(n: nat) -> Seq<char>
    decreases n,
{
    if n < 10 {
        seq![digit_char(n)]
    } else {
        decimal(n / 10).push(digit_char(n % 10))
    }
}

/// `s` padded on the left with `'0'` up to `width` characters.
pub open spec fn zero_pad(s: Seq<char>, width: nat) -> Seq<char> {
    if s.len() >= width {
        s
    } else {
        Seq::new((width - s.len()) as nat, |i: int| '0') + s
    }
}

/// The digit character of `d`.
pub fn digit_of(d: u64) -> (c: char)
    requires
        d < 10,
    ensures
        c == digit_char(d as nat),
{
    let b: u8 = 48u8 + (d as u8);
    let c = b as char;
    assert(c == digit_char(d as nat));
    c
}

/// The decimal rendering of `n`.
pub fn decimal_string(n: u64) -> (s: String)
    ensures
        s@ == decimal(n as nat),
{
    let mut rev: Vec<char> = Vec::new();
    let mut m: u64 = n;
    let ghost mut done: Seq<char> = Seq::empty();
    // `rev` holds the low digits of `n`, least significant first.
    while m >= 10
        invariant
            decimal(n as nat) == decimal(m as nat) + rev@.reverse(),
        decreases m,
    {
        let d = m % 10;
        let c = digit_of(d);
        let ghost before = rev@;
        rev.push(c);
        proof {
            assert(decimal(m as nat) == decimal((m / 10) as nat).push(digit_char((m % 10) as nat)));
            assert(rev@.reverse() =~= seq![c] + before.reverse());
            assert(decimal(m as nat) + before.reverse() =~= decimal((m / 10) as nat) + rev@.reverse());
        }
        m = m / 10;
    }
    let c = digit_of(m);
    let ghost before = rev@;
    rev.push(c);
    proof {
        assert(rev@.reverse() =~= seq![c] + before.reverse());
        assert(decimal(n as nat) =~= rev@.reverse());
    }
    let mut out: Vec<char> = Vec::new();
    let mut i: usize = rev.len();
    while i > 0
        invariant
            i <= rev.len(),
            out@ == rev@.reverse().subrange(0, (rev.len() - i) as int),
        decreases i,
    {
        i = i - 1;
        out.push(rev[i]);
        assert(out@ =~= rev@.reverse().subrange(0, (rev.len() - i) as int));
    }
    assert(out@ =~= rev@.reverse());
    string_from_chars(&out)
}

/// The decimal rendering of `n`, zero-padded to `width` characters.
pub fn decimal_padded(n: u64, width: usize) -> (s: String)
    ensures
        s@ == zero_pad(decimal(n as nat), width as nat),
{
    let digits = decimal_string(n);
    let len = digits.unicode_len();
    if len >= width {
        digits
    } else {
        let mut out = String::new();
        let mut k: usize = 0;
        while k < width - len
            invariant
                len < width,
                k <= width - len,
                out@ == Seq::new(k as nat, |i: int| '0'),
            decreases width - len - k,
        {
            push_char(&mut out, '0');
            k = k + 1;
            assert(out@ =~= Seq::new(k as nat, |i: int| '0'));
        }
        out.append(digits.as_str());
        out
    }
}

/// An exact copy of an optional string.
pub fn clone_opt(o: &Option<String>) -> (r: Option<String>)
    ensures
        r == *o,
{
    match o {
        Some(s) => Some(s.clone()),
        None => None,
    }
}

} // verus!
