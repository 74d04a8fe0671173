//! Session titles: explicit titles are trimmed; otherwise the title comes
//! from the first non-empty user message.
use vstd::prelude::*;
use crate::llm::Role;
use crate::protocol::Turn;
use crate::text::{chars_of, string_from_chars, push_char};

verus! {

/// Longest derived title, in characters (not bytes).
pub const TITLE_MAX_CHARS: usize = 24;

/// Title of a session that has no better one.
pub const DEFAULT_TITLE: &'static str = "新会话";

/// Unicode `White_Space`, which `char::is_whitespace` and `str::trim` use.
pub open spec fn is_white(c: char) -> bool {
    ||| ('\u{9}' <= c && c <= '\u{d}')
    ||| c == ' '
    ||| c == '\u{85}'
    ||| c == '\u{a0}'
    ||| c == '\u{1680}'
    ||| ('\u{2000}' <= c && c <= '\u{200a}')
    ||| c == '\u{2028}'
    ||| c == '\u{2029}'
    ||| c == '\u{202f}'
    ||| c == '\u{205f}'
    ||| c == '\u{3000}'
}

/// `s` without leading white space.
pub open spec fn trim_start(s: Seq<char>) -> Seq<char>
    decreases s.len(),
{
    if s.len() > 0 && is_white(s[0]) {
        trim_start(s.drop_first())
    } else {
        s
    }
}

/// `s` without trailing white space.
pub open spec fn trim_end(s: Seq<char>) -> Seq<char>
    decreases s.len(),
{
    if s.len() > 0 && is_white(s.last()) {
        trim_end(s.drop_last())
    } else {
        s
    }
}

/// `s` without leading and trailing white space (`str::trim`).
pub open spec fn trim(s: Seq<char>) -> Seq<char> {
    trim_end(trim_start(s))
}

/// Position of the first `'\n'` at or after `i`, or the length.
pub open spec fn line_end_from(s: Seq<char>, i: int) -> int
    decreases s.len() - i,
{
    if i < 0 || i >= s.len() {
        s.len() as int
    } else if s[i] == '\n' {
        i
    } else {
        line_end_from(s, i + 1)
    }
}

/// The first line of a non-empty text as `str::lines` gives it: up to the
/// first `'\n'`, without a final `'\r'`.
pub open spec fn first_line(s: Seq<char>) -> Seq<char> {
    let l = s.subrange(0, line_end_from(s, 0));
    if l.len() > 0 && l.last() == '\r' {
        l.drop_last()
    } else {
        l
    }
}

/// The title a message gives: its first line, trimmed, cut to
/// `TITLE_MAX_CHARS` characters with `…` when it was longer.
pub open spec fn title_of_text(text: Seq<char>) -> Seq<char> {
    let line = trim(first_line(trim(text)));
    if line.len() > TITLE_MAX_CHARS {
        line.subrange(0, TITLE_MAX_CHARS as int).push('…')
    } else {
        line
    }
}

/// The derived title from turn `i` on.
pub open spec fn derive_title_from(turns: Seq<Turn>, i: int) -> Seq<char>
    decreases turns.len() - i,
{
    if i < 0 || i >= turns.len() {
        DEFAULT_TITLE@
    } else if turns[i].role == Role::User && trim(turns[i].text@).len() > 0
        && title_of_text(turns[i].text@).len() > 0 {
        title_of_text(turns[i].text@)
    } else {
        derive_title_from(turns, i + 1)
    }
}

/// The title derived from the first non-empty user message, or the default.
pub open spec fn derive_title(turns: Seq<Turn>) -> Seq<char> {
    derive_title_from(turns, 0)
}

/// The title of a session: a non-blank explicit title, trimmed, or else the
/// derived one.
pub open spec fn normalize_title(title: Option<Seq<char>>, turns: Seq<Turn>) -> Seq<char> {
    match title {
        Some(t) => if trim(t).len() > 0 { trim(t) } else { derive_title(turns) },
        None => derive_title(turns),
    }
}

// ── Lemmas ────────────────────────────────────────────────────────────────

proof fn lemma_trim_start_at(s: Seq<char>, lo: int)
    requires
        0 <= lo <= s.len(),
        forall|k: int| 0 <= k < lo ==> is_white(#[trigger] s[k]),
        lo == s.len() || !is_white(s[lo]),
    ensures
        trim_start(s) == s.subrange(lo, s.len() as int),
    decreases lo,
{
    if lo == 0 {
        assert(s.subrange(0, s.len() as int) =~= s);
    } else {
        let t = s.drop_first();
        assert forall|k: int| 0 <= k < lo - 1 implies is_white(#[trigger] t[k]) by {
            assert(t[k] == s[k + 1]);
        }
        lemma_trim_start_at(t, lo - 1);
        assert(t.subrange(lo - 1, t.len() as int) =~= s.subrange(lo, s.len() as int));
    }
}

proof fn lemma_trim_end_at(s: Seq<char>, hi: int)
    requires
        0 <= hi <= s.len(),
        forall|k: int| hi <= k < s.len() ==> is_white(#[trigger] s[k]),
        hi == 0 || !is_white(s[hi - 1]),
    ensures
        trim_end(s) == s.subrange(0, hi),
    decreases s.len() - hi,
{
    if hi == s.len() {
        assert(s.subrange(0, hi) =~= s);
    } else {
        let t = s.drop_last();
        assert forall|k: int| hi <= k < t.len() implies is_white(#[trigger] t[k]) by {
            assert(t[k] == s[k]);
        }
        lemma_trim_end_at(t, hi);
        assert(t.subrange(0, hi) =~= s.subrange(0, hi));
    }
}

// ── Implementation ────────────────────────────────────────────────────────

/// Whether `c` is Unicode white space.
pub fn is_white_char(c: char) -> (r: bool)
    ensures
        r == is_white(c),
{
    ('\u{9}' <= c && c <= '\u{d}') || c == ' ' || c == '\u{85}' || c == '\u{a0}' || c == '\u{1680}'
        || ('\u{2000}' <= c && c <= '\u{200a}') || c == '\u{2028}' || c == '\u{2029}' || c == '\u{202f}'
        || c == '\u{205f}' || c == '\u{3000}'
}

/// `s` without leading and trailing white space.
pub fn trim_chars(s: &Vec<char>) -> (r: Vec<char>)
    ensures
        r@ == trim(s@),
{
    let n = s.len();
    let mut lo: usize = 0;
    while lo < n && is_white_char(s[lo])
        invariant
            n == s.len(),
            lo <= n,
            forall|k: int| 0 <= k < lo ==> is_white(#[trigger] s@[k]),
        decreases n - lo,
    {
        lo = lo + 1;
    }
    proof {
        lemma_trim_start_at(s@, lo as int);
    }
    let ghost mid = s@.subrange(lo as int, n as int);
    let mut hi: usize = n;
    while hi > lo && is_white_char(s[hi - 1])
        invariant
            n == s.len(),
            lo <= hi <= n,
            mid == s@.subrange(lo as int, n as int),
            forall|k: int| hi <= k < n ==> is_white(#[trigger] s@[k]),
        decreases hi - lo,
    {
        hi = hi - 1;
    }
    proof {
        assert forall|k: int| hi - lo <= k < mid.len() implies is_white(#[trigger] mid[k]) by {
            assert(mid[k] == s@[lo + k]);
        }
        if hi > lo {
            assert(mid[hi - lo - 1] == s@[hi - 1]);
        }
        lemma_trim_end_at(mid, (hi - lo) as int);
    }
    let mut r: Vec<char> = Vec::new();
    let mut i: usize = lo;
    while i < hi
        invariant
            lo <= i <= hi,
            hi <= n,
            n == s.len(),
            r@ == s@.subrange(lo as int, i as int),
        decreases hi - i,
    {
        r.push(s[i]);
        i = i + 1;
        assert(r@ =~= s@.subrange(lo as int, i as int));
    }
    assert(mid.subrange(0, (hi - lo) as int) =~= s@.subrange(lo as int, hi as int));
    r
}

/// The first line of `s`, as `str::lines` gives it.
pub fn first_line_chars(s: &Vec<char>) -> (r: Vec<char>)
    ensures
        r@ == first_line(s@),
{
    let n = s.len();
    let mut k: usize = 0;
    while k < n && s[k] != '\n'
        invariant
            n == s.len(),
            k <= n,
            line_end_from(s@, 0) == line_end_from(s@, k as int),
        decreases n - k,
    {
        k = k + 1;
    }
    let mut end = k;
    if end > 0 && s[end - 1] == '\r' {
        end = end - 1;
    }
    let mut r: Vec<char> = Vec::new();
    let mut i: usize = 0;
    while i < end
        invariant
            i <= end,
            end <= n,
            n == s.len(),
            r@ == s@.subrange(0, i as int),
        decreases end - i,
    {
        r.push(s[i]);
        i = i + 1;
        assert(r@ =~= s@.subrange(0, i as int));
    }
    proof {
        let l = s@.subrange(0, k as int);
        if k > 0 && s@[k - 1] == '\r' {
            assert(l.drop_last() =~= s@.subrange(0, end as int));
        } else {
            assert(l =~= s@.subrange(0, end as int));
        }
    }
    r
}

/// The title a message gives.
pub fn title_of_message(text: &str) -> (r: String)
    ensures
        r@ == title_of_text(text@),
{
    let chars = chars_of(text);
    let trimmed = trim_chars(&chars);
    let line = first_line_chars(&trimmed);
    let line = trim_chars(&line);
    if line.len() > TITLE_MAX_CHARS {
        let mut head: Vec<char> = Vec::new();
        let mut i: usize = 0;
        while i < TITLE_MAX_CHARS
            invariant
                i <= TITLE_MAX_CHARS,
                TITLE_MAX_CHARS < line.len(),
                head@ == line@.subrange(0, i as int),
            decreases TITLE_MAX_CHARS - i,
        {
            head.push(line[i]);
            i = i + 1;
            assert(head@ =~= line@.subrange(0, i as int));
        }
        head.push('…');
        string_from_chars(&head)
    } else {
        string_from_chars(&line)
    }
}

/// Whether a message is a user message with a non-blank text.
fn is_titled_user_turn(turn: &Turn) -> (r: bool)
    ensures
        r == (turn.role == Role::User && trim(turn.text@).len() > 0),
{
    match turn.role {
        Role::User => {
            let chars = chars_of(turn.text.as_str());
            let trimmed = trim_chars(&chars);
            trimmed.len() > 0
        },
        _ => false,
    }
}

/// The title derived from the first non-empty user message, or the default
/// title when there is none.
pub fn derive_title_(turns: &Vec<Turn>) -> (r: String)
    ensures
        r@ == derive_title(turns@),
{
    let mut i: usize = 0;
    while i < turns.len()
        invariant
            i <= turns.len(),
            derive_title(turns@) == derive_title_from(turns@, i as int),
        decreases turns.len() - i,
    {
        let turn = &turns[i];
        if is_titled_user_turn(turn) {
            let title = title_of_message(turn.text.as_str());
            if title.unicode_len() > 0 {
                return title;
            }
        }
        i = i + 1;
    }
    String::from_str(DEFAULT_TITLE)
}

/// The title of a session: the explicit title when it is not blank
/// (trimmed), else the derived title.
pub fn normalize_title_(title: Option<String>, turns: &Vec<Turn>) -> (r: String)
    ensures
        r@ == normalize_title(
            match title {
                Some(t) => Some(t@),
                None => None,
            },
            turns@,
        ),
{
    if let Some(title) = title {
        let chars = chars_of(title.as_str());
        let trimmed = trim_chars(&chars);
        if trimmed.len() > 0 {
            return string_from_chars(&trimmed);
        }
    }
    derive_title_(turns)
}


// ── Laws of derived titles ───────────────────────────────────────────────

proof fn lemma_trim_start_head(s: Seq<char>)
    ensures
        trim_start(s).len() > 0 ==> !is_white(trim_start(s)[0]),
    decreases s.len(),
{
    if s.len() > 0 && is_white(s[0]) {
        lemma_trim_start_head(s.drop_first());
    }
}

proof fn lemma_trim_end_prefix(s: Seq<char>)
    ensures
        trim_end(s).len() <= s.len(),
        trim_end(s) == s.subrange(0, trim_end(s).len() as int),
    decreases s.len(),
{
    if s.len() > 0 && is_white(s.last()) {
        lemma_trim_end_prefix(s.drop_last());
        assert(s.drop_last().subrange(0, trim_end(s).len() as int) =~= s.subrange(0, trim_end(s).len() as int));
    } else {
        assert(s.subrange(0, s.len() as int) =~= s);
    }
}

proof fn lemma_trim_end_keeps_head(s: Seq<char>)
    requires
        s.len() > 0,
        !is_white(s[0]),
    ensures
        trim_end(s).len() > 0,
    decreases s.len(),
{
    if is_white(s.last()) {
        assert(s.len() > 1);
        assert(s.drop_last()[0] == s[0]);
        lemma_trim_end_keeps_head(s.drop_last());
    }
}

/// A non-blank text, trimmed, starts with a character that is not white.
proof fn lemma_trim_head(s: Seq<char>)
    requires
        trim(s).len() > 0,
    ensures
        !is_white(trim(s)[0]),
{
    let u = trim_start(s);
    lemma_trim_start_head(s);
    lemma_trim_end_prefix(u);
    assert(trim(s)[0] == u[0]);
}

proof fn lemma_line_end_bounds(s: Seq<char>, i: int)
    requires
        0 <= i <= s.len(),
    ensures
        i <= line_end_from(s, i) <= s.len(),
    decreases s.len() - i,
{
    if i < s.len() && s[i] != '\n' {
        lemma_line_end_bounds(s, i + 1);
    }
}

/// A non-blank message always gives a non-empty title.
proof fn lemma_title_not_empty(text: Seq<char>)
    requires
        trim(text).len() > 0,
    ensures
        title_of_text(text).len() > 0,
{
    let t = trim(text);
    lemma_trim_head(text);
    lemma_line_end_bounds(t, 1);
    let e = line_end_from(t, 0);
    assert(e >= 1);
    let l = t.subrange(0, e);
    assert(l[0] == t[0]);
    let line = first_line(t);
    if l.len() > 0 && l.last() == '\r' {
        assert(l.len() > 1);
        assert(line[0] == l[0]);
    } else {
        assert(line == l);
    }
    assert(line.len() > 0 && !is_white(line[0]));
    assert(trim_start(line) == line);
    lemma_trim_end_keeps_head(line);
    assert(trim(line).len() > 0);
}

/// The title of a message that the derivation looks at: a user message
/// with a non-blank text.
pub open spec fn is_titled_user(t: Turn) -> bool {
    t.role == Role::User && trim(t.text@).len() > 0
}

proof fn lemma_derive_skip(turns: Seq<Turn>, k: int, i: int)
    requires
        0 <= k <= i <= turns.len(),
        forall|j: int| k <= j < i ==> !is_titled_user(#[trigger] turns[j]),
    ensures
        derive_title_from(turns, k) == derive_title_from(turns, i),
    decreases i - k,
{
    if k < i {
        lemma_derive_skip(turns, k + 1, i);
    }
}

/// The derived title comes from the first user message with a non-blank
/// text: messages of other roles (the assistant's answers, say) and blank
/// user messages before it play no part.
pub proof fn law_title_from_first_user_message(turns: Seq<Turn>, i: int)
    requires
        0 <= i < turns.len(),
        turns[i].role == Role::User,
        trim(turns[i].text@).len() > 0,
        forall|j: int| 0 <= j < i ==> !is_titled_user(#[trigger] turns[j]),
    ensures
        derive_title(turns) == title_of_text(turns[i].text@),
        normalize_title(None, turns) == title_of_text(turns[i].text@),
{
    lemma_derive_skip(turns, 0, i);
    lemma_title_not_empty(turns[i].text@);
}

/// With no user message that has a non-blank text, whatever else the
/// session holds, the derived title is the default one.
pub proof fn law_title_default_without_user_message(turns: Seq<Turn>)
    requires
        forall|j: int| 0 <= j < turns.len() ==> !is_titled_user(#[trigger] turns[j]),
    ensures
        derive_title(turns) == DEFAULT_TITLE@,
        normalize_title(None, turns) == DEFAULT_TITLE@,
{
    lemma_derive_skip(turns, 0, turns.len() as int);
}


proof fn lemma_trim_start_suffix(s: Seq<char>)
    ensures
        trim_start(s).len() <= s.len(),
        trim_start(s) == s.subrange(s.len() - trim_start(s).len(), s.len() as int),
    decreases s.len(),
{
    if s.len() > 0 && is_white(s[0]) {
        lemma_trim_start_suffix(s.drop_first());
        let n = trim_start(s).len();
        assert(s.drop_first().subrange(s.len() - 1 - n, s.len() - 1) =~= s.subrange(s.len() - n, s.len() as int));
    } else {
        assert(s.subrange(0, s.len() as int) =~= s);
    }
}

/// No character of `trim(s)` is a line break unless `s` has one.
proof fn lemma_trim_no_break(s: Seq<char>)
    requires
        forall|k: int| 0 <= k < s.len() ==> s[k] != '\n',
    ensures
        forall|k: int| 0 <= k < trim(s).len() ==> trim(s)[k] != '\n',
{
    let u = trim_start(s);
    lemma_trim_start_suffix(s);
    lemma_trim_end_prefix(u);
    assert forall|k: int| 0 <= k < trim(s).len() implies trim(s)[k] != '\n' by {
        assert(trim(s)[k] == u[k]);
        assert(u[k] == s[s.len() - u.len() + k]);
    }
}

proof fn lemma_line_has_no_break(s: Seq<char>, i: int)
    requires
        0 <= i <= s.len(),
    ensures
        i <= line_end_from(s, i) <= s.len(),
        forall|k: int| i <= k < line_end_from(s, i) ==> s[k] != '\n',
    decreases s.len() - i,
{
    if i < s.len() && s[i] != '\n' {
        lemma_line_has_no_break(s, i + 1);
    }
}

/// A derived title is one line: it holds no line break, and it is at most
/// `TITLE_MAX_CHARS` characters long, plus the `…` that marks a cut.
pub proof fn law_derived_title_is_one_short_line(text: Seq<char>)
    ensures
        title_of_text(text).len() <= TITLE_MAX_CHARS + 1,
        title_of_text(text).len() == TITLE_MAX_CHARS + 1 ==> title_of_text(text).last() == '…',
        forall|k: int| 0 <= k < title_of_text(text).len() ==> title_of_text(text)[k] != '\n',
{
    let t = trim(text);
    lemma_line_has_no_break(t, 0);
    let l = t.subrange(0, line_end_from(t, 0));
    let line = first_line(t);
    assert forall|k: int| 0 <= k < line.len() implies line[k] != '\n' by {
        assert(line[k] == l[k]);
    }
    lemma_trim_no_break(line);
    let tl = trim(line);
    if tl.len() > TITLE_MAX_CHARS {
        let cut = tl.subrange(0, TITLE_MAX_CHARS as int).push('…');
        assert forall|k: int| 0 <= k < cut.len() implies cut[k] != '\n' by {
            if k < TITLE_MAX_CHARS {
                assert(cut[k] == tl[k]);
            }
        }
    }
}

/// A non-blank explicit title wins over anything the messages would give,
/// trimmed.
pub proof fn law_explicit_title_wins(title: Seq<char>, turns: Seq<Turn>, other: Seq<Turn>)
    requires
        trim(title).len() > 0,
    ensures
        normalize_title(Some(title), turns) == trim(title),
        normalize_title(Some(title), turns) == normalize_title(Some(title), other),
{
}

/// A blank explicit title counts as no title: the title is derived from the
/// messages as if none had been given.
pub proof fn law_blank_title_is_no_title(title: Seq<char>, turns: Seq<Turn>)
    requires
        trim(title).len() == 0,
    ensures
        normalize_title(Some(title), turns) == normalize_title(None, turns),
{
}

} // verus!
