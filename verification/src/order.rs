//! Orders of listings: workspaces by identifier, sessions newest first.
//!
//! Text is compared character by character (by code point), which is the
//! order of `String`'s `Ord` on UTF-8.
use vstd::prelude::*;
use crate::protocol::{SessionSummary, Workspace};
use crate::text::chars_of;
use vstd::multiset::Multiset;

verus! {

broadcast use vstd::seq_lib::group_to_multiset_ensures;

/// Lexicographic order of texts by code point.
pub open spec fn text_lt(a: Seq<char>, b: Seq<char>) -> bool
    decreases a.len(),
{
    if a.len() == 0 {
        b.len() > 0
    } else if b.len() == 0 {
        false
    } else if a[0] < b[0] {
        true
    } else if a[0] > b[0] {
        false
    } else {
        text_lt(a.drop_first(), b.drop_first())
    }
}

/// A sequence in which no element comes before an earlier one.
pub open spec fn sorted_by_lt<T>(s: Seq<T>, lt: spec_fn(T, T) -> bool) -> bool {
    forall|i: int, j: int| 0 <= i < j < s.len() ==> !lt(#[trigger] s[j], #[trigger] s[i])
}

/// A strict order: irreflexive and transitive.
pub open spec fn is_strict_order<T>(lt: spec_fn(T, T) -> bool) -> bool {
    &&& forall|a: T| !#[trigger] lt(a, a)
    &&& forall|a: T, b: T, c: T| #[trigger] lt(a, b) && #[trigger] lt(b, c) ==> lt(a, c)
}

/// Workspaces are listed by identifier.
pub open spec fn workspace_lt(a: Workspace, b: Workspace) -> bool {
    text_lt(a.workspace_id@, b.workspace_id@)
}

/// Sessions are listed newest first, ties by identifier.
pub open spec fn session_lt(a: SessionSummary, b: SessionSummary) -> bool {
    a.updated_at_millis > b.updated_at_millis
        || (a.updated_at_millis == b.updated_at_millis && text_lt(a.session_id@, b.session_id@))
}

pub proof fn lemma_text_lt_irreflexive(a: Seq<char>)
    ensures
        !text_lt(a, a),
    decreases a.len(),
{
    if a.len() > 0 {
        lemma_text_lt_irreflexive(a.drop_first());
    }
}

pub proof fn lemma_text_lt_transitive(a: Seq<char>, b: Seq<char>, c: Seq<char>)
    requires
        text_lt(a, b),
        text_lt(b, c),
    ensures
        text_lt(a, c),
    decreases a.len(),
{
    if a.len() > 0 && b.len() > 0 && c.len() > 0 && a[0] == b[0] && b[0] == c[0] {
        lemma_text_lt_transitive(a.drop_first(), b.drop_first(), c.drop_first());
    }
}

pub proof fn lemma_workspace_order()
    ensures
        is_strict_order(|a: Workspace, b: Workspace| workspace_lt(a, b)),
{
    assert forall|a: Workspace| !workspace_lt(a, a) by {
        lemma_text_lt_irreflexive(a.workspace_id@);
    }
    assert forall|a: Workspace, b: Workspace, c: Workspace|
        workspace_lt(a, b) && workspace_lt(b, c) implies workspace_lt(a, c) by {
        lemma_text_lt_transitive(a.workspace_id@, b.workspace_id@, c.workspace_id@);
    }
}

pub proof fn lemma_session_order()
    ensures
        is_strict_order(|a: SessionSummary, b: SessionSummary| session_lt(a, b)),
{
    assert forall|a: SessionSummary| !session_lt(a, a) by {
        lemma_text_lt_irreflexive(a.session_id@);
    }
    assert forall|a: SessionSummary, b: SessionSummary, c: SessionSummary|
        session_lt(a, b) && session_lt(b, c) implies session_lt(a, c) by {
        if a.updated_at_millis == b.updated_at_millis && b.updated_at_millis == c.updated_at_millis {
            lemma_text_lt_transitive(a.session_id@, b.session_id@, c.session_id@);
        }
    }
}

/// Inserting `x` after every element it does not come before, and before
/// the first one it does come before, keeps a sequence sorted.
pub proof fn lemma_insert_sorted<T>(s: Seq<T>, p: int, x: T, lt: spec_fn(T, T) -> bool)
    requires
        is_strict_order(lt),
        sorted_by_lt(s, lt),
        0 <= p <= s.len(),
        forall|q: int| 0 <= q < p ==> !lt(x, #[trigger] s[q]),
        p == s.len() || lt(x, s[p]),
    ensures
        sorted_by_lt(s.insert(p, x), lt),
{
    let n = s.insert(p, x);
    assert forall|i: int, j: int| 0 <= i < j < n.len() implies !lt(#[trigger] n[j], #[trigger] n[i]) by {
        if j < p {
            assert(n[i] == s[i] && n[j] == s[j]);
        } else if j == p {
            assert(n[i] == s[i]);
        } else if i > p {
            assert(n[i] == s[i - 1] && n[j] == s[j - 1]);
        } else if i == p {
            assert(n[j] == s[j - 1]);
            if lt(s[j - 1], x) {
                assert(lt(x, s[p]));
                assert(lt(s[j - 1], s[p]));
                if j - 1 == p {
                    assert(!lt(s[p], s[p]));
                }
            }
        } else {
            assert(n[i] == s[i] && n[j] == s[j - 1]);
        }
    }
}

/// Texts in code-point order.
pub open spec fn string_lt(a: String, b: String) -> bool {
    text_lt(a@, b@)
}

pub proof fn lemma_string_order()
    ensures
        is_strict_order(|a: String, b: String| string_lt(a, b)),
{
    assert forall|a: String| !string_lt(a, a) by {
        lemma_text_lt_irreflexive(a@);
    }
    assert forall|a: String, b: String, c: String| string_lt(a, b) && string_lt(b, c) implies string_lt(a, c) by {
        lemma_text_lt_transitive(a@, b@, c@);
    }
}

/// Whether `a` comes before `b` in code-point order.
pub fn text_less(a: &str, b: &str) -> (r: bool)
    ensures
        r == text_lt(a@, b@),
{
    let x = chars_of(a);
    let y = chars_of(b);
    let mut i: usize = 0;
    assert(a@.subrange(0, a@.len() as int) =~= a@);
    assert(b@.subrange(0, b@.len() as int) =~= b@);
    while i < x.len() && i < y.len() && x[i] == y[i]
        invariant
            x@ == a@,
            y@ == b@,
            i <= x.len(),
            i <= y.len(),
            text_lt(a@, b@) == text_lt(a@.subrange(i as int, a@.len() as int), b@.subrange(i as int, b@.len() as int)),
        decreases x.len() - i,
    {
        proof {
            let sa = a@.subrange(i as int, a@.len() as int);
            let sb = b@.subrange(i as int, b@.len() as int);
            assert(sa.drop_first() =~= a@.subrange(i + 1, a@.len() as int));
            assert(sb.drop_first() =~= b@.subrange(i + 1, b@.len() as int));
        }
        i = i + 1;
    }
    proof {
        let sa = a@.subrange(i as int, a@.len() as int);
        let sb = b@.subrange(i as int, b@.len() as int);
        if i < x.len() && i < y.len() {
            assert(sa[0] == x@[i as int] && sb[0] == y@[i as int]);
        }
    }
    if i >= x.len() {
        i < y.len()
    } else if i >= y.len() {
        false
    } else {
        x[i] < y[i]
    }
}

/// Whether session `a` is listed before session `b`.
pub fn session_less(a: &SessionSummary, b: &SessionSummary) -> (r: bool)
    ensures
        r == session_lt(*a, *b),
{
    a.updated_at_millis > b.updated_at_millis
        || (a.updated_at_millis == b.updated_at_millis && text_less(a.session_id.as_str(), b.session_id.as_str()))
}

/// The workspaces ordered by identifier (a stable insertion sort).
pub fn sort_workspaces(v: Vec<Workspace>) -> (r: Vec<Workspace>)
    ensures
        r@.to_multiset() == v@.to_multiset(),
        sorted_by_lt(r@, |a: Workspace, b: Workspace| workspace_lt(a, b)),
        forall|i: int, j: int|
            0 <= i < j < r@.len() ==> !text_lt(#[trigger] r@[j].workspace_id@, #[trigger] r@[i].workspace_id@),
{
    let ghost lt = |a: Workspace, b: Workspace| workspace_lt(a, b);
    proof {
        lemma_workspace_order();
    }
    let ghost orig = v@;
    let mut rest = v;
    let mut out: Vec<Workspace> = Vec::new();
    while rest.len() > 0
        invariant
            is_strict_order(lt),
            lt == (|a: Workspace, b: Workspace| workspace_lt(a, b)),
            out@.to_multiset().add(rest@.to_multiset()) == orig.to_multiset(),
            sorted_by_lt(out@, lt),
        decreases rest.len(),
    {
        let ghost before_rest = rest@;
        let x = rest.remove(0);
        proof {
            assert(before_rest.to_multiset() == rest@.to_multiset().insert(x)) by {
                assert(before_rest == rest@.insert(0, x));
            }
        }
        let mut p: usize = 0;
        while p < out.len() && !text_less(x.workspace_id.as_str(), out[p].workspace_id.as_str())
            invariant
                p <= out.len(),
                lt == (|a: Workspace, b: Workspace| workspace_lt(a, b)),
                forall|q: int| 0 <= q < p ==> !lt(x, #[trigger] out@[q]),
            decreases out.len() - p,
        {
            p = p + 1;
        }
        let ghost before_out = out@;
        proof {
            lemma_insert_sorted(before_out, p as int, x, lt);
        }
        out.insert(p, x);
        proof {
            assert(out@.to_multiset() == before_out.to_multiset().insert(x));
            assert(out@.to_multiset().add(rest@.to_multiset()) =~= orig.to_multiset());
        }
    }
    assert(rest@.to_multiset() =~= Multiset::empty());
    assert(out@.to_multiset() =~= orig.to_multiset());
    assert forall|i: int, j: int| 0 <= i < j < out@.len() implies !text_lt(
        #[trigger] out@[j].workspace_id@,
        #[trigger] out@[i].workspace_id@,
    ) by {
        assert(!workspace_lt(out@[j], out@[i]));
    }
    out
}

/// The sessions ordered newest first, ties by identifier (a stable
/// insertion sort).
pub fn sort_sessions(v: Vec<SessionSummary>) -> (r: Vec<SessionSummary>)
    ensures
        r@.to_multiset() == v@.to_multiset(),
        sorted_by_lt(r@, |a: SessionSummary, b: SessionSummary| session_lt(a, b)),
        forall|i: int, j: int|
            0 <= i < j < r@.len() ==> #[trigger] r@[i].updated_at_millis >= #[trigger] r@[j].updated_at_millis,
{
    let ghost lt = |a: SessionSummary, b: SessionSummary| session_lt(a, b);
    proof {
        lemma_session_order();
    }
    let ghost orig = v@;
    let mut rest = v;
    let mut out: Vec<SessionSummary> = Vec::new();
    while rest.len() > 0
        invariant
            is_strict_order(lt),
            lt == (|a: SessionSummary, b: SessionSummary| session_lt(a, b)),
            out@.to_multiset().add(rest@.to_multiset()) == orig.to_multiset(),
            sorted_by_lt(out@, lt),
        decreases rest.len(),
    {
        let ghost before_rest = rest@;
        let x = rest.remove(0);
        proof {
            assert(before_rest.to_multiset() == rest@.to_multiset().insert(x)) by {
                assert(before_rest == rest@.insert(0, x));
            }
        }
        let mut p: usize = 0;
        while p < out.len() && !session_less(&x, &out[p])
            invariant
                p <= out.len(),
                lt == (|a: SessionSummary, b: SessionSummary| session_lt(a, b)),
                forall|q: int| 0 <= q < p ==> !lt(x, #[trigger] out@[q]),
            decreases out.len() - p,
        {
            p = p + 1;
        }
        let ghost before_out = out@;
        proof {
            lemma_insert_sorted(before_out, p as int, x, lt);
        }
        out.insert(p, x);
        proof {
            assert(out@.to_multiset() == before_out.to_multiset().insert(x));
            assert(out@.to_multiset().add(rest@.to_multiset()) =~= orig.to_multiset());
        }
    }
    assert(rest@.to_multiset() =~= Multiset::empty());
    assert(out@.to_multiset() =~= orig.to_multiset());
    proof {
        law_sessions_newest_first(out@);
    }
    out
}

/// The texts in code-point order (a stable insertion sort).
pub fn sort_texts(v: Vec<String>) -> (r: Vec<String>)
    ensures
        r@.to_multiset() == v@.to_multiset(),
        sorted_by_lt(r@, |a: String, b: String| string_lt(a, b)),
{
    let ghost lt = |a: String, b: String| string_lt(a, b);
    proof {
        lemma_string_order();
    }
    let ghost orig = v@;
    let mut rest = v;
    let mut out: Vec<String> = Vec::new();
    while rest.len() > 0
        invariant
            is_strict_order(lt),
            lt == (|a: String, b: String| string_lt(a, b)),
            out@.to_multiset().add(rest@.to_multiset()) == orig.to_multiset(),
            sorted_by_lt(out@, lt),
        decreases rest.len(),
    {
        let ghost before_rest = rest@;
        let x = rest.remove(0);
        proof {
            assert(before_rest.to_multiset() == rest@.to_multiset().insert(x)) by {
                assert(before_rest == rest@.insert(0, x));
            }
        }
        let mut p: usize = 0;
        while p < out.len() && !text_less(x.as_str(), out[p].as_str())
            invariant
                p <= out.len(),
                lt == (|a: String, b: String| string_lt(a, b)),
                forall|q: int| 0 <= q < p ==> !lt(x, #[trigger] out@[q]),
            decreases out.len() - p,
        {
            p = p + 1;
        }
        let ghost before_out = out@;
        proof {
            lemma_insert_sorted(before_out, p as int, x, lt);
        }
        out.insert(p, x);
        proof {
            assert(out@.to_multiset() == before_out.to_multiset().insert(x));
            assert(out@.to_multiset().add(rest@.to_multiset()) =~= orig.to_multiset());
        }
    }
    assert(rest@.to_multiset() =~= Multiset::empty());
    assert(out@.to_multiset() =~= orig.to_multiset());
    out
}


/// Sessions listed in their order come newest first: the activity time
/// never increases along the list, and sessions active at the same moment
/// come by identifier.
pub proof fn law_sessions_newest_first(s: Seq<SessionSummary>)
    requires
        sorted_by_lt(s, |a: SessionSummary, b: SessionSummary| session_lt(a, b)),
    ensures
        forall|i: int, j: int|
            0 <= i < j < s.len() ==> #[trigger] s[i].updated_at_millis >= #[trigger] s[j].updated_at_millis,
        forall|i: int, j: int|
            0 <= i < j < s.len() && s[i].updated_at_millis == s[j].updated_at_millis ==> !text_lt(
                #[trigger] s[j].session_id@,
                #[trigger] s[i].session_id@,
            ),
{
    assert forall|i: int, j: int| 0 <= i < j < s.len() implies #[trigger] s[i].updated_at_millis
        >= #[trigger] s[j].updated_at_millis by {
        assert(!session_lt(s[j], s[i]));
    }
    assert forall|i: int, j: int|
        0 <= i < j < s.len() && s[i].updated_at_millis == s[j].updated_at_millis implies !text_lt(
            #[trigger] s[j].session_id@,
            #[trigger] s[i].session_id@,
        ) by {
        assert(!session_lt(s[j], s[i]));
    }
}


/// Texts are ordered by code points: after a common beginning, the first
/// differing character decides, whatever follows it.
pub proof fn law_text_order_by_first_difference(p: Seq<char>, c: char, d: char, x: Seq<char>, y: Seq<char>)
    requires
        c < d,
    ensures
        text_lt(p + seq![c] + x, p + seq![d] + y),
        !text_lt(p + seq![d] + y, p + seq![c] + x),
    decreases p.len(),
{
    let a = p + seq![c] + x;
    let b = p + seq![d] + y;
    if p.len() > 0 {
        law_text_order_by_first_difference(p.drop_first(), c, d, x, y);
        assert(a.drop_first() =~= p.drop_first() + seq![c] + x);
        assert(b.drop_first() =~= p.drop_first() + seq![d] + y);
        assert(a[0] == b[0]);
    } else {
        assert(a[0] == c && b[0] == d);
    }
}

/// A text comes before every longer text that begins with it.
pub proof fn law_text_prefix_comes_first(a: Seq<char>, b: Seq<char>)
    requires
        b.len() > 0,
    ensures
        text_lt(a, a + b),
        !text_lt(a + b, a),
    decreases a.len(),
{
    let ab = a + b;
    if a.len() > 0 {
        law_text_prefix_comes_first(a.drop_first(), b);
        assert(ab.drop_first() =~= a.drop_first() + b);
        assert(ab[0] == a[0]);
    }
}

} // verus!
