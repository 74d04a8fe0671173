//! Rendezvous of the IPC endpoint: the name file
//! `<runtime_dir>/kb-<YYYYMMDD>-<uuid>.ipc` that a `kb_core` instance owns,
//! how clients pick one, and what a name file's content means.
use vstd::prelude::*;
use crate::args::{join_path, join_path_str};
use crate::calendar::{civil_from_days, days_from_civil, is_compact_day, today_utc_compact, utc_day_of, valid_date};
use crate::ids::{is_simple_uuid, new_uuid_simple};
use crate::order::{sort_texts, sorted_by_lt, string_lt};
use crate::text::{chars_of, concat3, string_from_chars};
use crate::title::{trim, trim_chars};

verus! {

broadcast use vstd::seq_lib::group_to_multiset_ensures;

/// Prefix of a name file's name.
pub const NAME_FILE_PREFIX: &'static str = "kb-";

/// Extension of a name file (without the dot).
pub const NAME_FILE_EXTENSION: &'static str = "ipc";

/// The name file's name for `date` and the UUID `uuid`.
pub open spec fn name_file_name(date: Seq<char>, uuid: Seq<char>) -> Seq<char> {
    NAME_FILE_PREFIX@ + date + "-"@ + uuid + "."@ + NAME_FILE_EXTENSION@
}

/// `path` is a name file in `runtime_dir` for `date`.
pub open spec fn is_name_file_path(path: Seq<char>, runtime_dir: Seq<char>, date: Seq<char>) -> bool {
    exists|uuid: Seq<char>|
        is_simple_uuid(uuid) && path == join_path(runtime_dir, #[trigger] name_file_name(date, uuid))
}

/// A name file path of this start (nothing is written):
/// `<runtime_dir>/kb-<YYYYMMDD>-<uuid>.ipc`, for today's UTC date and a
/// fresh simple UUID.
pub fn new_name_file_in(runtime_dir: &str) -> (r: String)
    ensures
        exists|date: Seq<char>, secs: u64|
            is_compact_day(date, #[trigger] utc_day_of(secs)) && #[trigger] is_name_file_path(r@, runtime_dir@, date),
{
    let date = today_utc_compact();
    let uuid = new_uuid_simple();
    let head = concat3(NAME_FILE_PREFIX, date.as_str(), "-");
    let name = concat3(head.as_str(), uuid.as_str(), ".ipc");
    proof {
        reveal_strlit("kb-");
        reveal_strlit("-");
        reveal_strlit(".ipc");
        reveal_strlit(".");
        reveal_strlit("ipc");
        assert(name@ =~= name_file_name(date@, uuid@));
    }
    let r = join_path_str(runtime_dir, name.as_str());
    proof {
        let secs = choose|secs: u64| is_compact_day(date@, #[trigger] utc_day_of(secs));
        assert(is_name_file_path(r@, runtime_dir@, date@));
        assert(is_compact_day(date@, utc_day_of(secs)));
    }
    r
}

/// A directory entry named `name` is a name file: `kb-*.ipc`.
pub open spec fn is_name_file_name(name: Seq<char>) -> bool {
    &&& name.len() >= 3
    &&& name.subrange(0, 3) == NAME_FILE_PREFIX@
    &&& name.len() >= 4
    &&& name.subrange(name.len() - 4, name.len() as int) == "."@ + NAME_FILE_EXTENSION@
}

/// Whether a directory entry named `name` is a name file.
pub fn is_name_file(name: &str) -> (r: bool)
    ensures
        r == is_name_file_name(name@),
{
    proof {
        reveal_strlit("kb-");
        reveal_strlit(".");
        reveal_strlit("ipc");
    }
    let c = chars_of(name);
    let n = c.len();
    if n < 4 {
        proof {
            if n == 3 {
                assert(name@.subrange(0, 3) =~= name@);
            }
        }
        return false;
    }
    let starts = c[0] == 'k' && c[1] == 'b' && c[2] == '-';
    let ends = c[n - 4] == '.' && c[n - 3] == 'i' && c[n - 2] == 'p' && c[n - 1] == 'c';
    proof {
        let pre = name@.subrange(0, 3);
        let suf = name@.subrange(n - 4, n as int);
        if starts {
            assert(pre =~= NAME_FILE_PREFIX@);
        } else {
            assert(pre != NAME_FILE_PREFIX@) by {
                if pre == NAME_FILE_PREFIX@ {
                    assert(pre[0] == 'k' && pre[1] == 'b' && pre[2] == '-');
                }
            }
        }
        if ends {
            assert(suf =~= "."@ + NAME_FILE_EXTENSION@);
        } else {
            assert(suf != "."@ + NAME_FILE_EXTENSION@) by {
                if suf == "."@ + NAME_FILE_EXTENSION@ {
                    assert(suf[0] == '.' && suf[1] == 'i' && suf[2] == 'p' && suf[3] == 'c');
                }
            }
        }
    }
    starts && ends
}

/// The entries of `names` that are name files, in their order.
pub open spec fn name_files_among(names: Seq<String>) -> Seq<String>
    decreases names.len(),
{
    if names.len() == 0 {
        Seq::empty()
    } else {
        let rest = name_files_among(names.drop_last());
        if is_name_file_name(names.last()@) {
            rest.push(names.last())
        } else {
            rest
        }
    }
}

/// The name files of a directory, given the names of its entries: each as
/// a path in `runtime_dir`, in code-point order of the names.
pub fn select_name_files(runtime_dir: &str, names: Vec<String>) -> (r: Vec<String>)
    ensures
        exists|s: Seq<String>|
            #![trigger s.to_multiset()]
            s.to_multiset() == name_files_among(names@).to_multiset()
            && sorted_by_lt(s, |a: String, b: String| string_lt(a, b))
            && r@.len() == s.len()
            && forall|k: int| 0 <= k < s.len() ==> #[trigger] r@[k]@ == join_path(runtime_dir@, s[k]@),
{
    let mut kept: Vec<String> = Vec::new();
    let mut i: usize = 0;
    while i < names.len()
        invariant
            i <= names@.len(),
            kept@ == name_files_among(names@.take(i as int)),
        decreases names@.len() - i,
    {
        let name = names[i].clone();
        proof {
            assert(names@.take(i as int + 1).drop_last() =~= names@.take(i as int));
        }
        if is_name_file(name.as_str()) {
            kept.push(name);
        }
        i = i + 1;
    }
    assert(names@.take(names@.len() as int) =~= names@);
    let sorted = sort_texts(kept);
    let mut r: Vec<String> = Vec::new();
    let mut k: usize = 0;
    while k < sorted.len()
        invariant
            k <= sorted@.len(),
            r@.len() == k,
            forall|q: int| 0 <= q < k ==> #[trigger] r@[q]@ == join_path(runtime_dir@, sorted@[q]@),
        decreases sorted@.len() - k,
    {
        let path = join_path_str(runtime_dir, sorted[k].as_str());
        r.push(path);
        k = k + 1;
    }
    assert(sorted@.to_multiset() == name_files_among(names@).to_multiset());
    r
}

/// The endpoint name held by a name file whose content is `content`: the
/// content without surrounding white space, or nothing when that is empty.
pub open spec fn endpoint_name(content: Seq<char>) -> Option<Seq<char>> {
    if trim(content).len() == 0 {
        None
    } else {
        Some(trim(content))
    }
}

/// The endpoint name held by a name file whose content is `content`.
pub fn name_in_content(content: &str) -> (r: Option<String>)
    ensures
        match r {
            Some(s) => endpoint_name(content@) == Some(s@),
            None => endpoint_name(content@) is None,
        },
{
    let chars = chars_of(content);
    let trimmed = trim_chars(&chars);
    if trimmed.len() == 0 {
        None
    } else {
        Some(string_from_chars(&trimmed))
    }
}

/// Among name files that hold an endpoint, given with their modification
/// times in listing order, the one to connect to: the most recently
/// modified, the first of them on a tie.
pub fn newest_name_file(candidates: &Vec<(String, i128)>) -> (r: Option<String>)
    ensures
        match r {
            None => candidates@.len() == 0,
            Some(p) => exists|k: int|
                0 <= k < candidates@.len() && #[trigger] candidates@[k].0 == p
                    && (forall|j: int| 0 <= j < candidates@.len() ==> #[trigger] candidates@[j].1 <= candidates@[k].1)
                    && (forall|j: int| 0 <= j < k ==> #[trigger] candidates@[j].1 < candidates@[k].1),
        },
{
    if candidates.len() == 0 {
        return None;
    }
    let mut best: usize = 0;
    let mut i: usize = 1;
    while i < candidates.len()
        invariant
            0 < i <= candidates@.len(),
            best < i,
            forall|j: int| 0 <= j < i ==> #[trigger] candidates@[j].1 <= candidates@[best as int].1,
            forall|j: int| 0 <= j < best ==> #[trigger] candidates@[j].1 < candidates@[best as int].1,
        decreases candidates@.len() - i,
    {
        if candidates[i].1 > candidates[best].1 {
            best = i;
        }
        i = i + 1;
    }
    let r = candidates[best].0.clone();
    assert(candidates@[best as int].0 == r);
    Some(r)
}

/// The civil date of the day `days` days after 1970-01-01.
pub fn civil_from_days_(days: i64) -> (r: (i64, u32, u32))
    requires
        days <= i64::MAX - 719468,
    ensures
        valid_date(r.0 as int, r.1 as int, r.2 as int),
        days_from_civil(r.0 as int, r.1 as int, r.2 as int) == days,
{
    civil_from_days(days)
}

/// The server end of the IPC rendezvous: the name file this instance owns.
pub struct Listener {
    name_file_: String,
}

impl Listener {
    /// The name file's path.
    pub closed spec fn spec_name_file(&self) -> Seq<char> {
        self.name_file_@
    }

    /// A listener for `runtime_dir`, owning a fresh name file of this start.
    /// Creating the directory and clearing the file is left to the caller.
    pub fn new(runtime_dir: &str) -> (r: Self)
        ensures
            exists|date: Seq<char>, secs: u64|
                is_compact_day(date, #[trigger] utc_day_of(secs))
                    && #[trigger] is_name_file_path(r.spec_name_file(), runtime_dir@, date),
    {
        let name_file = new_name_file_in(runtime_dir);
        let r = Listener { name_file_: name_file };
        proof {
            let (date, secs) = choose|date: Seq<char>, secs: u64|
                is_compact_day(date, #[trigger] utc_day_of(secs)) && #[trigger] is_name_file_path(name_file@, runtime_dir@, date);
            assert(is_compact_day(date, utc_day_of(secs)) && is_name_file_path(r.spec_name_file(), runtime_dir@, date));
        }
        r
    }

    /// The name file's path.
    pub fn name_file(&self) -> (r: &str)
        ensures
            r@ == self.spec_name_file(),
    {
        self.name_file_.as_str()
    }
}


/// Milliseconds a client waits between two attempts to reach an endpoint.
pub const RETRY_GAP_MS: u64 = 20;

/// What a client does after one attempt to reach the endpoint.
#[derive(Debug, Clone, Copy, PartialEq, Eq, Structural)]
pub enum ConnectStep {
    /// The attempt reached the endpoint: use it.
    Connected,
    /// The deadline has passed: give up with a timeout.
    TimedOut,
    /// Wait `RETRY_GAP_MS`, then try again.
    Retry,
}

/// The moment after which a client stops trying: `timeout_ms` after
/// `start_ms` (the latest moment a `u64` holds, when that is later).
pub fn connect_deadline(start_ms: u64, timeout_ms: u64) -> (r: u64)
    ensures
        r == (if start_ms + timeout_ms <= u64::MAX { (start_ms + timeout_ms) as u64 } else { u64::MAX }),
{
    start_ms.saturating_add(timeout_ms)
}

/// The decision after an attempt to reach the endpoint. A failed attempt
/// (no name file, an empty one, or an endpoint taken by another client) is
/// no error: the client tries again until the deadline has passed.
pub fn connect_step(connected: bool, now_ms: u64, deadline_ms: u64) -> (r: ConnectStep)
    ensures
        r == (if connected {
            ConnectStep::Connected
        } else if now_ms >= deadline_ms {
            ConnectStep::TimedOut
        } else {
            ConnectStep::Retry
        }),
{
    if connected {
        ConnectStep::Connected
    } else if now_ms >= deadline_ms {
        ConnectStep::TimedOut
    } else {
        ConnectStep::Retry
    }
}


} // verus!
