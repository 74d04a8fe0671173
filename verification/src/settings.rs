//! User settings: the configured LLM services, keyed by service identifier
//! and kept in identifier order (the order of the configuration file's
//! `BTreeMap`).
use vstd::prelude::*;
use crate::launch::KbSvcError;
use crate::order::{text_lt, text_less, lemma_text_lt_irreflexive, lemma_text_lt_transitive};
use crate::text::{chars_of, str_eq};
use crate::title::{trim, trim_chars};
use crate::args::opt_view;

verus! {

/// What the settings page shows instead of a stored API key.
pub const MASKED_KEY: &'static str = "••••••••";

/// One configured LLM service.
#[derive(Debug, Clone, PartialEq, Eq)]
pub struct LlmServiceConfig {
    pub provider: String,
    pub model: String,
    pub base_url: String,
    pub api_key: String,
}

/// A service has a key when its key is not blank.
pub open spec fn has_key(c: LlmServiceConfig) -> bool {
    trim(c.api_key@).len() > 0
}

impl LlmServiceConfig {
    /// A service configuration made of the four given values.
    pub fn new(provider: &str, model: &str, base_url: &str, api_key: &str) -> (r: Self)
        ensures
            r.provider@ == provider@,
            r.model@ == model@,
            r.base_url@ == base_url@,
            r.api_key@ == api_key@,
    {
        LlmServiceConfig {
            provider: provider.to_owned(),
            model: model.to_owned(),
            base_url: base_url.to_owned(),
            api_key: api_key.to_owned(),
        }
    }

    /// An exact copy.
    pub fn duplicate(&self) -> (r: Self)
        ensures
            r == *self,
    {
        LlmServiceConfig {
            provider: self.provider.clone(),
            model: self.model.clone(),
            base_url: self.base_url.clone(),
            api_key: self.api_key.clone(),
        }
    }

    /// Whether an API key is configured (a blank key counts as none).
    pub fn has_api_key(&self) -> (r: bool)
        ensures
            r == has_key(*self),
    {
        let chars = chars_of(self.api_key.as_str());
        let trimmed = trim_chars(&chars);
        trimmed.len() > 0
    }

    /// A copy fit to be shown: the key is replaced by `MASKED_KEY` when one
    /// is configured and by the empty string otherwise; all else is kept.
    pub fn masked(&self) -> (r: Self)
        ensures
            r.provider@ == self.provider@,
            r.model@ == self.model@,
            r.base_url@ == self.base_url@,
            has_key(*self) ==> r.api_key@ == MASKED_KEY@,
            !has_key(*self) ==> r.api_key@.len() == 0,
    {
        let api_key = if self.has_api_key() { String::from_str(MASKED_KEY) } else { String::new() };
        LlmServiceConfig {
            provider: self.provider.clone(),
            model: self.model.clone(),
            base_url: self.base_url.clone(),
            api_key,
        }
    }
}

/// All configured services.
#[derive(Debug, Clone, Default, PartialEq, Eq)]
pub struct Settings {
    /// Services by identifier, in strictly increasing identifier order.
    pub services: Vec<(String, LlmServiceConfig)>,
}

/// Identifiers strictly increasing, hence unique.
pub open spec fn keys_increasing(s: Seq<(String, LlmServiceConfig)>) -> bool {
    forall|i: int, j: int| 0 <= i < j < s.len() ==> text_lt(#[trigger] s[i].0@, #[trigger] s[j].0@)
}

/// Whether identifier `k` is configured.
pub open spec fn has_service(s: Seq<(String, LlmServiceConfig)>, k: Seq<char>) -> bool {
    exists|i: int| 0 <= i < s.len() && (#[trigger] s[i]).0@ == k
}

/// A position holding identifier `k`, when there is one.
pub open spec fn key_index(s: Seq<(String, LlmServiceConfig)>, k: Seq<char>) -> int {
    choose|i: int| 0 <= i < s.len() && (#[trigger] s[i]).0@ == k
}

/// The services as a map from identifier to configuration.
pub open spec fn service_map(s: Seq<(String, LlmServiceConfig)>) -> Map<Seq<char>, LlmServiceConfig> {
    Map::new(|k: Seq<char>| has_service(s, k), |k: Seq<char>| s[key_index(s, k)].1)
}

pub proof fn lemma_text_lt_total(a: Seq<char>, b: Seq<char>)
    ensures
        a == b || text_lt(a, b) || text_lt(b, a),
    decreases a.len(),
{
    if a.len() > 0 && b.len() > 0 && a[0] == b[0] {
        lemma_text_lt_total(a.drop_first(), b.drop_first());
        if a.drop_first() == b.drop_first() {
            assert forall|i: int| 0 <= i < a.len() implies a[i] == b[i] by {
                if i > 0 {
                    assert(a[i] == a.drop_first()[i - 1]);
                    assert(b[i] == b.drop_first()[i - 1]);
                }
            }
            assert(a =~= b);
        }
    } else if a.len() == 0 && b.len() == 0 {
        assert(a =~= b);
    }
}

/// In a well-formed list, the entry of a key is the one at its position.
pub proof fn lemma_map_at(s: Seq<(String, LlmServiceConfig)>, i: int)
    requires
        keys_increasing(s),
        0 <= i < s.len(),
    ensures
        service_map(s).contains_key(s[i].0@),
        service_map(s)[s[i].0@] == s[i].1,
{
    let k = s[i].0@;
    assert(has_service(s, k));
    let j = key_index(s, k);
    assert(service_map(s)[k] == s[j].1);
    if j < i {
        assert(text_lt(s[j].0@, s[i].0@));
        lemma_text_lt_irreflexive(k);
    } else if j > i {
        assert(text_lt(s[i].0@, s[j].0@));
        lemma_text_lt_irreflexive(k);
    }
}

impl Settings {
    /// Well-formed: identifiers strictly increasing.
    pub open spec fn wf(&self) -> bool {
        keys_increasing(self.services@)
    }

    /// The configured services by identifier.
    pub open spec fn map(&self) -> Map<Seq<char>, LlmServiceConfig> {
        service_map(self.services@)
    }

    /// No service at all.
    pub fn new() -> (r: Self)
        ensures
            r.wf(),
            r.services@.len() == 0,
    {
        Settings { services: Vec::new() }
    }

    /// Position of the first entry whose identifier is not before `id`.
    fn lower_bound(&self, id: &str) -> (p: usize)
        requires
            self.wf(),
        ensures
            p <= self.services@.len(),
            forall|q: int| 0 <= q < p ==> text_lt(#[trigger] self.services@[q].0@, id@),
            p < self.services@.len() ==> !text_lt(self.services@[p as int].0@, id@),
    {
        let mut p: usize = 0;
        while p < self.services.len() && text_less(self.services[p].0.as_str(), id)
            invariant
                p <= self.services@.len(),
                forall|q: int| 0 <= q < p ==> text_lt(#[trigger] self.services@[q].0@, id@),
            decreases self.services@.len() - p,
        {
            p = p + 1;
        }
        p
    }

    /// The configuration of service `id`.
    pub fn get(&self, id: &str) -> (r: Option<&LlmServiceConfig>)
        requires
            self.wf(),
        ensures
            match r {
                Some(c) => self.map().contains_key(id@) && self.map()[id@] == *c,
                None => !self.map().contains_key(id@),
            },
    {
        let p = self.lower_bound(id);
        if p < self.services.len() && str_eq(self.services[p].0.as_str(), id) {
            proof {
                lemma_map_at(self.services@, p as int);
            }
            Some(&self.services[p].1)
        } else {
            proof {
                if has_service(self.services@, id@) {
                    let j = choose|j: int| 0 <= j < self.services@.len() && (#[trigger] self.services@[j]).0@ == id@;
                    lemma_text_lt_irreflexive(id@);
                    if j >= p {
                        if j > p {
                            assert(text_lt(self.services@[p as int].0@, self.services@[j].0@));
                            lemma_text_lt_total(self.services@[p as int].0@, id@);
                        }
                    }
                }
            }
            None
        }
    }

    /// Whether service `id` is configured.
    pub fn contains_key(&self, id: &str) -> (r: bool)
        requires
            self.wf(),
        ensures
            r == self.map().contains_key(id@),
    {
        self.get(id).is_some()
    }

    /// Adds service `id`, or replaces its configuration.
    pub fn insert(&mut self, id: String, config: LlmServiceConfig)
        requires
            old(self).wf(),
        ensures
            final(self).wf(),
            final(self).map() == old(self).map().insert(id@, config),
    {
        let ghost old_s = self.services@;
        let p = self.lower_bound(id.as_str());
        if p < self.services.len() && str_eq(self.services[p].0.as_str(), id.as_str()) {
            let ghost k = id@;
            self.services.set(p, (id, config));
            proof {
                let s = self.services@;
                assert(s == old_s.update(p as int, s[p as int]));
                assert(keys_increasing(s)) by {
                    assert forall|i: int, j: int| 0 <= i < j < s.len() implies text_lt(#[trigger] s[i].0@, #[trigger] s[j].0@) by {
                        assert(old_s[i].0@ == s[i].0@ || i == p);
                        assert(old_s[j].0@ == s[j].0@ || j == p);
                        if i == p {
                            assert(text_lt(old_s[p as int].0@, old_s[j].0@));
                        } else if j == p {
                            assert(text_lt(old_s[i].0@, old_s[p as int].0@));
                        } else {
                            assert(text_lt(old_s[i].0@, old_s[j].0@));
                        }
                    }
                }
                assert(service_map(s) =~= service_map(old_s).insert(k, config)) by {
                    assert forall|key: Seq<char>| #[trigger] service_map(s).contains_key(key)
                        == service_map(old_s).insert(k, config).contains_key(key) by {
                        if has_service(s, key) {
                            let i = choose|i: int| 0 <= i < s.len() && (#[trigger] s[i]).0@ == key;
                            if i != p {
                                assert(old_s[i] == s[i]);
                            }
                        }
                        if has_service(old_s, key) {
                            let i = choose|i: int| 0 <= i < old_s.len() && (#[trigger] old_s[i]).0@ == key;
                            if i != p {
                                assert(old_s[i] == s[i]);
                            } else {
                                assert(s[p as int].0@ == key);
                            }
                        }
                    }
                    assert forall|key: Seq<char>| #[trigger] service_map(s).contains_key(key) implies
                        service_map(s)[key] == service_map(old_s).insert(k, config)[key] by {
                        let i = choose|i: int| 0 <= i < s.len() && (#[trigger] s[i]).0@ == key;
                        lemma_map_at(s, i);
                        if i != p {
                            assert(old_s[i] == s[i]);
                            lemma_map_at(old_s, i);
                        }
                    }
                }
            }
        } else {
            let ghost k = id@;
            self.services.insert(p, (id, config));
            proof {
                let s = self.services@;
                assert(s == old_s.insert(p as int, s[p as int]));
                if p < old_s.len() {
                    lemma_text_lt_total(old_s[p as int].0@, k);
                }
                assert(keys_increasing(s)) by {
                    assert forall|i: int, j: int| 0 <= i < j < s.len() implies text_lt(#[trigger] s[i].0@, #[trigger] s[j].0@) by {
                        if j < p {
                            assert(s[i] == old_s[i] && s[j] == old_s[j]);
                        } else if j == p {
                            assert(s[i] == old_s[i]);
                        } else if i == p {
                            assert(s[j] == old_s[j - 1]);
                            if j - 1 > p {
                                assert(text_lt(old_s[p as int].0@, old_s[j - 1].0@));
                                lemma_text_lt_transitive(k, old_s[p as int].0@, old_s[j - 1].0@);
                            }
                        } else if i < p {
                            assert(s[i] == old_s[i] && s[j] == old_s[j - 1]);
                            if j - 1 != i {
                                assert(text_lt(old_s[i].0@, old_s[j - 1].0@));
                            }
                        } else {
                            assert(s[i] == old_s[i - 1] && s[j] == old_s[j - 1]);
                        }
                    }
                }
                assert(service_map(s) =~= service_map(old_s).insert(k, config)) by {
                    assert forall|key: Seq<char>| #[trigger] service_map(s).contains_key(key)
                        == service_map(old_s).insert(k, config).contains_key(key) by {
                        if has_service(s, key) {
                            let i = choose|i: int| 0 <= i < s.len() && (#[trigger] s[i]).0@ == key;
                            if i < p {
                                assert(old_s[i] == s[i]);
                            } else if i > p {
                                assert(old_s[i - 1] == s[i]);
                            }
                        }
                        if has_service(old_s, key) {
                            let i = choose|i: int| 0 <= i < old_s.len() && (#[trigger] old_s[i]).0@ == key;
                            if i < p {
                                assert(old_s[i] == s[i]);
                            } else {
                                assert(old_s[i] == s[i + 1]);
                            }
                        }
                        if key == k {
                            assert(s[p as int].0@ == key);
                        }
                    }
                    assert forall|key: Seq<char>| #[trigger] service_map(s).contains_key(key) implies
                        service_map(s)[key] == service_map(old_s).insert(k, config)[key] by {
                        let i = choose|i: int| 0 <= i < s.len() && (#[trigger] s[i]).0@ == key;
                        lemma_map_at(s, i);
                        if i < p {
                            assert(old_s[i] == s[i]);
                            lemma_map_at(old_s, i);
                            if key == k {
                                assert(text_lt(old_s[i].0@, k));
                                lemma_text_lt_irreflexive(k);
                            }
                        } else if i > p {
                            assert(old_s[i - 1] == s[i]);
                            lemma_map_at(old_s, i - 1);
                            if key == k {
                                assert(text_lt(s[p as int].0@, s[i].0@));
                                lemma_text_lt_irreflexive(k);
                            }
                        }
                    }
                }
            }
        }
    }

    /// Removes service `id`; nothing happens when it is not configured.
    pub fn remove(&mut self, id: &str)
        requires
            old(self).wf(),
        ensures
            final(self).wf(),
            final(self).map() == old(self).map().remove(id@),
    {
        let ghost old_s = self.services@;
        let p = self.lower_bound(id);
        if p < self.services.len() && str_eq(self.services[p].0.as_str(), id) {
            self.services.remove(p);
            proof {
                let s = self.services@;
                assert(s == old_s.remove(p as int));
                assert(keys_increasing(s)) by {
                    assert forall|i: int, j: int| 0 <= i < j < s.len() implies text_lt(#[trigger] s[i].0@, #[trigger] s[j].0@) by {
                        if j < p {
                            assert(s[i] == old_s[i] && s[j] == old_s[j]);
                        } else if i < p {
                            assert(s[i] == old_s[i] && s[j] == old_s[j + 1]);
                        } else {
                            assert(s[i] == old_s[i + 1] && s[j] == old_s[j + 1]);
                        }
                    }
                }
                assert(service_map(s) =~= service_map(old_s).remove(id@)) by {
                    assert forall|key: Seq<char>| #[trigger] service_map(s).contains_key(key)
                        == service_map(old_s).remove(id@).contains_key(key) by {
                        if has_service(s, key) {
                            let i = choose|i: int| 0 <= i < s.len() && (#[trigger] s[i]).0@ == key;
                            if i < p {
                                assert(old_s[i] == s[i]);
                                assert(text_lt(old_s[i].0@, old_s[p as int].0@));
                                if key == id@ {
                                    lemma_text_lt_irreflexive(key);
                                }
                            } else {
                                assert(old_s[i + 1] == s[i]);
                                assert(text_lt(old_s[p as int].0@, old_s[i + 1].0@));
                                if key == id@ {
                                    lemma_text_lt_irreflexive(key);
                                }
                            }
                        }
                        if has_service(old_s, key) && key != id@ {
                            let i = choose|i: int| 0 <= i < old_s.len() && (#[trigger] old_s[i]).0@ == key;
                            if i < p {
                                assert(old_s[i] == s[i]);
                            } else {
                                assert(i != p);
                                assert(old_s[i] == s[i - 1]);
                            }
                        }
                    }
                    assert forall|key: Seq<char>| #[trigger] service_map(s).contains_key(key) implies
                        service_map(s)[key] == service_map(old_s).remove(id@)[key] by {
                        let i = choose|i: int| 0 <= i < s.len() && (#[trigger] s[i]).0@ == key;
                        lemma_map_at(s, i);
                        if i < p {
                            assert(old_s[i] == s[i]);
                            lemma_map_at(old_s, i);
                        } else {
                            assert(old_s[i + 1] == s[i]);
                            lemma_map_at(old_s, i + 1);
                        }
                    }
                }
            }
        } else {
            proof {
                assert(!service_map(old_s).contains_key(id@)) by {
                    if has_service(old_s, id@) {
                        let j = choose|j: int| 0 <= j < old_s.len() && (#[trigger] old_s[j]).0@ == id@;
                        lemma_text_lt_irreflexive(id@);
                        if j > p {
                            assert(text_lt(old_s[p as int].0@, old_s[j].0@));
                            lemma_text_lt_total(old_s[p as int].0@, id@);
                        }
                    }
                }
                assert(service_map(old_s).remove(id@) =~= service_map(old_s));
            }
        }
    }

    /// Adds or replaces service `id`, refusing a blank identifier: what the
    /// settings store does on an update.
    pub fn upsert_checked(&mut self, id: &str, config: LlmServiceConfig) -> (r: Result<(), KbSvcError>)
        requires
            old(self).wf(),
        ensures
            final(self).wf(),
            trim(id@).len() == 0 ==> (r matches Err(KbSvcError::Config(m)) && m@ == "服务标识不能为空"@)
                && final(self).map() == old(self).map(),
            trim(id@).len() > 0 ==> r is Ok && final(self).map() == old(self).map().insert(id@, config),
    {
        let chars = chars_of(id);
        if trim_chars(&chars).len() == 0 {
            return Err(KbSvcError::Config(String::from_str("服务标识不能为空")));
        }
        self.insert(id.to_owned(), config);
        Ok(())
    }

    /// The identifiers of all services, in order.
    pub fn keys(&self) -> (r: Vec<String>)
        ensures
            r@.len() == self.services@.len(),
            forall|i: int| 0 <= i < r@.len() ==> (#[trigger] r@[i])@ == self.services@[i].0@,
    {
        let mut r: Vec<String> = Vec::new();
        let mut i: usize = 0;
        while i < self.services.len()
            invariant
                i <= self.services@.len(),
                r@.len() == i,
                forall|k: int| 0 <= k < i ==> (#[trigger] r@[k])@ == self.services@[k].0@,
            decreases self.services@.len() - i,
        {
            r.push(self.services[i].0.clone());
            i = i + 1;
        }
        r
    }

    /// The first service, in identifier order, that has an API key.
    pub fn first_with_api_key(&self) -> (r: Option<String>)
        ensures
            opt_view(r) == first_keyed(self.services@, 0),
    {
        let mut i: usize = 0;
        while i < self.services.len()
            invariant
                i <= self.services@.len(),
                first_keyed(self.services@, 0) == first_keyed(self.services@, i as int),
            decreases self.services@.len() - i,
        {
            if self.services[i].1.has_api_key() {
                return Some(self.services[i].0.clone());
            }
            i = i + 1;
        }
        None
    }
}

/// The identifier of the first service from position `i` on that has an
/// API key.
pub open spec fn first_keyed(s: Seq<(String, LlmServiceConfig)>, i: int) -> Option<Seq<char>>
    decreases s.len() - i,
{
    if i < 0 || i >= s.len() {
        None
    } else if has_key(s[i].1) {
        Some(s[i].0@)
    } else {
        first_keyed(s, i + 1)
    }
}

/// What is written can be read back: after `insert(id, c)` the settings
/// hold `c` under `id` and every other service as before.
pub proof fn law_insert_then_get(s: Settings, t: Settings, id: Seq<char>, c: LlmServiceConfig, other: Seq<char>)
    requires
        t.map() == s.map().insert(id, c),
        other != id,
    ensures
        t.map().contains_key(id) && t.map()[id] == c,
        t.map().contains_key(other) == s.map().contains_key(other),
        s.map().contains_key(other) ==> t.map()[other] == s.map()[other],
{
}

/// Removing is idempotent, and a removed service is gone.
pub proof fn law_remove_is_idempotent(s: Settings, t: Settings, u: Settings, id: Seq<char>)
    requires
        t.map() == s.map().remove(id),
        u.map() == t.map().remove(id),
    ensures
        !t.map().contains_key(id),
        u.map() == t.map(),
{
    assert(u.map() =~= t.map());
}

/// Masking keeps whether a key is configured: the masked copy has a key
/// exactly when the service has one.
pub proof fn law_masking_keeps_has_key(c: LlmServiceConfig, masked: LlmServiceConfig)
    requires
        has_key(c) ==> masked.api_key@ == MASKED_KEY@,
        !has_key(c) ==> masked.api_key@.len() == 0,
    ensures
        has_key(masked) == has_key(c),
{
    reveal_strlit("••••••••");
    let k = MASKED_KEY@;
    assert(!crate::title::is_white(k[0]) && !crate::title::is_white(k.last()));
    assert(crate::title::trim_start(k) == k);
    assert(crate::title::trim_end(k) == k);
    assert(crate::title::trim(Seq::<char>::empty()) == Seq::<char>::empty());
}

/// Removing a service that was just added restores the settings it was
/// added to, when that service was not there before.
pub proof fn law_remove_undoes_insert(s: Settings, t: Settings, u: Settings, id: Seq<char>, c: LlmServiceConfig)
    requires
        !s.map().contains_key(id),
        t.map() == s.map().insert(id, c),
        u.map() == t.map().remove(id),
    ensures
        u.map() == s.map(),
{
    assert(u.map() =~= s.map());
}

} // verus!
