//! The settings endpoints of the browser API: what a service update
//! writes, which service becomes active after a change, and how services
//! are shown.
use vstd::prelude::*;
use crate::args::opt_view;
use crate::settings::{first_keyed, has_key, LlmServiceConfig, Settings, MASKED_KEY};
use crate::text::{chars_of, str_eq, string_from_chars};
use crate::title::{trim, trim_chars};

verus! {

/// Body of `POST /api/settings/services`.
#[derive(Debug, Clone)]
pub struct ServiceUpdate {
    /// Identifier of the service, as users see it.
    pub id: String,
    /// Provider of the service.
    pub provider: String,
    /// Model name.
    pub model: String,
    /// API base URL; may be empty.
    pub base_url: String,
    /// API key. The masked form sent back by the page keeps the stored key.
    pub api_key: String,
}

/// Body of `POST /api/settings/active`.
#[derive(Debug, Clone)]
pub struct ActiveServiceUpdate {
    /// Identifier of the service to use.
    pub service_id: String,
}

/// The key an update writes: the stored key of the service when the page
/// sent the masked form back (none stored, or settings unreadable: empty),
/// else the key sent, trimmed.
pub open spec fn key_to_write(update: ServiceUpdate, stored: Option<Settings>) -> Seq<char> {
    if trim(update.api_key@) == MASKED_KEY@ {
        match stored {
            Some(st) => if st.map().contains_key(update.id@) {
                st.map()[update.id@].api_key@
            } else {
                Seq::empty()
            },
            None => Seq::empty(),
        }
    } else {
        trim(update.api_key@)
    }
}

/// `s` trimmed, as a new string.
fn trimmed(s: &str) -> (r: String)
    ensures
        r@ == trim(s@),
{
    let chars = chars_of(s);
    string_from_chars(&trim_chars(&chars))
}

/// Checks a service update and builds the configuration to store, given
/// the settings as last read (nothing when they could not be read). A blank
/// identifier or provider is refused with the message shown to the user.
pub fn plan_service_update(update: &ServiceUpdate, stored: Option<&Settings>) -> (r: Result<LlmServiceConfig, String>)
    requires
        stored matches Some(st) ==> st.wf(),
    ensures
        trim(update.id@).len() == 0 ==> (r matches Err(m) && m@ == "服务标识不能为空"@),
        trim(update.id@).len() > 0 && trim(update.provider@).len() == 0 ==> (r matches Err(m) && m@
            == "provider 不能为空"@),
        trim(update.id@).len() > 0 && trim(update.provider@).len() > 0 ==> (r matches Ok(c) && c.provider@ == trim(
            update.provider@,
        ) && c.model@ == trim(update.model@) && c.base_url@ == trim(update.base_url@) && c.api_key@ == key_to_write(
            *update,
            match stored {
                Some(st) => Some(*st),
                None => None,
            },
        )),
{
    let id_chars = chars_of(update.id.as_str());
    if trim_chars(&id_chars).len() == 0 {
        return Err(String::from_str("服务标识不能为空"));
    }
    let provider_chars = chars_of(update.provider.as_str());
    if trim_chars(&provider_chars).len() == 0 {
        return Err(String::from_str("provider 不能为空"));
    }
    let key_sent = trimmed(update.api_key.as_str());
    let api_key = if str_eq(key_sent.as_str(), MASKED_KEY) {
        match stored {
            Some(st) => match st.get(update.id.as_str()) {
                Some(c) => c.api_key.clone(),
                None => String::new(),
            },
            None => String::new(),
        }
    } else {
        key_sent
    };
    Ok(LlmServiceConfig {
        provider: trimmed(update.provider.as_str()),
        model: trimmed(update.model.as_str()),
        base_url: trimmed(update.base_url.as_str()),
        api_key,
    })
}

/// After a service was stored: whether it becomes the active one, which it
/// does when none is active and it has an API key.
pub fn activates_after_upsert(active: &Option<String>, service: &LlmServiceConfig) -> (r: bool)
    ensures
        r == (active is None && has_key(*service)),
{
    active.is_none() && service.has_api_key()
}

/// What happens to the active service when a service is removed.
#[derive(Debug, Clone, PartialEq, Eq)]
pub enum ActiveAfterRemoval {
    /// The active service stays as it is.
    Keep,
    /// This service becomes the active one.
    Use(String),
    /// No service is active any more.
    Clear,
}

/// After service `removed` was removed, given the active service and the
/// settings read back (nothing when unreadable): when the active service was
/// the one removed, the first remaining service with an API key takes its
/// place, or none; otherwise nothing changes.
pub fn active_after_removal(active: &Option<String>, removed: &str, reloaded: Option<&Settings>) -> (r:
    ActiveAfterRemoval)
    ensures
        opt_view(*active) != Some(removed@) ==> r == ActiveAfterRemoval::Keep,
        opt_view(*active) == Some(removed@) ==> match reloaded {
            Some(st) => match first_keyed(st.services@, 0) {
                Some(id) => r matches ActiveAfterRemoval::Use(n) && n@ == id,
                None => r == ActiveAfterRemoval::Clear,
            },
            None => r == ActiveAfterRemoval::Clear,
        },
{
    let is_active = match active {
        Some(a) => str_eq(a.as_str(), removed),
        None => false,
    };
    if !is_active {
        return ActiveAfterRemoval::Keep;
    }
    let next = match reloaded {
        Some(st) => st.first_with_api_key(),
        None => None,
    };
    match next {
        Some(id) => ActiveAfterRemoval::Use(id),
        None => ActiveAfterRemoval::Clear,
    }
}

/// A service as the settings page shows it.
#[derive(Debug, Clone, PartialEq, Eq)]
pub struct ServiceView {
    pub id: String,
    pub provider: String,
    pub model: String,
    pub base_url: String,
    /// The masked key: `MASKED_KEY` when a key is configured, else empty.
    pub api_key: String,
    pub has_api_key: bool,
}

/// How service `id` with configuration `c` is shown.
pub open spec fn shown(v: ServiceView, id: Seq<char>, c: LlmServiceConfig) -> bool {
    &&& v.id@ == id
    &&& v.provider@ == c.provider@
    &&& v.model@ == c.model@
    &&& v.base_url@ == c.base_url@
    &&& v.api_key@ == (if has_key(c) { MASKED_KEY@ } else { Seq::empty() })
    &&& v.has_api_key == has_key(c)
}

/// The services of `settings` as the settings page shows them, in
/// identifier order; no API key is shown.
pub fn service_views(settings: &Settings) -> (r: Vec<ServiceView>)
    ensures
        r@.len() == settings.services@.len(),
        forall|k: int|
            0 <= k < r@.len() ==> shown(#[trigger] r@[k], settings.services@[k].0@, settings.services@[k].1),
{
    let mut r: Vec<ServiceView> = Vec::new();
    let mut k: usize = 0;
    while k < settings.services.len()
        invariant
            k <= settings.services@.len(),
            r@.len() == k,
            forall|q: int|
                0 <= q < k ==> shown(#[trigger] r@[q], settings.services@[q].0@, settings.services@[q].1),
        decreases settings.services@.len() - k,
    {
        let (id, c) = &settings.services[k];
        let masked = c.masked();
        proof {
            if !has_key(*c) {
                assert(masked.api_key@ =~= Seq::<char>::empty());
            }
        }
        r.push(
            ServiceView {
                id: id.clone(),
                provider: masked.provider,
                model: masked.model,
                base_url: masked.base_url,
                api_key: masked.api_key,
                has_api_key: c.has_api_key(),
            },
        );
        k = k + 1;
    }
    r
}

} // verus!
