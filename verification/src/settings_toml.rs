//! The settings file: reading the `[services.<id>]` tables of a TOML text
//! into settings, and rendering settings as TOML. Parsing and rendering
//! TOML itself is `toml_edit`'s work.
use vstd::prelude::*;
use crate::launch::KbSvcError;
use crate::settings::{LlmServiceConfig, Settings};
use crate::text::{concat2, concat3, strs};

verus! {

/// A field of a table as read: `None` when absent, `Some(None)` when not
/// a string, `Some(Some(s))` for the string `s`.
pub type FieldRead = Option<Option<String>>;

/// One item of the services table: the requested fields when it is a
/// table, nothing when it is not.
pub type ItemRead = (String, Option<Vec<FieldRead>>);

/// The view of a field as read.
pub open spec fn field_view(f: FieldRead) -> Option<Option<Seq<char>>> {
    match f {
        Some(Some(s)) => Some(Some(s@)),
        Some(None) => Some(None),
        None => None,
    }
}

/// The view of an item as read.
pub open spec fn item_view(i: ItemRead) -> (Seq<char>, Option<Seq<Option<Option<Seq<char>>>>>) {
    (i.0@, match i.1 {
        Some(fields) => Some(fields@.map_values(|f: FieldRead| field_view(f))),
        None => None,
    })
}

/// The views of a sequence of items.
pub open spec fn items_view(v: Seq<ItemRead>) -> Seq<(Seq<char>, Option<Seq<Option<Option<Seq<char>>>>>)> {
    v.map_values(|i: ItemRead| item_view(i))
}

/// The view of a whole read.
pub open spec fn read_view(r: Result<Option<Vec<ItemRead>>, String>) -> Result<
    Option<Seq<(Seq<char>, Option<Seq<Option<Option<Seq<char>>>>>)>>,
    Seq<char>,
> {
    match r {
        Err(e) => Err(e@),
        Ok(None) => Ok(None),
        Ok(Some(items)) => Ok(Some(items_view(items@))),
    }
}

/// Names what `toml_edit` reads from `text`: the parse error's text, or —
/// when the document has a table (or inline table) under `table` — each of
/// its items in document order with, for the items that are tables, the
/// fields `keys` in turn.
pub uninterp spec fn toml_table_fields(text: Seq<char>, table: Seq<char>, keys: Seq<Seq<char>>) -> Result<
    Option<Seq<(Seq<char>, Option<Seq<Option<Option<Seq<char>>>>>)>>,
    Seq<char>,
>;

/// Parses `text` as a TOML document (`toml_edit::DocumentMut`) and reads
/// the items of its table `table`, and in each item that is a table the
/// fields `keys`.
///
/// Trusted: the reading is `toml_edit`'s (`get`, `as_table_like`, `iter`,
/// `as_str`), and depends on the three arguments only; it is named
/// `toml_table_fields`. A parse failure gives the error's display text.
#[verifier::external_body]
fn read_table_fields(text: &str, table: &str, keys: &Vec<String>) -> (r: Result<Option<Vec<ItemRead>>, String>)
    ensures
        read_view(r) == toml_table_fields(text@, table@, strs(keys@)),
        r matches Ok(Some(v)) ==> forall|i: int|
            0 <= i < v@.len() ==> ((#[trigger] v@[i]).1 matches Some(f) ==> f@.len() == keys@.len()),
{
    let doc = text.parse::<toml_edit::DocumentMut>().map_err(|e| e.to_string())?;
    Ok(doc.get(table).and_then(|t| t.as_table_like()).map(|t| {
        t.iter().map(|(id, item)| (id.to_owned(), item.as_table_like().map(|e| {
            keys.iter().map(|k| e.get(k).map(|v| v.as_str().map(str::to_owned))).collect()
        }))).collect()
    }))
}

/// The field names of a service table, in the order they are read.
pub open spec fn service_keys() -> Seq<Seq<char>> {
    seq!["provider"@, "model"@, "base_url"@, "api_key"@]
}

/// A service as four texts: provider, model, base URL, API key.
pub type ServiceText = (Seq<char>, Seq<char>, Seq<char>, Seq<char>);

/// The four texts of a service configuration.
pub open spec fn service_text(c: LlmServiceConfig) -> ServiceText {
    (c.provider@, c.model@, c.base_url@, c.api_key@)
}

/// A field's value: the string, or empty when the field is absent.
pub open spec fn field_value(f: Option<Option<Seq<char>>>) -> Seq<char> {
    match f {
        Some(Some(s)) => s,
        _ => Seq::empty(),
    }
}

/// The first field, from position `k` on, that is present but not a
/// string.
pub open spec fn first_bad_field(fields: Seq<Option<Option<Seq<char>>>>, k: int) -> Option<int>
    decreases fields.len() - k,
{
    if k < 0 || k >= fields.len() {
        None
    } else if fields[k] == Some(None::<Seq<char>>) {
        Some(k)
    } else {
        first_bad_field(fields, k + 1)
    }
}

/// The services read from items `i..` on top of `acc`, or the message of
/// the first item that is refused: an item that is not a table, or a field
/// that is not a string.
pub open spec fn services_from(
    items: Seq<(Seq<char>, Option<Seq<Option<Option<Seq<char>>>>>)>,
    i: int,
    acc: Map<Seq<char>, ServiceText>,
) -> Result<Map<Seq<char>, ServiceText>, Seq<char>>
    decreases items.len() - i,
{
    if i < 0 || i >= items.len() {
        Ok(acc)
    } else {
        let (id, fields) = items[i];
        match fields {
            None => Err("services."@ + id + " 必须是一个表"@),
            Some(f) => match first_bad_field(f, 0) {
                Some(k) => Err("services."@ + id + "."@ + service_keys()[k] + " 必须是字符串"@),
                None => services_from(
                    items,
                    i + 1,
                    acc.insert(id, (field_value(f[0]), field_value(f[1]), field_value(f[2]), field_value(f[3]))),
                ),
            },
        }
    }
}

/// The services of the settings, as texts.
pub open spec fn settings_text(s: Settings) -> Map<Seq<char>, ServiceText> {
    s.map().map_values(|c: LlmServiceConfig| service_text(c))
}

/// A field's value as a string: the string read, or empty.
fn field_string(f: &FieldRead) -> (r: String)
    ensures
        r@ == field_value(field_view(*f)),
{
    match f {
        Some(Some(s)) => s.clone(),
        _ => String::new(),
    }
}

/// Settings from what was read of a services table (nothing: no such
/// table). Each item must be a table whose fields, when present, are
/// strings; an absent field is empty.
#[verifier::loop_isolation(false)]
pub fn settings_from_items(items: Option<Vec<ItemRead>>) -> (r: Result<Settings, KbSvcError>)
    requires
        items matches Some(v) ==> forall|i: int|
            0 <= i < v@.len() ==> ((#[trigger] v@[i]).1 matches Some(f) ==> f@.len() == 4),
    ensures
        match (r, items) {
            (Ok(s), None) => s.wf() && settings_text(s) == Map::<Seq<char>, ServiceText>::empty(),
            (Ok(s), Some(v)) => s.wf() && services_from(items_view(v@), 0, Map::empty())
                == Ok::<Map<Seq<char>, ServiceText>, Seq<char>>(settings_text(s)),
            (Err(KbSvcError::Config(m)), Some(v)) => services_from(
                items_view(v@),
                0,
                Map::empty(),
            ) == Err::<Map<Seq<char>, ServiceText>, Seq<char>>(m@),
            _ => false,
        },
{
    let mut settings = Settings::new();
    proof {
        assert(settings_text(settings) =~= Map::<Seq<char>, ServiceText>::empty());
    }
    let v = match items {
        None => return Ok(settings),
        Some(v) => v,
    };
    let ghost views = items_view(v@);
    let mut i: usize = 0;
    while i < v.len()
        invariant
            i <= v@.len(),
            views == items_view(v@),
            forall|j: int| 0 <= j < v@.len() ==> ((#[trigger] v@[j]).1 matches Some(f) ==> f@.len() == 4),
            settings.wf(),
            services_from(views, 0, Map::empty()) == services_from(views, i as int, settings_text(settings)),
        decreases v@.len() - i,
    {
        let (id, fields) = &v[i];
        assert(views[i as int] == item_view(v@[i as int]));
        match fields {
            None => {
                let m = concat3("services.", id.as_str(), " 必须是一个表");
                proof {
                    reveal_strlit("services.");
                    reveal_strlit(" 必须是一个表");
                    assert(views[i as int].1 is None);
                    assert(services_from(views, i as int, settings_text(settings)) == Err::<
                        Map<Seq<char>, ServiceText>,
                        Seq<char>,
                    >(m@));
                }
                return Err(KbSvcError::Config(m));
            },
            Some(f) => {
                let ghost fv = f@.map_values(|x: FieldRead| field_view(x));
                let mut k: usize = 0;
                while k < f.len()
                    invariant
                        k <= f@.len(),
                        fv == f@.map_values(|x: FieldRead| field_view(x)),
                        first_bad_field(fv, 0) == first_bad_field(fv, k as int),
                    decreases f@.len() - k,
                {
                    match &f[k] {
                        Some(None) => {
                            assert(fv[k as int] == Some(None::<Seq<char>>));
                            let key = match k {
                                0 => "provider",
                                1 => "model",
                                2 => "base_url",
                                _ => "api_key",
                            };
                            proof {
                                reveal_strlit("provider");
                                reveal_strlit("model");
                                reveal_strlit("base_url");
                                reveal_strlit("api_key");
                            }
                            let head = concat3("services.", id.as_str(), ".");
                            let m = concat3(head.as_str(), key, " 必须是字符串");
                            proof {
                                assert(f@.len() == 4);
                                assert(key@ == service_keys()[k as int]);
                                assert(views[i as int].1 == Some(fv));
                                assert(first_bad_field(fv, k as int) == Some(k as int));
                                assert(services_from(views, i as int, settings_text(settings)) == Err::<
                                    Map<Seq<char>, ServiceText>,
                                    Seq<char>,
                                >(m@));
                            }
                            return Err(KbSvcError::Config(m));
                        },
                        _ => {},
                    }
                    k = k + 1;
                }
                let config = LlmServiceConfig {
                    provider: field_string(&f[0]),
                    model: field_string(&f[1]),
                    base_url: field_string(&f[2]),
                    api_key: field_string(&f[3]),
                };
                let ghost before = settings_text(settings);
                settings.insert(id.clone(), config);
                proof {
                    assert(settings_text(settings) =~= before.insert(id@, service_text(config)));
                }
            },
        }
        i = i + 1;
    }
    Ok(settings)
}

impl Settings {
    /// Reads settings from a TOML text: each `[services.<id>]` table is a
    /// service. A text that is not TOML, an item that is not a table and a
    /// field that is not a string are refused as configuration errors.
    pub fn from_toml(text: &str) -> (r: Result<Settings, KbSvcError>)
        ensures
            match (r, toml_table_fields(text@, "services"@, service_keys())) {
                (Err(KbSvcError::Config(m)), Err(e)) => m@ == "TOML 解析失败: "@ + e,
                (Ok(s), Ok(None)) => s.wf() && settings_text(s) == Map::<Seq<char>, ServiceText>::empty(),
                (Ok(s), Ok(Some(v))) => s.wf() && services_from(v, 0, Map::empty()) == Ok::<
                    Map<Seq<char>, ServiceText>,
                    Seq<char>,
                >(settings_text(s)),
                (Err(KbSvcError::Config(m)), Ok(Some(v))) => services_from(v, 0, Map::empty()) == Err::<
                    Map<Seq<char>, ServiceText>,
                    Seq<char>,
                >(m@),
                _ => false,
            },
    {
        let mut keys: Vec<String> = Vec::new();
        keys.push(String::from_str("provider"));
        keys.push(String::from_str("model"));
        keys.push(String::from_str("base_url"));
        keys.push(String::from_str("api_key"));
        assert(strs(keys@) =~= service_keys());
        let read = read_table_fields(text, "services", &keys);
        match read {
            Err(e) => Err(KbSvcError::Config(concat2("TOML 解析失败: ", e.as_str()))),
            Ok(items) => {
                settings_from_items(items)
            },
        }
    }
}

/// A table of tables as plain texts: each item's name with its fields.
pub type TablesText = Seq<(Seq<char>, Seq<(Seq<char>, Seq<char>)>)>;

/// The view of fields given as strings.
pub open spec fn fields_view(fields: Seq<(String, String)>) -> Seq<(Seq<char>, Seq<char>)> {
    fields.map_values(|f: (String, String)| (f.0@, f.1@))
}

/// The view of tables given as strings.
pub open spec fn tables_view(items: Seq<(String, Vec<(String, String)>)>) -> TablesText {
    items.map_values(|i: (String, Vec<(String, String)>)| (i.0@, fields_view(i.1@)))
}

/// Names how `toml_edit` renders a new document holding, under `table`,
/// one table per item with the item's fields as string values.
pub uninterp spec fn toml_rendering(table: Seq<char>, items: TablesText) -> Seq<char>;

/// Builds a new `toml_edit::DocumentMut` holding, under `table`, a table
/// per item (its fields as string values, in order) and renders it.
///
/// Trusted: the rendering is `toml_edit`'s `Display`, a function of the
/// arguments only; it is named `toml_rendering`.
#[verifier::external_body]
fn render_tables(table: &str, items: &Vec<(String, Vec<(String, String)>)>) -> (r: String)
    ensures
        r@ == toml_rendering(table@, tables_view(items@)),
{
    let outer: toml_edit::Table = items.iter().map(|(id, fields)| {
        let t: toml_edit::Table = fields.iter().map(|(k, v)| (k.as_str(), toml_edit::value(v.as_str()))).collect();
        (id.as_str(), toml_edit::Item::Table(t))
    }).collect();
    let mut doc = toml_edit::DocumentMut::new();
    doc[table] = toml_edit::Item::Table(outer);
    doc.to_string()
}

/// The fields of a service as they are written: provider, model, base URL,
/// API key.
pub open spec fn service_fields(c: LlmServiceConfig) -> Seq<(Seq<char>, Seq<char>)> {
    seq![("provider"@, c.provider@), ("model"@, c.model@), ("base_url"@, c.base_url@), ("api_key"@, c.api_key@)]
}

/// The services table of the settings, in identifier order.
pub open spec fn services_tables(s: Seq<(String, LlmServiceConfig)>) -> TablesText {
    s.map_values(|e: (String, LlmServiceConfig)| (e.0@, service_fields(e.1)))
}

impl Settings {
    /// Renders the settings as a new TOML text (comments of an existing file
    /// are not kept): a `[services.<id>]` table per service, in identifier
    /// order.
    pub fn to_toml(&self) -> (r: Result<String, KbSvcError>)
        ensures
            r matches Ok(t) && t@ == toml_rendering("services"@, services_tables(self.services@)),
    {
        let mut items: Vec<(String, Vec<(String, String)>)> = Vec::new();
        let mut i: usize = 0;
        while i < self.services.len()
            invariant
                i <= self.services@.len(),
                items@.len() == i,
                tables_view(items@) == services_tables(self.services@.take(i as int)),
            decreases self.services@.len() - i,
        {
            let (id, c) = &self.services[i];
            let mut fields: Vec<(String, String)> = Vec::new();
            fields.push((String::from_str("provider"), c.provider.clone()));
            fields.push((String::from_str("model"), c.model.clone()));
            fields.push((String::from_str("base_url"), c.base_url.clone()));
            fields.push((String::from_str("api_key"), c.api_key.clone()));
            let ghost before = items@;
            let entry = (id.clone(), fields);
            items.push(entry);
            proof {
                assert(fields_view(entry.1@) =~= service_fields(*c));
                assert(entry.0@ == id@);
                assert(self.services@.take(i as int + 1) =~= self.services@.take(i as int).push(self.services@[i as int]));
                assert(items@ =~= before.push(entry));
                let tv = tables_view(items@);
                let st = services_tables(self.services@.take(i as int + 1));
                assert(items@.len() == i + 1);
                assert(tv.len() == i + 1);
                assert(self.services@.take(i as int + 1).len() == i + 1);
                assert(st.len() == i + 1);
                assert forall|j: int| 0 <= j < tv.len() implies tv[j] == st[j] by {
                    if j < i {
                        assert(items@[j] == before[j]);
                        assert(tables_view(before)[j] == services_tables(self.services@.take(i as int))[j]);
                        assert(self.services@.take(i as int + 1)[j] == self.services@.take(i as int)[j]);
                    } else {
                        assert(items@[j] == entry);
                        assert(self.services@.take(i as int + 1)[j] == self.services@[i as int]);
                    }
                }
                assert(tv =~= st);
            }
            i = i + 1;
        }
        assert(self.services@.take(self.services@.len() as int) =~= self.services@);
        Ok(render_tables("services", &items))
    }
}

} // verus!
