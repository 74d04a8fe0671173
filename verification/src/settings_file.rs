//! Edits of the settings file that keep what the user wrote in it. Adding or
//! replacing a service rewrites only that service's four keys in place when
//! its table is there (the comments and layout around them stay), and adds a
//! new table when it is not; removing a service drops its table. The TOML
//! document is parsed, edited and rendered by `toml_edit`; the decisions
//! around those steps are made here.
use vstd::prelude::*;
use crate::launch::KbSvcError;
use crate::settings::LlmServiceConfig;
use crate::settings_toml::{fields_view, service_fields};
use crate::text::{chars_of, concat2};
use crate::title::{trim, trim_chars};

verus! {

/// What stands at a place of a TOML document: `None` when nothing does,
/// `Some(true)` for a table, `Some(false)` for anything else (a value, an
/// inline table, an array of tables).
pub type Shape = Option<bool>;

/// The view of what was found in a document, or of its parse error.
pub open spec fn shapes_view(r: Result<(Shape, Shape), String>) -> Result<(Shape, Shape), Seq<char>> {
    match r {
        Ok(p) => Ok(p),
        Err(e) => Err(e@),
    }
}

/// Names what `toml_edit` finds when it parses `text`: the parse error's
/// text, or what stands under `table` at the top of the document and, when
/// that is a table, under `key` in it.
pub uninterp spec fn toml_shapes(text: Seq<char>, table: Seq<char>, key: Seq<char>) -> Result<(Shape, Shape), Seq<char>>;

/// Parses `text` as a `toml_edit::DocumentMut` and tells what stands under
/// `table` and, inside that table, under `key`.
///
/// Trusted: the parse and the lookups (`get`, `as_table`, `is_table`) are
/// `toml_edit`'s and depend on the three texts only; the result is named
/// `toml_shapes`. A parse failure gives the error's display text.
#[verifier::external_body]
fn shapes_of(text: &str, table: &str, key: &str) -> (r: Result<(Shape, Shape), String>)
    ensures
        shapes_view(r) == toml_shapes(text@, table@, key@),
{
    let doc = text.parse::<toml_edit::DocumentMut>().map_err(|e| e.to_string())?;
    let outer = doc.get(table);
    let inner = outer.and_then(toml_edit::Item::as_table).and_then(|t| t.get(key));
    Ok((outer.map(toml_edit::Item::is_table), inner.map(toml_edit::Item::is_table)))
}

/// Names the text `toml_edit` renders after the string `fields` are
/// assigned, one key at a time, in the table `key` of the table `table` of
/// the document parsed from `text`.
pub uninterp spec fn toml_keys_written(
    text: Seq<char>,
    table: Seq<char>,
    key: Seq<char>,
    fields: Seq<(Seq<char>, Seq<char>)>,
) -> Seq<char>;

/// Assigns each of `fields` as a string value in the existing table
/// `[table.key]` of the document parsed from `text`, and renders the
/// document. An assignment replaces the value of a key that is there and
/// keeps the key where it stands, with what is written around it.
///
/// Trusted: `toml_edit`'s parse, `IndexMut`, `value` and `Display`, a
/// function of the arguments only; the result is named `toml_keys_written`.
/// Both tables must be there (else the indexing panics).
#[verifier::external_body]
fn write_keys(text: &str, table: &str, key: &str, fields: &Vec<(String, String)>) -> (r: String)
    requires
        toml_shapes(text@, table@, key@) == Ok::<(Shape, Shape), Seq<char>>((Some(true), Some(true))),
    ensures
        r@ == toml_keys_written(text@, table@, key@, fields_view(fields@)),
{
    let mut doc = text.parse::<toml_edit::DocumentMut>().unwrap_or_default();
    for (k, v) in fields.iter() {
        doc[table][key][k.as_str()] = toml_edit::value(v.as_str());
    }
    doc.to_string()
}

/// Names the text `toml_edit` renders after a new table holding the string
/// `fields` is put under `key` in the table `table` (made when missing) of
/// the document parsed from `text`.
pub uninterp spec fn toml_table_put(
    text: Seq<char>,
    table: Seq<char>,
    key: Seq<char>,
    fields: Seq<(Seq<char>, Seq<char>)>,
) -> Seq<char>;

/// Puts a new table of the string `fields` under `key` in the table `table`
/// of the document parsed from `text` (an empty `table` is added first when
/// there is none), replacing what stood under `key`, and renders the
/// document.
///
/// Trusted: `toml_edit`'s parse, `FromIterator` for `Table`, `or_insert`,
/// `IndexMut` and `Display`, a function of the arguments only; the result is
/// named `toml_table_put`. What stands under `table` must be a table or
/// nothing (else the indexing panics).
#[verifier::external_body]
fn put_table(text: &str, table: &str, key: &str, fields: &Vec<(String, String)>) -> (r: String)
    requires
        toml_shapes(text@, table@, key@) matches Ok((outer, _)) && outer != Some(false),
    ensures
        r@ == toml_table_put(text@, table@, key@, fields_view(fields@)),
{
    let mut doc = text.parse::<toml_edit::DocumentMut>().unwrap_or_default();
    let t: toml_edit::Table = fields.iter().map(|(k, v)| (k.as_str(), toml_edit::value(v.as_str()))).collect();
    doc[table].or_insert(toml_edit::Item::Table(toml_edit::Table::new()))[key] = toml_edit::Item::Table(t);
    doc.to_string()
}

/// Names the text `toml_edit` renders after `key` is removed from the table
/// `table` of the document parsed from `text`.
pub uninterp spec fn toml_key_removed(text: Seq<char>, table: Seq<char>, key: Seq<char>) -> Seq<char>;

/// Removes `key` (when there) from the table `table` of the document parsed
/// from `text`, and renders the document.
///
/// Trusted: `toml_edit`'s parse, `get_mut`, `as_table_mut`, `remove` and
/// `Display`, a function of the arguments only; the result is named
/// `toml_key_removed`.
#[verifier::external_body]
fn remove_key(text: &str, table: &str, key: &str) -> (r: String)
    ensures
        r@ == toml_key_removed(text@, table@, key@),
{
    let mut doc = text.parse::<toml_edit::DocumentMut>().unwrap_or_default();
    let _ = doc.get_mut(table).and_then(toml_edit::Item::as_table_mut).map(|t| t.remove(key));
    doc.to_string()
}

/// The settings file's text after service `id` is added or replaced by `c`,
/// or the message of the refusal. A blank identifier is refused first; then
/// a text that is not TOML, and a `services` entry that is not a table. A
/// service whose table is there has its four keys rewritten in place; any
/// other gets a new table (under a `services` table made when missing).
pub open spec fn upserted_text(text: Seq<char>, id: Seq<char>, c: LlmServiceConfig) -> Result<Seq<char>, Seq<char>> {
    if trim(id).len() == 0 {
        Err("服务标识不能为空"@)
    } else {
        match toml_shapes(text, "services"@, id) {
            Err(e) => Err("TOML 解析失败: "@ + e),
            Ok((Some(false), _)) => Err("services 必须是一个表（table）"@),
            Ok((Some(true), Some(true))) => Ok(toml_keys_written(text, "services"@, id, service_fields(c))),
            Ok(_) => Ok(toml_table_put(text, "services"@, id, service_fields(c))),
        }
    }
}

/// The settings file's text after service `id` is removed, or the message
/// of the refusal (a text that is not TOML). With no `services` table there
/// is nothing to remove, and the text stays as it is.
pub open spec fn removed_text(text: Seq<char>, id: Seq<char>) -> Result<Seq<char>, Seq<char>> {
    match toml_shapes(text, "services"@, id) {
        Err(e) => Err("TOML 解析失败: "@ + e),
        Ok((Some(true), _)) => Ok(toml_key_removed(text, "services"@, id)),
        Ok(_) => Ok(text),
    }
}

/// The four fields of a service as (name, value) strings, in the order
/// they are written.
fn service_field_pairs(c: &LlmServiceConfig) -> (r: Vec<(String, String)>)
    ensures
        fields_view(r@) == service_fields(*c),
{
    let mut r: Vec<(String, String)> = Vec::new();
    r.push((String::from_str("provider"), c.provider.clone()));
    r.push((String::from_str("model"), c.model.clone()));
    r.push((String::from_str("base_url"), c.base_url.clone()));
    r.push((String::from_str("api_key"), c.api_key.clone()));
    proof {
        reveal_strlit("provider");
        reveal_strlit("model");
        reveal_strlit("base_url");
        reveal_strlit("api_key");
        assert(fields_view(r@) =~= service_fields(*c));
    }
    r
}

/// Adds or replaces service `id` in the settings file's text `text` (empty
/// for a file that does not exist yet), keeping the comments and layout of
/// the rest of the file, and gives the text to write back.
pub fn upsert_service_text(text: &str, id: &str, service: &LlmServiceConfig) -> (r: Result<String, KbSvcError>)
    ensures
        match (r, upserted_text(text@, id@, *service)) {
            (Ok(t), Ok(u)) => t@ == u,
            (Err(KbSvcError::Config(m)), Err(u)) => m@ == u,
            _ => false,
        },
{
    let chars = chars_of(id);
    if trim_chars(&chars).len() == 0 {
        return Err(KbSvcError::Config(String::from_str("服务标识不能为空")));
    }
    match shapes_of(text, "services", id) {
        Err(e) => Err(KbSvcError::Config(concat2("TOML 解析失败: ", e.as_str()))),
        Ok((Some(false), _)) => Err(KbSvcError::Config(String::from_str("services 必须是一个表（table）"))),
        Ok((Some(true), Some(true))) => {
            let fields = service_field_pairs(service);
            Ok(write_keys(text, "services", id, &fields))
        },
        Ok(_) => {
            let fields = service_field_pairs(service);
            Ok(put_table(text, "services", id, &fields))
        },
    }
}

/// Removes service `id` from the settings file's text `text` (empty for a
/// file that does not exist), and gives the text to write back; with no
/// `services` table it is `text` itself. Removing a service that is not
/// there succeeds.
pub fn remove_service_text(text: &str, id: &str) -> (r: Result<String, KbSvcError>)
    ensures
        match (r, removed_text(text@, id@)) {
            (Ok(t), Ok(u)) => t@ == u,
            (Err(KbSvcError::Config(m)), Err(u)) => m@ == u,
            _ => false,
        },
{
    match shapes_of(text, "services", id) {
        Err(e) => Err(KbSvcError::Config(concat2("TOML 解析失败: ", e.as_str()))),
        Ok((Some(true), _)) => Ok(remove_key(text, "services", id)),
        Ok(_) => Ok(text.to_owned()),
    }
}

/// A blank identifier is refused whatever the file holds, even a text that
/// is not TOML: nothing is written.
pub proof fn law_blank_id_is_refused_first(text: Seq<char>, id: Seq<char>, c: LlmServiceConfig)
    requires
        trim(id).len() == 0,
    ensures
        upserted_text(text, id, c) == Err::<Seq<char>, Seq<char>>("服务标识不能为空"@),
{
}

/// Removing is idempotent in what it promises: once the file parses,
/// removing a service succeeds whether or not the service is there, and a
/// file without a `services` table is left as it is.
pub proof fn law_remove_succeeds_when_the_file_parses(text: Seq<char>, id: Seq<char>)
    requires
        toml_shapes(text, "services"@, id) is Ok,
    ensures
        removed_text(text, id) is Ok,
        !(toml_shapes(text, "services"@, id) matches Ok((Some(true), _))) ==> removed_text(text, id)
            == Ok::<Seq<char>, Seq<char>>(text),
{
}

} // verus!
