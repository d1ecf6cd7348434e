//! A document tree for the JSON and YAML that the parsers read and the
//! configuration generator writes, with lookups in the manner of
//! `serde_json::Value` and `serde_yaml::Value`.
use vstd::prelude::*;
use crate::text::str_eq;

verus! {

/// A JSON or YAML value, as the library reads and writes it.
///
/// A number is held as `Some(n)` when it is a non-negative integer that fits
/// in a `u64` (what `as_u64` gives for it) and as `None` otherwise. A YAML
/// tag keeps the tagged value and drops the tag's name.
#[derive(Debug, PartialEq, Eq)]
pub enum DocValue {
    Null,
    Bool(bool),
    Number(Option<u64>),
    Str(String),
    List(Vec<DocValue>),
    Mapping(Vec<(DocValue, DocValue)>),
    Tagged(Box<DocValue>),
}

/// The mathematical model of a `DocValue`.
pub enum DocView {
    Null,
    Bool(bool),
    Number(Option<u64>),
    Str(Seq<char>),
    List(Seq<DocView>),
    Mapping(Seq<(DocView, DocView)>),
    Tagged(Box<DocView>),
}

impl DocValue {
    pub open spec fn spec_view(self) -> DocView
        decreases self,
    {
        match self {
            DocValue::Null => DocView::Null,
            DocValue::Bool(b) => DocView::Bool(b),
            DocValue::Number(n) => DocView::Number(n),
            DocValue::Str(s) => DocView::Str(s@),
            DocValue::List(items) => DocView::List(
                Seq::new(
                    items@.len(),
                    |i: int|
                        if 0 <= i < items@.len() {
                            items@[i].spec_view()
                        } else {
                            DocView::Null
                        },
                ),
            ),
            DocValue::Mapping(entries) => DocView::Mapping(
                Seq::new(
                    entries@.len(),
                    |i: int|
                        if 0 <= i < entries@.len() {
                            (entries@[i].0.spec_view(), entries@[i].1.spec_view())
                        } else {
                            (DocView::Null, DocView::Null)
                        },
                ),
            ),
            DocValue::Tagged(inner) => DocView::Tagged(Box::new(inner.spec_view())),
        }
    }
}

impl View for DocValue {
    type V = DocView;

    open spec fn view(&self) -> DocView {
        self.spec_view()
    }
}

/// The value under any number of tags.
pub open spec fn untag(v: DocView) -> DocView
    decreases v,
{
    match v {
        DocView::Tagged(inner) => untag(*inner),
        _ => v,
    }
}

/// The value of the first entry whose key is the string `key`.
pub open spec fn lookup(entries: Seq<(DocView, DocView)>, key: Seq<char>) -> Option<DocView>
    decreases entries.len(),
{
    if entries.len() == 0 {
        None
    } else if entries[0].0 == DocView::Str(key) {
        Some(entries[0].1)
    } else {
        lookup(entries.drop_first(), key)
    }
}

/// `v.get(key)`: the value under the string key `key` when `v` is a mapping.
pub open spec fn get_spec(v: DocView, key: Seq<char>) -> Option<DocView> {
    match untag(v) {
        DocView::Mapping(entries) => lookup(entries, key),
        _ => None,
    }
}

/// `v.as_str()`.
pub open spec fn str_spec(v: DocView) -> Option<Seq<char>> {
    match untag(v) {
        DocView::Str(s) => Some(s),
        _ => None,
    }
}

/// `v.as_u64()`.
pub open spec fn u64_spec(v: DocView) -> Option<u64> {
    match untag(v) {
        DocView::Number(n) => n,
        _ => None,
    }
}

/// `v.as_bool()`.
pub open spec fn bool_spec(v: DocView) -> Option<bool> {
    match untag(v) {
        DocView::Bool(b) => Some(b),
        _ => None,
    }
}

/// `v.as_array()` / `v.as_sequence()`.
pub open spec fn list_spec(v: DocView) -> Option<Seq<DocView>> {
    match untag(v) {
        DocView::List(items) => Some(items),
        _ => None,
    }
}

/// `opt.and_then(|v| v.as_str())`.
pub open spec fn opt_str(v: Option<DocView>) -> Option<Seq<char>> {
    match v {
        Some(x) => str_spec(x),
        None => None,
    }
}

/// `opt.and_then(|v| v.as_u64())`.
pub open spec fn opt_u64(v: Option<DocView>) -> Option<u64> {
    match v {
        Some(x) => u64_spec(x),
        None => None,
    }
}

/// `opt.and_then(|v| v.as_bool())`.
pub open spec fn opt_bool(v: Option<DocView>) -> Option<bool> {
    match v {
        Some(x) => bool_spec(x),
        None => None,
    }
}

/// `opt.and_then(|v| v.as_array())`.
pub open spec fn opt_list(v: Option<DocView>) -> Option<Seq<DocView>> {
    match v {
        Some(x) => list_spec(x),
        None => None,
    }
}

/// `opt.or_else(|| other)`.
pub open spec fn or_else<T>(a: Option<T>, b: Option<T>) -> Option<T> {
    match a {
        Some(x) => Some(x),
        None => b,
    }
}

/// `opt.unwrap_or(d)`.
pub open spec fn unwrap_or<T>(a: Option<T>, d: T) -> T {
    match a {
        Some(x) => x,
        None => d,
    }
}

/// The view of an optional reference to a value.
pub open spec fn opt_view(r: Option<&DocValue>) -> Option<DocView> {
    match r {
        Some(x) => Some(x@),
        None => None,
    }
}

/// The value under any number of tags.
pub fn untag_ref(v: &DocValue) -> (res: &DocValue)
    ensures
        res@ == untag(v@),
{
    let mut cur = v;
    loop
        invariant
            untag(cur@) == untag(v@),
        decreases cur@,
    {
        match cur {
            DocValue::Tagged(inner) => {
                cur = &**inner;
            },
            _ => {
                return cur;
            },
        }
    }
}

/// `v.get(key)`.
pub fn get<'a>(v: &'a DocValue, key: &str) -> (res: Option<&'a DocValue>)
    ensures
        opt_view(res) == get_spec(v@, key@),
{
    let u = untag_ref(v);
    match u {
        DocValue::Mapping(entries) => {
            let mut i: usize = 0;
            let ghost es = entries@.map_values(|e: (DocValue, DocValue)| (e.0@, e.1@));
            assert(es =~= match u@ {
                DocView::Mapping(x) => x,
                _ => es,
            });
            assert(es.skip(0) =~= es);
            while i < entries.len()
                invariant
                    i <= entries@.len() == es.len(),
                    es == entries@.map_values(|e: (DocValue, DocValue)| (e.0@, e.1@)),
                    get_spec(v@, key@) == lookup(es.skip(i as int), key@),
                decreases entries@.len() - i,
            {
                let e = &entries[i];
                assert(es.skip(i as int).drop_first() =~= es.skip(i + 1));
                assert(es.skip(i as int)[0] == (e.0@, e.1@));
                match &e.0 {
                    DocValue::Str(k) => {
                        if str_eq(k.as_str(), key) {
                            return Some(&e.1);
                        }
                    },
                    _ => {},
                }
                i += 1;
            }
            None
        },
        _ => None,
    }
}

/// `v.as_str()`.
pub fn as_str(v: &DocValue) -> (res: Option<&String>)
    ensures
        match res {
            Some(s) => str_spec(v@) == Some(s@),
            None => str_spec(v@) is None,
        },
{
    match untag_ref(v) {
        DocValue::Str(s) => Some(s),
        _ => None,
    }
}

/// `v.as_u64()`.
pub fn as_u64(v: &DocValue) -> (res: Option<u64>)
    ensures
        res == u64_spec(v@),
{
    match untag_ref(v) {
        DocValue::Number(n) => *n,
        _ => None,
    }
}

/// `v.as_bool()`.
pub fn as_bool(v: &DocValue) -> (res: Option<bool>)
    ensures
        res == bool_spec(v@),
{
    match untag_ref(v) {
        DocValue::Bool(b) => Some(*b),
        _ => None,
    }
}

/// `v.as_array()`.
pub fn as_list(v: &DocValue) -> (res: Option<&Vec<DocValue>>)
    ensures
        match res {
            Some(items) => list_spec(v@) == Some(items@.map_values(|x: DocValue| x@)),
            None => list_spec(v@) is None,
        },
{
    let u = untag_ref(v);
    match u {
        DocValue::List(items) => {
            assert(items@.map_values(|x: DocValue| x@) =~= match u@ {
                DocView::List(x) => x,
                _ => Seq::empty(),
            });
            Some(items)
        },
        _ => None,
    }
}


#[verifier::external_type_specification]
#[verifier::external_body]
pub struct ExJsonValue(serde_json::Value);

#[verifier::external_type_specification]
#[verifier::external_body]
pub struct ExYamlValue(serde_yaml::Value);

/// The document that `serde_json::from_str::<serde_json::Value>` reads from
/// `text`, or the message of the error it reports.
pub uninterp spec fn json_document(text: Seq<char>) -> Result<DocView, Seq<char>>;

/// The document that `serde_yaml::from_str::<serde_yaml::Value>` reads from
/// `text`, or the message of the error it reports.
pub uninterp spec fn yaml_document(text: Seq<char>) -> Result<DocView, Seq<char>>;

/// Copies a `serde_json::Value` into a `DocValue`, variant for variant
/// (a number becomes what its `as_u64` gives). No contract: its only caller
/// is `parse_json`, whose contract names the whole result.
#[verifier::external_body]
fn json_to_doc(v: &serde_json::Value) -> DocValue {
    match v {
        serde_json::Value::Null => DocValue::Null,
        serde_json::Value::Bool(b) => DocValue::Bool(*b),
        serde_json::Value::Number(n) => DocValue::Number(n.as_u64()),
        serde_json::Value::String(s) => DocValue::Str(s.clone()),
        serde_json::Value::Array(a) => DocValue::List(a.iter().map(json_to_doc).collect()),
        serde_json::Value::Object(m) => DocValue::Mapping(
            m.iter().map(|(k, x)| (DocValue::Str(k.clone()), json_to_doc(x))).collect(),
        ),
    }
}

/// Copies a `serde_yaml::Value` into a `DocValue`, variant for variant
/// (a number becomes what its `as_u64` gives, a tag keeps its value). No
/// contract: its only caller is `parse_yaml`, whose contract names the whole
/// result.
#[verifier::external_body]
fn yaml_to_doc(v: &serde_yaml::Value) -> DocValue {
    match v {
        serde_yaml::Value::Null => DocValue::Null,
        serde_yaml::Value::Bool(b) => DocValue::Bool(*b),
        serde_yaml::Value::Number(n) => DocValue::Number(n.as_u64()),
        serde_yaml::Value::String(s) => DocValue::Str(s.clone()),
        serde_yaml::Value::Sequence(a) => DocValue::List(a.iter().map(yaml_to_doc).collect()),
        serde_yaml::Value::Mapping(m) => DocValue::Mapping(
            m.iter().map(|(k, x)| (yaml_to_doc(k), yaml_to_doc(x))).collect(),
        ),
        serde_yaml::Value::Tagged(t) => DocValue::Tagged(Box::new(yaml_to_doc(&t.value))),
    }
}

/// Reads `text` as JSON with `serde_json::from_str::<serde_json::Value>`.
/// The contract only names the result: JSON syntax is not restated here.
#[verifier::external_body]
pub(crate) fn parse_json(text: &str) -> (res: Result<DocValue, String>)
    ensures
        match res {
            Ok(d) => json_document(text@) == Ok::<DocView, Seq<char>>(d@),
            Err(e) => json_document(text@) == Err::<DocView, Seq<char>>(e@),
        },
{
    serde_json::from_str::<serde_json::Value>(text).map(|v| json_to_doc(&v)).map_err(|e| e.to_string())
}

/// Reads `text` as YAML with `serde_yaml::from_str::<serde_yaml::Value>`.
/// The contract only names the result: YAML syntax is not restated here.
#[verifier::external_body]
pub(crate) fn parse_yaml(text: &str) -> (res: Result<DocValue, String>)
    ensures
        match res {
            Ok(d) => yaml_document(text@) == Ok::<DocView, Seq<char>>(d@),
            Err(e) => yaml_document(text@) == Err::<DocView, Seq<char>>(e@),
        },
{
    serde_yaml::from_str::<serde_yaml::Value>(text).map(|v| yaml_to_doc(&v)).map_err(|e| e.to_string())
}


/// The string values among `items`, in order (`filter_map(as_str)`).
pub open spec fn str_items(items: Seq<DocView>) -> Seq<Seq<char>>
    decreases items.len(),
{
    if items.len() == 0 {
        Seq::empty()
    } else {
        let rest = str_items(items.drop_last());
        match str_spec(items.last()) {
            Some(s) => rest.push(s),
            None => rest,
        }
    }
}

/// The string under `key`, or `d`.
pub fn get_str_or(v: &DocValue, key: &str, d: &str) -> (res: String)
    ensures
        res@ == unwrap_or(opt_str(get_spec(v@, key@)), d@),
{
    match get(v, key) {
        Some(x) => match as_str(x) {
            Some(s) => s.clone(),
            None => d.to_owned(),
        },
        None => d.to_owned(),
    }
}

/// The string under `key`, else under `alt`, or `d` (the fallback key is
/// only read where `key` is absent).
pub fn get_str_or_else(v: &DocValue, key: &str, alt: &str, d: &str) -> (res: String)
    ensures
        res@ == unwrap_or(opt_str(or_else(get_spec(v@, key@), get_spec(v@, alt@))), d@),
{
    let x = match get(v, key) {
        Some(x) => Some(x),
        None => get(v, alt),
    };
    match x {
        Some(x) => match as_str(x) {
            Some(s) => s.clone(),
            None => d.to_owned(),
        },
        None => d.to_owned(),
    }
}

/// The number under `key`, or `d`.
pub fn get_u64_or(v: &DocValue, key: &str, d: u64) -> (res: u64)
    ensures
        res == unwrap_or(opt_u64(get_spec(v@, key@)), d),
{
    match get(v, key) {
        Some(x) => match as_u64(x) {
            Some(n) => n,
            None => d,
        },
        None => d,
    }
}

/// The boolean under `key`, or `d`.
pub fn get_bool_or(v: &DocValue, key: &str, d: bool) -> (res: bool)
    ensures
        res == unwrap_or(opt_bool(get_spec(v@, key@)), d),
{
    match get(v, key) {
        Some(x) => match as_bool(x) {
            Some(b) => b,
            None => d,
        },
        None => d,
    }
}

/// The string values among `items`, in order.
pub fn strings_among(items: &Vec<DocValue>) -> (res: Vec<String>)
    ensures
        res@.map_values(|s: String| s@) == str_items(items@.map_values(|x: DocValue| x@)),
{
    let ghost iv = items@.map_values(|x: DocValue| x@);
    let mut res: Vec<String> = Vec::new();
    let mut i: usize = 0;
    assert(iv.take(0) =~= Seq::<DocView>::empty());
    assert(res@.map_values(|s: String| s@) =~= Seq::<Seq<char>>::empty());
    while i < items.len()
        invariant
            i <= items@.len(),
            iv == items@.map_values(|x: DocValue| x@),
            res@.map_values(|s: String| s@) == str_items(iv.take(i as int)),
        decreases items@.len() - i,
    {
        assert(iv.take(i + 1).drop_last() =~= iv.take(i as int));
        assert(iv.take(i + 1).last() == items@[i as int]@);
        match as_str(&items[i]) {
            Some(s) => {
                let ghost before = res@;
                res.push(s.clone());
                assert(res@.map_values(|s: String| s@) =~= before.map_values(|s: String| s@).push(
                    s@,
                ));
            },
            None => {},
        }
        i += 1;
    }
    assert(iv.take(items@.len() as int) =~= iv);
    res
}

/// The list under `key`, if it is one.
pub fn get_list<'a>(v: &'a DocValue, key: &str) -> (res: Option<&'a Vec<DocValue>>)
    ensures
        match res {
            Some(items) => opt_list(get_spec(v@, key@)) == Some(items@.map_values(|x: DocValue| x@)),
            None => opt_list(get_spec(v@, key@)) is None,
        },
{
    match get(v, key) {
        Some(x) => as_list(x),
        None => None,
    }
}


/// The views of the entries of a mapping.
pub open spec fn entries_view(e: Seq<(DocValue, DocValue)>) -> Seq<(DocView, DocView)> {
    e.map_values(|p: (DocValue, DocValue)| (p.0@, p.1@))
}

/// The views of the items of a list.
pub open spec fn items_view(v: Seq<DocValue>) -> Seq<DocView> {
    v.map_values(|x: DocValue| x@)
}

/// An entry with a string key.
pub open spec fn kv(k: Seq<char>, v: DocView) -> (DocView, DocView) {
    (DocView::Str(k), v)
}

/// A mapping of the given entries, in order.
pub fn object(entries: Vec<(DocValue, DocValue)>) -> (res: DocValue)
    ensures
        res@ == DocView::Mapping(entries_view(entries@)),
{
    let res = DocValue::Mapping(entries);
    assert(res@ == DocView::Mapping(entries_view(entries@))) by {
        match res@ {
            DocView::Mapping(es) => {
                assert(es =~= entries_view(entries@));
            },
            _ => {},
        }
    }
    res
}

/// A list of the given items, in order.
pub fn list(items: Vec<DocValue>) -> (res: DocValue)
    ensures
        res@ == DocView::List(items_view(items@)),
{
    let res = DocValue::List(items);
    assert(res@ == DocView::List(items_view(items@))) by {
        match res@ {
            DocView::List(xs) => {
                assert(xs =~= items_view(items@));
            },
            _ => {},
        }
    }
    res
}

/// A string value.
pub fn string_value(s: &str) -> (res: DocValue)
    ensures
        res@ == DocView::Str(s@),
{
    DocValue::Str(s.to_owned())
}

/// Appends the entry `k: v` to a mapping under construction.
pub fn push_entry(entries: &mut Vec<(DocValue, DocValue)>, k: &str, v: DocValue)
    ensures
        entries_view(final(entries)@) == entries_view(old(entries)@).push(kv(k@, v@)),
{
    let ghost before = entries@;
    entries.push((string_value(k), v));
    assert(entries_view(entries@) =~= entries_view(before).push(kv(k@, v@)));
}

/// Looking a key up in a mapping with one more entry at the end: the
/// earlier entries win.
pub broadcast proof fn lemma_lookup_push(es: Seq<(DocView, DocView)>, e: (DocView, DocView), key: Seq<char>)
    ensures
        #[trigger] lookup(es.push(e), key) == match lookup(es, key) {
            Some(v) => Some(v),
            None => if e.0 == DocView::Str(key) {
                Some(e.1)
            } else {
                None
            },
        },
    decreases es.len(),
{
    if es.len() == 0 {
        assert(es.push(e).drop_first() =~= Seq::<(DocView, DocView)>::empty());
        assert(es.push(e)[0] == e);
        assert(lookup(Seq::<(DocView, DocView)>::empty(), key) is None);
        assert(lookup(es, key) is None);
    } else {
        assert(es.push(e).drop_first() =~= es.drop_first().push(e));
        assert(es.push(e)[0] == es[0]);
        lemma_lookup_push(es.drop_first(), e, key);
    }
}

/// `es` without its entries under the string key `key`.
pub open spec fn without_key(es: Seq<(DocView, DocView)>, key: Seq<char>) -> Seq<(DocView, DocView)>
    decreases es.len(),
{
    if es.len() == 0 {
        es
    } else {
        let rest = without_key(es.drop_last(), key);
        if es.last().0 == DocView::Str(key) {
            rest
        } else {
            rest.push(es.last())
        }
    }
}

/// `es` with the string key `key` set to `v` (as `map[key] = v` does): any
/// entry under `key` gives way to the new one, the other entries stay.
pub open spec fn set_entry(es: Seq<(DocView, DocView)>, key: Seq<char>, v: DocView) -> Seq<(DocView, DocView)> {
    without_key(es, key).push(kv(key, v))
}

/// Dropping the entries under a key from a mapping with one more entry.
pub broadcast proof fn lemma_without_key_push(es: Seq<(DocView, DocView)>, e: (DocView, DocView), key: Seq<char>)
    ensures
        #[trigger] without_key(es.push(e), key) == if e.0 == DocView::Str(key) {
            without_key(es, key)
        } else {
            without_key(es, key).push(e)
        },
{
    assert(es.push(e).drop_last() =~= es);
}

/// A mapping with no entry under `key` keeps all its entries.
proof fn lemma_without_absent_key(es: Seq<(DocView, DocView)>, key: Seq<char>)
    requires
        forall|k: int| 0 <= k < es.len() ==> es[k].0 != DocView::Str(key),
    ensures
        without_key(es, key) == es,
    decreases es.len(),
{
    if es.len() > 0 {
        lemma_without_absent_key(es.drop_last(), key);
        assert(es.drop_last().push(es.last()) =~= es);
    }
}

/// Removing one entry under `key` does not change what is left once all
/// entries under `key` are dropped.
proof fn lemma_without_key_remove(es: Seq<(DocView, DocView)>, key: Seq<char>, i: int)
    requires
        0 <= i < es.len(),
        es[i].0 == DocView::Str(key),
    ensures
        without_key(es.remove(i), key) == without_key(es, key),
    decreases es.len(),
{
    if i == es.len() - 1 {
        assert(es.remove(i) =~= es.drop_last());
    } else {
        lemma_without_key_remove(es.drop_last(), key, i);
        assert(es.remove(i).drop_last() =~= es.drop_last().remove(i));
        assert(es.remove(i).last() == es.last());
    }
}

/// After the entries under `key` are dropped, no lookup finds `key`, and a
/// lookup of any other key finds what it found before.
pub proof fn lemma_without_key_lookup(es: Seq<(DocView, DocView)>, key: Seq<char>, other: Seq<char>)
    requires
        other != key,
    ensures
        lookup(without_key(es, key), key) is None,
        lookup(without_key(es, key), other) == lookup(es, other),
    decreases es.len(),
{
    broadcast use lemma_lookup_push;

    if es.len() == 0 {
    } else {
        lemma_without_key_lookup(es.drop_last(), key, other);
        assert(es.drop_last().push(es.last()) =~= es);
    }
}

/// Dropping the entries under a key twice drops them once.
pub proof fn lemma_without_key_idempotent(es: Seq<(DocView, DocView)>, key: Seq<char>)
    ensures
        without_key(without_key(es, key), key) == without_key(es, key),
    decreases es.len(),
{
    broadcast use lemma_without_key_push;

    if es.len() > 0 {
        lemma_without_key_idempotent(es.drop_last(), key);
    }
}

/// Setting `key` to `v`: a lookup of `key` finds `v`, a lookup of any other
/// key finds what it found before.
pub proof fn lemma_set_entry_lookup(es: Seq<(DocView, DocView)>, key: Seq<char>, v: DocView, other: Seq<char>)
    requires
        other != key,
    ensures
        lookup(set_entry(es, key, v), key) == Some(v),
        lookup(set_entry(es, key, v), other) == lookup(es, other),
{
    broadcast use lemma_lookup_push;

    lemma_without_key_lookup(es, key, other);
}

/// Sets the string key `k` of a mapping under construction to `v`: entries
/// already under `k` are dropped and the new one goes at the end.
pub fn set_entry_in(entries: &mut Vec<(DocValue, DocValue)>, k: &str, v: DocValue)
    ensures
        entries_view(final(entries)@) == set_entry(entries_view(old(entries)@), k@, v@),
{
    let ghost orig = entries_view(entries@);
    let mut i: usize = 0;
    while i < entries.len()
        invariant
            i <= entries@.len(),
            without_key(entries_view(entries@), k@) == without_key(orig, k@),
            forall|j: int| 0 <= j < i ==> (#[trigger] entries_view(entries@)[j]).0 != DocView::Str(k@),
        decreases entries@.len() - i,
    {
        let hit = match &entries[i].0 {
            DocValue::Str(s) => str_eq(s.as_str(), k),
            _ => false,
        };
        assert(entries_view(entries@)[i as int] == (entries@[i as int].0@, entries@[i as int].1@));
        if hit {
            let ghost before = entries@;
            let _ = entries.remove(i);
            proof {
                assert(entries_view(entries@) =~= entries_view(before).remove(i as int));
                lemma_without_key_remove(entries_view(before), k@, i as int);
                assert forall|j: int| 0 <= j < i implies (#[trigger] entries_view(entries@)[j]).0 != DocView::Str(k@) by {
                    assert(entries_view(entries@)[j] == entries_view(before)[j]);
                }
            }
        } else {
            i = i + 1;
        }
    }
    proof {
        lemma_without_absent_key(entries_view(entries@), k@);
    }
    push_entry(entries, k, v);
}

/// Appends an item to a list under construction.
pub fn push_item(items: &mut Vec<DocValue>, v: DocValue)
    ensures
        items_view(final(items)@) == items_view(old(items)@).push(v@),
{
    let ghost before = items@;
    items.push(v);
    assert(items_view(items@) =~= items_view(before).push(v@));
}

/// A list of string values.
pub fn string_list(v: &Vec<String>) -> (res: DocValue)
    ensures
        res@ == DocView::List(v@.map_values(|s: String| DocView::Str(s@))),
{
    let mut items: Vec<DocValue> = Vec::new();
    let mut i: usize = 0;
    while i < v.len()
        invariant
            i <= v@.len(),
            items_view(items@) == v@.take(i as int).map_values(|s: String| DocView::Str(s@)),
        decreases v@.len() - i,
    {
        push_item(&mut items, string_value(v[i].as_str()));
        i += 1;
        assert(items_view(items@) =~= v@.take(i as int).map_values(|s: String| DocView::Str(s@)));
    }
    assert(v@.take(i as int) =~= v@);
    list(items)
}

}
