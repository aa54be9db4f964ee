//! A JSON document model holding, as plain values, what the response logic
//! reads, with `serde_json` doing the parsing and serializing.

use vstd::prelude::*;

verus! {

/// A JSON number: its value when it is an integer that fits in `i64`
/// (what `serde_json::Value::as_i64` returns), and its JSON text.
#[derive(Debug, Clone)]
pub struct JsonNumber {
    pub as_i64: Option<i64>,
    pub text: String,
}

/// A JSON value. Objects keep their entries in order; a key is looked up at
/// its first entry.
#[derive(Debug)]
pub enum Json {
    Null,
    Bool(bool),
    Number(JsonNumber),
    Str(String),
    Array(Vec<Json>),
    Object(Vec<(String, Json)>),
}

/// The mathematical value of a JSON document.
pub enum JsonV {
    Null,
    Bool(bool),
    Number(Option<i64>, Seq<char>),
    Str(Seq<char>),
    Array(Seq<JsonV>),
    Object(Seq<(Seq<char>, JsonV)>),
}

impl Json {
    /// The document's value.
    pub open spec fn jv(self) -> JsonV
        decreases self,
    {
        match self {
            Json::Null => JsonV::Null,
            Json::Bool(b) => JsonV::Bool(b),
            Json::Number(n) => JsonV::Number(n.as_i64, n.text@),
            Json::Str(s) => JsonV::Str(s@),
            Json::Array(items) => JsonV::Array(
                Seq::new(
                    items@.len(),
                    |i: int|
                        if 0 <= i < items@.len() {
                            items@[i].jv()
                        } else {
                            JsonV::Null
                        },
                ),
            ),
            Json::Object(entries) => JsonV::Object(
                Seq::new(
                    entries@.len(),
                    |i: int|
                        if 0 <= i < entries@.len() {
                            (entries@[i].0@, entries@[i].1.jv())
                        } else {
                            (Seq::empty(), JsonV::Null)
                        },
                ),
            ),
        }
    }
}

/// Index of the first entry with key `key`.
pub open spec fn first_key_index(entries: Seq<(Seq<char>, JsonV)>, key: Seq<char>) -> Option<int> {
    if exists|i: int| 0 <= i < entries.len() && entries[i].0 == key {
        Some(
            choose|i: int|
                0 <= i < entries.len() && entries[i].0 == key && forall|j: int|
                    0 <= j < i ==> entries[j].0 != key,
        )
    } else {
        None
    }
}

/// The first index of a key holds that key.
pub proof fn lemma_first_key_index(entries: Seq<(Seq<char>, JsonV)>, key: Seq<char>)
    ensures
        first_key_index(entries, key) matches Some(i) ==> 0 <= i < entries.len() && entries[i].0 == key,
{
    if exists|i: int| 0 <= i < entries.len() && entries[i].0 == key {
        let w = choose|i: int| 0 <= i < entries.len() && entries[i].0 == key;
        crate::json::lemma_least_index(entries, key, w);
    }
}

/// Below a key's index there is a least one.
proof fn lemma_least_index(entries: Seq<(Seq<char>, JsonV)>, key: Seq<char>, w: int)
    requires
        0 <= w < entries.len(),
        entries[w].0 == key,
    ensures
        exists|i: int|
            0 <= i < entries.len() && entries[i].0 == key && forall|j: int| 0 <= j < i ==> entries[j].0 != key,
    decreases w,
{
    if exists|j: int| 0 <= j < w && entries[j].0 == key {
        let v = choose|j: int| 0 <= j < w && entries[j].0 == key;
        lemma_least_index(entries, key, v);
    } else {
        assert(forall|j: int| 0 <= j < w ==> entries[j].0 != key);
    }
}

/// `value.get(key)`: the value of `key` when `value` is an object holding it.
pub open spec fn json_get(value: JsonV, key: Seq<char>) -> Option<JsonV> {
    match value {
        JsonV::Object(entries) => match first_key_index(entries, key) {
            Some(i) => Some(entries[i].1),
            None => None,
        },
        _ => None,
    }
}

/// `value.as_str()`.
pub open spec fn json_as_str(value: JsonV) -> Option<Seq<char>> {
    match value {
        JsonV::Str(s) => Some(s),
        _ => None,
    }
}

/// `value.as_bool()`.
pub open spec fn json_as_bool(value: JsonV) -> Option<bool> {
    match value {
        JsonV::Bool(b) => Some(b),
        _ => None,
    }
}

/// `value.as_i64()`.
pub open spec fn json_as_i64(value: JsonV) -> Option<i64> {
    match value {
        JsonV::Number(n, _) => n,
        _ => None,
    }
}

/// `value.get(key).and_then(as_str)`.
pub open spec fn json_get_str(value: JsonV, key: Seq<char>) -> Option<Seq<char>> {
    match json_get(value, key) {
        Some(v) => json_as_str(v),
        None => None,
    }
}

/// `value.get(key).and_then(as_bool)`.
pub open spec fn json_get_bool(value: JsonV, key: Seq<char>) -> Option<bool> {
    match json_get(value, key) {
        Some(v) => json_as_bool(v),
        None => None,
    }
}

/// The first element of an array value.
pub open spec fn json_first(value: JsonV) -> Option<JsonV> {
    match value {
        JsonV::Array(items) => if items.len() > 0 {
            Some(items[0])
        } else {
            None
        },
        _ => None,
    }
}

/// The text of `value.content[0].text`, the usual MCP tool-call payload.
pub open spec fn content_text(value: JsonV) -> Option<Seq<char>> {
    match json_get(value, "content"@) {
        Some(c) => match json_first(c) {
            Some(item) => json_get_str(item, "text"@),
            None => None,
        },
        None => None,
    }
}

/// `value.get(k1).or_else(|| value.get(k2))`: the value of the first of two
/// keys that is present.
pub open spec fn json_get_either(value: JsonV, k1: Seq<char>, k2: Seq<char>) -> Option<JsonV> {
    match json_get(value, k1) {
        Some(v) => Some(v),
        None => json_get(value, k2),
    }
}

/// The value of the first present key among three.
pub open spec fn json_get_first3(value: JsonV, k1: Seq<char>, k2: Seq<char>, k3: Seq<char>) -> Option<JsonV> {
    match json_get_either(value, k1, k2) {
        Some(v) => Some(v),
        None => json_get(value, k3),
    }
}

/// The value of the first present key among four.
pub open spec fn json_get_first4(value: JsonV, k1: Seq<char>, k2: Seq<char>, k3: Seq<char>, k4: Seq<char>) -> Option<JsonV> {
    match json_get_first3(value, k1, k2, k3) {
        Some(v) => Some(v),
        None => json_get(value, k4),
    }
}

/// `opt.and_then(as_str).unwrap_or("")`.
pub open spec fn str_or_empty(opt: Option<JsonV>) -> Seq<char> {
    match opt {
        Some(v) => match json_as_str(v) {
            Some(s) => s,
            None => Seq::empty(),
        },
        None => Seq::empty(),
    }
}

/// The value of an optional document reference.
pub open spec fn opt_jv(r: Option<&Json>) -> Option<JsonV> {
    match r {
        Some(v) => Some(v.jv()),
        None => None,
    }
}

/// The value of an optional document.
pub open spec fn opt_jv_owned(r: Option<Json>) -> Option<JsonV> {
    match r {
        Some(v) => Some(v.jv()),
        None => None,
    }
}

/// What `serde_json::from_str::<serde_json::Value>` returns for a text:
/// `Some` of the document when the text is valid JSON, `None` otherwise.
pub uninterp spec fn spec_parse_json(text: Seq<char>) -> Option<JsonV>;

/// What `serde_json::to_string_pretty` writes for a document.
pub uninterp spec fn spec_json_pretty(value: JsonV) -> Seq<char>;

/// What `serde_json::Value`'s `Display` (compact JSON) writes for a document.
pub uninterp spec fn spec_json_compact(value: JsonV) -> Seq<char>;

/// `serde_json::Value`, carried opaquely through the conversions below.
#[verifier::external_type_specification]
#[verifier::external_body]
pub struct ExSerdeJsonValue(serde_json::Value);

/// Converts a `serde_json::Value` into a `Json`, one node for one node.
#[verifier::external_body]
fn json_from_serde(v: &serde_json::Value) -> Json {
    match v {
        serde_json::Value::Null => Json::Null,
        serde_json::Value::Bool(b) => Json::Bool(*b),
        serde_json::Value::Number(n) => Json::Number(JsonNumber { as_i64: n.as_i64(), text: n.to_string() }),
        serde_json::Value::String(s) => Json::Str(s.clone()),
        serde_json::Value::Array(a) => Json::Array(a.iter().map(json_from_serde).collect()),
        serde_json::Value::Object(o) => Json::Object(o.iter().map(|(k, x)| (k.clone(), json_from_serde(x))).collect()),
    }
}

/// Converts a `Json` into a `serde_json::Value`, one node for one node.
#[verifier::external_body]
fn json_to_serde(j: &Json) -> serde_json::Value {
    match j {
        Json::Null => serde_json::Value::Null,
        Json::Bool(b) => serde_json::Value::Bool(*b),
        Json::Number(n) => serde_json::from_str(&n.text).unwrap_or(serde_json::Value::Null),
        Json::Str(s) => serde_json::Value::String(s.clone()),
        Json::Array(a) => serde_json::Value::Array(a.iter().map(json_to_serde).collect()),
        Json::Object(o) => serde_json::Value::Object(o.iter().map(|(k, x)| (k.clone(), json_to_serde(x))).collect()),
    }
}

/// Parses a text as JSON with `serde_json::from_str`. The result is named:
/// the same text always gives the same document.
#[verifier::external_body]
pub(crate) fn parse_json(text: &str) -> (r: Option<Json>)
    ensures
        match r {
            Some(j) => spec_parse_json(text@) == Some(j.jv()),
            None => spec_parse_json(text@) is None,
        },
{
    serde_json::from_str::<serde_json::Value>(text).ok().map(|v| json_from_serde(&v))
}

/// Serializes a document with `serde_json::to_string_pretty` (which cannot
/// fail on a `serde_json::Value`). The result is named.
#[verifier::external_body]
pub(crate) fn json_pretty(j: &Json) -> (r: String)
    ensures
        r@ == spec_json_pretty(j.jv()),
{
    serde_json::to_string_pretty(&json_to_serde(j)).unwrap_or_default()
}

/// Serializes a document as compact JSON (`Display` of `serde_json::Value`).
/// The result is named.
#[verifier::external_body]
pub(crate) fn json_compact(j: &Json) -> (r: String)
    ensures
        r@ == spec_json_compact(j.jv()),
{
    json_to_serde(j).to_string()
}


/// The value of the first of `keys` that is present.
pub open spec fn json_get_first_of(value: JsonV, keys: Seq<Seq<char>>) -> Option<JsonV>
    decreases keys.len(),
{
    if keys.len() == 0 {
        None
    } else {
        match json_get(value, keys[0]) {
            Some(v) => Some(v),
            None => json_get_first_of(value, keys.drop_first()),
        }
    }
}

/// The text of each key.
pub open spec fn key_texts(keys: Seq<&str>) -> Seq<Seq<char>> {
    keys.map_values(|k: &str| k@)
}

/// The value of the first of `keys` that is present.
pub fn get_first_of<'a>(data: &'a Json, keys: &[&str]) -> (r: Option<&'a Json>)
    ensures
        opt_jv(r) == json_get_first_of(data.jv(), key_texts(keys@)),
{
    let ghost ks = key_texts(keys@);
    assert(ks.subrange(0, ks.len() as int) =~= ks);
    let mut i: usize = 0;
    while i < keys.len()
        invariant
            i <= keys@.len(),
            ks == key_texts(keys@),
            json_get_first_of(data.jv(), ks) == json_get_first_of(data.jv(), ks.subrange(i as int, ks.len() as int)),
        decreases keys.len() - i,
    {
        let ghost rest = ks.subrange(i as int, ks.len() as int);
        proof {
            assert(rest[0] == keys@[i as int]@);
            assert(rest.drop_first() =~= ks.subrange(i + 1, ks.len() as int));
        }
        match data.get(keys[i]) {
            Some(v) => {
                return Some(v);
            },
            None => {},
        }
        i = i + 1;
    }
    proof {
        assert(ks.subrange(i as int, ks.len() as int).len() == 0);
    }
    None
}

/// `value.get(k1).or_else(|| value.get(k2))`.
pub fn get_either<'a>(data: &'a Json, k1: &str, k2: &str) -> (r: Option<&'a Json>)
    ensures
        opt_jv(r) == json_get_either(data.jv(), k1@, k2@),
{
    match data.get(k1) {
        Some(v) => Some(v),
        None => data.get(k2),
    }
}

/// The value of the first present key among three.
pub fn get_first3<'a>(data: &'a Json, k1: &str, k2: &str, k3: &str) -> (r: Option<&'a Json>)
    ensures
        opt_jv(r) == json_get_first3(data.jv(), k1@, k2@, k3@),
{
    match get_either(data, k1, k2) {
        Some(v) => Some(v),
        None => data.get(k3),
    }
}

/// The value of the first present key among four.
pub fn get_first4<'a>(data: &'a Json, k1: &str, k2: &str, k3: &str, k4: &str) -> (r: Option<&'a Json>)
    ensures
        opt_jv(r) == json_get_first4(data.jv(), k1@, k2@, k3@, k4@),
{
    match get_first3(data, k1, k2, k3) {
        Some(v) => Some(v),
        None => data.get(k4),
    }
}

impl Json {
    /// A copy of the document.
    pub fn deep_clone(&self) -> (r: Json)
        ensures
            r.jv() == self.jv(),
        decreases self,
    {
        match self {
            Json::Null => Json::Null,
            Json::Bool(b) => Json::Bool(*b),
            Json::Number(n) => {
                let r = Json::Number(JsonNumber { as_i64: n.as_i64, text: n.text.clone() });
                assert(r.jv() == self.jv());
                r
            },
            Json::Str(s) => {
                let r = Json::Str(s.clone());
                assert(r.jv() == self.jv());
                r
            },
            Json::Array(items) => {
                let mut out: Vec<Json> = Vec::new();
                let mut i: usize = 0;
                while i < items.len()
                    invariant
                        *self == Json::Array(*items),
                        i <= items@.len(),
                        out@.len() == i,
                        forall|k: int| 0 <= k < i ==> #[trigger] out@[k].jv() == items@[k].jv(),
                    decreases items.len() - i,
                {
                    proof {
                        assert(decreases_to!(*self => self->Array_0));
                        assert(decreases_to!(self->Array_0 => self->Array_0@));
                        assert(decreases_to!(self->Array_0@ => self->Array_0@[i as int]));
                    }
                    out.push(items[i].deep_clone());
                    i = i + 1;
                }
                let r = Json::Array(out);
                proof {
                    let a = r.jv()->Array_0;
                    let b = self.jv()->Array_0;
                    assert(a.len() == b.len());
                    assert forall|k: int| 0 <= k < a.len() implies a[k] == b[k] by {
                        assert(r->Array_0@[k].jv() == items@[k].jv());
                    }
                    assert(a =~= b);
                }
                r
            },
            Json::Object(entries) => {
                let mut out: Vec<(String, Json)> = Vec::new();
                let mut i: usize = 0;
                while i < entries.len()
                    invariant
                        *self == Json::Object(*entries),
                        i <= entries@.len(),
                        out@.len() == i,
                        forall|k: int| 0 <= k < i ==> (#[trigger] out@[k]).0@ == entries@[k].0@ && out@[k].1.jv() == entries@[k].1.jv(),
                    decreases entries.len() - i,
                {
                    proof {
                        assert(decreases_to!(*self => self->Object_0));
                        assert(decreases_to!(self->Object_0 => self->Object_0@));
                        assert(decreases_to!(self->Object_0@ => self->Object_0@[i as int]));
                        assert(decreases_to!(self->Object_0@[i as int] => self->Object_0@[i as int].1));
                    }
                    out.push((entries[i].0.clone(), entries[i].1.deep_clone()));
                    i = i + 1;
                }
                let r = Json::Object(out);
                proof {
                    let a = r.jv()->Object_0;
                    let b = self.jv()->Object_0;
                    assert(a.len() == b.len());
                    assert forall|k: int| 0 <= k < a.len() implies a[k] == b[k] by {
                        assert(r->Object_0@[k].1.jv() == entries@[k].1.jv());
                        assert(r->Object_0@[k].0@ == entries@[k].0@);
                    }
                    assert(a =~= b);
                }
                r
            },
        }
    }

    /// Builds a string value.
    pub fn string(s: &str) -> (r: Json)
        ensures
            r.jv() == JsonV::Str(s@),
    {
        Json::Str(s.to_owned())
    }

    /// Builds an integer value.
    pub fn integer(n: i64) -> (r: Json)
        ensures
            json_as_i64(r.jv()) == Some(n),
            r.jv() == JsonV::Number(Some(n), crate::text::spec_decimal(n as int)),
    {
        Json::Number(JsonNumber { as_i64: Some(n), text: crate::text::i64_to_string(n) })
    }

    /// `value.get(key)`.
    pub fn get(&self, key: &str) -> (r: Option<&Json>)
        ensures
            opt_jv(r) == json_get(self.jv(), key@),
    {
        match self {
            Json::Object(entries) => {
                let ghost es: Seq<(Seq<char>, JsonV)> = match self.jv() {
                    JsonV::Object(e) => e,
                    _ => Seq::empty(),
                };
                assert(es.len() == entries@.len());
                assert(forall|j: int| 0 <= j < es.len() ==> #[trigger] es[j] == (entries@[j].0@, entries@[j].1.jv()));
                let mut i: usize = 0;
                while i < entries.len()
                    invariant
                        i <= entries@.len(),
                        es.len() == entries@.len(),
                        self.jv() == JsonV::Object(es),
                        forall|j: int| 0 <= j < es.len() ==> #[trigger] es[j] == (entries@[j].0@, entries@[j].1.jv()),
                        forall|j: int| 0 <= j < i ==> es[j].0 != key@,
                    decreases entries.len() - i,
                {
                    if crate::text::str_eq(entries[i].0.as_str(), key) {
                        proof {
                            assert(es[i as int].0 == key@);
                            let w = choose|k: int|
                                0 <= k < es.len() && es[k].0 == key@ && forall|j: int|
                                    0 <= j < k ==> es[j].0 != key@;
                            assert(0 <= w < es.len() && es[w].0 == key@ && forall|j: int|
                                0 <= j < w ==> es[j].0 != key@);
                            if w < i {
                                assert(es[w].0 != key@);
                            } else if w > i {
                                assert(es[i as int].0 != key@);
                            }
                            assert(first_key_index(es, key@) == Some(i as int));
                        }
                        return Some(&entries[i].1);
                    }
                    i = i + 1;
                }
                proof {
                    assert(!(exists|k: int| 0 <= k < es.len() && es[k].0 == key@));
                }
                None
            },
            _ => None,
        }
    }

    /// `value.as_str()`.
    pub fn as_str(&self) -> (r: Option<&str>)
        ensures
            r matches Some(s) ==> json_as_str(self.jv()) == Some(s@),
            r is None ==> json_as_str(self.jv()) is None,
    {
        match self {
            Json::Str(s) => Some(s.as_str()),
            _ => None,
        }
    }

    /// `value.as_bool()`.
    pub fn as_bool(&self) -> (r: Option<bool>)
        ensures
            r == json_as_bool(self.jv()),
    {
        match self {
            Json::Bool(b) => Some(*b),
            _ => None,
        }
    }

    /// `value.as_i64()`.
    pub fn as_i64(&self) -> (r: Option<i64>)
        ensures
            r == json_as_i64(self.jv()),
    {
        match self {
            Json::Number(n) => n.as_i64,
            _ => None,
        }
    }

    /// `value.as_array().and_then(|a| a.first())`.
    pub fn first(&self) -> (r: Option<&Json>)
        ensures
            opt_jv(r) == json_first(self.jv()),
    {
        match self {
            Json::Array(items) => if items.len() > 0 {
                Some(&items[0])
            } else {
                None
            },
            _ => None,
        }
    }

    /// `value.get(key).and_then(as_str)`.
    pub fn get_str(&self, key: &str) -> (r: Option<&str>)
        ensures
            r matches Some(s) ==> json_get_str(self.jv(), key@) == Some(s@),
            r is None ==> json_get_str(self.jv(), key@) is None,
    {
        match self.get(key) {
            Some(v) => v.as_str(),
            None => None,
        }
    }

    /// `value.get(key).and_then(as_bool)`.
    pub fn get_bool(&self, key: &str) -> (r: Option<bool>)
        ensures
            r == json_get_bool(self.jv(), key@),
    {
        match self.get(key) {
            Some(v) => v.as_bool(),
            None => None,
        }
    }

    /// The text of `content[0].text`.
    pub fn content_text(&self) -> (r: Option<&str>)
        ensures
            r matches Some(s) ==> content_text(self.jv()) == Some(s@),
            r is None ==> content_text(self.jv()) is None,
    {
        match self.get("content") {
            Some(c) => match c.first() {
                Some(item) => item.get_str("text"),
                None => None,
            },
            None => None,
        }
    }

    /// Whether the value is an object.
    pub fn is_object(&self) -> (r: bool)
        ensures
            r == (self.jv() is Object),
    {
        match self {
            Json::Object(_) => true,
            _ => false,
        }
    }
}


/// The entries of an object as (key, value) pairs of text and document.
pub open spec fn entries_view(es: Seq<(String, Json)>) -> Seq<(Seq<char>, JsonV)> {
    es.map_values(|e: (String, Json)| (e.0@, e.1.jv()))
}

/// Appends an entry to an object's entries.
pub fn push_entry(es: &mut Vec<(String, Json)>, key: &str, v: Json)
    ensures
        entries_view(final(es)@) == entries_view(old(es)@).push((key@, v.jv())),
{
    let ghost before = es@;
    let ghost vj = v.jv();
    es.push((key.to_owned(), v));
    proof {
        assert(entries_view(es@) =~= entries_view(before).push((key@, vj)));
    }
}

/// The object with these entries.
pub fn object_of(es: Vec<(String, Json)>) -> (r: Json)
    ensures
        r.jv() == JsonV::Object(entries_view(es@)),
{
    let ghost ev = entries_view(es@);
    let r = Json::Object(es);
    proof {
        assert(r.jv()->Object_0 =~= ev);
    }
    r
}

/// `{"type": ty, "description": doc}`: a documented property of a schema.
pub open spec fn spec_property(ty: Seq<char>, doc: Seq<char>) -> JsonV {
    JsonV::Object(seq![("type"@, JsonV::Str(ty)), ("description"@, JsonV::Str(doc))])
}

/// A documented property of a schema.
pub fn property(ty: &str, doc: &str) -> (r: Json)
    ensures
        r.jv() == spec_property(ty@, doc@),
{
    let mut es: Vec<(String, Json)> = Vec::new();
    push_entry(&mut es, "type", Json::string(ty));
    push_entry(&mut es, "description", Json::string(doc));
    assert(entries_view(es@) =~= spec_property(ty@, doc@)->Object_0);
    object_of(es)
}

/// An object with one more entry at its end.
pub fn with_entry(obj: Json, key: &str, v: Json) -> (r: Json)
    requires
        obj.jv() is Object,
    ensures
        r.jv() == JsonV::Object(obj.jv()->Object_0.push((key@, v.jv()))),
{
    let ghost before = obj.jv()->Object_0;
    let mut es = match obj {
        Json::Object(es) => es,
        _ => Vec::new(),
    };
    assert(entries_view(es@) =~= before);
    push_entry(&mut es, key, v);
    object_of(es)
}

/// A one-element array of a text.
pub fn one_string(s: &str) -> (r: Json)
    ensures
        r.jv() == JsonV::Array(seq![JsonV::Str(s@)]),
{
    let r = Json::Array(vec![Json::string(s)]);
    assert(r.jv()->Array_0 =~= seq![JsonV::Str(s@)]);
    r
}

} // verus!
