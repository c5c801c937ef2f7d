use vstd::prelude::*;

verus! {

/// A JSON number: an integer that fits `u64`, a negative integer that fits
/// `i64`, or any other number kept as its decimal text.
#[derive(Debug)]
pub enum JsonNumber {
    PosInt(u64),
    NegInt(i64),
    Float(String),
}

/// A JSON document.
#[derive(Debug)]
pub enum JsonValue {
    Null,
    Bool(bool),
    Number(JsonNumber),
    String(String),
    Array(Vec<JsonValue>),
    Object(Vec<(String, JsonValue)>),
}

pub enum Num {
    PosInt(u64),
    NegInt(i64),
    Float(Seq<char>),
}

pub enum Json {
    Null,
    Bool(bool),
    Num(Num),
    Str(Seq<char>),
    Arr(Seq<Json>),
    Obj(Seq<(Seq<char>, Json)>),
}

pub open spec fn num_view(n: JsonNumber) -> Num {
    match n {
        JsonNumber::PosInt(u) => Num::PosInt(u),
        JsonNumber::NegInt(i) => Num::NegInt(i),
        JsonNumber::Float(s) => Num::Float(s@),
    }
}

pub open spec fn json_view(v: JsonValue) -> Json
    decreases v, 0nat,
{
    match v {
        JsonValue::Null => Json::Null,
        JsonValue::Bool(b) => Json::Bool(b),
        JsonValue::Number(n) => Json::Num(num_view(n)),
        JsonValue::String(s) => Json::Str(s@),
        JsonValue::Array(a) => Json::Arr(items_view(a@)),
        JsonValue::Object(o) => Json::Obj(entries_view(o@)),
    }
}

pub open spec fn items_view(a: Seq<JsonValue>) -> Seq<Json>
    decreases a, 1nat,
{
    if a.len() == 0 {
        Seq::empty()
    } else {
        items_view(a.drop_last()).push(json_view(a.last()))
    }
}

pub open spec fn entries_view(o: Seq<(String, JsonValue)>) -> Seq<(Seq<char>, Json)>
    decreases o, 1nat,
{
    if o.len() == 0 {
        Seq::empty()
    } else {
        entries_view(o.drop_last()).push((o.last().0@, json_view(o.last().1)))
    }
}

} // verus!

verus! {

impl View for JsonValue {
    type V = Json;

    open spec fn view(&self) -> Json {
        json_view(*self)
    }
}

/// The value of the first entry named `key`.
pub open spec fn entry_lookup(entries: Seq<(Seq<char>, Json)>, key: Seq<char>) -> Option<Json>
    decreases entries.len(),
{
    if entries.len() == 0 {
        None
    } else if entries[0].0 == key {
        Some(entries[0].1)
    } else {
        entry_lookup(entries.drop_first(), key)
    }
}

/// The member `key` of an object; nothing for other values.
pub open spec fn json_get(v: Json, key: Seq<char>) -> Option<Json> {
    match v {
        Json::Obj(entries) => entry_lookup(entries, key),
        _ => None,
    }
}

/// The text of a string value.
pub open spec fn json_str(v: Json) -> Option<Seq<char>> {
    match v {
        Json::Str(s) => Some(s),
        _ => None,
    }
}

/// The member `key` of an object, if it is a string.
pub open spec fn json_get_str(v: Json, key: Seq<char>) -> Option<Seq<char>> {
    match json_get(v, key) {
        Some(m) => json_str(m),
        None => None,
    }
}

/// The texts of the string items of an array, in order; other items are left out.
pub open spec fn string_items(items: Seq<Json>) -> Seq<Seq<char>>
    decreases items.len(),
{
    if items.len() == 0 {
        Seq::empty()
    } else {
        match items.last() {
            Json::Str(s) => string_items(items.drop_last()).push(s),
            _ => string_items(items.drop_last()),
        }
    }
}

/// A string value.
pub open spec fn jstr(s: Seq<char>) -> Json {
    Json::Str(s)
}

/// A non-negative integer value.
pub open spec fn jnat(n: u64) -> Json {
    Json::Num(Num::PosInt(n))
}

pub proof fn lemma_items_view(a: Seq<JsonValue>)
    ensures
        items_view(a).len() == a.len(),
        forall|i: int| 0 <= i < a.len() ==> #[trigger] items_view(a)[i] == a[i]@,
    decreases a.len(),
{
    if a.len() > 0 {
        lemma_items_view(a.drop_last());
    }
}

pub proof fn lemma_entries_view(o: Seq<(String, JsonValue)>)
    ensures
        entries_view(o).len() == o.len(),
        forall|i: int|
            0 <= i < o.len() ==> #[trigger] entries_view(o)[i] == (o[i].0@, o[i].1@),
    decreases o.len(),
{
    if o.len() > 0 {
        lemma_entries_view(o.drop_last());
    }
}

/// Appends an entry to the members of an object under construction.
pub fn push_entry(o: &mut Vec<(String, JsonValue)>, key: &str, value: JsonValue)
    ensures
        entries_view(final(o)@) == entries_view(old(o)@).push((key@, value@)),
{
    let ghost before = o@;
    o.push((String::from_str(key), value));
    assert(o@.drop_last() =~= before);
}

/// Appends an item to an array under construction.
pub fn push_item(a: &mut Vec<JsonValue>, value: JsonValue)
    ensures
        items_view(final(a)@) == items_view(old(a)@).push(value@),
{
    let ghost before = a@;
    a.push(value);
    assert(a@.drop_last() =~= before);
}

impl JsonValue {
    /// A string value holding a copy of `s`.
    pub fn text(s: &str) -> (v: JsonValue)
        ensures
            v@ == jstr(s@),
    {
        JsonValue::String(String::from_str(s))
    }

    /// A non-negative integer value.
    pub fn count(n: usize) -> (v: JsonValue)
        ensures
            v@ == jnat(n as u64),
    {
        JsonValue::Number(JsonNumber::PosInt(n as u64))
    }

    /// The member `key` of an object (its first entry of that name); nothing
    /// for other values.
    pub fn get(&self, key: &str) -> (r: Option<&JsonValue>)
        ensures
            match r {
                Some(m) => json_get(self@, key@) == Some(m@),
                None => json_get(self@, key@) is None,
            },
    {
        match self {
            JsonValue::Object(entries) => {
                let ghost e = entries_view(entries@);
                proof {
                    assert(*self == JsonValue::Object(*entries));
                    assert(json_view(*self) == Json::Obj(entries_view(entries@)));
                    lemma_entries_view(entries@);
                    assert(e.skip(0) =~= e);
                }
                let mut i: usize = 0;
                while i < entries.len()
                    invariant
                        i <= entries.len(),
                        e == entries_view(entries@),
                        self@ == Json::Obj(e),
                        e.len() == entries@.len(),
                        forall|j: int|
                            0 <= j < entries@.len() ==> #[trigger] e[j] == (
                                entries@[j].0@,
                                entries@[j].1@,
                            ),
                        entry_lookup(e, key@) == entry_lookup(e.skip(i as int), key@),
                    decreases entries.len() - i,
                {
                    if crate::text::same_text(entries[i].0.as_str(), key) {
                        assert(e.skip(i as int)[0] == e[i as int]);
                        assert(self@ == Json::Obj(e));
                        assert(entry_lookup(e.skip(i as int), key@) == Some(e[i as int].1));
                        return Some(&entries[i].1);
                    }
                    assert(e.skip(i as int).drop_first() =~= e.skip(i + 1));
                    i = i + 1;
                }
                assert(self@ == Json::Obj(e));
                None
            },
            _ => None,
        }
    }

    /// The text of a string value.
    pub fn as_str(&self) -> (r: Option<&str>)
        ensures
            match r {
                Some(s) => json_str(self@) == Some(s@),
                None => json_str(self@) is None,
            },
    {
        match self {
            JsonValue::String(s) => Some(s.as_str()),
            _ => None,
        }
    }

    /// The value of a non-negative integer that fits `u64`.
    pub fn as_u64(&self) -> (r: Option<u64>)
        ensures
            r == match self@ {
                Json::Num(Num::PosInt(n)) => Some(n),
                _ => None::<u64>,
            },
    {
        match self {
            JsonValue::Number(JsonNumber::PosInt(n)) => Some(*n),
            _ => None,
        }
    }

    /// The items of an array.
    pub fn as_array(&self) -> (r: Option<&Vec<JsonValue>>)
        ensures
            match r {
                Some(a) => self@ == Json::Arr(items_view(a@)),
                None => !(self@ is Arr),
            },
    {
        match self {
            JsonValue::Array(a) => Some(a),
            _ => None,
        }
    }

    /// Whether the value is null.
    pub fn is_null(&self) -> (b: bool)
        ensures
            b == (self@ is Null),
    {
        match self {
            JsonValue::Null => true,
            _ => false,
        }
    }
}

/// The texts of the string items of an array.
pub fn collect_strings(items: &Vec<JsonValue>) -> (r: Vec<String>)
    ensures
        r@.map_values(|s: String| s@) == string_items(items_view(items@)),
{
    let ghost all = items_view(items@);
    proof {
        lemma_items_view(items@);
    }
    let mut r: Vec<String> = Vec::new();
    let mut i: usize = 0;
    while i < items.len()
        invariant
            i <= items.len(),
            all == items_view(items@),
            all.len() == items@.len(),
            forall|j: int| 0 <= j < items@.len() ==> #[trigger] all[j] == items@[j]@,
            r@.map_values(|s: String| s@) == string_items(all.take(i as int)),
        decreases items.len() - i,
    {
        let ghost before = r@;
        assert(all.take(i + 1).drop_last() =~= all.take(i as int));
        assert(all.take(i + 1).last() == all[i as int]);
        match items[i].as_str() {
            Some(s) => {
                r.push(String::from_str(s));
                assert(r@.map_values(|s: String| s@) =~= before.map_values(|s: String| s@).push(
                    s@,
                ));
            },
            None => {},
        }
        i = i + 1;
    }
    assert(all.take(items.len() as int) =~= all);
    r
}

} // verus!
