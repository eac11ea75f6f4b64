//! JSON texts: objects and arrays that are written, and the fields of objects that
//! are read.
//!
//! An object is written with its keys in ascending order, and a key that is put
//! twice keeps the later value.
use vstd::prelude::*;
use vstd::string::StringExecFns;
use crate::entries;
use crate::entries::Entries;
use crate::text;

verus! {

/// A character in a JSON text: quotation mark, backslash and control characters are
/// escaped, by a letter where there is one and else by their number.
pub open spec fn escaped(c: char) -> Seq<char> {
    if c == '"' {
        "\\\""@
    } else if c == '\\' {
        "\\\\"@
    } else if c == '\u{8}' {
        "\\b"@
    } else if c == '\t' {
        "\\t"@
    } else if c == '\n' {
        "\\n"@
    } else if c == '\u{c}' {
        "\\f"@
    } else if c == '\r' {
        "\\r"@
    } else if (c as u32) < 0x20 {
        "\\u00"@ + text::hex_pair(c as u8)
    } else {
        seq![c]
    }
}

/// A text with each of its characters escaped.
pub open spec fn escaped_text(s: Seq<char>) -> Seq<char>
    decreases s.len(),
{
    if s.len() == 0 {
        Seq::empty()
    } else {
        escaped_text(s.drop_last()) + escaped(s.last())
    }
}

/// A text as a JSON text.
#[verifier::opaque]
pub open spec fn json_string(s: Seq<char>) -> Seq<char> {
    "\""@ + escaped_text(s) + "\""@
}

/// `serde_json::Value` written out, for a text: the text in quotation marks, with
/// quotation marks, backslashes and control characters escaped.
#[verifier::external_body]
pub(crate) fn quote(s: &str) -> (r: String)
    ensures
        r@ == json_string(s@),
{
    serde_json::Value::from(s).to_string()
}

/// The entries of an object: keys and values that are JSON texts.
pub struct ObjectView {
    pub entries: Seq<(Seq<char>, Seq<char>)>,
}

impl ObjectView {
    /// No entries.
    pub open spec fn empty() -> ObjectView {
        ObjectView { entries: Seq::empty() }
    }

    /// The object with a value for `key`.
    pub open spec fn with(self, key: Seq<char>, value: Seq<char>) -> ObjectView {
        ObjectView { entries: entries::placed(self.entries, key, value) }
    }

    /// The object as a JSON text.
    pub open spec fn text(self) -> Seq<char> {
        "{"@ + text::listed(
            Seq::new(
                self.entries.len(),
                |i: int| json_string(self.entries[i].0) + ":"@ + self.entries[i].1,
            ),
            ","@,
        ) + "}"@
    }
}

/// An array of JSON texts as a JSON text.
pub open spec fn array_of(items: Seq<Seq<char>>) -> Seq<char> {
    "["@ + text::listed(items, ","@) + "]"@
}

/// An object that is being written.
pub struct Object {
    pub entries: Entries,
}

impl View for Object {
    type V = ObjectView;

    open spec fn view(&self) -> ObjectView {
        ObjectView { entries: self.entries@ }
    }
}

impl Object {
    /// An empty object.
    pub fn new() -> (r: Object)
        ensures
            r@ == ObjectView::empty(),
    {
        Object { entries: Entries::new() }
    }

    /// Puts a JSON text under a key.
    pub fn put(&mut self, key: &str, value: &str)
        ensures
            final(self)@ == old(self)@.with(key@, value@),
    {
        self.entries.put(key, value);
    }

    /// Puts a text under a key.
    pub fn put_text(&mut self, key: &str, value: &str)
        ensures
            final(self)@ == old(self)@.with(key@, json_string(value@)),
    {
        self.put(key, quote(value).as_str());
    }

    /// Puts `true` or `false` under a key.
    pub fn put_bool(&mut self, key: &str, value: bool)
        ensures
            final(self)@ == old(self)@.with(key@, text::truth(value)),
    {
        self.put(key, text::truth_text(value));
    }

    /// Puts a number under a key.
    pub fn put_count(&mut self, key: &str, value: u64)
        ensures
            final(self)@ == old(self)@.with(key@, text::decimal(value as nat)),
    {
        self.put(key, text::decimal_text(value).as_str());
    }

    /// Puts a signed number under a key.
    pub fn put_number(&mut self, key: &str, value: i32)
        ensures
            final(self)@ == old(self)@.with(key@, text::signed_decimal(value as int)),
    {
        self.put(key, text::signed_text(value as i64).as_str());
    }

    /// The object as a JSON text.
    pub fn text(&self) -> (r: String)
        ensures
            r@ == self@.text(),
    {
        let mut parts: Vec<String> = Vec::new();
        let mut i: usize = 0;
        let ghost whole = Seq::new(
            self@.entries.len(),
            |j: int| json_string(self@.entries[j].0) + ":"@ + self@.entries[j].1,
        );
        while i < self.entries.items.len()
            invariant
                i <= self.entries@.len(),
                whole == Seq::new(
                    self@.entries.len(),
                    |j: int| json_string(self@.entries[j].0) + ":"@ + self@.entries[j].1,
                ),
                parts@.len() == i,
                forall|j: int| 0 <= j < i ==> (#[trigger] parts@[j])@ == whole[j],
            decreases self.entries@.len() - i,
        {
            let mut part = quote(self.entries.items[i].0.as_str());
            part.append(":");
            part.append(self.entries.items[i].1.as_str());
            assert(part@ =~= whole[i as int]);
            parts.push(part);
            i = i + 1;
        }
        assert(text::texts(parts@) =~= whole);
        let mut r = text::joined("{", text::list_text(&parts, ",").as_str());
        r.append("}");
        r
    }
}

/// An array of JSON texts as a JSON text.
pub fn array_text(items: &Vec<String>) -> (r: String)
    ensures
        r@ == array_of(text::texts(items@)),
{
    let mut r = text::joined("[", text::list_text(items, ",").as_str());
    r.append("]");
    r
}

/// A text or `null` as a JSON text.
pub open spec fn optional_string(s: Option<Seq<char>>) -> Seq<char> {
    match s {
        Some(s) => json_string(s),
        None => "null"@,
    }
}

/// What the value of a field is: a text, a whole number, `true` or `false`, where it
/// is one of these; and the JSON text of any value.
#[derive(Debug)]
pub struct Field {
    pub key: String,
    pub text: Option<String>,
    pub integer: Option<i64>,
    pub truth: Option<bool>,
    pub json: String,
}

/// A field with its texts as sequences.
pub struct FieldView {
    pub key: Seq<char>,
    pub text: Option<Seq<char>>,
    pub integer: Option<i64>,
    pub truth: Option<bool>,
    pub json: Seq<char>,
}

impl View for Field {
    type V = FieldView;

    open spec fn view(&self) -> FieldView {
        FieldView {
            key: self.key@,
            text: match self.text {
                Some(text) => Some(text@),
                None => None,
            },
            integer: self.integer,
            truth: self.truth,
            json: self.json@,
        }
    }
}

/// Fields with their texts as sequences.
pub open spec fn field_views(fields: Seq<Field>) -> Seq<FieldView> {
    Seq::new(fields.len(), |i: int| fields[i]@)
}

/// What `serde_json` reads in a text: nothing where it is no JSON, and else the
/// fields of the object that it is, or that it is something other than an object.
pub uninterp spec fn json_content(s: Seq<char>) -> Option<Option<Seq<FieldView>>>;

/// `serde_json::from_str` and the fields of the object that it reads, each with what
/// `Value::as_str`, `Value::as_i64`, `Value::as_bool` and writing it out give. What
/// it reads is left to the name.
#[verifier::external_body]
pub(crate) fn read_content(s: &str) -> (r: Option<Option<Vec<Field>>>)
    ensures
        match r {
            Some(Some(fields)) => json_content(s@) == Some(Some(field_views(fields@))),
            Some(None) => json_content(s@) == Some(None::<Seq<FieldView>>),
            None => json_content(s@) is None,
        },
{
    let value: serde_json::Value = serde_json::from_str(s).ok()?;
    let serde_json::Value::Object(map) = value else { return Some(None) };
    let fields = map.into_iter().map(|(key, value)| Field {
        key,
        text: value.as_str().map(str::to_owned),
        integer: value.as_i64(),
        truth: value.as_bool(),
        json: value.to_string(),
    });
    Some(Some(fields.collect()))
}

/// The fields of a JSON text: nothing where it is no JSON, and no field where it is
/// JSON but no object.
pub open spec fn json_fields(s: Seq<char>) -> Option<Seq<FieldView>> {
    match json_content(s) {
        Some(Some(fields)) => Some(fields),
        Some(None) => Some(Seq::empty()),
        None => None,
    }
}

/// The fields of a JSON text that is an object.
pub open spec fn json_object(s: Seq<char>) -> Option<Seq<FieldView>> {
    match json_content(s) {
        Some(Some(fields)) => Some(fields),
        _ => None,
    }
}

/// The fields of a JSON text; none where it is no object.
pub fn read_fields(s: &str) -> (r: Option<Vec<Field>>)
    ensures
        match r {
            Some(fields) => json_fields(s@) == Some(field_views(fields@)),
            None => json_fields(s@) is None,
        },
{
    match read_content(s) {
        Some(Some(fields)) => Some(fields),
        Some(None) => {
            let none: Vec<Field> = Vec::new();
            assert(field_views(none@) =~= Seq::empty());
            Some(none)
        },
        None => None,
    }
}

/// The fields of a JSON text that is an object.
pub fn read_object(s: &str) -> (r: Option<Vec<Field>>)
    ensures
        match r {
            Some(fields) => json_object(s@) == Some(field_views(fields@)),
            None => json_object(s@) is None,
        },
{
    match read_content(s) {
        Some(Some(fields)) => Some(fields),
        _ => None,
    }
}

/// The field `key`, if there is one.
pub open spec fn field_of(fields: Seq<FieldView>, key: Seq<char>) -> Option<FieldView>
    decreases fields.len(),
{
    if fields.len() == 0 {
        None
    } else if fields[0].key == key {
        Some(fields[0])
    } else {
        field_of(fields.skip(1), key)
    }
}

/// The text in the field `key`, if it holds one.
pub open spec fn text_in(fields: Seq<FieldView>, key: Seq<char>) -> Option<Seq<char>> {
    match field_of(fields, key) {
        Some(field) => field.text,
        None => None,
    }
}

/// Whether the field `key` holds `true`.
pub open spec fn true_in(fields: Seq<FieldView>, key: Seq<char>) -> bool {
    field_of(fields, key) matches Some(field) && field.truth == Some(true)
}

/// The field `key`, if there is one.
pub fn find_field<'a>(fields: &'a [Field], key: &str) -> (r: Option<&'a Field>)
    ensures
        match r {
            Some(field) => field_of(field_views(fields@), key@) == Some(field@),
            None => field_of(field_views(fields@), key@) is None,
        },
{
    let mut i: usize = 0;
    let ghost all = field_views(fields@);
    assert(all.skip(0) =~= all);
    while i < fields.len()
        invariant
            i <= fields@.len(),
            all == field_views(fields@),
            field_of(all.skip(i as int), key@) == field_of(all, key@),
        decreases fields@.len() - i,
    {
        assert(all.skip(i as int)[0] == fields@[i as int]@);
        if text::same_text(fields[i].key.as_str(), key) {
            return Some(&fields[i]);
        }
        assert(all.skip(i as int).skip(1) =~= all.skip(i + 1));
        i = i + 1;
    }
    None
}

/// The text in the field `key`, if it holds one.
pub fn find_text<'a>(fields: &'a [Field], key: &str) -> (r: Option<&'a str>)
    ensures
        match r {
            Some(s) => text_in(field_views(fields@), key@) == Some(s@),
            None => text_in(field_views(fields@), key@) is None,
        },
{
    match find_field(fields, key) {
        Some(field) => match &field.text {
            Some(s) => Some(s.as_str()),
            None => None,
        },
        None => None,
    }
}

/// Whether the field `key` holds `true`.
pub fn find_true(fields: &[Field], key: &str) -> (r: bool)
    ensures
        r == true_in(field_views(fields@), key@),
{
    match find_field(fields, key) {
        Some(field) => match field.truth {
            Some(b) => b,
            None => false,
        },
        None => false,
    }
}

} // verus!
