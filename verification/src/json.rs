//! JSON: documents that are read and written with `serde_json`, and the
//! documents that the service sends out.

use vstd::prelude::*;
use vstd::string::*;

verus! {

// ------------------------------------------------------------------
// Documents of serde_json
// ------------------------------------------------------------------

/// The name under which `serde_json` passes on a value as raw text: an object whose
/// text starts with a member of this name is not read as an object.
pub const RAW_VALUE_KEY: &'static str = "$serde_json::private::RawValue";

/// A member of a JSON object.
pub enum JsonMember {
    Null,
    Bool(bool),
    /// A number that is an integer in the range of `i64`.
    Int(i64),
    Str(Seq<char>),
    /// Any other number, an array or an object, as its compact JSON text.
    Other(Seq<char>),
}

/// What a `serde_json::Value` holds.
pub enum JsonModel {
    Null,
    Object(Map<Seq<char>, JsonMember>),
    /// A boolean, a number, a string or an array, as its compact JSON text.
    Other(Seq<char>),
}

impl JsonModel {
    /// The members of an object: none where the document is not one.
    pub open spec fn members(self) -> Map<Seq<char>, JsonMember> {
        match self {
            JsonModel::Object(members) => members,
            _ => Map::empty(),
        }
    }

    /// The string member under `key`.
    pub open spec fn str_at(self, key: Seq<char>) -> Option<Seq<char>> {
        if self.members().contains_key(key) && self.members()[key] is Str {
            Some(self.members()[key]->Str_0)
        } else {
            None
        }
    }

    /// The boolean member under `key`.
    pub open spec fn bool_at(self, key: Seq<char>) -> Option<bool> {
        if self.members().contains_key(key) && self.members()[key] is Bool {
            Some(self.members()[key]->Bool_0)
        } else {
            None
        }
    }

    /// The integer member under `key`.
    pub open spec fn int_at(self, key: Seq<char>) -> Option<i64> {
        if self.members().contains_key(key) && self.members()[key] is Int {
            Some(self.members()[key]->Int_0)
        } else {
            None
        }
    }

    /// A member can be set in the document: `null` counts as an empty object.
    pub open spec fn takes_members(self) -> bool {
        !(self is Other)
    }

    /// The document with a member set.
    pub open spec fn with(self, key: Seq<char>, member: JsonMember) -> JsonModel {
        JsonModel::Object(self.members().insert(key, member))
    }

    /// An object of strings, booleans, integers and nulls, or `null`, that has no
    /// member under the name that `serde_json` keeps for raw values.
    pub open spec fn is_flat(self) -> bool {
        &&& !(self is Other)
        &&& !self.members().contains_key(RAW_VALUE_KEY@)
        &&& forall|key: Seq<char>| #[trigger]
            self.members().contains_key(key) ==> !(self.members()[key] is Other)
    }
}

/// Declares `serde_json::Value`, a JSON document, to the verifier.
#[verifier::external_type_specification]
#[verifier::external_body]
pub struct ExJsonValue(serde_json::Value);

/// What a document holds.
pub uninterp spec fn json_contents(value: serde_json::Value) -> JsonModel;

/// What `serde_json::from_str` reads from a text; nothing where the text is no
/// JSON document.
pub uninterp spec fn json_read(text: Seq<char>) -> Option<JsonModel>;

/// The compact text that `serde_json` writes for a document.
pub uninterp spec fn json_written(document: JsonModel) -> Seq<char>;

/// The kinds of documents that setting a member tells apart.
#[derive(Debug, Clone, Copy, PartialEq, Eq)]
pub enum JsonKind {
    Null,
    Object,
    Other,
}

/// Calls `serde_json::from_str`. Claimed: whether a document comes out, and what
/// it holds, depends on the text alone.
#[verifier::external_body]
pub(crate) fn parse_json(text: &str) -> (r: Option<serde_json::Value>)
    ensures
        r is Some <==> json_read(text@) is Some,
        r matches Some(value) ==> json_read(text@) == Some(json_contents(value)),
{
    match serde_json::from_str::<serde_json::Value>(text) {
        Ok(value) => Some(value),
        Err(_) => None,
    }
}

/// Calls `to_string` of `serde_json::Value`. Claimed: the text depends on what
/// the document holds alone, and a flat document is read back from it as it was.
/// What is read back of others is not stated: floating-point numbers do not always
/// come back exactly, deeply nested documents not at all, and a member under the
/// name that is kept for raw values can take the place of the whole object.
#[verifier::external_body]
pub(crate) fn write_json(value: &serde_json::Value) -> (r: String)
    ensures
        r@ == json_written(json_contents(*value)),
        json_contents(*value).is_flat() ==> json_read(r@) == Some(json_contents(*value)),
{
    value.to_string()
}

/// Makes an empty object, with `serde_json::Map::new`.
#[verifier::external_body]
pub(crate) fn empty_object() -> (r: serde_json::Value)
    ensures
        json_contents(r) == JsonModel::Object(Map::empty()),
{
    serde_json::Value::Object(serde_json::Map::new())
}

/// Tells the variants of `serde_json::Value` apart.
#[verifier::external_body]
pub(crate) fn kind_of(value: &serde_json::Value) -> (r: JsonKind)
    ensures
        r is Null <==> json_contents(*value) is Null,
        r is Object <==> json_contents(*value) is Object,
        r is Other <==> json_contents(*value) is Other,
{
    match value {
        serde_json::Value::Null => JsonKind::Null,
        serde_json::Value::Object(_) => JsonKind::Object,
        _ => JsonKind::Other,
    }
}

/// Calls `clone` of `serde_json::Value`. Claimed: the copy holds what the document
/// holds.
#[verifier::external_body]
pub(crate) fn copy_json(value: &serde_json::Value) -> (r: serde_json::Value)
    ensures
        json_contents(r) == json_contents(*value),
{
    value.clone()
}

/// Calls `get` and `as_str` of `serde_json::Value`. Claimed: the string member
/// under the key comes back, where the document is an object that has one.
#[verifier::external_body]
pub(crate) fn str_member<'a>(value: &'a serde_json::Value, key: &str) -> (r: Option<&'a str>)
    ensures
        r is Some <==> json_contents(*value).str_at(key@) is Some,
        r matches Some(text) ==> json_contents(*value).str_at(key@) == Some(text@),
{
    value.get(key).and_then(serde_json::Value::as_str)
}

/// Calls `get` and `as_bool` of `serde_json::Value`. Claimed: the boolean member
/// under the key comes back, where the document is an object that has one.
#[verifier::external_body]
pub(crate) fn bool_member(value: &serde_json::Value, key: &str) -> (r: Option<bool>)
    ensures
        r == json_contents(*value).bool_at(key@),
{
    value.get(key).and_then(serde_json::Value::as_bool)
}

/// Calls `get` and `as_i64` of `serde_json::Value`. Claimed: the member under the
/// key comes back, where the document is an object that has one and it is an
/// integer in the range of `i64`.
#[verifier::external_body]
pub(crate) fn int_member(value: &serde_json::Value, key: &str) -> (r: Option<i64>)
    ensures
        r == json_contents(*value).int_at(key@),
{
    value.get(key).and_then(serde_json::Value::as_i64)
}

/// Assigns an integer through `index_mut` of `serde_json::Value`. Claimed: the
/// document becomes an object with that member, and keeps its other members. On
/// a document that is neither an object nor `null` the call would panic.
#[verifier::external_body]
pub(crate) fn set_int(value: &mut serde_json::Value, key: &str, number: i32)
    requires
        json_contents(*old(value)).takes_members(),
    ensures
        json_contents(*final(value)) == json_contents(*old(value)).with(
            key@,
            JsonMember::Int(number as i64),
        ),
{
    value[key] = serde_json::Value::Number(serde_json::Number::from(number));
}

/// Assigns a string through `index_mut` of `serde_json::Value`. Claimed: as for
/// `set_int`.
#[verifier::external_body]
pub(crate) fn set_str(value: &mut serde_json::Value, key: &str, text: &str)
    requires
        json_contents(*old(value)).takes_members(),
    ensures
        json_contents(*final(value)) == json_contents(*old(value)).with(
            key@,
            JsonMember::Str(text@),
        ),
{
    value[key] = serde_json::Value::String(text.to_owned());
}

// ------------------------------------------------------------------
// Documents that are sent
// ------------------------------------------------------------------

/// A JSON value without parts. Floating-point numbers are carried as an `N`.
#[derive(Debug, PartialEq)]
pub enum JsonLeaf<N> {
    Null,
    Bool(bool),
    Int(i32),
    Number(N),
    Text(String),
}

/// A JSON object whose members have no parts.
#[derive(Debug, PartialEq)]
pub struct JsonRecord<N> {
    pub members: Vec<(String, JsonLeaf<N>)>,
}

/// A member of a document: a plain value, or a record.
#[derive(Debug, PartialEq)]
pub enum JsonNode<N> {
    Leaf(JsonLeaf<N>),
    Record(JsonRecord<N>),
}

/// A JSON object that is sent out.
#[derive(Debug, PartialEq)]
pub struct JsonObject<N> {
    pub members: Vec<(String, JsonNode<N>)>,
}

/// `JsonLeaf` with its strings as character sequences.
pub enum LeafView<N> {
    Null,
    Bool(bool),
    Int(i32),
    Number(N),
    Text(Seq<char>),
}

/// `JsonNode` with its strings as character sequences.
pub enum NodeView<N> {
    Leaf(LeafView<N>),
    Record(Seq<(Seq<char>, LeafView<N>)>),
}

impl<N> View for JsonLeaf<N> {
    type V = LeafView<N>;

    open spec fn view(&self) -> LeafView<N> {
        match *self {
            JsonLeaf::Null => LeafView::Null,
            JsonLeaf::Bool(b) => LeafView::Bool(b),
            JsonLeaf::Int(n) => LeafView::Int(n),
            JsonLeaf::Number(n) => LeafView::Number(n),
            JsonLeaf::Text(text) => LeafView::Text(text@),
        }
    }
}

impl<N> View for JsonRecord<N> {
    type V = Seq<(Seq<char>, LeafView<N>)>;

    open spec fn view(&self) -> Seq<(Seq<char>, LeafView<N>)> {
        self.members@.map_values(|m: (String, JsonLeaf<N>)| (m.0@, m.1@))
    }
}

impl<N> View for JsonNode<N> {
    type V = NodeView<N>;

    open spec fn view(&self) -> NodeView<N> {
        match *self {
            JsonNode::Leaf(leaf) => NodeView::Leaf(leaf@),
            JsonNode::Record(record) => NodeView::Record(record@),
        }
    }
}

impl<N> View for JsonObject<N> {
    type V = Seq<(Seq<char>, NodeView<N>)>;

    open spec fn view(&self) -> Seq<(Seq<char>, NodeView<N>)> {
        self.members@.map_values(|m: (String, JsonNode<N>)| (m.0@, m.1@))
    }
}

/// A string member, `null` where there is none.
pub open spec fn text_or_null<N>(text: Option<String>) -> LeafView<N> {
    match text {
        Some(text) => LeafView::Text(text@),
        None => LeafView::Null,
    }
}

/// A boolean member, `null` where there is none.
pub open spec fn bool_or_null<N>(flag: Option<bool>) -> LeafView<N> {
    match flag {
        Some(flag) => LeafView::Bool(flag),
        None => LeafView::Null,
    }
}

/// An integer member, `null` where there is none.
pub open spec fn int_or_null<N>(number: Option<i32>) -> LeafView<N> {
    match number {
        Some(number) => LeafView::Int(number),
        None => LeafView::Null,
    }
}

/// A number member, `null` where there is none.
pub open spec fn number_or_null<N>(number: Option<N>) -> LeafView<N> {
    match number {
        Some(number) => LeafView::Number(number),
        None => LeafView::Null,
    }
}

impl<N> JsonLeaf<N> {
    pub fn text(text: &str) -> (r: Self)
        ensures
            r@ == LeafView::<N>::Text(text@),
    {
        JsonLeaf::Text(text.to_owned())
    }

    pub fn opt_text(text: &Option<String>) -> (r: Self)
        ensures
            r@ == text_or_null::<N>(*text),
    {
        match text {
            Some(text) => JsonLeaf::Text(text.clone()),
            None => JsonLeaf::Null,
        }
    }

    pub fn opt_bool(flag: Option<bool>) -> (r: Self)
        ensures
            r@ == bool_or_null::<N>(flag),
    {
        match flag {
            Some(flag) => JsonLeaf::Bool(flag),
            None => JsonLeaf::Null,
        }
    }

    pub fn opt_int(number: Option<i32>) -> (r: Self)
        ensures
            r@ == int_or_null::<N>(number),
    {
        match number {
            Some(number) => JsonLeaf::Int(number),
            None => JsonLeaf::Null,
        }
    }

    pub fn opt_number(number: Option<N>) -> (r: Self)
        ensures
            r@ == number_or_null::<N>(number),
    {
        match number {
            Some(number) => JsonLeaf::Number(number),
            None => JsonLeaf::Null,
        }
    }
}

impl<N> JsonRecord<N> {
    pub fn new() -> (r: Self)
        ensures
            r@ == Seq::<(Seq<char>, LeafView<N>)>::empty(),
    {
        let r = JsonRecord { members: Vec::new() };
        assert(r@ == Seq::<(Seq<char>, LeafView<N>)>::empty());
        r
    }

    /// Adds a member behind the others.
    pub fn put(&mut self, key: &str, value: JsonLeaf<N>)
        ensures
            final(self)@ == old(self)@.push((key@, value@)),
    {
        let ghost before = self@;
        self.members.push((key.to_owned(), value));
        assert(self@ == before.push((key@, value@)));
    }
}

impl<N> JsonObject<N> {
    pub fn new() -> (r: Self)
        ensures
            r@ == Seq::<(Seq<char>, NodeView<N>)>::empty(),
    {
        let r = JsonObject { members: Vec::new() };
        assert(r@ == Seq::<(Seq<char>, NodeView<N>)>::empty());
        r
    }

    /// Adds a member behind the others.
    pub fn put(&mut self, key: &str, value: JsonNode<N>)
        ensures
            final(self)@ == old(self)@.push((key@, value@)),
    {
        let ghost before = self@;
        self.members.push((key.to_owned(), value));
        assert(self@ == before.push((key@, value@)));
    }
}

/// Exactly one of the members has the name, and that one has the value.
pub open spec fn has_only<T>(members: Seq<(Seq<char>, T)>, name: Seq<char>, value: T) -> bool {
    exists|i: int|
        0 <= i < members.len() && #[trigger] members[i] == (name, value) && forall|j: int|
            0 <= j < members.len() && (#[trigger] members[j]).0 == name ==> j == i
}

/// None of the members has the name.
pub open spec fn has_none<T>(members: Seq<(Seq<char>, T)>, name: Seq<char>) -> bool {
    forall|j: int| 0 <= j < members.len() ==> (#[trigger] members[j]).0 != name
}

/// A value that is sent is seen as what it is, and a document as its members in order.
pub proof fn law_documents_are_seen_whole<N>(
    leaf: JsonLeaf<N>,
    record: JsonRecord<N>,
    document: JsonObject<N>,
)
    ensures
        leaf is Null ==> leaf@ is Null,
        leaf matches JsonLeaf::Bool(flag) ==> leaf@ == LeafView::<N>::Bool(flag),
        leaf matches JsonLeaf::Int(number) ==> leaf@ == LeafView::<N>::Int(number),
        leaf matches JsonLeaf::Number(number) ==> leaf@ == LeafView::Number(number),
        leaf matches JsonLeaf::Text(text) ==> leaf@ == LeafView::<N>::Text(text@),
        record@.len() == record.members@.len(),
        forall|i: int|
            0 <= i < record.members@.len() ==> #[trigger] record@[i] == (
                record.members@[i].0@,
                record.members@[i].1@,
            ),
        document@.len() == document.members@.len(),
        forall|i: int|
            0 <= i < document.members@.len() ==> (#[trigger] document@[i]).0
                == document.members@[i].0@ && match document.members@[i].1 {
                JsonNode::Leaf(inner) => document@[i].1 == NodeView::Leaf(inner@),
                JsonNode::Record(inner) => document@[i].1 == NodeView::Record(inner@),
            },
{
}

} // verus!
