//! JSON values as plain data, and the calls that read and write JSON text.

use serde_json::Value;
use vstd::prelude::*;
use crate::text::same_text;

verus! {

/// A JSON number: an integer, or the printed form of a number that is none.
#[derive(Debug)]
pub enum JsonNumber {
    Unsigned(u64),
    Negative(i64),
    Float(String),
}

/// A JSON value.
#[derive(Debug)]
pub enum JsonValue {
    Null,
    Bool(bool),
    Number(JsonNumber),
    Text(String),
    Array(Vec<JsonValue>),
    Object(Vec<JsonField>),
}

/// One named member of a JSON object.
#[derive(Debug)]
pub struct JsonField {
    pub name: String,
    pub value: JsonValue,
}

/// What a JSON value stands for. The members of an object have no order.
pub enum JsonTree {
    Null,
    Bool(bool),
    Int(int),
    Float(Seq<char>),
    Text(Seq<char>),
    Array(Seq<JsonTree>),
    Object(Map<Seq<char>, JsonTree>),
}

/// The tree of a value.
pub open spec fn json_tree(v: JsonValue) -> JsonTree
    decreases v,
{
    match v {
        JsonValue::Null => JsonTree::Null,
        JsonValue::Bool(b) => JsonTree::Bool(b),
        JsonValue::Number(JsonNumber::Unsigned(u)) => JsonTree::Int(u as int),
        JsonValue::Number(JsonNumber::Negative(i)) => JsonTree::Int(i as int),
        JsonValue::Number(JsonNumber::Float(s)) => JsonTree::Float(s@),
        JsonValue::Text(s) => JsonTree::Text(s@),
        JsonValue::Array(items) => JsonTree::Array(item_trees(items@)),
        JsonValue::Object(fields) => JsonTree::Object(field_trees(fields@)),
    }
}

/// The trees of the items of an array, in order.
pub open spec fn item_trees(items: Seq<JsonValue>) -> Seq<JsonTree>
    decreases items,
{
    if items.len() == 0 {
        Seq::empty()
    } else {
        item_trees(items.drop_last()).push(json_tree(items.last()))
    }
}

/// The members of an object. Of two members with one name the later counts.
pub open spec fn field_trees(fields: Seq<JsonField>) -> Map<Seq<char>, JsonTree>
    decreases fields,
{
    if fields.len() == 0 {
        Map::empty()
    } else {
        field_trees(fields.drop_last()).insert(fields.last().name@, json_tree(fields.last().value))
    }
}

impl View for JsonValue {
    type V = JsonTree;

    open spec fn view(&self) -> JsonTree {
        json_tree(*self)
    }
}

/// How deep arrays and objects nest in a value.
pub open spec fn json_depth(v: JsonValue) -> nat
    decreases v,
{
    match v {
        JsonValue::Array(items) => 1 + items_depth(items@),
        JsonValue::Object(fields) => 1 + fields_depth(fields@),
        _ => 0,
    }
}

/// The greatest depth among the items.
pub open spec fn items_depth(items: Seq<JsonValue>) -> nat
    decreases items,
{
    if items.len() == 0 {
        0
    } else {
        let rest = items_depth(items.drop_last());
        let last = json_depth(items.last());
        if rest < last {
            last
        } else {
            rest
        }
    }
}

/// The greatest depth among the members.
pub open spec fn fields_depth(fields: Seq<JsonField>) -> nat
    decreases fields,
{
    if fields.len() == 0 {
        0
    } else {
        let rest = fields_depth(fields.drop_last());
        let last = json_depth(fields.last().value);
        if rest < last {
            last
        } else {
            rest
        }
    }
}

/// Whether no number in a value has a fraction or an exponent.
pub open spec fn is_whole(v: JsonValue) -> bool
    decreases v,
{
    match v {
        JsonValue::Number(JsonNumber::Float(_)) => false,
        JsonValue::Array(items) => forall|i: int|
            0 <= i < items@.len() ==> is_whole(#[trigger] items@[i]),
        JsonValue::Object(fields) => forall|i: int|
            0 <= i < fields@.len() ==> is_whole((#[trigger] fields@[i]).value),
        _ => true,
    }
}

impl JsonTree {
    /// The member of an object under a name.
    pub open spec fn get(self, name: Seq<char>) -> Option<JsonTree> {
        match self {
            JsonTree::Object(fields) => if fields.dom().contains(name) {
                Some(fields[name])
            } else {
                None
            },
            _ => None,
        }
    }

    /// The number of an integer that fits a `u64`.
    pub open spec fn as_u64(self) -> Option<u64> {
        match self {
            JsonTree::Int(i) => if 0 <= i <= u64::MAX {
                Some(i as u64)
            } else {
                None
            },
            _ => None,
        }
    }

    /// The number of an integer that fits an `i64`.
    pub open spec fn as_i64(self) -> Option<i64> {
        match self {
            JsonTree::Int(i) => if i64::MIN <= i <= i64::MAX {
                Some(i as i64)
            } else {
                None
            },
            _ => None,
        }
    }

    /// The characters of a text.
    pub open spec fn as_str(self) -> Option<Seq<char>> {
        match self {
            JsonTree::Text(s) => Some(s),
            _ => None,
        }
    }

    /// The truth value of a boolean.
    pub open spec fn as_bool(self) -> Option<bool> {
        match self {
            JsonTree::Bool(b) => Some(b),
            _ => None,
        }
    }

    /// The member under `name` where it is an integer that fits a `u64`.
    pub open spec fn u64_at(self, name: Seq<char>) -> Option<u64> {
        match self.get(name) {
            Some(v) => v.as_u64(),
            None => None,
        }
    }

    /// The member under `name` where it is an integer that fits an `i64`.
    pub open spec fn i64_at(self, name: Seq<char>) -> Option<i64> {
        match self.get(name) {
            Some(v) => v.as_i64(),
            None => None,
        }
    }

    /// The member under `name` where it is a text.
    pub open spec fn str_at(self, name: Seq<char>) -> Option<Seq<char>> {
        match self.get(name) {
            Some(v) => v.as_str(),
            None => None,
        }
    }

    /// The member under `name` where it is a boolean.
    pub open spec fn bool_at(self, name: Seq<char>) -> Option<bool> {
        match self.get(name) {
            Some(v) => v.as_bool(),
            None => None,
        }
    }

    /// The integer under `name`, or `default` where there is none.
    pub open spec fn i64_or(self, name: Seq<char>, default: i64) -> i64 {
        match self.i64_at(name) {
            Some(i) => i,
            None => default,
        }
    }

    /// The text under `name`, or the empty text where there is none.
    pub open spec fn str_or_empty(self, name: Seq<char>) -> Seq<char> {
        match self.str_at(name) {
            Some(s) => s,
            None => Seq::empty(),
        }
    }
}

/// An optional text by its characters.
pub open spec fn opt_view(s: Option<String>) -> Option<Seq<char>> {
    match s {
        Some(s) => Some(s@),
        None => None,
    }
}

proof fn lemma_field_trees_last(fields: Seq<JsonField>, i: int)
    requires
        0 <= i < fields.len(),
        forall|j: int| i < j < fields.len() ==> fields[j].name@ != fields[i].name@,
    ensures
        field_trees(fields).dom().contains(fields[i].name@),
        field_trees(fields)[fields[i].name@] == fields[i].value@,
    decreases fields.len(),
{
    if i < fields.len() - 1 {
        let front = fields.drop_last();
        assert(forall|j: int| 0 <= j < front.len() ==> front[j] == fields[j]);
        lemma_field_trees_last(front, i);
    }
}

proof fn lemma_field_trees_absent(fields: Seq<JsonField>, name: Seq<char>)
    requires
        forall|j: int| 0 <= j < fields.len() ==> (#[trigger] fields[j]).name@ != name,
    ensures
        !field_trees(fields).dom().contains(name),
    decreases fields.len(),
{
    if fields.len() > 0 {
        let front = fields.drop_last();
        assert(forall|j: int| 0 <= j < front.len() ==> front[j] == fields[j]);
        lemma_field_trees_absent(front, name);
    }
}

proof fn lemma_remove_field(fields: Seq<JsonField>, i: int, value: JsonTree)
    requires
        0 <= i < fields.len(),
    ensures
        field_trees(fields.remove(i)).insert(fields[i].name@, value) == field_trees(fields).insert(
            fields[i].name@,
            value,
        ),
        fields_depth(fields.remove(i)) <= fields_depth(fields),
    decreases fields.len(),
{
    let name = fields[i].name@;
    let front = fields.drop_last();
    if i == fields.len() - 1 {
        assert(fields.remove(i) =~= front);
        assert(field_trees(fields).insert(name, value) =~= field_trees(front).insert(name, value));
    } else {
        assert(front[i] == fields[i]);
        lemma_remove_field(front, i, value);
        assert(fields.remove(i).drop_last() =~= front.remove(i));
        assert(fields.remove(i).last() == fields.last());
        let last = fields.last().name@;
        let a = field_trees(front.remove(i));
        let b = field_trees(front);
        let lv = json_tree(fields.last().value);
        assert(field_trees(fields) == b.insert(last, lv));
        assert(fields.remove(i).len() > 0);
        assert(field_trees(fields.remove(i)) == a.insert(last, lv));
        let left = a.insert(last, lv).insert(name, value);
        let right = b.insert(last, lv).insert(name, value);
        assert forall|k: Seq<char>| left.dom().contains(k) == right.dom().contains(k) by {
            if k != name && k != last {
                assert(a.insert(name, value).dom().contains(k) == b.insert(
                    name,
                    value,
                ).dom().contains(k));
            }
        }
        assert forall|k: Seq<char>| left.dom().contains(k) implies left[k] == right[k] by {
            if k != name && k != last {
                assert(a.insert(name, value)[k] == b.insert(name, value)[k]);
            }
        }
        assert(left =~= right);
    }
}

/// The trees of an array's items stand in the items' order.
pub proof fn lemma_item_trees(items: Seq<JsonValue>)
    ensures
        item_trees(items).len() == items.len(),
        forall|i: int| 0 <= i < items.len() ==> #[trigger] item_trees(items)[i] == items[i]@,
    decreases items.len(),
{
    if items.len() > 0 {
        lemma_item_trees(items.drop_last());
        assert(forall|i: int|
            0 <= i < items.len() - 1 ==> item_trees(items)[i] == item_trees(items.drop_last())[i]);
    }
}

impl JsonValue {
    /// An object without members.
    pub fn object() -> (r: JsonValue)
        ensures
            r@ == JsonTree::Object(Map::empty()),
            json_depth(r) == 1,
            is_whole(r),
    {
        JsonValue::Object(Vec::new())
    }

    /// The number `n`.
    pub fn unsigned(n: u64) -> (r: JsonValue)
        ensures
            r@ == JsonTree::Int(n as int),
            json_depth(r) == 0,
            is_whole(r),
    {
        JsonValue::Number(JsonNumber::Unsigned(n))
    }

    /// The number `i`.
    pub fn signed(i: i64) -> (r: JsonValue)
        ensures
            r@ == JsonTree::Int(i as int),
            json_depth(r) == 0,
            is_whole(r),
    {
        if i >= 0 {
            JsonValue::Number(JsonNumber::Unsigned(i as u64))
        } else {
            JsonValue::Number(JsonNumber::Negative(i))
        }
    }

    /// The text `s`.
    pub fn text(s: &str) -> (r: JsonValue)
        ensures
            r@ == JsonTree::Text(s@),
            json_depth(r) == 0,
            is_whole(r),
    {
        JsonValue::Text(s.to_owned())
    }

    /// Whether the value is an object.
    pub fn is_object(&self) -> (r: bool)
        ensures
            r == (self@ is Object),
    {
        match self {
            JsonValue::Object(_) => true,
            _ => false,
        }
    }

    /// The member of an object under a name.
    pub fn get(&self, name: &str) -> (r: Option<&JsonValue>)
        ensures
            match r {
                Some(v) => self@.get(name@) == Some(v@),
                None => self@.get(name@) is None,
            },
    {
        match self {
            JsonValue::Object(fields) => {
                let mut i: usize = fields.len();
                while i > 0
                    invariant
                        i <= fields@.len(),
                        self@ == JsonTree::Object(field_trees(fields@)),
                        forall|j: int| i <= j < fields@.len() ==> (#[trigger] fields@[j]).name@ != name@,
                    decreases i,
                {
                    i = i - 1;
                    if same_text(fields[i].name.as_str(), name) {
                        proof {
                            lemma_field_trees_last(fields@, i as int);
                        }
                        return Some(&fields[i].value);
                    }
                }
                proof {
                    lemma_field_trees_absent(fields@, name@);
                }
                None
            },
            _ => None,
        }
    }

    /// Whether an object has a member under a name.
    pub fn contains_key(&self, name: &str) -> (r: bool)
        ensures
            r == (self@.get(name@) is Some),
    {
        self.get(name).is_some()
    }

    /// The number of an integer that fits a `u64`.
    pub fn as_u64(&self) -> (r: Option<u64>)
        ensures
            r == self@.as_u64(),
    {
        match self {
            JsonValue::Number(JsonNumber::Unsigned(u)) => Some(*u),
            JsonValue::Number(JsonNumber::Negative(i)) => if *i >= 0 {
                Some(*i as u64)
            } else {
                None
            },
            _ => None,
        }
    }

    /// The number of an integer that fits an `i64`.
    pub fn as_i64(&self) -> (r: Option<i64>)
        ensures
            r == self@.as_i64(),
    {
        match self {
            JsonValue::Number(JsonNumber::Unsigned(u)) => if *u <= i64::MAX as u64 {
                Some(*u as i64)
            } else {
                None
            },
            JsonValue::Number(JsonNumber::Negative(i)) => Some(*i),
            _ => None,
        }
    }

    /// The characters of a text.
    pub fn as_str(&self) -> (r: Option<&str>)
        ensures
            match r {
                Some(s) => self@.as_str() == Some(s@),
                None => self@.as_str() is None,
            },
    {
        match self {
            JsonValue::Text(s) => Some(s.as_str()),
            _ => None,
        }
    }

    /// The truth value of a boolean.
    pub fn as_bool(&self) -> (r: Option<bool>)
        ensures
            r == self@.as_bool(),
    {
        match self {
            JsonValue::Bool(b) => Some(*b),
            _ => None,
        }
    }

    /// The items of an array.
    pub fn as_array(&self) -> (r: Option<&Vec<JsonValue>>)
        ensures
            match r {
                Some(items) => self@ == JsonTree::Array(item_trees(items@)),
                None => !(self@ is Array),
            },
    {
        match self {
            JsonValue::Array(items) => Some(items),
            _ => None,
        }
    }

    /// The member under `name` where it is an integer that fits a `u64`.
    pub fn u64_at(&self, name: &str) -> (r: Option<u64>)
        ensures
            r == self@.u64_at(name@),
    {
        match self.get(name) {
            Some(v) => v.as_u64(),
            None => None,
        }
    }

    /// The member under `name` where it is an integer that fits an `i64`.
    pub fn i64_at(&self, name: &str) -> (r: Option<i64>)
        ensures
            r == self@.i64_at(name@),
    {
        match self.get(name) {
            Some(v) => v.as_i64(),
            None => None,
        }
    }

    /// The integer under `name`, or `default` where there is none.
    pub fn i64_or(&self, name: &str, default: i64) -> (r: i64)
        ensures
            r == self@.i64_or(name@, default),
    {
        match self.i64_at(name) {
            Some(i) => i,
            None => default,
        }
    }

    /// The member under `name` where it is a boolean.
    pub fn bool_at(&self, name: &str) -> (r: Option<bool>)
        ensures
            r == self@.bool_at(name@),
    {
        match self.get(name) {
            Some(v) => v.as_bool(),
            None => None,
        }
    }

    /// The member under `name` where it is a text.
    pub fn str_at(&self, name: &str) -> (r: Option<String>)
        ensures
            opt_view(r) == self@.str_at(name@),
    {
        match self.get(name) {
            Some(v) => match v.as_str() {
                Some(s) => Some(s.to_owned()),
                None => None,
            },
            None => None,
        }
    }

    /// The text under `name`, or the empty text where there is none.
    pub fn str_or_empty(&self, name: &str) -> (r: String)
        ensures
            r@ == self@.str_or_empty(name@),
    {
        match self.str_at(name) {
            Some(s) => s,
            None => String::new(),
        }
    }

    /// Gives an object a member, in place of an earlier one under the same name.
    pub fn set(&mut self, name: &str, value: JsonValue)
        requires
            old(self)@ is Object,
        ensures
            final(self)@ == JsonTree::Object(old(self)@->Object_0.insert(name@, value@)),
            json_depth(*final(self)) <= if json_depth(*old(self)) > json_depth(value) + 1 {
                json_depth(*old(self))
            } else {
                json_depth(value) + 1
            },
            is_whole(*old(self)) && is_whole(value) ==> is_whole(*final(self)),
    {
        match self {
            JsonValue::Object(fields) => {
                let ghost before = fields@;
                let mut i: usize = 0;
                while i < fields.len()
                    invariant
                        i <= fields@.len(),
                        field_trees(fields@).insert(name@, value@) == field_trees(before).insert(
                            name@,
                            value@,
                        ),
                        fields_depth(fields@) <= fields_depth(before),
                        (forall|j: int|
                            0 <= j < before.len() ==> is_whole((#[trigger] before[j]).value)) ==> (
                        forall|j: int|
                            0 <= j < fields@.len() ==> is_whole((#[trigger] fields@[j]).value)),
                    decreases fields@.len() - i,
                {
                    if same_text(fields[i].name.as_str(), name) {
                        proof {
                            lemma_remove_field(fields@, i as int, value@);
                        }
                        let _earlier = fields.remove(i);
                    } else {
                        i = i + 1;
                    }
                }
                let ghost rest = fields@;
                fields.push(JsonField { name: name.to_owned(), value });
                proof {
                    assert(fields@.drop_last() =~= rest);
                }
            },
            _ => {},
        }
    }

    /// A value with the same tree.
    pub fn duplicate(&self) -> (r: JsonValue)
        ensures
            r@ == self@,
            json_depth(r) == json_depth(*self),
        decreases self,
    {
        match self {
            JsonValue::Null => JsonValue::Null,
            JsonValue::Bool(b) => JsonValue::Bool(*b),
            JsonValue::Number(JsonNumber::Unsigned(u)) => JsonValue::Number(JsonNumber::Unsigned(*u)),
            JsonValue::Number(JsonNumber::Negative(i)) => JsonValue::Number(JsonNumber::Negative(*i)),
            JsonValue::Number(JsonNumber::Float(s)) => JsonValue::Number(
                JsonNumber::Float(s.clone()),
            ),
            JsonValue::Text(s) => JsonValue::Text(s.clone()),
            JsonValue::Array(items) => {
                let mut copies: Vec<JsonValue> = Vec::new();
                let mut i: usize = 0;
                while i < items.len()
                    invariant
                        i <= items@.len(),
                        *self == JsonValue::Array(*items),
                        item_trees(copies@) == item_trees(items@.take(i as int)),
                        items_depth(copies@) == items_depth(items@.take(i as int)),
                    decreases items@.len() - i,
                {
                    let ghost before = copies@;
                    proof {
                        assert(items@.take(i + 1).drop_last() =~= items@.take(i as int));
                        assert(decreases_to!(*self => self->Array_0));
                        assert(decreases_to!(*items => items@));
                        assert(decreases_to!(items@ => items@[i as int]));
                    }
                    copies.push(items[i].duplicate());
                    proof {
                        assert(copies@.drop_last() =~= before);
                    }
                    i = i + 1;
                }
                proof {
                    assert(items@.take(i as int) =~= items@);
                }
                JsonValue::Array(copies)
            },
            JsonValue::Object(fields) => {
                let mut copies: Vec<JsonField> = Vec::new();
                let mut i: usize = 0;
                while i < fields.len()
                    invariant
                        i <= fields@.len(),
                        *self == JsonValue::Object(*fields),
                        field_trees(copies@) == field_trees(fields@.take(i as int)),
                        fields_depth(copies@) == fields_depth(fields@.take(i as int)),
                    decreases fields@.len() - i,
                {
                    let ghost before = copies@;
                    proof {
                        assert(fields@.take(i + 1).drop_last() =~= fields@.take(i as int));
                        assert(decreases_to!(*self => self->Object_0));
                        assert(decreases_to!(*fields => fields@));
                        assert(decreases_to!(fields@ => fields@[i as int]));
                        assert(decreases_to!(fields@[i as int] => fields@[i as int].value));
                    }
                    copies.push(
                        JsonField {
                            name: fields[i].name.clone(),
                            value: fields[i].value.duplicate(),
                        },
                    );
                    proof {
                        assert(copies@.drop_last() =~= before);
                    }
                    i = i + 1;
                }
                proof {
                    assert(fields@.take(i as int) =~= fields@);
                }
                JsonValue::Object(copies)
            },
        }
    }
}

/// The type of a JSON value in `serde_json`.
#[verifier::external_type_specification]
#[verifier::external_body]
pub struct ExSerdeValue(serde_json::Value);

/// What `serde_json::from_str` reads from a text; nothing where the text is not JSON.
pub uninterp spec fn json_parsed(text: Seq<char>) -> Option<JsonTree>;

/// What `serde_json::from_slice` reads from bytes; nothing where they are not JSON.
pub uninterp spec fn json_parsed_bytes(bytes: Seq<u8>) -> Option<JsonTree>;

/// The compact form in which `serde_json` writes a value.
pub uninterp spec fn json_text(tree: JsonTree) -> Seq<char>;

/// The bytes of the compact form in which `serde_json` writes a value.
pub uninterp spec fn json_bytes(tree: JsonTree) -> Seq<u8>;

/// Whether a tree is neither a container nor a number with a fraction or an exponent.
pub open spec fn is_plain(t: JsonTree) -> bool {
    t is Null || t is Bool || t is Int || t is Text
}

/// Whether `read` shows the same member names as the object `written`, with the same plain members.
pub open spec fn reads_back(written: JsonTree, read: Option<JsonTree>) -> bool {
    written matches JsonTree::Object(before) ==> {
        &&& read matches Some(JsonTree::Object(after))
        &&& after.dom() == before.dom()
        &&& forall|name: Seq<char>|
            #![trigger after[name]]
            before.dom().contains(name) && is_plain(before[name]) ==> after[name] == before[name]
    }
}

/// Takes a value of `serde_json` over, variant by variant. A number that is no integer keeps its
/// printed form.
#[verifier::external_body]
fn from_serde(value: Value) -> JsonValue {
    match value {
        Value::Null => JsonValue::Null,
        Value::Bool(b) => JsonValue::Bool(b),
        Value::Number(n) => JsonValue::Number(match (n.as_u64(), n.as_i64()) {
            (Some(u), _) => JsonNumber::Unsigned(u),
            (None, Some(i)) => JsonNumber::Negative(i),
            (None, None) => JsonNumber::Float(n.to_string()),
        }),
        Value::String(s) => JsonValue::Text(s),
        Value::Array(items) => JsonValue::Array(items.into_iter().map(from_serde).collect()),
        Value::Object(fields) => JsonValue::Object(
            fields.into_iter().map(|(name, v)| JsonField { name, value: from_serde(v) }).collect()),
    }
}

/// Hands a value to `serde_json`, variant by variant. The text of a number that is no integer is read
/// as a `serde_json::Number`; a text that is no number becomes null.
#[verifier::external_body]
fn to_serde(value: &JsonValue) -> Value {
    match value {
        JsonValue::Null => Value::Null,
        JsonValue::Bool(b) => Value::Bool(*b),
        JsonValue::Number(JsonNumber::Unsigned(u)) => Value::from(*u),
        JsonValue::Number(JsonNumber::Negative(i)) => Value::from(*i),
        JsonValue::Number(JsonNumber::Float(s)) => s.parse().map(Value::Number).unwrap_or_default(),
        JsonValue::Text(s) => Value::String(s.clone()),
        JsonValue::Array(items) => Value::Array(items.iter().map(to_serde).collect()),
        JsonValue::Object(fields) => Value::Object(
            fields.iter().map(|f| (f.name.clone(), to_serde(&f.value))).collect()),
    }
}

/// Reads JSON text with `serde_json::from_str`. The result depends on the text alone, and
/// `serde_json` refuses text whose arrays and objects nest more than 127 deep.
#[verifier::external_body]
pub(crate) fn parse_json(text: &str) -> (r: Option<JsonValue>)
    ensures
        match r {
            Some(v) => json_parsed(text@) == Some(v@) && json_depth(v) <= 127,
            None => json_parsed(text@) is None,
        },
{
    serde_json::from_str::<Value>(text).ok().map(from_serde)
}

/// Reads JSON bytes with `serde_json::from_slice`. The result depends on the bytes alone; of the text
/// of the error with which it refuses bytes nothing is said.
#[verifier::external_body]
pub(crate) fn parse_json_bytes(bytes: &[u8]) -> (r: Result<JsonValue, String>)
    ensures
        match r {
            Ok(v) => json_parsed_bytes(bytes@) == Some(v@),
            Err(_) => json_parsed_bytes(bytes@) is None,
        },
{
    serde_json::from_slice::<Value>(bytes).map(from_serde).map_err(|e| e.to_string())
}

/// Writes a value as compact JSON text with the `Display` of `serde_json::Value`. The text depends
/// on the tree alone. Where the value does not nest too deep to be read again, reading the text of
/// an object gives an object with the same member names, and with the same null, boolean, integer
/// and text members; and where no number in it has a fraction, reading gives the same tree. Of
/// numbers with a fraction nothing is said.
#[verifier::external_body]
pub(crate) fn write_json(value: &JsonValue) -> (r: String)
    ensures
        r@ == json_text(value@),
        json_depth(*value) <= 127 ==> reads_back(value@, json_parsed(r@)),
        json_depth(*value) <= 127 && is_whole(*value) ==> json_parsed(r@) == Some(value@),
{
    to_serde(value).to_string()
}

/// Writes a value as the bytes of compact JSON text with `serde_json::to_vec`, which does not fail
/// on a `serde_json::Value`. The bytes depend on the tree alone. Where the value does not nest too
/// deep to be read again, and no number in it has a fraction, reading the bytes gives the same tree.
#[verifier::external_body]
pub(crate) fn write_json_bytes(value: &JsonValue) -> (r: Vec<u8>)
    ensures
        r@ == json_bytes(value@),
        json_depth(*value) <= 127 && is_whole(*value) ==> json_parsed_bytes(r@) == Some(value@),
{
    serde_json::to_vec(&to_serde(value)).unwrap_or_default()
}

impl JsonValue {
    /// The value of JSON text, where it is that.
    pub fn from_text(text: &str) -> (r: Option<JsonValue>)
        ensures
            match r {
                Some(v) => json_parsed(text@) == Some(v@),
                None => json_parsed(text@) is None,
            },
    {
        parse_json(text)
    }

    /// The compact JSON text of the value. Reading it gives the same tree, where the value does not
    /// nest too deep and holds no number with a fraction.
    pub fn to_text(&self) -> (r: String)
        ensures
            r@ == json_text(self@),
            json_depth(*self) <= 127 && is_whole(*self) ==> json_parsed(r@) == Some(self@),
    {
        write_json(self)
    }
}

/// A number, a text and a truth value are read back as they stand, each only as what it is, and a
/// number only where it fits. What is no object has no members.
pub proof fn law_values_are_read_as_what_they_are(i: int, s: Seq<char>, b: bool, name: Seq<char>)
    ensures
        JsonTree::Int(i).as_i64() is Some <==> i64::MIN <= i <= i64::MAX,
        JsonTree::Int(i).as_i64() matches Some(n) ==> n == i,
        JsonTree::Int(i).as_u64() is Some <==> 0 <= i <= u64::MAX,
        JsonTree::Int(i).as_u64() matches Some(n) ==> n == i,
        JsonTree::Text(s).as_str() == Some(s),
        JsonTree::Bool(b).as_bool() == Some(b),
        JsonTree::Int(i).as_str() is None && JsonTree::Int(i).as_bool() is None,
        JsonTree::Text(s).as_i64() is None && JsonTree::Text(s).as_u64() is None,
        JsonTree::Text(s).as_bool() is None,
        JsonTree::Float(s).as_i64() is None && JsonTree::Float(s).as_u64() is None,
        JsonTree::Int(i).get(name) is None && JsonTree::Text(s).get(name) is None,
{
}

/// A member is read under its own name, whatever the others are, and the default stands in only where
/// there is none of the kind.
pub proof fn law_members_are_read_under_their_names(
    fields: Map<Seq<char>, JsonTree>,
    name: Seq<char>,
    other: Seq<char>,
    v: JsonTree,
    default: i64,
)
    ensures
        ({
            let t = JsonTree::Object(fields.insert(name, v));
            &&& t.get(name) == Some(v)
            &&& other != name ==> t.get(other) == JsonTree::Object(fields).get(other)
            &&& t.i64_at(name) == v.as_i64() && t.u64_at(name) == v.as_u64()
            &&& t.str_at(name) == v.as_str() && t.bool_at(name) == v.as_bool()
            &&& t.i64_or(name, default) == (if v.as_i64() is Some {
                v.as_i64()->0
            } else {
                default
            })
            &&& t.str_or_empty(name) == (if v is Text {
                v->Text_0
            } else {
                Seq::empty()
            })
        }),
        ({
            let t = JsonTree::Object(fields.remove(name));
            &&& t.get(name) is None && t.i64_at(name) is None && t.u64_at(name) is None
            &&& t.str_at(name) is None && t.bool_at(name) is None
            &&& t.i64_or(name, default) == default && t.str_or_empty(name).len() == 0
        }),
{
}

} // verus!
