//! The JSON values that the Workers runtime receives for option objects.

use vstd::prelude::*;
use vstd::string::*;

verus! {

/// A JSON value as the runtime receives it.
#[derive(Debug, PartialEq)]
pub enum JsonValue {
    /// JavaScript's `undefined`, which the runtime receives for a unit value.
    Undefined,
    Null,
    Bool(bool),
    Number(u64),
    String(String),
    Array(Vec<JsonValue>),
    Object(Vec<JsonMember>),
}

/// One member of a JSON object, in the order it is written.
#[derive(Debug, PartialEq)]
pub struct JsonMember {
    pub key: String,
    pub value: JsonValue,
}

/// The abstract value of a JSON value: texts in place of strings.
#[verifier::ext_equal]
pub enum JsonView {
    Undefined,
    Null,
    Bool(bool),
    Number(u64),
    Str(Seq<char>),
    Array(Seq<JsonView>),
    Object(Seq<(Seq<char>, JsonView)>),
}

impl JsonValue {
    /// The abstract value of this JSON value.
    pub open spec fn view(&self) -> JsonView
        decreases self,
    {
        match self {
            JsonValue::Undefined => JsonView::Undefined,
            JsonValue::Null => JsonView::Null,
            JsonValue::Bool(b) => JsonView::Bool(*b),
            JsonValue::Number(n) => JsonView::Number(*n),
            JsonValue::String(s) => JsonView::Str(s@),
            JsonValue::Array(items) => JsonView::Array(
                Seq::new(
                    items@.len(),
                    |i: int|
                        {
                            if 0 <= i < items@.len() {
                                items@[i].view()
                            } else {
                                JsonView::Null
                            }
                        },
                ),
            ),
            JsonValue::Object(ms) => JsonView::Object(
                Seq::new(
                    ms@.len(),
                    |i: int|
                        {
                            if 0 <= i < ms@.len() {
                                (ms@[i].key@, ms@[i].value.view())
                            } else {
                                (Seq::empty(), JsonView::Null)
                            }
                        },
                ),
            ),
        }
    }
}

/// The keys (as text) and values of a list of object members.
pub open spec fn fields_of(ms: Seq<JsonMember>) -> Seq<(Seq<char>, JsonView)> {
    ms.map_values(|m: JsonMember| (m.key@, m.value.view()))
}

/// An object's view is the list of its members' keys and values.
pub proof fn lemma_object_view(ms: Vec<JsonMember>)
    ensures
        JsonValue::Object(ms).view() == JsonView::Object(fields_of(ms@)),
{
    assert(JsonValue::Object(ms).view()->Object_0 =~= fields_of(ms@));
}

/// An array's view is the list of its items' views.
pub proof fn lemma_array_view(items: Vec<JsonValue>)
    ensures
        JsonValue::Array(items).view() == JsonView::Array(
            items@.map_values(|v: JsonValue| v.view()),
        ),
{
    assert(JsonValue::Array(items).view()->Array_0 =~= items@.map_values(|v: JsonValue| v.view()));
}

/// One member, or none, for an optional field that is left out when absent.
pub open spec fn optional_field(key: Seq<char>, value: Option<JsonView>) -> Seq<
    (Seq<char>, JsonView),
> {
    match value {
        Some(v) => seq![(key, v)],
        None => seq![],
    }
}

/// The view of an optional JSON value.
pub open spec fn optional_view(v: Option<JsonValue>) -> Option<JsonView> {
    match v {
        Some(x) => Some(x.view()),
        None => None,
    }
}

/// An optional string field's JSON value.
pub open spec fn string_value(s: Option<String>) -> Option<JsonView> {
    match s {
        Some(t) => Some(JsonView::Str(t@)),
        None => None,
    }
}

/// An optional flag's JSON value.
pub open spec fn bool_value(b: Option<bool>) -> Option<JsonView> {
    match b {
        Some(x) => Some(JsonView::Bool(x)),
        None => None,
    }
}

/// An optional count's JSON value.
pub open spec fn number_value(n: Option<u32>) -> Option<JsonView> {
    match n {
        Some(x) => Some(JsonView::Number(x as u64)),
        None => None,
    }
}

/// Appends a member to an object under construction.
pub fn push_member(ms: &mut Vec<JsonMember>, key: &str, value: JsonValue)
    ensures
        fields_of(final(ms)@) == fields_of(old(ms)@).push((key@, value.view())),
{
    ms.push(JsonMember { key: String::from_str(key), value });
    assert(fields_of(ms@) =~= fields_of(old(ms)@).push((key@, value.view())));
}

/// Appends a member for an optional field, or nothing when it is absent.
pub fn push_optional(ms: &mut Vec<JsonMember>, key: &str, value: Option<JsonValue>)
    ensures
        fields_of(final(ms)@) == fields_of(old(ms)@) + optional_field(key@, optional_view(value)),
{
    match value {
        Some(v) => push_member(ms, key, v),
        None => {
            assert(fields_of(ms@) =~= fields_of(old(ms)@) + optional_field(
                key@,
                optional_view(value),
            ));
        },
    }
}

/// The JSON value of an optional string.
pub fn string_json(s: &Option<String>) -> (r: Option<JsonValue>)
    ensures
        optional_view(r) == string_value(*s),
{
    match s {
        Some(t) => Some(JsonValue::String(t.clone())),
        None => None,
    }
}

/// The JSON value of an optional flag.
pub fn bool_json(b: Option<bool>) -> (r: Option<JsonValue>)
    ensures
        optional_view(r) == bool_value(b),
{
    match b {
        Some(x) => Some(JsonValue::Bool(x)),
        None => None,
    }
}

/// The JSON value of an optional count.
pub fn number_json(n: Option<u32>) -> (r: Option<JsonValue>)
    ensures
        optional_view(r) == number_value(n),
{
    match n {
        Some(x) => Some(JsonValue::Number(x as u64)),
        None => None,
    }
}

/// The JSON value of an optional value that has a runtime shape.
pub fn shape_json<T: RuntimeShape>(v: &Option<T>) -> (r: Option<JsonValue>)
    ensures
        optional_view(r) == match *v {
            Some(x) => Some(x.shape()),
            None => None::<JsonView>,
        },
{
    match v {
        Some(x) => Some(x.runtime_shape()),
        None => None,
    }
}

/// A value that the runtime receives as JSON.
pub trait RuntimeShape {
    /// The JSON value the runtime receives for `self`.
    spec fn shape(&self) -> JsonView;

    /// Builds the JSON value the runtime receives for `self`.
    fn runtime_shape(&self) -> (r: JsonValue)
        ensures
            r.view() == self.shape(),
    ;
}

impl RuntimeShape for JsonValue {
    open spec fn shape(&self) -> JsonView {
        self.view()
    }

    fn runtime_shape(&self) -> (r: JsonValue) {
        self.clone_value()
    }
}

/// A unit value (such as the parameters of an instance created without
/// any) reaches the runtime as `undefined`.
impl RuntimeShape for () {
    open spec fn shape(&self) -> JsonView {
        JsonView::Undefined
    }

    fn runtime_shape(&self) -> (r: JsonValue) {
        JsonValue::Undefined
    }
}

impl Clone for JsonValue {
    fn clone(&self) -> (r: JsonValue)
        ensures
            r.view() == self.view(),
    {
        self.clone_value()
    }
}

impl JsonValue {
    /// A copy of this value.
    #[verifier::loop_isolation(false)]
    pub fn clone_value(&self) -> (r: JsonValue)
        ensures
            r.view() == self.view(),
        decreases self,
    {
        match self {
            JsonValue::Undefined => JsonValue::Undefined,
            JsonValue::Null => JsonValue::Null,
            JsonValue::Bool(b) => JsonValue::Bool(*b),
            JsonValue::Number(n) => JsonValue::Number(*n),
            JsonValue::String(s) => JsonValue::String(s.clone()),
            JsonValue::Array(items) => {
                let mut out: Vec<JsonValue> = Vec::new();
                let mut i: usize = 0;
                while i < items.len()
                    invariant
                        i <= items.len(),
                        forall|k: int| 0 <= k < i ==> (#[trigger] out@[k]).view() == items@[k].view(),
                        out@.len() == i,
                    decreases items.len() - i,
                {
                    proof {
                        assert(decreases_to!(items => items@));
                        assert(decreases_to!(items@ => items@[i as int]));
                    }
                    out.push(items[i].clone_value());
                    i = i + 1;
                }
                let r = JsonValue::Array(out);
                proof {
                    let sa = r.view()->Array_0;
                    let sb = self.view()->Array_0;
                    assert(sa =~= sb);
                }
                r
            },
            JsonValue::Object(ms) => {
                let mut out: Vec<JsonMember> = Vec::new();
                let mut i: usize = 0;
                while i < ms.len()
                    invariant
                        i <= ms.len(),
                        forall|k: int| 0 <= k < i ==> (#[trigger] out@[k]).key@ == ms@[k].key@ && out@[k].value.view() == ms@[k].value.view(),
                        out@.len() == i,
                    decreases ms.len() - i,
                {
                    proof {
                        assert(decreases_to!(ms => ms@));
                        assert(decreases_to!(ms@ => ms@[i as int]));
                        assert(decreases_to!(ms@[i as int] => ms@[i as int].value));
                    }
                    let v = ms[i].value.clone_value();
                    out.push(JsonMember { key: ms[i].key.clone(), value: v });
                    i = i + 1;
                }
                let r = JsonValue::Object(out);
                proof {
                    let sa = r.view()->Object_0;
                    let sb = self.view()->Object_0;
                    assert(sa =~= sb);
                }
                r
            },
        }
    }
}

} // verus!
