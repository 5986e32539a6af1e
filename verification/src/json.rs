//! JSON-shaped user values.

use vstd::prelude::*;
use crate::number::Number;

verus! {

/// A user value: a scalar, an ordered sequence, or a keyed mapping.
///
/// A mapping keeps its entries in the order they were written; a lookup
/// takes the first entry with the key.
#[derive(Debug, PartialEq)]
pub enum JsonValue {
    Null,
    Bool(bool),
    Number(Number),
    String(String),
    Array(Vec<JsonValue>),
    Object(Vec<(String, JsonValue)>),
}

/// What a [`JsonValue`] holds.
pub ghost enum JsonView {
    Null,
    Bool(bool),
    Number(Number),
    String(Seq<char>),
    Array(Seq<JsonView>),
    Object(Seq<(Seq<char>, JsonView)>),
}

/// What a user value holds, entry by entry.
pub open spec fn json_view(v: JsonValue) -> JsonView
    decreases v,
{
    match v {
        JsonValue::Null => JsonView::Null,
        JsonValue::Bool(b) => JsonView::Bool(b),
        JsonValue::Number(n) => JsonView::Number(n),
        JsonValue::String(s) => JsonView::String(s@),
        JsonValue::Array(items) => JsonView::Array(
            Seq::new(
                items@.len(),
                |i: int|
                    if 0 <= i < items@.len() {
                        json_view(items@[i])
                    } else {
                        JsonView::Null
                    },
            ),
        ),
        JsonValue::Object(fields) => JsonView::Object(
            Seq::new(
                fields@.len(),
                |i: int|
                    if 0 <= i < fields@.len() {
                        (fields@[i].0@, json_view(fields@[i].1))
                    } else {
                        (Seq::empty(), JsonView::Null)
                    },
            ),
        ),
    }
}

impl View for JsonValue {
    type V = JsonView;

    open spec fn view(&self) -> JsonView {
        json_view(*self)
    }
}

impl Clone for JsonValue {
    fn clone(&self) -> (r: Self)
        ensures
            r@ == self@,
        decreases *self,
    {
        match self {
            JsonValue::Null => JsonValue::Null,
            JsonValue::Bool(b) => JsonValue::Bool(*b),
            JsonValue::Number(n) => JsonValue::Number(*n),
            JsonValue::String(s) => JsonValue::String(s.clone()),
            JsonValue::Array(items) => {
                let mut out: Vec<JsonValue> = Vec::new();
                let mut i: usize = 0;
                while i < items.len()
                    invariant
                        i <= items.len(),
                        out@.len() == i,
                        forall|j: int| 0 <= j < i ==> (#[trigger] out@[j])@ == items@[j]@,
                        *self is Array,
                        self->Array_0 == *items,
                    decreases items.len() - i,
                {
                    proof {
                        assert(decreases_to!(*self => self->Array_0));
                        vstd::std_specs::vec::axiom_vec_index_decreases(*items, i as int);
                    }
                    let item = items[i].clone();
                    out.push(item);
                    i = i + 1;
                }
                let r = JsonValue::Array(out);
                assert(r@ is Array && self@ is Array);
                assert(r@->Array_0.len() == self@->Array_0.len());
                assert forall|k: int| 0 <= k < out@.len() implies r@->Array_0[k] == self@->Array_0[k] by {
                    assert(out@[k]@ == items@[k]@);
                }
                assert(r@->Array_0 =~= self@->Array_0);
                r
            },
            JsonValue::Object(fields) => {
                let mut out: Vec<(String, JsonValue)> = Vec::new();
                let mut i: usize = 0;
                while i < fields.len()
                    invariant
                        i <= fields.len(),
                        out@.len() == i,
                        forall|j: int|
                            0 <= j < i ==> (#[trigger] out@[j]).0@ == fields@[j].0@ && out@[j].1@
                                == fields@[j].1@,
                        *self is Object,
                        self->Object_0 == *fields,
                    decreases fields.len() - i,
                {
                    proof {
                        assert(decreases_to!(*self => self->Object_0));
                        vstd::std_specs::vec::axiom_vec_index_decreases(*fields, i as int);
                    }
                    let key = fields[i].0.clone();
                    let value = fields[i].1.clone();
                    out.push((key, value));
                    i = i + 1;
                }
                let r = JsonValue::Object(out);
                assert forall|k: int| 0 <= k < out@.len() implies r@->Object_0[k] == self@->Object_0[k] by {
                    assert(out@[k].0@ == fields@[k].0@);
                }
                assert(r@->Object_0 =~= self@->Object_0);
                r
            },
        }
    }
}

/// The value of the first field of `fields` that has the key `key`.
pub open spec fn find_field(fields: Seq<(Seq<char>, JsonView)>, key: Seq<char>) -> Option<JsonView>
    decreases fields.len(),
{
    if fields.len() == 0 {
        None
    } else if fields[0].0 == key {
        Some(fields[0].1)
    } else {
        find_field(fields.drop_first(), key)
    }
}

/// Looking from `i` on finds what looking from the start finds, when no
/// field before `i` has the key.
pub proof fn lemma_find_field_skip(fields: Seq<(Seq<char>, JsonView)>, key: Seq<char>, i: int)
    requires
        0 <= i <= fields.len(),
        forall|j: int| 0 <= j < i ==> (#[trigger] fields[j]).0 != key,
    ensures
        find_field(fields, key) == find_field(fields.skip(i), key),
    decreases i,
{
    if i == 0 {
        assert(fields.skip(0) =~= fields);
    } else {
        lemma_find_field_skip(fields, key, i - 1);
        let rest = fields.skip(i - 1);
        assert(rest[0] == fields[i - 1]);
        assert(rest.drop_first() =~= fields.skip(i));
    }
}

impl JsonView {
    /// The number that this is, if it is one.
    pub open spec fn number(&self) -> Option<crate::number::Number> {
        match self {
            JsonView::Number(n) => Some(*n),
            _ => None,
        }
    }

    /// The string that this is, if it is one.
    pub open spec fn string(&self) -> Option<Seq<char>> {
        match self {
            JsonView::String(s) => Some(*s),
            _ => None,
        }
    }

    /// The elements of the sequence that this is, if it is one.
    pub open spec fn array(&self) -> Option<Seq<JsonView>> {
        match self {
            JsonView::Array(items) => Some(*items),
            _ => None,
        }
    }

    /// The value under `key` of the mapping that this is, if it is one and
    /// has the key.
    pub open spec fn field(&self, key: Seq<char>) -> Option<JsonView> {
        match self {
            JsonView::Object(fields) => find_field(*fields, key),
            _ => None,
        }
    }

    /// The number under `key`, if there is one.
    pub open spec fn number_field(&self, key: Seq<char>) -> Option<crate::number::Number> {
        match self.field(key) {
            Some(value) => value.number(),
            None => None,
        }
    }
}

impl JsonValue {
    /// The number that this is, if it is one.
    pub fn as_number(&self) -> (r: Option<crate::number::Number>)
        ensures
            r == self@.number(),
    {
        match self {
            JsonValue::Number(n) => Some(*n),
            _ => None,
        }
    }

    /// The string that this is, if it is one.
    pub fn as_str(&self) -> (r: Option<&str>)
        ensures
            match r {
                Some(s) => self@.string() == Some(s@),
                None => self@.string().is_none(),
            },
    {
        match self {
            JsonValue::String(s) => Some(s.as_str()),
            _ => None,
        }
    }

    /// The elements of the sequence that this is, if it is one.
    pub fn as_array(&self) -> (r: Option<&Vec<JsonValue>>)
        ensures
            match r {
                Some(items) => self@.array().is_some() && self@.array().unwrap().len()
                    == items@.len() && forall|i: int|
                    0 <= i < items@.len() ==> self@.array().unwrap()[i] == (#[trigger] items@[i])@,
                None => self@.array().is_none(),
            },
    {
        match self {
            JsonValue::Array(items) => Some(items),
            _ => None,
        }
    }

    /// The value under `key` of the mapping that this is, if it is one and
    /// has the key. Where the key occurs more than once, the first counts.
    pub fn get(&self, key: &str) -> (r: Option<&JsonValue>)
        ensures
            match r {
                Some(value) => self@.field(key@) == Some(value@),
                None => self@.field(key@).is_none(),
            },
    {
        match self {
            JsonValue::Object(fields) => {
                let wanted = String::from_str(key);
                let ghost views = self@->Object_0;
                let mut i: usize = 0;
                while i < fields.len()
                    invariant
                        i <= fields.len(),
                        wanted@ == key@,
                        self@ == JsonView::Object(views),
                        views.len() == fields@.len(),
                        forall|j: int|
                            0 <= j < fields@.len() ==> (#[trigger] views[j]) == (
                                fields@[j].0@,
                                fields@[j].1@,
                            ),
                        forall|j: int| 0 <= j < i ==> (#[trigger] views[j]).0 != key@,
                    decreases fields.len() - i,
                {
                    if fields[i].0 == wanted {
                        proof {
                            lemma_find_field_skip(views, key@, i as int);
                            assert(views.skip(i as int)[0] == views[i as int]);
                        }
                        return Some(&fields[i].1);
                    }
                    assert(views[i as int].0 == fields@[i as int].0@);
                    i = i + 1;
                }
                proof {
                    lemma_find_field_skip(views, key@, i as int);
                }
                None
            },
            _ => None,
        }
    }

    /// The number under `key`, if there is one.
    pub fn get_number(&self, key: &str) -> (r: Option<crate::number::Number>)
        ensures
            r == self@.number_field(key@),
    {
        match self.get(key) {
            Some(value) => value.as_number(),
            None => None,
        }
    }
}

} // verus!
