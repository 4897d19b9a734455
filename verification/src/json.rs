//! A plain model of JSON values.
//!
//! Request and response bodies, aggregation definitions, and filter subtrees
//! are JSON trees. The library holds them in its own value type so that the
//! rewriting logic over them can be specified and verified; conversion to a
//! wire encoding happens outside the library. JSON numbers are held as
//! integers, which covers everything this layer writes into a body.

use vstd::prelude::*;

verus! {

/// The mathematical shape of a JSON value: what a [`JsonValue`] denotes.
#[verifier::ext_equal]
pub enum JsonV {
    Null,
    Bool(bool),
    Int(i64),
    UInt(u64),
    Str(Seq<char>),
    Arr(Seq<JsonV>),
    Obj(Seq<(Seq<char>, JsonV)>),
}

/// An owned JSON tree. Object members keep their insertion order; nothing in
/// this layer relies on that order.
#[derive(Debug, PartialEq, Eq)]
pub enum JsonValue {
    Null,
    Bool(bool),
    Int(i64),
    UInt(u64),
    Str(String),
    Arr(Vec<JsonValue>),
    Obj(Vec<(String, JsonValue)>),
}

/// The shape a [`JsonValue`] denotes.
pub open spec fn json_view(v: JsonValue) -> JsonV
    decreases v,
{
    match v {
        JsonValue::Null => JsonV::Null,
        JsonValue::Bool(b) => JsonV::Bool(b),
        JsonValue::Int(n) => JsonV::Int(n),
        JsonValue::UInt(n) => JsonV::UInt(n),
        JsonValue::Str(s) => JsonV::Str(s@),
        JsonValue::Arr(items) => JsonV::Arr(json_views(items@)),
        JsonValue::Obj(members) => JsonV::Obj(member_views(members@)),
    }
}

/// The shapes of a sequence of values, element by element.
pub open spec fn json_views(s: Seq<JsonValue>) -> Seq<JsonV>
    decreases s,
{
    if s.len() == 0 {
        Seq::empty()
    } else {
        json_views(s.drop_last()).push(json_view(s.last()))
    }
}

/// The shapes of a sequence of object members, element by element.
pub open spec fn member_views(s: Seq<(String, JsonValue)>) -> Seq<(Seq<char>, JsonV)>
    decreases s,
{
    if s.len() == 0 {
        Seq::empty()
    } else {
        member_views(s.drop_last()).push((s.last().0@, json_view(s.last().1)))
    }
}

/// `json_views` maps the sequence element by element.
pub proof fn lemma_json_views(s: Seq<JsonValue>)
    ensures
        json_views(s).len() == s.len(),
        forall|i: int| 0 <= i < s.len() ==> json_views(s)[i] == json_view(s[i]),
    decreases s,
{
    if s.len() > 0 {
        lemma_json_views(s.drop_last());
    }
}

/// `member_views` maps the sequence element by element.
pub proof fn lemma_member_views(s: Seq<(String, JsonValue)>)
    ensures
        member_views(s).len() == s.len(),
        forall|i: int| 0 <= i < s.len() ==> member_views(s)[i] == (
            s[i].0@,
            json_view(s[i].1),
        ),
    decreases s,
{
    if s.len() > 0 {
        lemma_member_views(s.drop_last());
    }
}

impl View for JsonValue {
    type V = JsonV;

    open spec fn view(&self) -> JsonV {
        json_view(*self)
    }
}

/// An array with a single element.
pub open spec fn arr1_v(v: JsonV) -> JsonV {
    JsonV::Arr(seq![v])
}

/// An object with a single member.
pub open spec fn obj1_v(k: Seq<char>, v: JsonV) -> JsonV {
    JsonV::Obj(seq![(k, v)])
}

/// An object with two members, in this order.
pub open spec fn obj2_v(k0: Seq<char>, v0: JsonV, k1: Seq<char>, v1: JsonV) -> JsonV {
    JsonV::Obj(seq![(k0, v0), (k1, v1)])
}

impl JsonValue {
    /// An object with a single member.
    pub fn obj1(key: &str, value: JsonValue) -> (r: JsonValue)
        ensures
            r@ == obj1_v(key@, value@),
    {
        let mut members: Vec<(String, JsonValue)> = Vec::new();
        members.push((key.to_owned(), value));
        let r = JsonValue::Obj(members);
        proof {
            lemma_member_views(members@);
            assert(r@ matches JsonV::Obj(m) && m =~= seq![(key@, value@)]);
        }
        r
    }

    /// An object with two members, in this order.
    pub fn obj2(key0: &str, value0: JsonValue, key1: &str, value1: JsonValue) -> (r: JsonValue)
        ensures
            r@ == obj2_v(key0@, value0@, key1@, value1@),
    {
        let mut members: Vec<(String, JsonValue)> = Vec::new();
        members.push((key0.to_owned(), value0));
        members.push((key1.to_owned(), value1));
        let r = JsonValue::Obj(members);
        proof {
            lemma_member_views(members@);
            assert(r@ matches JsonV::Obj(m) && m =~= seq![(key0@, value0@), (key1@, value1@)]);
        }
        r
    }

    /// An array with a single element.
    pub fn arr1(value: JsonValue) -> (r: JsonValue)
        ensures
            r@ == arr1_v(value@),
    {
        let mut items: Vec<JsonValue> = Vec::new();
        items.push(value);
        let r = JsonValue::Arr(items);
        proof {
            lemma_json_views(items@);
            assert(r@ matches JsonV::Arr(s) && s =~= seq![value@]);
        }
        r
    }

    /// A string value.
    pub fn string(s: &str) -> (r: JsonValue)
        ensures
            r@ == JsonV::Str(s@),
    {
        JsonValue::Str(s.to_owned())
    }

    /// A structurally equal copy of this value.
    #[verifier::loop_isolation(false)]
    pub fn duplicate(&self) -> (r: JsonValue)
        ensures
            r@ == self@,
        decreases self,
    {
        match self {
            JsonValue::Null => JsonValue::Null,
            JsonValue::Bool(b) => JsonValue::Bool(*b),
            JsonValue::Int(n) => JsonValue::Int(*n),
            JsonValue::UInt(n) => JsonValue::UInt(*n),
            JsonValue::Str(s) => JsonValue::Str(s.clone()),
            JsonValue::Arr(items) => {
                let mut out: Vec<JsonValue> = Vec::new();
                let mut i: usize = 0;
                while i < items.len()
                    invariant
                        i <= items.len(),
                        out@.len() == i,
                        forall|j: int| 0 <= j < i ==> out@[j]@ == items@[j]@,
                    decreases items.len() - i,
                {
                    proof {
                        vstd::std_specs::vec::axiom_vec_index_decreases(*items, i as int);
                    }
                    out.push(items[i].duplicate());
                    i += 1;
                }
                let r = JsonValue::Arr(out);
                proof {
                    lemma_json_views(out@);
                    lemma_json_views(items@);
                    assert(json_views(out@) =~= json_views(items@));
                }
                r
            },
            JsonValue::Obj(members) => {
                let mut out: Vec<(String, JsonValue)> = Vec::new();
                let mut i: usize = 0;
                while i < members.len()
                    invariant
                        i <= members.len(),
                        out@.len() == i,
                        forall|j: int| 0 <= j < i ==> out@[j].0@ == members@[j].0@
                            && out@[j].1@ == members@[j].1@,
                    decreases members.len() - i,
                {
                    proof {
                        vstd::std_specs::vec::axiom_vec_index_decreases(*members, i as int);
                    }
                    let (k, v) = &members[i];
                    out.push((k.clone(), v.duplicate()));
                    i += 1;
                }
                let r = JsonValue::Obj(out);
                proof {
                    lemma_member_views(out@);
                    lemma_member_views(members@);
                    assert(member_views(out@) =~= member_views(members@));
                }
                r
            },
        }
    }
}

} // verus!
