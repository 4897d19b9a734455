//! Rewriting of aggregations that target nested fields.
//!
//! A field like `a.b.c` lives at the containing path `a.b`. When the target
//! schema declares that path nested, an aggregation on the field only works
//! wrapped in a `nested` scope on that path — and, when the caller asks for
//! filter support, with the query's own filter for that path applied inside
//! the scope, extracted from the query so it is not applied twice. Fields
//! with no containing path, and paths the schema does not declare nested,
//! pass through unchanged.

use vstd::prelude::*;

use crate::elasticsearch::Elasticsearch;
use crate::json::JsonV;
use crate::json::JsonValue;
use crate::json::obj1_v;
use crate::json::obj2_v;
use crate::query::ZDBPreparedQuery;
use crate::query::first_path_match;
use crate::text::str_eq;

verus! {

/// Whether the characters hold a dot.
pub open spec fn has_dot(s: Seq<char>) -> bool {
    exists|i: int| 0 <= i < s.len() && s[i] == '.'
}

/// The position of the last dot, or a negative number when there is none.
pub open spec fn last_dot(s: Seq<char>) -> int
    decreases s.len(),
{
    if s.len() == 0 {
        -1
    } else if s[s.len() - 1] == '.' {
        s.len() - 1
    } else {
        last_dot(s.drop_last())
    }
}

/// What `last_dot` finds: the dot no later dot follows, or none at all.
pub proof fn lemma_last_dot(s: Seq<char>)
    ensures
        -1 <= last_dot(s) < s.len(),
        last_dot(s) == -1 <==> !has_dot(s),
        last_dot(s) >= 0 ==> s[last_dot(s)] == '.',
        last_dot(s) >= 0 ==> forall|j: int| last_dot(s) < j < s.len() ==> s[j] != '.',
    decreases s.len(),
{
    if s.len() > 0 && s[s.len() - 1] != '.' {
        lemma_last_dot(s.drop_last());
        assert(forall|i: int| 0 <= i < s.len() - 1 ==> s.drop_last()[i] == s[i]);
        if has_dot(s) {
            let i = choose|i: int| 0 <= i < s.len() && s[i] == '.';
            assert(s.drop_last()[i] == '.');
        }
    }
}

/// The containing path of a field: the field name up to its last dot. A
/// field with no dot has no containing path and cannot be nested.
pub open spec fn spec_containing_path(field: Seq<char>) -> Option<Seq<char>> {
    if has_dot(field) {
        Some(field.subrange(0, last_dot(field)))
    } else {
        None
    }
}

/// The containing path of a field name, when it has one.
pub fn containing_path(field: &str) -> (r: Option<String>)
    ensures
        r is Some <==> spec_containing_path(field@) is Some,
        r matches Some(p) ==> Some(p@) == spec_containing_path(field@),
{
    proof {
        lemma_last_dot(field@);
    }
    let len = field.unicode_len();
    let mut i: usize = len;
    while i > 0
        invariant
            i <= len,
            len == field@.len(),
            forall|j: int| i <= j < len ==> field@[j] != '.',
        decreases i,
    {
        i -= 1;
        if field.get_char(i) == '.' {
            proof {
                lemma_last_dot(field@);
                assert(has_dot(field@));
                if last_dot(field@) > i {
                    assert(field@[last_dot(field@)] != '.');
                }
                if last_dot(field@) < i {
                    assert(field@[i as int] != '.');
                }
                assert(last_dot(field@) == i);
            }
            return Some(field.substring_char(0, i).to_owned());
        }
    }
    proof {
        assert(!has_dot(field@));
    }
    None
}

/// What the target index's schema metadata answers: which paths are declared
/// nested. A path that does not appear — including one for a field that does
/// not exist — is simply not nested, never an error.
#[derive(Debug)]
pub struct IndexSchema {
    /// The paths the schema declares nested.
    pub nested_paths: Vec<String>,
}

impl IndexSchema {
    /// Whether the schema declares `path` nested.
    pub open spec fn spec_is_nested(&self, path: Seq<char>) -> bool {
        exists|i: int| 0 <= i < self.nested_paths@.len() && self.nested_paths@[i]@ == path
    }

    /// Whether the schema declares `path` nested.
    pub fn is_nested(&self, path: &str) -> (r: bool)
        ensures
            r == self.spec_is_nested(path@),
    {
        let mut i: usize = 0;
        while i < self.nested_paths.len()
            invariant
                i <= self.nested_paths@.len(),
                forall|j: int| 0 <= j < i ==> self.nested_paths@[j]@ != path@,
            decreases self.nested_paths@.len() - i,
        {
            if str_eq(self.nested_paths[i].as_str(), path) {
                return true;
            }
            i += 1;
        }
        false
    }
}

/// The wrapped form of one aggregation body: a `nested` scope on the
/// containing path whose `aggs` hold, under the aggregation's own name,
/// either the filtered original (when a filter was extracted) or the
/// original directly.
pub open spec fn nested_agg_v(
    name: Seq<char>,
    agg: JsonV,
    path: Seq<char>,
    filter: Option<JsonV>,
) -> JsonV {
    match filter {
        Some(f) => obj2_v(
            "nested"@,
            obj1_v("path"@, JsonV::Str(path)),
            "aggs"@,
            obj1_v(name, obj2_v("filter"@, f, "aggs"@, obj1_v(name, agg))),
        ),
        None => obj2_v(
            "nested"@,
            obj1_v("path"@, JsonV::Str(path)),
            "aggs"@,
            obj1_v(name, agg),
        ),
    }
}

/// The view of an optional borrowed filter.
pub open spec fn opt_filter_view(filter: Option<&JsonValue>) -> Option<JsonV> {
    match filter {
        Some(f) => Some(f@),
        None => None,
    }
}

/// The view of the optional target field name.
pub open spec fn opt_field_view(field: Option<&str>) -> Option<Seq<char>> {
    match field {
        Some(f) => Some(f@),
        None => None,
    }
}

/// What one rewrite does: how the query and the aggregation set after the
/// call (`after`, `r`) relate to those before it (`before`, `aggs`), for a
/// target field and a schema. The query-DSL tree never changes. When the
/// field has no containing path, or the schema does not declare that path
/// nested, everything passes through unchanged. When it is nested, every
/// aggregation is wrapped for that path — with the query's first filter
/// subtree at that path, removed from the query, when one was requested and
/// present.
pub open spec fn rewrite_relation(
    field: Option<Seq<char>>,
    need_filter: bool,
    before: ZDBPreparedQuery,
    after: ZDBPreparedQuery,
    aggs: Vec<(String, JsonValue)>,
    r: Vec<(String, JsonValue)>,
    schema: IndexSchema,
) -> bool {
    let path = match field {
        Some(f) => spec_containing_path(f),
        None => None,
    };
    let nested = match path {
        Some(p) => schema.spec_is_nested(p),
        None => false,
    };
    &&& after.query_dsl_tree == before.query_dsl_tree
    &&& !nested ==> (r == aggs && after == before)
    &&& nested ==> ({
        let p = path->0;
        let filters = before.nested_filters@;
        let fm = if need_filter {
            first_path_match(filters, p)
        } else {
            -1
        };
        let filter = if fm >= 0 {
            Some(filters[fm].1@)
        } else {
            None::<JsonV>
        };
        &&& r@.len() == aggs@.len()
        &&& forall|i: int|
            0 <= i < aggs@.len() ==> r@[i].0@ == aggs@[i].0@ && r@[i].1@ == nested_agg_v(
                aggs@[i].0@,
                aggs@[i].1@,
                p,
                filter,
            )
        &&& fm >= 0 ==> after.nested_filters@ == filters.remove(fm)
        &&& fm < 0 ==> after.nested_filters@ == filters
    })
}

impl Elasticsearch {
    /// Wraps one aggregation body for a nested path, with or without an
    /// extracted filter.
    pub fn make_nested_agg(
        &self,
        agg_name: &str,
        agg: JsonValue,
        path: &str,
        filter_query: Option<&JsonValue>,
    ) -> (r: JsonValue)
        ensures
            r@ == nested_agg_v(agg_name@, agg@, path@, opt_filter_view(filter_query)),
    {
        let scope = JsonValue::obj1("path", JsonValue::string(path));
        match filter_query {
            Some(f) => {
                let inner = JsonValue::obj1(agg_name, agg);
                let filtered = JsonValue::obj2("filter", f.duplicate(), "aggs", inner);
                JsonValue::obj2("nested", scope, "aggs", JsonValue::obj1(agg_name, filtered))
            },
            None => {
                JsonValue::obj2("nested", scope, "aggs", JsonValue::obj1(agg_name, agg))
            },
        }
    }

    /// Rewrites a set of aggregations for their target field.
    ///
    /// When the field has a containing path that the schema declares nested,
    /// every aggregation of the set is wrapped in a `nested` scope on that
    /// path, each keeping its own name; with `need_filter`, the query's
    /// filter for that path — extracted from the query, so the remaining
    /// query is not double-filtered — is applied inside every wrapper. In
    /// every other case the aggregations and the query are left unchanged.
    pub fn rewrite_aggregations(
        &self,
        field: Option<&str>,
        need_filter: bool,
        query: &mut ZDBPreparedQuery,
        aggs: Vec<(String, JsonValue)>,
        schema: &IndexSchema,
    ) -> (r: Vec<(String, JsonValue)>)
        ensures
            rewrite_relation(
                opt_field_view(field),
                need_filter,
                *old(query),
                *final(query),
                aggs,
                r,
                *schema,
            ),
    {
        let path: Option<String> = match field {
            Some(f) => containing_path(f),
            None => None,
        };
        match path {
            None => aggs,
            Some(p) => {
                if schema.is_nested(p.as_str()) {
                    let filter: Option<JsonValue> = if need_filter {
                        query.extract_nested_filter(p.as_str())
                    } else {
                        None
                    };
                    let mut out: Vec<(String, JsonValue)> = Vec::new();
                    let mut i: usize = 0;
                    while i < aggs.len()
                        invariant
                            i <= aggs@.len(),
                            out@.len() == i,
                            forall|j: int|
                                0 <= j < i ==> out@[j].0@ == aggs@[j].0@ && out@[j].1@
                                    == nested_agg_v(
                                    aggs@[j].0@,
                                    aggs@[j].1@,
                                    p@,
                                    opt_filter_view_owned(filter),
                                ),
                        decreases aggs@.len() - i,
                    {
                        let (k, v) = &aggs[i];
                        let wrapped = self.make_nested_agg(
                            k.as_str(),
                            v.duplicate(),
                            p.as_str(),
                            filter.as_ref(),
                        );
                        out.push((k.clone(), wrapped));
                        i += 1;
                    }
                    out
                } else {
                    aggs
                }
            },
        }
    }

    /// Rewrites one aggregation, filed under the fixed name every
    /// single-aggregation request uses.
    pub fn aggregate(
        &self,
        field: Option<&str>,
        need_filter: bool,
        query: &mut ZDBPreparedQuery,
        agg_request: JsonValue,
        schema: &IndexSchema,
    ) -> (r: Vec<(String, JsonValue)>)
        ensures
            exists|aggs: Vec<(String, JsonValue)>|
                #[trigger] rewrite_relation(
                    opt_field_view(field),
                    need_filter,
                    *old(query),
                    *final(query),
                    aggs,
                    r,
                    *schema,
                ) && aggs@.len() == 1 && aggs@[0].0@ == "the_agg"@ && aggs@[0].1 == agg_request,
    {
        let mut aggs: Vec<(String, JsonValue)> = Vec::new();
        aggs.push(("the_agg".to_owned(), agg_request));
        let ghost witness = aggs;
        let r = self.rewrite_aggregations(field, need_filter, query, aggs, schema);
        proof {
            assert(witness@.len() == 1);
        }
        r
    }

    /// Rewrites a whole aggregation request given as one JSON object: each
    /// member is one aggregation, rewritten as `rewrite_aggregations` does.
    /// Only an object can carry a request, so anything else is left out.
    pub fn arbitrary_aggregate(
        &self,
        field: Option<&str>,
        need_filter: bool,
        query: &mut ZDBPreparedQuery,
        agg_request: JsonValue,
        schema: &IndexSchema,
    ) -> (r: Vec<(String, JsonValue)>)
        requires
            agg_request is Obj,
        ensures
            rewrite_relation(
                opt_field_view(field),
                need_filter,
                *old(query),
                *final(query),
                agg_request->Obj_0,
                r,
                *schema,
            ),
    {
        match agg_request {
            JsonValue::Obj(members) => {
                self.rewrite_aggregations(field, need_filter, query, members, schema)
            },
            _ => Vec::new(),
        }
    }

}

/// The view of an optional owned filter.
pub open spec fn opt_filter_view_owned(filter: Option<JsonValue>) -> Option<JsonV> {
    match filter {
        Some(f) => Some(f@),
        None => None,
    }
}

} // verus!
