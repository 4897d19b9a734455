//! Query values.
//!
//! [`ZDBQuery`] is the caller-facing query object with its paging knobs.
//! [`ZDBPreparedQuery`] is the form one request consumes: the remaining
//! query-DSL tree, together with the nested-filter subtrees that can still
//! be extracted from it, each rooted at a path. Extracting a filter removes
//! it, so the remaining query is not double-filtered.

use vstd::prelude::*;

use crate::json::JsonValue;
use crate::text::str_eq;

verus! {

/// The index of the first entry rooted at `path`, or a negative number when
/// there is none.
pub open spec fn first_path_match(s: Seq<(String, JsonValue)>, path: Seq<char>) -> int
    decreases s.len(),
{
    if s.len() == 0 {
        -1
    } else if s[0].0@ == path {
        0
    } else {
        let rest = first_path_match(s.subrange(1, s.len() as int), path);
        if rest < 0 {
            -1
        } else {
            1 + rest
        }
    }
}

/// What `first_path_match` finds: a well-placed first match, or none at all.
pub proof fn lemma_first_path_match(s: Seq<(String, JsonValue)>, path: Seq<char>)
    ensures
        -1 <= first_path_match(s, path) < s.len(),
        first_path_match(s, path) == -1 ==> forall|i: int|
            0 <= i < s.len() ==> s[i].0@ != path,
        first_path_match(s, path) >= 0 ==> s[first_path_match(s, path)].0@ == path,
        first_path_match(s, path) >= 0 ==> forall|i: int|
            0 <= i < first_path_match(s, path) ==> s[i].0@ != path,
    decreases s.len(),
{
    if s.len() > 0 && s[0].0@ != path {
        let rest = s.subrange(1, s.len() as int);
        lemma_first_path_match(rest, path);
        let fm = first_path_match(s, path);
        if fm == -1 {
            assert forall|i: int| 0 <= i < s.len() implies s[i].0@ != path by {
                if i >= 1 {
                    assert(s[i] == rest[i - 1]);
                }
            }
        } else {
            assert forall|i: int| 0 <= i < fm implies s[i].0@ != path by {
                if i >= 1 {
                    assert(s[i] == rest[i - 1]);
                }
            }
        }
    }
}

/// A prepared query: the remaining query-DSL tree and the extractable
/// nested-filter subtrees, each rooted at a path.
#[derive(Debug)]
pub struct ZDBPreparedQuery {
    /// The query-DSL tree that remains after extractions.
    pub query_dsl_tree: JsonValue,
    /// The nested-filter subtrees still attached to the query, with the
    /// nested path each is rooted at.
    pub nested_filters: Vec<(String, JsonValue)>,
}

impl ZDBPreparedQuery {
    /// A prepared query from its parts.
    pub fn new(query_dsl_tree: JsonValue, nested_filters: Vec<(String, JsonValue)>) -> (r:
        ZDBPreparedQuery)
        ensures
            r.query_dsl_tree == query_dsl_tree,
            r.nested_filters == nested_filters,
    {
        ZDBPreparedQuery { query_dsl_tree, nested_filters }
    }

    /// The remaining query-DSL tree.
    pub fn query_dsl(&self) -> (r: &JsonValue)
        ensures
            r == &self.query_dsl_tree,
    {
        &self.query_dsl_tree
    }

    /// Extracts the filter subtree rooted at `path`, removing it from the
    /// query: the first entry at that path leaves the query and is returned;
    /// when no entry matches, nothing changes and nothing is returned.
    pub fn extract_nested_filter(&mut self, path: &str) -> (r: Option<JsonValue>)
        ensures
            final(self).query_dsl_tree == old(self).query_dsl_tree,
            ({
                let before = old(self).nested_filters@;
                let after = final(self).nested_filters@;
                let fm = first_path_match(before, path@);
                &&& fm < 0 ==> (r is None && after == before)
                &&& fm >= 0 ==> (r == Some(before[fm].1) && after == before.remove(fm))
            }),
    {
        proof {
            lemma_first_path_match(self.nested_filters@, path@);
        }
        let ghost fm = first_path_match(self.nested_filters@, path@);
        let mut i: usize = 0;
        while i < self.nested_filters.len()
            invariant
                i <= self.nested_filters@.len(),
                *self == *old(self),
                fm == first_path_match(self.nested_filters@, path@),
                -1 <= fm < self.nested_filters@.len(),
                fm >= 0 ==> self.nested_filters@[fm].0@ == path@,
                fm >= 0 ==> forall|j: int| 0 <= j < fm ==> self.nested_filters@[j].0@ != path@,
                fm < 0 ==> forall|j: int|
                    0 <= j < self.nested_filters@.len() ==> self.nested_filters@[j].0@ != path@,
                forall|j: int| 0 <= j < i ==> self.nested_filters@[j].0@ != path@,
            decreases self.nested_filters@.len() - i,
        {
            if str_eq(self.nested_filters[i].0.as_str(), path) {
                proof {
                    assert(fm == i);
                }
                let entry = self.nested_filters.remove(i);
                return Some(entry.1);
            }
            i += 1;
        }
        None
    }
}

/// A query object with its paging and scoring knobs.
#[derive(Debug)]
pub struct ZDBQuery {
    /// The query-DSL tree.
    pub query_dsl_tree: JsonValue,
    /// How many rows the caller wants at most.
    pub limit_value: Option<u64>,
    /// How many rows to skip.
    pub offset_value: Option<u64>,
    /// The caller's estimate of the result size, for planning.
    pub row_estimate_value: Option<u64>,
}

impl ZDBQuery {
    /// A query around a query-DSL tree, with no knobs set.
    pub fn new(query_dsl_tree: JsonValue) -> (r: ZDBQuery)
        ensures
            r.query_dsl_tree == query_dsl_tree,
            r.limit_value is None,
            r.offset_value is None,
            r.row_estimate_value is None,
    {
        ZDBQuery {
            query_dsl_tree,
            limit_value: None,
            offset_value: None,
            row_estimate_value: None,
        }
    }

    /// The same query with its limit set.
    pub fn set_limit(self, limit: Option<u64>) -> (r: ZDBQuery)
        ensures
            r.limit_value == limit,
            r.query_dsl_tree == self.query_dsl_tree,
            r.offset_value == self.offset_value,
            r.row_estimate_value == self.row_estimate_value,
    {
        ZDBQuery { limit_value: limit, ..self }
    }

    /// The same query with its offset set.
    pub fn set_offset(self, offset: Option<u64>) -> (r: ZDBQuery)
        ensures
            r.offset_value == offset,
            r.query_dsl_tree == self.query_dsl_tree,
            r.limit_value == self.limit_value,
            r.row_estimate_value == self.row_estimate_value,
    {
        ZDBQuery { offset_value: offset, ..self }
    }

    /// The same query with its row estimate set.
    pub fn set_row_estimate(self, row_estimate: Option<u64>) -> (r: ZDBQuery)
        ensures
            r.row_estimate_value == row_estimate,
            r.query_dsl_tree == self.query_dsl_tree,
            r.limit_value == self.limit_value,
            r.offset_value == self.offset_value,
    {
        ZDBQuery { row_estimate_value: row_estimate, ..self }
    }
}

/// The query with its limit set to `rows`, read as an unsigned count.
pub fn limit(rows: i64, query: ZDBQuery) -> (r: ZDBQuery)
    ensures
        r.limit_value == Some(rows as u64),
        r.query_dsl_tree == query.query_dsl_tree,
        r.offset_value == query.offset_value,
        r.row_estimate_value == query.row_estimate_value,
{
    query.set_limit(Some(rows as u64))
}

/// The query with its offset set to `offset`, read as an unsigned count.
pub fn off_set(offset: i64, query: ZDBQuery) -> (r: ZDBQuery)
    ensures
        r.offset_value == Some(offset as u64),
        r.query_dsl_tree == query.query_dsl_tree,
        r.limit_value == query.limit_value,
        r.row_estimate_value == query.row_estimate_value,
{
    query.set_offset(Some(offset as u64))
}

/// The query with both its offset and its limit set.
pub fn offset_limit(offset: i64, limit_rows: i64, query: ZDBQuery) -> (r: ZDBQuery)
    ensures
        r.offset_value == Some(offset as u64),
        r.limit_value == Some(limit_rows as u64),
        r.query_dsl_tree == query.query_dsl_tree,
        r.row_estimate_value == query.row_estimate_value,
{
    let query = off_set(offset, query);
    query.set_limit(Some(limit_rows as u64))
}

} // verus!
