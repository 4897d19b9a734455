//! The aggregation rewriter on concrete requests.

use zombodb::aggregates::IndexSchema;
use zombodb::aggregates::containing_path;
use zombodb::elasticsearch::Elasticsearch;
use zombodb::json::JsonValue;
use zombodb::options::ZDBIndexOptions;
use zombodb::query::ZDBPreparedQuery;

fn handle() -> Elasticsearch {
    Elasticsearch::from_options(ZDBIndexOptions {
        url: "http://localhost:9200/".to_owned(),
        index_name: "idx".to_owned(),
        alias: "idx_alias".to_owned(),
        doc_type_name: "doc".to_owned(),
        shards: 5,
        bulk_concurrency: 12,
        batch_size: 8388608,
        is_shadow: false,
    })
}

fn schema(paths: &[&str]) -> IndexSchema {
    IndexSchema { nested_paths: paths.iter().map(|p| (*p).to_owned()).collect() }
}

fn terms_agg() -> JsonValue {
    JsonValue::obj1("terms", JsonValue::obj1("field", JsonValue::string("a.b.c")))
}

fn filter_tree() -> JsonValue {
    JsonValue::obj1("term", JsonValue::obj1("a.b.x", JsonValue::string("y")))
}

fn query_with_filter() -> ZDBPreparedQuery {
    ZDBPreparedQuery::new(
        JsonValue::obj1("match_all", JsonValue::Obj(Vec::new())),
        vec![("a.b".to_owned(), filter_tree())],
    )
}

#[test]
fn containing_path_drops_last_segment() {
    assert_eq!(containing_path("a.b.c").as_deref(), Some("a.b"));
    assert_eq!(containing_path("a.b").as_deref(), Some("a"));
    assert_eq!(containing_path("abc"), None);
    assert_eq!(containing_path(""), None);
    assert_eq!(containing_path("héllo.wörld").as_deref(), Some("héllo"));
}

#[test]
fn aggregate_files_one_aggregation_under_its_fixed_name() {
    let es = handle();
    let mut query = query_with_filter();
    let out = es.aggregate(Some("a.b.c"), false, &mut query, terms_agg(), &schema(&["a.b"]));
    assert_eq!(out.len(), 1);
    assert_eq!(out[0].0, "the_agg");
    assert_eq!(
        out[0].1,
        JsonValue::obj2(
            "nested",
            JsonValue::obj1("path", JsonValue::string("a.b")),
            "aggs",
            JsonValue::obj1("the_agg", terms_agg()),
        )
    );

    let mut query = query_with_filter();
    let plain = es.aggregate(None, false, &mut query, terms_agg(), &schema(&["a.b"]));
    assert_eq!(plain, vec![("the_agg".to_owned(), terms_agg())]);
}

#[test]
fn field_without_dot_passes_through_even_when_schema_says_nested() {
    let es = handle();
    let mut query = query_with_filter();
    let aggs = vec![("the_agg".to_owned(), terms_agg())];
    let expected = vec![("the_agg".to_owned(), terms_agg())];
    // The schema even declares the bare field name nested; without a
    // containing path that must not matter.
    let out = es.rewrite_aggregations(
        Some("abc"),
        true,
        &mut query,
        aggs,
        &schema(&["abc", "a.b"]),
    );
    assert_eq!(out, expected);
    assert_eq!(query.nested_filters.len(), 1);
}

#[test]
fn non_nested_field_rewrite_is_identity() {
    let es = handle();
    let mut query = query_with_filter();
    let aggs = vec![("the_agg".to_owned(), terms_agg())];
    let expected = vec![("the_agg".to_owned(), terms_agg())];
    let out = es.rewrite_aggregations(Some("a.b.c"), true, &mut query, aggs, &schema(&[]));
    assert_eq!(out, expected);
    assert_eq!(query.nested_filters.len(), 1);
}

#[test]
fn no_field_rewrite_is_identity() {
    let es = handle();
    let mut query = query_with_filter();
    let aggs = vec![("the_agg".to_owned(), terms_agg())];
    let expected = vec![("the_agg".to_owned(), terms_agg())];
    let out = es.rewrite_aggregations(None, false, &mut query, aggs, &schema(&["a.b"]));
    assert_eq!(out, expected);
}

#[test]
fn nested_field_without_filter_wraps_in_nested_scope() {
    let es = handle();
    let mut query = query_with_filter();
    let aggs = vec![("the_agg".to_owned(), terms_agg())];
    let out = es.rewrite_aggregations(Some("a.b.c"), false, &mut query, aggs, &schema(&["a.b"]));

    let expected = JsonValue::obj2(
        "nested",
        JsonValue::obj1("path", JsonValue::string("a.b")),
        "aggs",
        JsonValue::obj1("the_agg", terms_agg()),
    );
    assert_eq!(out.len(), 1);
    assert_eq!(out[0].0, "the_agg");
    assert_eq!(out[0].1, expected);
    // No filter was requested, so the query still holds its subtree.
    assert_eq!(query.nested_filters.len(), 1);
}

#[test]
fn nested_field_with_filter_wraps_and_consumes_the_subtree() {
    let es = handle();
    let mut query = query_with_filter();
    let aggs = vec![("the_agg".to_owned(), terms_agg())];
    let out = es.rewrite_aggregations(Some("a.b.c"), true, &mut query, aggs, &schema(&["a.b"]));

    let expected = JsonValue::obj2(
        "nested",
        JsonValue::obj1("path", JsonValue::string("a.b")),
        "aggs",
        JsonValue::obj1(
            "the_agg",
            JsonValue::obj2(
                "filter",
                filter_tree(),
                "aggs",
                JsonValue::obj1("the_agg", terms_agg()),
            ),
        ),
    );
    assert_eq!(out.len(), 1);
    assert_eq!(out[0].0, "the_agg");
    assert_eq!(out[0].1, expected);
    // The extracted filter no longer lives in the query.
    assert!(query.nested_filters.is_empty());
}

#[test]
fn several_aggregations_are_wrapped_identically_and_share_one_filter() {
    let es = handle();
    let mut query = query_with_filter();
    let aggs = vec![
        ("first".to_owned(), terms_agg()),
        ("second".to_owned(), JsonValue::obj1("avg", JsonValue::obj1("field", JsonValue::string("a.b.n")))),
    ];
    let out = es.rewrite_aggregations(Some("a.b.c"), true, &mut query, aggs, &schema(&["a.b"]));

    assert_eq!(out.len(), 2);
    for (name, wrapped) in &out {
        match wrapped {
            JsonValue::Obj(members) => {
                assert_eq!(members.len(), 2);
                assert_eq!(members[0].0, "nested");
                assert_eq!(
                    members[0].1,
                    JsonValue::obj1("path", JsonValue::string("a.b"))
                );
                assert_eq!(members[1].0, "aggs");
                match &members[1].1 {
                    JsonValue::Obj(aggs_members) => {
                        assert_eq!(aggs_members.len(), 1);
                        assert_eq!(&aggs_members[0].0, name);
                        match &aggs_members[0].1 {
                            JsonValue::Obj(filtered) => {
                                assert_eq!(filtered[0].0, "filter");
                                assert_eq!(filtered[0].1, filter_tree());
                            }
                            other => panic!("expected filter object, got {:?}", other),
                        }
                    }
                    other => panic!("expected aggs object, got {:?}", other),
                }
            }
            other => panic!("expected nested wrapper, got {:?}", other),
        }
    }
    assert!(query.nested_filters.is_empty());
}

#[test]
fn make_nested_agg_shapes() {
    let es = handle();
    let without = es.make_nested_agg("the_agg", terms_agg(), "a.b", None);
    assert_eq!(
        without,
        JsonValue::obj2(
            "nested",
            JsonValue::obj1("path", JsonValue::string("a.b")),
            "aggs",
            JsonValue::obj1("the_agg", terms_agg()),
        )
    );

    let filter = filter_tree();
    let with = es.make_nested_agg("the_agg", terms_agg(), "a.b", Some(&filter));
    assert_eq!(
        with,
        JsonValue::obj2(
            "nested",
            JsonValue::obj1("path", JsonValue::string("a.b")),
            "aggs",
            JsonValue::obj1(
                "the_agg",
                JsonValue::obj2(
                    "filter",
                    filter_tree(),
                    "aggs",
                    JsonValue::obj1("the_agg", terms_agg()),
                ),
            ),
        )
    );
}

#[test]
fn extract_nested_filter_takes_first_match_only() {
    let mut query = ZDBPreparedQuery::new(
        JsonValue::Null,
        vec![
            ("other".to_owned(), JsonValue::Bool(true)),
            ("a.b".to_owned(), filter_tree()),
            ("a.b".to_owned(), JsonValue::Bool(false)),
        ],
    );
    let taken = query.extract_nested_filter("a.b");
    assert_eq!(taken, Some(filter_tree()));
    assert_eq!(query.nested_filters.len(), 2);
    assert_eq!(query.nested_filters[0].0, "other");
    assert_eq!(query.nested_filters[1].0, "a.b");
    assert_eq!(query.nested_filters[1].1, JsonValue::Bool(false));

    let missing = query.extract_nested_filter("x.y");
    assert_eq!(missing, None);
    assert_eq!(query.nested_filters.len(), 2);
}

#[test]
fn arbitrary_aggregate_rewrites_each_member_of_the_object() {
    let es = handle();
    let mut query = query_with_filter();
    let request = JsonValue::obj2("one", terms_agg(), "two", terms_agg());
    let out = es.arbitrary_aggregate(Some("a.b.c"), false, &mut query, request, &schema(&["a.b"]));
    assert_eq!(out.len(), 2);
    assert_eq!(out[0].0, "one");
    assert_eq!(
        out[0].1,
        JsonValue::obj2(
            "nested",
            JsonValue::obj1("path", JsonValue::string("a.b")),
            "aggs",
            JsonValue::obj1("one", terms_agg()),
        )
    );
    assert_eq!(out[1].0, "two");
}

#[test]
fn duplicate_copies_deep_structure() {
    let original = JsonValue::obj2(
        "a",
        JsonValue::Arr(vec![JsonValue::Int(-1), JsonValue::UInt(7), JsonValue::Null]),
        "b",
        JsonValue::obj1("c", JsonValue::Bool(true)),
    );
    assert_eq!(original.duplicate(), original);
}
