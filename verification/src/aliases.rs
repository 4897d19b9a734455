//! Adding and removing an index alias.
//!
//! One request carries one action — add or remove one alias on the target
//! index — posted to the server's `_aliases` endpoint.

use vstd::prelude::*;

use crate::elasticsearch::Elasticsearch;
use crate::json::JsonV;
use crate::json::JsonValue;
use crate::json::arr1_v;
use crate::json::obj1_v;
use crate::json::obj2_v;

verus! {

/// The one action an alias request performs.
#[derive(Debug)]
pub enum AliasCommand {
    /// Point the alias at the target index.
    Add(String),
    /// Remove the alias from the target index.
    Remove(String),
}

/// A prepared alias change on the target index.
#[derive(Debug)]
pub struct ElasticsearchAliasRequest {
    /// The handle on the target index.
    pub elasticsearch: Elasticsearch,
    /// The alias action to perform.
    pub command: AliasCommand,
}

/// The body of an alias change: one action of the given verb, naming the
/// index and the alias.
pub open spec fn alias_actions_v(verb: Seq<char>, index: Seq<char>, alias: Seq<char>) -> JsonV {
    obj1_v(
        "actions"@,
        arr1_v(obj1_v(verb, obj2_v("index"@, JsonV::Str(index), "alias"@, JsonV::Str(alias)))),
    )
}

impl ElasticsearchAliasRequest {
    /// A request that points `alias_name` at the target index.
    pub fn add(elasticsearch: &Elasticsearch, alias_name: &str) -> (r: ElasticsearchAliasRequest)
        ensures
            r.elasticsearch == *elasticsearch,
            r.command matches AliasCommand::Add(a) && a@ == alias_name@,
    {
        ElasticsearchAliasRequest {
            elasticsearch: elasticsearch.duplicate(),
            command: AliasCommand::Add(alias_name.to_owned()),
        }
    }

    /// A request that removes `alias_name` from the target index.
    pub fn remove(elasticsearch: &Elasticsearch, alias_name: &str) -> (r:
        ElasticsearchAliasRequest)
        ensures
            r.elasticsearch == *elasticsearch,
            r.command matches AliasCommand::Remove(a) && a@ == alias_name@,
    {
        ElasticsearchAliasRequest {
            elasticsearch: elasticsearch.duplicate(),
            command: AliasCommand::Remove(alias_name.to_owned()),
        }
    }

    /// The URL the request posts to: the server's `_aliases` endpoint.
    pub fn url(&self) -> (r: String)
        ensures
            r@ == self.elasticsearch.options.url@ + "_aliases"@,
    {
        let mut s = self.elasticsearch.url();
        s.append("_aliases");
        s
    }

    /// The request body: one add or remove action on the target index.
    pub fn body(&self) -> (r: JsonValue)
        ensures
            self.command matches AliasCommand::Add(a) ==> r@ == alias_actions_v(
                "add"@,
                self.elasticsearch.options.index_name@,
                a@,
            ),
            self.command matches AliasCommand::Remove(a) ==> r@ == alias_actions_v(
                "remove"@,
                self.elasticsearch.options.index_name@,
                a@,
            ),
    {
        match &self.command {
            AliasCommand::Add(alias_name) => JsonValue::obj1(
                "actions",
                JsonValue::arr1(
                    JsonValue::obj1(
                        "add",
                        JsonValue::obj2(
                            "index",
                            JsonValue::string(self.elasticsearch.index_name()),
                            "alias",
                            JsonValue::string(alias_name.as_str()),
                        ),
                    ),
                ),
            ),
            AliasCommand::Remove(alias_name) => JsonValue::obj1(
                "actions",
                JsonValue::arr1(
                    JsonValue::obj1(
                        "remove",
                        JsonValue::obj2(
                            "index",
                            JsonValue::string(self.elasticsearch.index_name()),
                            "alias",
                            JsonValue::string(alias_name.as_str()),
                        ),
                    ),
                ),
            ),
        }
    }
}

impl Elasticsearch {
    /// A request that points `alias_name` at the target index.
    pub fn add_alias(&self, alias_name: &str) -> (r: ElasticsearchAliasRequest)
        ensures
            r.elasticsearch == *self,
            r.command matches AliasCommand::Add(a) && a@ == alias_name@,
    {
        ElasticsearchAliasRequest::add(self, alias_name)
    }

    /// A request that removes `alias_name` from the target index.
    pub fn remove_alias(&self, alias_name: &str) -> (r: ElasticsearchAliasRequest)
        ensures
            r.elasticsearch == *self,
            r.command matches AliasCommand::Remove(a) && a@ == alias_name@,
    {
        ElasticsearchAliasRequest::remove(self, alias_name)
    }
}

} // verus!
