//! The persisted form of the registry: a JSON array with one object for each
//! record, in insertion order.

use crate::fields::{object_field, text_field};
use crate::json::{
    array_value, doc_of, docs_of, lemma_member_push, map_insert, map_new, member, members_of,
    object_member, object_value, text_member, text_value, value_as_array, value_as_object,
    JsonDoc,
};
use crate::registry::{
    views_of, ConfigureView, IntegrationView, TwistIntegration, TwistOnConfigure,
};
use vstd::prelude::*;

verus! {

/// The members of the object that stands for a configuration, in the order in
/// which they are written.
pub open spec fn configuration_members(configuration: ConfigureView) -> Seq<(Seq<char>, JsonDoc)> {
    seq![
        ("install_id"@, JsonDoc::Text(configuration.install_id)),
        ("post_data_url"@, JsonDoc::Text(configuration.post_data_url)),
        ("user_id"@, JsonDoc::Text(configuration.user_id)),
        ("user_name"@, JsonDoc::Text(configuration.user_name)),
    ]
}

/// The object that stands for a configuration.
pub open spec fn configuration_doc(configuration: ConfigureView) -> JsonDoc {
    JsonDoc::Object(configuration_members(configuration))
}

/// The members of the object that stands for a record, in the order in which
/// they are written.
pub open spec fn record_members(record: IntegrationView) -> Seq<(Seq<char>, JsonDoc)> {
    seq![
        ("secret_id"@, JsonDoc::Text(record.secret_id)),
        ("configuration"@, configuration_doc(record.configuration)),
    ]
}

/// The object that stands for a record.
pub open spec fn record_doc(record: IntegrationView) -> JsonDoc {
    JsonDoc::Object(record_members(record))
}

/// The array that stands for the records of a registry.
pub open spec fn registry_doc(records: Seq<IntegrationView>) -> JsonDoc {
    JsonDoc::Array(records.map_values(|record: IntegrationView| record_doc(record)))
}

/// The configuration that a document holds, if it is an object with a text
/// under each of the four keys. Other members are passed over.
pub open spec fn configuration_in(doc: JsonDoc) -> Option<ConfigureView> {
    match doc {
        JsonDoc::Object(members) => match (
            text_member(members, "install_id"@),
            text_member(members, "post_data_url"@),
            text_member(members, "user_id"@),
            text_member(members, "user_name"@),
        ) {
            (Some(install_id), Some(post_data_url), Some(user_id), Some(user_name)) => Some(
                ConfigureView { install_id, post_data_url, user_id, user_name },
            ),
            _ => None,
        },
        _ => None,
    }
}

/// The record that a document holds, if it is an object with a text under
/// `secret_id` and a configuration under `configuration`.
pub open spec fn record_in(doc: JsonDoc) -> Option<IntegrationView> {
    match doc {
        JsonDoc::Object(members) => match (
            text_member(members, "secret_id"@),
            member(members, "configuration"@),
        ) {
            (Some(secret_id), Some(inner)) => match configuration_in(inner) {
                Some(configuration) => Some(IntegrationView { secret_id, configuration }),
                None => None,
            },
            _ => None,
        },
        _ => None,
    }
}

/// The records that a document holds, if it is an array of records.
pub open spec fn records_in(doc: JsonDoc) -> Option<Seq<IntegrationView>> {
    match doc {
        JsonDoc::Array(items) => if forall|i: int|
            0 <= i < items.len() ==> (#[trigger] record_in(items[i])) is Some {
            Some(items.map_values(|item: JsonDoc| record_in(item).unwrap()))
        } else {
            None
        },
        _ => None,
    }
}

/// The keys of a configuration's object differ from one another.
proof fn lemma_configuration_keys()
    ensures
        "install_id"@ != "post_data_url"@,
        "install_id"@ != "user_id"@,
        "install_id"@ != "user_name"@,
        "post_data_url"@ != "user_id"@,
        "post_data_url"@ != "user_name"@,
        "user_id"@ != "user_name"@,
{
    reveal_strlit("install_id");
    reveal_strlit("post_data_url");
    reveal_strlit("user_id");
    reveal_strlit("user_name");
    assert("install_id"@.len() == 10);
    assert("post_data_url"@.len() == 13);
    assert("user_id"@.len() == 7);
    assert("user_name"@.len() == 9);
}

/// The keys of a record's object differ from one another.
proof fn lemma_record_keys()
    ensures
        "secret_id"@ != "configuration"@,
{
    reveal_strlit("secret_id");
    reveal_strlit("configuration");
    assert("secret_id"@.len() == 9);
    assert("configuration"@.len() == 13);
}

/// What a configuration's object holds under a key, member by member.
proof fn lemma_configuration_members(configuration: ConfigureView, wanted: Seq<char>)
    ensures
        member(configuration_members(configuration), wanted) == if wanted == "user_name"@ {
            Some(JsonDoc::Text(configuration.user_name))
        } else if wanted == "user_id"@ {
            Some(JsonDoc::Text(configuration.user_id))
        } else if wanted == "post_data_url"@ {
            Some(JsonDoc::Text(configuration.post_data_url))
        } else if wanted == "install_id"@ {
            Some(JsonDoc::Text(configuration.install_id))
        } else {
            None
        },
{
    let none = Seq::<(Seq<char>, JsonDoc)>::empty();
    let one = none.push(("install_id"@, JsonDoc::Text(configuration.install_id)));
    let two = one.push(("post_data_url"@, JsonDoc::Text(configuration.post_data_url)));
    let three = two.push(("user_id"@, JsonDoc::Text(configuration.user_id)));
    lemma_member_push(none, "install_id"@, JsonDoc::Text(configuration.install_id), wanted);
    lemma_member_push(one, "post_data_url"@, JsonDoc::Text(configuration.post_data_url), wanted);
    lemma_member_push(two, "user_id"@, JsonDoc::Text(configuration.user_id), wanted);
    lemma_member_push(three, "user_name"@, JsonDoc::Text(configuration.user_name), wanted);
    assert(member(none, wanted) is None);
    assert(configuration_members(configuration) == three.push(
        ("user_name"@, JsonDoc::Text(configuration.user_name)),
    ));
}

/// Reading a configuration back out of its object gives the configuration.
pub proof fn lemma_configuration_round_trip(configuration: ConfigureView)
    ensures
        configuration_in(configuration_doc(configuration)) == Some(configuration),
{
    lemma_configuration_keys();
    lemma_configuration_members(configuration, "install_id"@);
    lemma_configuration_members(configuration, "post_data_url"@);
    lemma_configuration_members(configuration, "user_id"@);
    lemma_configuration_members(configuration, "user_name"@);
}

/// Reading a record back out of its object gives the record.
pub proof fn lemma_record_round_trip(record: IntegrationView)
    ensures
        record_in(record_doc(record)) == Some(record),
{
    lemma_record_keys();
    lemma_configuration_round_trip(record.configuration);
    let none = Seq::<(Seq<char>, JsonDoc)>::empty();
    let one = none.push(("secret_id"@, JsonDoc::Text(record.secret_id)));
    lemma_member_push(none, "secret_id"@, JsonDoc::Text(record.secret_id), "secret_id"@);
    lemma_member_push(
        one,
        "configuration"@,
        configuration_doc(record.configuration),
        "secret_id"@,
    );
    lemma_member_push(
        one,
        "configuration"@,
        configuration_doc(record.configuration),
        "configuration"@,
    );
    assert(record_members(record) == one.push(
        ("configuration"@, configuration_doc(record.configuration)),
    ));
}

/// Writing the records of a registry as a document and reading that document
/// back gives the same records in the same order.
pub proof fn lemma_registry_round_trip(records: Seq<IntegrationView>)
    ensures
        records_in(registry_doc(records)) == Some(records),
{
    let items = records.map_values(|record: IntegrationView| record_doc(record));
    assert forall|i: int| 0 <= i < items.len() implies (#[trigger] record_in(items[i])) is Some by {
        lemma_record_round_trip(records[i]);
    }
    let back = items.map_values(|item: JsonDoc| record_in(item).unwrap());
    assert forall|i: int| 0 <= i < records.len() implies back[i] == records[i] by {
        lemma_record_round_trip(records[i]);
    }
    assert(back =~= records);
}

/// Builds the object that stands for a configuration.
pub(crate) fn configuration_value(configuration: &TwistOnConfigure) -> (value: serde_json::Value)
    ensures
        doc_of(value) == configuration_doc(configuration@),
{
    let mut map = map_new();
    let ghost none = members_of(map);
    map_insert(&mut map, "install_id".to_owned(), text_value(configuration.install_id.clone()));
    let ghost one = members_of(map);
    proof {
        lemma_configuration_keys();
        lemma_member_push(
            none,
            "install_id"@,
            JsonDoc::Text(configuration@.install_id),
            "post_data_url"@,
        );
    }
    map_insert(
        &mut map,
        "post_data_url".to_owned(),
        text_value(configuration.post_data_url.clone()),
    );
    let ghost two = members_of(map);
    proof {
        lemma_member_push(none, "install_id"@, JsonDoc::Text(configuration@.install_id), "user_id"@);
        lemma_member_push(
            one,
            "post_data_url"@,
            JsonDoc::Text(configuration@.post_data_url),
            "user_id"@,
        );
    }
    map_insert(&mut map, "user_id".to_owned(), text_value(configuration.user_id.clone()));
    let ghost three = members_of(map);
    proof {
        lemma_member_push(
            none,
            "install_id"@,
            JsonDoc::Text(configuration@.install_id),
            "user_name"@,
        );
        lemma_member_push(
            one,
            "post_data_url"@,
            JsonDoc::Text(configuration@.post_data_url),
            "user_name"@,
        );
        lemma_member_push(two, "user_id"@, JsonDoc::Text(configuration@.user_id), "user_name"@);
    }
    map_insert(&mut map, "user_name".to_owned(), text_value(configuration.user_name.clone()));
    assert(members_of(map) == configuration_members(configuration@));
    object_value(map)
}

/// Builds the object that stands for a record.
pub(crate) fn record_value(record: &TwistIntegration) -> (value: serde_json::Value)
    ensures
        doc_of(value) == record_doc(record@),
{
    let mut map = map_new();
    let ghost none = members_of(map);
    map_insert(&mut map, "secret_id".to_owned(), text_value(record.secret_id.clone()));
    proof {
        lemma_record_keys();
        lemma_member_push(none, "secret_id"@, JsonDoc::Text(record@.secret_id), "configuration"@);
    }
    map_insert(&mut map, "configuration".to_owned(), configuration_value(&record.configuration));
    assert(members_of(map) == record_members(record@));
    object_value(map)
}

/// Builds the array that stands for the records of a registry.
pub(crate) fn registry_value(records: &Vec<TwistIntegration>) -> (value: serde_json::Value)
    ensures
        doc_of(value) == registry_doc(views_of(records@)),
{
    let mut items: Vec<serde_json::Value> = Vec::new();
    let mut at: usize = 0;
    while at < records.len()
        invariant
            at <= records.len(),
            items.len() == at,
            forall|i: int| 0 <= i < at ==> doc_of(#[trigger] items@[i]) == record_doc(records@[i]@),
        decreases records.len() - at,
    {
        items.push(record_value(&records[at]));
        at += 1;
    }
    assert(docs_of(items@) =~= views_of(records@).map_values(
        |record: IntegrationView| record_doc(record),
    ));
    array_value(items)
}

/// Reads a configuration out of the object that stands for it.
pub(crate) fn configuration_from(value: &serde_json::Value) -> (configuration: Option<
    TwistOnConfigure,
>)
    ensures
        match configuration_in(doc_of(*value)) {
            Some(view) => configuration matches Some(c) && c@ == view,
            None => configuration is None,
        },
{
    let members = match value_as_object(value) {
        Some(members) => members,
        None => return None,
    };
    let install_id = match text_field(members, "install_id") {
        Some(install_id) => install_id,
        None => return None,
    };
    let post_data_url = match text_field(members, "post_data_url") {
        Some(post_data_url) => post_data_url,
        None => return None,
    };
    let user_id = match text_field(members, "user_id") {
        Some(user_id) => user_id,
        None => return None,
    };
    let user_name = match text_field(members, "user_name") {
        Some(user_name) => user_name,
        None => return None,
    };
    Some(TwistOnConfigure { install_id, post_data_url, user_id, user_name })
}

/// Reads a record out of the object that stands for it.
pub(crate) fn record_from(value: &serde_json::Value) -> (record: Option<TwistIntegration>)
    ensures
        match record_in(doc_of(*value)) {
            Some(view) => record matches Some(r) && r@ == view,
            None => record is None,
        },
{
    let members = match value_as_object(value) {
        Some(members) => members,
        None => return None,
    };
    let secret_id = match text_field(members, "secret_id") {
        Some(secret_id) => secret_id,
        None => return None,
    };
    let inner = match crate::json::map_get(members, "configuration") {
        Some(inner) => inner,
        None => return None,
    };
    match configuration_from(inner) {
        Some(configuration) => Some(TwistIntegration { secret_id, configuration }),
        None => None,
    }
}

/// Reads the records of a registry out of the array that stands for them.
pub(crate) fn records_from(value: &serde_json::Value) -> (records: Option<Vec<TwistIntegration>>)
    ensures
        match records_in(doc_of(*value)) {
            Some(views) => records matches Some(r) && views_of(r@) == views,
            None => records is None,
        },
{
    let items = match value_as_array(value) {
        Some(items) => items,
        None => return None,
    };
    let ghost docs = docs_of(items@);
    let mut records: Vec<TwistIntegration> = Vec::new();
    let mut at: usize = 0;
    while at < items.len()
        invariant
            at <= items.len(),
            records.len() == at,
            docs == docs_of(items@),
            doc_of(*value) == JsonDoc::Array(docs),
            forall|i: int|
                0 <= i < at ==> (#[trigger] record_in(docs[i])) == Some(records@[i]@),
        decreases items.len() - at,
    {
        assert(docs[at as int] == doc_of(items@[at as int]));
        match record_from(&items[at]) {
            Some(record) => records.push(record),
            None => {
                assert(record_in(docs[at as int]) is None);
                return None;
            },
        }
        at += 1;
    }
    assert(views_of(records@) =~= docs.map_values(|item: JsonDoc| record_in(item).unwrap()));
    Some(records)
}

} // verus!
