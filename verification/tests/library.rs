use std::sync::Arc;

use hubspot::api_configs::interpret_batch_archive_response;
use hubspot::api_configs::interpret_batch_create_response;
use hubspot::api_configs::interpret_delete_response;
use hubspot::api_configs::interpret_list_response;
use hubspot::api_configs::interpret_record_response;
use hubspot::api_configs::ApiCollection;
use hubspot::api_configs::BatchItemOutcome;
use hubspot::api_configs::MAX_PAGE_SIZE;
use hubspot::client::HubspotClient;
use hubspot::types::Method;
use hubspot::types::Payload;
use hubspot::types::PropValue;
use hubspot::types::PropertyMap;
use hubspot::types::Record;
use hubspot::types::ToPath;
use hubspot::Hubspot;
use hubspot::HubspotError;
use hubspot::ObjectType;

fn client() -> HubspotClient {
    HubspotClient::new(
        "123456".to_string(),
        "https://api.hubapi.com".to_string(),
        "SECRET-REDACTED".to_string(),
    )
}

fn contacts() -> ApiCollection<ObjectType> {
    ApiCollection::new(ObjectType::Contacts, Arc::new(client()))
}

fn record(id: &str) -> Record {
    Record { id: id.to_string(), properties: PropertyMap::new(), created_at: None, updated_at: None }
}

#[test]
fn object_type_paths_are_stable() {
    assert_eq!(ObjectType::Contacts.to_path(), "contacts");
    assert_eq!(ObjectType::Companies.to_path(), "companies");
    assert_eq!(ObjectType::Deals.to_path(), "deals");
    assert_eq!(ObjectType::LineItems.to_path(), "line_items");
    assert_eq!(ObjectType::Tickets.to_path(), "tickets");
    assert_eq!(ObjectType::Notes.to_path(), "notes");
}

#[test]
fn object_type_paths_injective() {
    let all = [
        ObjectType::Contacts,
        ObjectType::Companies,
        ObjectType::Deals,
        ObjectType::LineItems,
        ObjectType::Tickets,
        ObjectType::Notes,
    ];
    for a in &all {
        assert!(!a.to_path().is_empty());
        for b in &all {
            if a != b {
                assert_ne!(a.to_path(), b.to_path());
            }
        }
    }
}

#[test]
fn property_map_round_trip() {
    let mut props = PropertyMap::new();
    props.set("email".to_string(), PropValue::Text("a@example.com".to_string()));
    props.set("age".to_string(), PropValue::Number(30));
    match props.get(&"email".to_string()) {
        Some(PropValue::Text(s)) => assert_eq!(s, "a@example.com"),
        other => panic!("unexpected value: {other:?}"),
    }
    match props.get(&"age".to_string()) {
        Some(PropValue::Number(n)) => assert_eq!(*n, 30),
        other => panic!("unexpected value: {other:?}"),
    }
    assert!(props.get(&"missing".to_string()).is_none());
    assert!(props.contains(&"email".to_string()));
    assert!(!props.contains(&"missing".to_string()));
}

#[test]
fn property_map_later_value_wins() {
    let mut props = PropertyMap::new();
    props.set("stage".to_string(), PropValue::Text("open".to_string()));
    props.set("stage".to_string(), PropValue::Text("won".to_string()));
    match props.get(&"stage".to_string()) {
        Some(PropValue::Text(s)) => assert_eq!(s, "won"),
        other => panic!("unexpected value: {other:?}"),
    }
}

#[test]
fn create_request_shape() {
    let mut props = PropertyMap::new();
    props.set("email".to_string(), PropValue::Text("a@example.com".to_string()));
    let r = contacts().create_request(props);
    assert_eq!(r.method, Method::Post);
    assert_eq!(r.path, "crm/v3/objects/contacts");
    match &r.payload {
        Payload::Properties(p) => match p.get(&"email".to_string()) {
            Some(PropValue::Text(s)) => assert_eq!(s, "a@example.com"),
            other => panic!("unexpected value: {other:?}"),
        },
        other => panic!("unexpected payload: {other:?}"),
    }
}

#[test]
fn get_request_shape() {
    let col = ApiCollection::new(ObjectType::Deals, Arc::new(client()));
    let r = col.get_request(&"101".to_string(), vec!["amount".to_string()]);
    assert_eq!(r.method, Method::Get);
    assert_eq!(r.path, "crm/v3/objects/deals/101");
    assert_eq!(r.props, vec!["amount".to_string()]);
}

#[test]
fn update_request_shape() {
    let mut props = PropertyMap::new();
    props.set("city".to_string(), PropValue::Text("Berlin".to_string()));
    let r = contacts().update_request(&"7".to_string(), props);
    assert_eq!(r.method, Method::Patch);
    assert_eq!(r.path, "crm/v3/objects/contacts/7");
}

#[test]
fn delete_request_shape() {
    let r = contacts().delete_request(&"7".to_string());
    assert_eq!(r.method, Method::Delete);
    assert_eq!(r.path, "crm/v3/objects/contacts/7");
    assert!(matches!(r.payload, Payload::Empty));
}

#[test]
fn list_request_within_limit() {
    let r = contacts().list_request(MAX_PAGE_SIZE, Some("cur".to_string())).unwrap();
    assert_eq!(r.method, Method::Get);
    assert_eq!(r.path, "crm/v3/objects/contacts");
    assert_eq!(r.limit, Some(MAX_PAGE_SIZE));
    assert_eq!(r.after, Some("cur".to_string()));
}

#[test]
fn list_request_rejects_oversized_page() {
    let r = contacts().list_request(MAX_PAGE_SIZE + 1, None);
    assert_eq!(r.unwrap_err(), HubspotError::InvalidArgument);
}

#[test]
fn batch_request_paths() {
    let col = contacts();
    let create = col.batch_create_request(vec![PropertyMap::new()]);
    assert_eq!(create.method, Method::Post);
    assert_eq!(create.path, "crm/v3/objects/contacts/batch/create");
    let update = col.batch_update_request(vec![("7".to_string(), PropertyMap::new())]);
    assert_eq!(update.path, "crm/v3/objects/contacts/batch/update");
    let archive = col.batch_archive_request(vec!["7".to_string()]);
    assert_eq!(archive.path, "crm/v3/objects/contacts/batch/archive");
}

#[test]
fn record_response_success() {
    let r = interpret_record_response(200, Some(record("751"))).unwrap();
    assert_eq!(r.id, "751");
    assert!(!r.id.is_empty());
}

#[test]
fn record_response_errors() {
    assert_eq!(interpret_record_response(404, None).unwrap_err(), HubspotError::NotFound);
    assert_eq!(interpret_record_response(403, None).unwrap_err(), HubspotError::RemoteRejected);
    assert_eq!(interpret_record_response(500, None).unwrap_err(), HubspotError::TransportError);
    // A success status without a parsed record is a malformed reply.
    assert_eq!(interpret_record_response(200, None).unwrap_err(), HubspotError::TransportError);
}

#[test]
fn rate_limit_counts_as_remote_refusal() {
    assert_eq!(interpret_record_response(429, None).unwrap_err(), HubspotError::RemoteRejected);
}

#[test]
fn delete_response_is_idempotent() {
    assert!(interpret_delete_response(204).is_ok());
    // Deleting an already-deleted identifier: the remote confirms
    // non-existence and the collection reports success.
    assert!(interpret_delete_response(404).is_ok());
    assert_eq!(interpret_delete_response(500).unwrap_err(), HubspotError::TransportError);
    assert_eq!(interpret_delete_response(403).unwrap_err(), HubspotError::RemoteRejected);
}

#[test]
fn list_response_passes_page_and_cursor() {
    let (page, next) =
        interpret_list_response(200, vec![record("1"), record("2")], Some("after-2".to_string()))
            .unwrap();
    assert_eq!(page.len(), 2);
    assert_eq!(page[0].id, "1");
    assert_eq!(page[1].id, "2");
    assert_eq!(next, Some("after-2".to_string()));
    let (_, done) = interpret_list_response(200, vec![record("3")], None).unwrap();
    assert_eq!(done, None);
}

#[test]
fn pagination_walk_visits_each_record_once() {
    // Two conformant pages of the same snapshot: the walk follows the
    // cursor until it is None and sees every identifier exactly once.
    let replies = vec![
        (vec![record("1"), record("2")], Some("after-2".to_string())),
        (vec![record("3")], None),
    ];
    let mut seen: Vec<String> = Vec::new();
    let mut cursor: Option<String> = None;
    for (page, next) in replies {
        let (page, next) = interpret_list_response(200, page, next).unwrap();
        for r in page {
            assert!(!seen.contains(&r.id));
            seen.push(r.id);
        }
        cursor = next;
        if cursor.is_none() {
            break;
        }
    }
    assert!(cursor.is_none());
    assert_eq!(seen, vec!["1".to_string(), "2".to_string(), "3".to_string()]);
}

#[test]
fn list_response_error() {
    assert_eq!(
        interpret_list_response(500, vec![], None).unwrap_err(),
        HubspotError::TransportError
    );
}

#[test]
fn batch_create_isolates_one_failure() {
    let outcomes = vec![
        BatchItemOutcome::Accepted(record("1")),
        BatchItemOutcome::Rejected,
        BatchItemOutcome::Accepted(record("3")),
    ];
    let results = interpret_batch_create_response(3, 201, outcomes).unwrap();
    assert_eq!(results.len(), 3);
    assert_eq!(results[0].as_ref().unwrap().id, "1");
    assert_eq!(*results[1].as_ref().unwrap_err(), HubspotError::RemoteRejected);
    assert_eq!(results[2].as_ref().unwrap().id, "3");
}

#[test]
fn batch_create_rejects_malformed_reply() {
    let outcomes = vec![BatchItemOutcome::Accepted(record("1"))];
    assert_eq!(
        interpret_batch_create_response(2, 200, outcomes).unwrap_err(),
        HubspotError::TransportError
    );
}

#[test]
fn batch_create_whole_call_error() {
    assert_eq!(
        interpret_batch_create_response(1, 500, vec![]).unwrap_err(),
        HubspotError::TransportError
    );
}

#[test]
fn batch_archive_is_all_or_nothing() {
    assert!(interpret_batch_archive_response(204).is_ok());
    assert_eq!(interpret_batch_archive_response(404).unwrap_err(), HubspotError::NotFound);
}

#[test]
fn facade_assembles_collections() {
    let hubspot = Hubspot::new(client());
    assert_eq!(hubspot.portal_id, "123456");
    assert_eq!(hubspot.objects.contacts.object_type, ObjectType::Contacts);
    assert_eq!(hubspot.objects.line_items.object_type, ObjectType::LineItems);
    let deals = hubspot.objects.get_collection(ObjectType::Deals);
    assert_eq!(deals.object_type, ObjectType::Deals);
    assert_eq!(deals.base_path(), "crm/v3/objects/deals");
    assert_eq!(hubspot.engagements.notes.base_path(), "crm/v3/objects/notes");
}

#[test]
fn builder_requires_portal_and_token() {
    assert_eq!(Hubspot::builder().build().unwrap_err(), HubspotError::InvalidArgument);
    assert_eq!(
        Hubspot::builder().portal_id("1".to_string()).build().unwrap_err(),
        HubspotError::InvalidArgument
    );
    let hubspot = Hubspot::builder()
        .portal_id("123456".to_string())
        .token("SECRET-REDACTED".to_string())
        .build()
        .unwrap();
    assert_eq!(hubspot.portal_id, "123456");
    assert_eq!(hubspot.owners.client.api_domain, "https://api.hubapi.com");
}

#[test]
fn builder_keeps_supplied_domain() {
    let hubspot = Hubspot::builder()
        .portal_id("123456".to_string())
        .api_domain("https://example.test".to_string())
        .token("SECRET-REDACTED".to_string())
        .build()
        .unwrap();
    assert_eq!(hubspot.owners.client.api_domain, "https://example.test");
    assert_eq!(hubspot.owners.client.portal_id, "123456");
}

#[test]
fn client_url_prefixes_domain() {
    let c = client();
    assert_eq!(c.url_for(&"crm/v3/objects/contacts".to_string()),
        "https://api.hubapi.com/crm/v3/objects/contacts");
}
