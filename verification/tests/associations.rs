use std::sync::Arc;

use hubspot::associations::associate_request;
use hubspot::associations::interpret_associate_response;
use hubspot::associations::interpret_association_list_response;
use hubspot::associations::interpret_remove_association_response;
use hubspot::associations::list_associations_request;
use hubspot::associations::remove_association_request;
use hubspot::associations::Association;
use hubspot::associations::AssociationCategory;
use hubspot::associations::AssociationTypes;
use hubspot::client::HubspotClient;
use hubspot::types::Method;
use hubspot::types::Payload;
use hubspot::types::PropValue;
use hubspot::types::PropertyMap;
use hubspot::types::Record;
use hubspot::types::ToPath;
use hubspot::EngagementType;
use hubspot::Hubspot;
use hubspot::HubspotError;
use hubspot::ObjectType;

fn client() -> HubspotClient {
    HubspotClient::new(
        "123456".to_string(),
        "https://api.hubapi.com".to_string(),
        "SECRET-REDACTED".to_string(),
    )
}

fn edge_to(target_id: &str, type_id: u32) -> Association {
    Association {
        source_type: "contacts".to_string(),
        source_id: "751".to_string(),
        target_type: "companies".to_string(),
        target_id: target_id.to_string(),
        type_id,
    }
}

#[test]
fn association_type_ids_are_stable() {
    assert_eq!(AssociationTypes::ContactToCompany.type_id(), 279);
    assert_eq!(AssociationTypes::CompanyToContact.type_id(), 280);
    assert_eq!(AssociationTypes::DealToContact.type_id(), 3);
    assert_eq!(AssociationTypes::ContactToDeal.type_id(), 4);
    assert_eq!(AssociationTypes::TicketToContact.type_id(), 16);
    assert_eq!(AssociationTypes::ContactToTicket.type_id(), 15);
    assert_eq!(AssociationTypes::Custom(9001).type_id(), 9001);
}

#[test]
fn creation_details_pick_category() {
    let standard = AssociationTypes::ContactToCompany.creation_details();
    assert_eq!(standard.category, AssociationCategory::HubspotDefined);
    assert_eq!(standard.type_id, 279);
    let custom = AssociationTypes::Custom(7).creation_details();
    assert_eq!(custom.category, AssociationCategory::UserDefined);
    assert_eq!(custom.type_id, 7);
}

#[test]
fn associate_request_shape() {
    let details = AssociationTypes::ContactToCompany.creation_details();
    let r = associate_request(
        &ObjectType::Contacts,
        &"751".to_string(),
        &ObjectType::Companies,
        &"42".to_string(),
        details,
    );
    assert_eq!(r.method, Method::Put);
    assert_eq!(r.path, "crm/v4/objects/contacts/751/associations/companies/42");
    match r.payload {
        Payload::Association(d) => assert_eq!(d, details),
        other => panic!("unexpected payload: {other:?}"),
    }
}

#[test]
fn list_associations_request_shape() {
    let r = list_associations_request(
        &ObjectType::Contacts,
        &"751".to_string(),
        &ObjectType::Companies,
        50,
        None,
    )
    .unwrap();
    assert_eq!(r.method, Method::Get);
    assert_eq!(r.path, "crm/v4/objects/contacts/751/associations/companies");
    assert_eq!(r.limit, Some(50));
    let oversized = list_associations_request(
        &ObjectType::Contacts,
        &"751".to_string(),
        &ObjectType::Companies,
        101,
        None,
    );
    assert_eq!(oversized.unwrap_err(), HubspotError::InvalidArgument);
}

#[test]
fn remove_association_request_shape() {
    let r = remove_association_request(
        &ObjectType::Contacts,
        &"751".to_string(),
        &ObjectType::Companies,
        &"42".to_string(),
    );
    assert_eq!(r.method, Method::Delete);
    assert_eq!(r.path, "crm/v4/objects/contacts/751/associations/companies/42");
}

#[test]
fn remove_association_is_idempotent() {
    assert!(interpret_remove_association_response(204).is_ok());
    // Removing a non-existent edge is not an error.
    assert!(interpret_remove_association_response(404).is_ok());
    assert_eq!(
        interpret_remove_association_response(500).unwrap_err(),
        HubspotError::TransportError
    );
}

#[test]
fn associate_response_errors() {
    assert_eq!(
        interpret_associate_response(400, None).unwrap_err(),
        HubspotError::RemoteRejected
    );
    assert_eq!(
        interpret_associate_response(201, None).unwrap_err(),
        HubspotError::TransportError
    );
}

#[test]
fn contact_company_scenario() {
    // Create a contact with one property.
    let hubspot = Hubspot::new(client());
    let mut props = PropertyMap::new();
    props.set("email".to_string(), PropValue::Text("a@example.com".to_string()));
    let create = hubspot.objects.contacts.create_request(props);
    assert_eq!(create.path, "crm/v3/objects/contacts");

    // The remote assigns the identifier; the created record carries a
    // non-empty id and the submitted property.
    let mut stored = PropertyMap::new();
    stored.set("email".to_string(), PropValue::Text("a@example.com".to_string()));
    let reply = Record {
        id: "751".to_string(),
        properties: stored,
        created_at: Some("2024-01-01T00:00:00Z".to_string()),
        updated_at: None,
    };
    let created =
        hubspot::api_configs::interpret_record_response(201, Some(reply)).unwrap();
    assert!(!created.id.is_empty());
    match created.properties.get(&"email".to_string()) {
        Some(PropValue::Text(s)) => assert_eq!(s, "a@example.com"),
        other => panic!("unexpected value: {other:?}"),
    }

    // Associate it to company "42" with the default contact-to-company type.
    let details = AssociationTypes::ContactToCompany.creation_details();
    let put = associate_request(
        &ObjectType::Contacts,
        &created.id,
        &ObjectType::Companies,
        &"42".to_string(),
        details,
    );
    assert_eq!(put.path, "crm/v4/objects/contacts/751/associations/companies/42");
    let recorded = interpret_associate_response(201, Some(edge_to("42", 279))).unwrap();
    assert_eq!(recorded.target_id, "42");

    // Listing the contact's company associations returns exactly one
    // entry, with target identifier "42".
    let (page, next) =
        interpret_association_list_response(200, vec![edge_to("42", 279)], None).unwrap();
    assert_eq!(page.len(), 1);
    assert_eq!(page[0].target_id, "42");
    assert_eq!(page[0].type_id, 279);
    assert_eq!(next, None);
}

#[test]
fn engagement_paths() {
    assert_eq!(EngagementType::Notes.to_path(), "notes");
    assert_eq!(EngagementType::Calls.to_path(), "calls");
    assert_eq!(EngagementType::Emails.to_path(), "emails");
    assert_eq!(EngagementType::Meetings.to_path(), "meetings");
    assert_eq!(EngagementType::Tasks.to_path(), "tasks");
}

#[test]
fn owner_requests() {
    let hubspot = Hubspot::new(client());
    let get = hubspot.owners.get_request(&"9".to_string());
    assert_eq!(get.method, Method::Get);
    assert_eq!(get.path, "crm/v3/owners/9");
    let list = hubspot.owners.list_request(10, None).unwrap();
    assert_eq!(list.path, "crm/v3/owners");
    assert_eq!(list.limit, Some(10));
    assert_eq!(
        hubspot.owners.list_request(1000, None).unwrap_err(),
        HubspotError::InvalidArgument
    );
}
