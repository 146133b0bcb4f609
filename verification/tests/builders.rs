use spicedb_client::filter::{
    RelationshipFilter, RelationshipFilterBuilder, ResourceIdFilter, SubjectFilter,
    SubjectFilterBuilder,
};
use spicedb_client::relationship::{Relationship, RelationshipBuilder};
use spicedb_client::request::{
    Precondition, ReadRelationshipsRequest, ReadRelationshipsRequestBuilder,
    WriteRelationshipsRequest, WriteRelationshipsRequestBuilder,
};
use spicedb_client::types::{
    ConsistencyRequirement, ContextValue, PreconditionOperation, RelationshipUpdateOperation,
};

#[test]
fn resource_id_then_prefix_leaves_prefix_active() {
    let mut f = RelationshipFilter::new();
    f.resource_type("document");
    f.resource_id("doc1");
    f.resource_id_prefix("doc");
    match &f.resource_id_filter {
        ResourceIdFilter::ByPrefix(p) => assert_eq!(p, "doc"),
        _ => panic!("expected the prefix strategy to be active"),
    }
}

#[test]
fn resource_prefix_then_id_leaves_id_active() {
    let mut f = RelationshipFilter::new();
    f.resource_id_prefix("doc");
    f.resource_id("doc1");
    match &f.resource_id_filter {
        ResourceIdFilter::ById(id) => assert_eq!(id, "doc1"),
        _ => panic!("expected the by-id strategy to be active"),
    }
}

#[test]
fn subject_filter_construction_populates_type_only() {
    let s = SubjectFilter::new("user");
    assert_eq!(s.subject_type, "user");
    assert!(s.optional_subject_id.is_none());
    assert!(s.optional_relation.is_none());
}

#[test]
fn subject_filter_setters_and_clears() {
    let mut s = SubjectFilter::new("user");
    s.subject_id("user1");
    s.relation("member");
    assert_eq!(s.optional_subject_id.as_deref(), Some("user1"));
    assert_eq!(s.optional_relation.as_deref(), Some("member"));
    s.clear_subject_id();
    s.clear_relation();
    assert!(s.optional_subject_id.is_none());
    assert!(s.optional_relation.is_none());
}

#[test]
fn write_builder_appends_one_update_per_call_in_order() {
    let mut w = WriteRelationshipsRequest::new(Vec::new());
    assert_eq!(w.updates.len(), 0);
    let i = w.create_relationship("document", "doc1", "viewer", "user", "user1");
    assert_eq!(i, 0);
    assert_eq!(w.updates.len(), 1);
    let j = w.update_relationship("document", "doc1", "editor", "user", "user2");
    assert_eq!(j, 1);
    assert_eq!(w.updates.len(), 2);
    let k = w.delete_relationship("document", "doc2", "viewer", "user", "user1");
    assert_eq!(k, 2);
    assert_eq!(w.updates.len(), 3);
    assert_eq!(w.updates[0].operation, RelationshipUpdateOperation::Create);
    assert_eq!(w.updates[1].operation, RelationshipUpdateOperation::Touch);
    assert_eq!(w.updates[2].operation, RelationshipUpdateOperation::Delete);
    assert_eq!(w.updates[0].relationship.resource.object_id, "doc1");
    assert_eq!(w.updates[1].relationship.relation, "editor");
    assert_eq!(w.updates[2].relationship.resource.object_id, "doc2");
}

#[test]
fn write_builder_preconditions() {
    let mut w = WriteRelationshipsRequest::new(Vec::new());
    let i = w.match_precondition();
    let j = w.not_match_precondition();
    assert_eq!((i, j), (0, 1));
    assert_eq!(w.optional_preconditions.len(), 2);
    assert_eq!(
        w.optional_preconditions[0].operation,
        Some(PreconditionOperation::MustMatch)
    );
    assert_eq!(
        w.optional_preconditions[1].operation,
        Some(PreconditionOperation::MustNotMatch)
    );
    w.clear_preconditions();
    assert!(w.optional_preconditions.is_empty());
    w.clear_preconditions();
    assert!(w.optional_preconditions.is_empty());
}

#[test]
fn relationship_new_populates_every_component() {
    let r = Relationship::new("document", "doc1", "viewer", "user", "user1");
    assert_eq!(r.resource.object_type, "document");
    assert_eq!(r.resource.object_id, "doc1");
    assert_eq!(r.relation, "viewer");
    assert_eq!(r.subject.object.object_type, "user");
    assert_eq!(r.subject.object.object_id, "user1");
    assert!(r.subject.optional_relation.is_none());
    assert!(r.optional_caveat.is_none());
}

#[test]
fn caveat_merge_unions_keys_and_later_value_wins() {
    let mut r = Relationship::new("document", "doc1", "viewer", "user", "user1");
    r.caveat(
        "tod",
        Some(vec![
            ("a".to_string(), ContextValue::Bool(true)),
            ("b".to_string(), ContextValue::Text("x".to_string())),
        ]),
    );
    r.caveat(
        "tod",
        Some(vec![
            ("b".to_string(), ContextValue::Text("y".to_string())),
            ("c".to_string(), ContextValue::Null),
        ]),
    );
    let c = r.optional_caveat.as_ref().expect("caveat attached");
    assert_eq!(c.caveat_name, "tod");
    match c.context_get(&"a".to_string()) {
        Some(ContextValue::Bool(true)) => {},
        _ => panic!("key from the first call must survive"),
    }
    match c.context_get(&"b".to_string()) {
        Some(ContextValue::Text(s)) => assert_eq!(s, "y"),
        _ => panic!("the later call's value must win"),
    }
    match c.context_get(&"c".to_string()) {
        Some(ContextValue::Null) => {},
        _ => panic!("key from the second call must be present"),
    }
    assert!(c.context_get(&"d".to_string()).is_none());
}

#[test]
fn caveat_without_context_renames_only() {
    let mut r = Relationship::new("document", "doc1", "viewer", "user", "user1");
    r.caveat(
        "first",
        Some(vec![("a".to_string(), ContextValue::Bool(false))]),
    );
    r.caveat("second", None::<Vec<(String, ContextValue)>>);
    let c = r.optional_caveat.as_ref().unwrap();
    assert_eq!(c.caveat_name, "second");
    assert!(c.context_get(&"a".to_string()).is_some());
    r.clear_caveat();
    assert!(r.optional_caveat.is_none());
    r.clear_caveat();
    assert!(r.optional_caveat.is_none());
}

#[test]
fn clear_operations_are_idempotent() {
    let mut once = RelationshipFilter::new();
    once.resource_type("document");
    once.resource_id("doc1");
    once.relation("viewer");
    let mut twice = once.clone();

    once.clear_resource_id();
    twice.clear_resource_id();
    twice.clear_resource_id();
    assert!(matches!(once.resource_id_filter, ResourceIdFilter::Unset));
    assert!(matches!(twice.resource_id_filter, ResourceIdFilter::Unset));
    assert_eq!(once.resource_type, twice.resource_type);
    assert_eq!(once.optional_relation, twice.optional_relation);

    once.clear_relation();
    twice.clear_relation();
    twice.clear_relation();
    assert_eq!(once.optional_relation, None);
    assert_eq!(twice.optional_relation, None);
}

#[test]
fn clear_resource_id_leaves_prefix_in_place() {
    let mut f = RelationshipFilter::new();
    f.resource_id_prefix("doc");
    f.clear_resource_id();
    match &f.resource_id_filter {
        ResourceIdFilter::ByPrefix(p) => assert_eq!(p, "doc"),
        _ => panic!("clearing the id must not drop a prefix"),
    }
    f.clear_resource_id_prefix();
    assert!(matches!(f.resource_id_filter, ResourceIdFilter::Unset));
}

#[test]
fn read_request_setters_create_nested_filter() {
    let mut req: ReadRelationshipsRequest = ReadRelationshipsRequestBuilder::new();
    assert!(req.relationship_filter.is_none());
    RelationshipFilterBuilder::resource_type(&mut req, "document");
    RelationshipFilterBuilder::resource_id(&mut req, "doc1");
    RelationshipFilterBuilder::relation(&mut req, "viewer");
    let f = req.relationship_filter.as_ref().expect("filter created on first setter");
    assert_eq!(f.resource_type, "document");
    match &f.resource_id_filter {
        ResourceIdFilter::ById(id) => assert_eq!(id, "doc1"),
        _ => panic!("expected the by-id strategy"),
    }
}

#[test]
fn read_request_clear_does_not_create_filter() {
    let mut req: ReadRelationshipsRequest = ReadRelationshipsRequestBuilder::new();
    RelationshipFilterBuilder::clear_relation(&mut req);
    assert!(req.relationship_filter.is_none());
}

#[test]
fn read_request_envelope_setters_and_clears() {
    let mut req: ReadRelationshipsRequest = ReadRelationshipsRequestBuilder::new();
    req.consistency(ConsistencyRequirement::FullyConsistent);
    req.limit(25);
    req.cursor("abc");
    assert!(matches!(
        req.consistency,
        Some(ConsistencyRequirement::FullyConsistent)
    ));
    assert_eq!(req.optional_limit, 25);
    assert_eq!(req.optional_cursor.as_ref().map(|c| c.token.as_str()), Some("abc"));
    req.clear_consistency();
    req.clear_limit();
    req.clear_cursor();
    req.clear_cursor();
    assert!(req.consistency.is_none());
    assert_eq!(req.optional_limit, 0);
    assert!(req.optional_cursor.is_none());
}

#[test]
fn read_request_subject_type_chains_into_subject_filter() {
    let mut req: ReadRelationshipsRequest = ReadRelationshipsRequestBuilder::new();
    RelationshipFilterBuilder::subject_type(&mut req, "user");
    let sf = RelationshipFilterBuilder::subject_filter(&req).expect("subject filter created");
    assert_eq!(sf.subject_type, "user");
}

#[test]
fn precondition_clear_creates_nested_filter() {
    let mut p: Precondition = RelationshipFilterBuilder::new();
    assert!(p.filter.is_none());
    assert!(p.operation.is_none());
    p.clear_relation();
    assert!(p.filter.is_some());
    p.resource_type("document");
    p.resource_id_prefix("doc");
    let f = p.filter.as_ref().unwrap();
    assert_eq!(f.resource_type, "document");
    assert!(matches!(f.resource_id_filter, ResourceIdFilter::ByPrefix(_)));
}

#[test]
fn subject_type_keeps_existing_subject_filter_fields() {
    let mut f = RelationshipFilter::new();
    f.subject_type("user");
    if let Some(sf) = f.optional_subject_filter.as_mut() {
        sf.subject_id("user1");
    }
    f.subject_type("account");
    let sf = f.subject_filter().expect("subject filter present");
    assert_eq!(sf.subject_type, "account");
    assert_eq!(sf.optional_subject_id.as_deref(), Some("user1"));
}
