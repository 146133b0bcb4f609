use spicedb_client::error::{RpcStatus, StatusCode};
use spicedb_client::reader::{
    CheckBulkPermissionsPair, CheckBulkPermissionsRequestItem, CheckBulkPermissionsResponse,
    ExpandPermissionTreeResponse, LookupResourcesResponse, LookupSubjectsResponse,
    PermissionRelationshipTree, PermissionTreeNode, TreeOperation, WatchResponse,
};
use spicedb_client::relationship::{
    ObjectReference, Relationship, RelationshipBuilder, SubjectReference,
};
use spicedb_client::request::RelationshipUpdate;
use spicedb_client::types::{Permissionship, RelationshipUpdateOperation, ZedToken};

fn user1() -> SubjectReference {
    SubjectReference {
        object: ObjectReference {
            object_type: "user".to_string(),
            object_id: "user1".to_string(),
        },
        optional_relation: None,
    }
}

#[test]
fn relationship_setters_mutate_in_place() {
    let mut r = Relationship::new("document", "doc1", "viewer", "user", "user1");
    r.object_type("folder");
    r.object_id("f1");
    r.relation("editor");
    r.subject_type("group");
    r.subject_id("g1");
    r.subject_relation("member");
    assert_eq!(r.resource.object_type, "folder");
    assert_eq!(r.resource.object_id, "f1");
    assert_eq!(r.relation, "editor");
    assert_eq!(r.subject.object.object_type, "group");
    assert_eq!(r.subject.object.object_id, "g1");
    assert_eq!(r.subject.optional_relation.as_deref(), Some("member"));
    r.clear_subject_relation();
    assert!(r.subject.optional_relation.is_none());
    r.clear_subject_relation();
    assert!(r.subject.optional_relation.is_none());
}

#[test]
fn bulk_response_reports_failures_per_item() {
    let resp = CheckBulkPermissionsResponse {
        checked_at: Some(ZedToken::new("t1".to_string())),
        pairs: vec![
            CheckBulkPermissionsPair {
                request: CheckBulkPermissionsRequestItem {
                    resource: ObjectReference {
                        object_type: "document".to_string(),
                        object_id: "doc1".to_string(),
                    },
                    permission: "view".to_string(),
                    subject: user1(),
                    context: Vec::new(),
                },
                response: Ok(Permissionship::HasPermission),
            },
            CheckBulkPermissionsPair {
                request: CheckBulkPermissionsRequestItem {
                    resource: ObjectReference {
                        object_type: "document".to_string(),
                        object_id: "missing".to_string(),
                    },
                    permission: "view".to_string(),
                    subject: user1(),
                    context: Vec::new(),
                },
                response: Err(RpcStatus {
                    code: StatusCode::NotFound,
                    message: "object not found".to_string(),
                }),
            },
        ],
    };
    assert_eq!(resp.checked_at(), Some("t1"));
    assert_eq!(resp.pairs.len(), 2);
    assert!(matches!(resp.pairs[0].response, Ok(Permissionship::HasPermission)));
    match &resp.pairs[1].response {
        Err(s) => assert_eq!(s.code, StatusCode::NotFound),
        Ok(_) => panic!("the second item must fail on its own"),
    }
}

#[test]
fn expand_tree_one_level() {
    let resp = ExpandPermissionTreeResponse {
        expanded_at: Some(ZedToken::new("t2".to_string())),
        tree_root: Some(PermissionRelationshipTree {
            expanded_object: Some(ObjectReference {
                object_type: "document".to_string(),
                object_id: "doc1".to_string(),
            }),
            expanded_relation: "view".to_string(),
            node: PermissionTreeNode::Expression(
                TreeOperation::Union,
                vec![
                    PermissionRelationshipTree {
                        expanded_object: None,
                        expanded_relation: "viewer".to_string(),
                        node: PermissionTreeNode::Leaf(vec![user1()]),
                    },
                    PermissionRelationshipTree {
                        expanded_object: None,
                        expanded_relation: "editor".to_string(),
                        node: PermissionTreeNode::Leaf(Vec::new()),
                    },
                ],
            ),
        }),
    };
    assert_eq!(resp.expanded_at(), Some("t2"));
    let root = resp.tree_root.as_ref().unwrap();
    assert_eq!(root.expanded_relation, "view");
    match &root.node {
        PermissionTreeNode::Expression(op, children) => {
            assert_eq!(*op, TreeOperation::Union);
            assert_eq!(children.len(), 2);
            match &children[0].node {
                PermissionTreeNode::Leaf(subjects) => {
                    assert_eq!(subjects[0].object.object_id, "user1")
                },
                _ => panic!("the first child must be a leaf"),
            }
        },
        _ => panic!("the root must combine its children"),
    }
}

#[test]
fn lookup_response_readers() {
    let resources = LookupResourcesResponse {
        looked_up_at: Some(ZedToken::new("t3".to_string())),
        resource_object_id: "doc1".to_string(),
        permissionship: Permissionship::HasPermission,
    };
    assert_eq!(resources.looked_up_at(), Some("t3"));
    assert_eq!(resources.resource_object_id, "doc1");

    let subjects = LookupSubjectsResponse {
        looked_up_at: None,
        subject_object_id: "user1".to_string(),
        permissionship: Permissionship::ConditionalPermission,
    };
    assert_eq!(subjects.looked_up_at(), None);
    assert_eq!(subjects.permissionship, Permissionship::ConditionalPermission);
}

#[test]
fn watch_response_reader() {
    let resp = WatchResponse {
        updates: vec![RelationshipUpdate {
            operation: RelationshipUpdateOperation::Touch,
            relationship: Relationship::new("document", "doc1", "viewer", "user", "user1"),
        }],
        changes_through: Some(ZedToken::new("t4".to_string())),
    };
    assert_eq!(resp.changes_through(), Some("t4"));
    assert_eq!(resp.updates.len(), 1);
    assert_eq!(resp.updates[0].operation, RelationshipUpdateOperation::Touch);
}
