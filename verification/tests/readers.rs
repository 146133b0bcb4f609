use spicedb_client::error::{Error, RpcStatus, StatusCode};
use spicedb_client::reader::{
    CheckPermissionResponse, DeleteRelationshipsResponse, DeletionProgress,
    ReadRelationshipsResponse, ReadSchemaResponse, ReadSchemaResponseReader,
    WriteRelationshipsResponse, WriteSchemaResponse, WriteSchemaResponseReader, ZedTokenReader,
};
use spicedb_client::relationship::{Relationship, RelationshipBuilder};
use spicedb_client::types::{Cursor, Permissionship, ZedToken};

const SCHEMA: &str = r#"
definition user {}

definition document {
    relation viewer: user
    relation editor: user

    permission view = viewer + editor
    permission edit = editor
}
"#;

#[test]
fn zed_token_reader_returns_token_text() {
    let t = ZedToken::new("GhUKEzE3Mzg".to_string());
    assert_eq!(t.token(), "GhUKEzE3Mzg");
}

#[test]
fn schema_round_trip_readers() {
    // The client-side half of writing a schema and reading it back: the
    // write response carries a token, and the read response carries the
    // stored text with a token.
    let written = WriteSchemaResponse { written_at: Some(ZedToken::new("t1".to_string())) };
    assert_eq!(written.written_at(), Some("t1"));

    let read = ReadSchemaResponse {
        schema_text: SCHEMA.to_string(),
        read_at: Some(ZedToken::new("t2".to_string())),
    };
    assert!(read.read_at().is_some());
    let roundtripped: Vec<&str> = read.schema_text().split_whitespace().collect();
    let expected: Vec<&str> = SCHEMA.split_whitespace().collect();
    assert_eq!(roundtripped, expected);
}

#[test]
fn schema_readers_report_absent_token() {
    let written = WriteSchemaResponse { written_at: None };
    assert_eq!(written.written_at(), None);
    let read = ReadSchemaResponse { schema_text: String::new(), read_at: None };
    assert_eq!(read.read_at(), None);
}

#[test]
fn read_relationships_item_readers() {
    // The client-side half of reading back a written relationship: the
    // streamed item carries the relationship, the read token, and a
    // continuation cursor.
    let item = ReadRelationshipsResponse {
        read_at: Some(ZedToken::new("t3".to_string())),
        relationship: Some(Relationship::new("document", "doc1", "viewer", "user", "user1")),
        after_result_cursor: Some(Cursor { token: "c1".to_string() }),
    };
    assert_eq!(item.read_at(), Some("t3"));
    assert_eq!(item.after_result_cursor(), Some("c1"));
    let r = item.relationship.as_ref().unwrap();
    assert_eq!(r.resource.object_type, "document");
    assert_eq!(r.resource.object_id, "doc1");
    assert_eq!(r.relation, "viewer");
    assert_eq!(r.subject.object.object_id, "user1");
}

#[test]
fn write_relationships_response_reader() {
    let resp = WriteRelationshipsResponse { written_at: Some(ZedToken::new("t4".to_string())) };
    assert_eq!(resp.written_at(), Some("t4"));
}

#[test]
fn check_permission_response_reader() {
    let resp = CheckPermissionResponse {
        checked_at: Some(ZedToken::new("t5".to_string())),
        permissionship: Permissionship::HasPermission,
    };
    assert_eq!(resp.checked_at(), Some("t5"));
    assert!(resp.has_permission());

    let no = CheckPermissionResponse {
        checked_at: None,
        permissionship: Permissionship::NoPermission,
    };
    assert!(!no.has_permission());
    let conditional = CheckPermissionResponse {
        checked_at: None,
        permissionship: Permissionship::ConditionalPermission,
    };
    assert!(!conditional.has_permission());
}

#[test]
fn delete_relationships_response_reader() {
    let resp = DeleteRelationshipsResponse {
        deleted_at: Some(ZedToken::new("t6".to_string())),
        deletion_progress: DeletionProgress::Complete,
    };
    assert_eq!(resp.deleted_at(), Some("t6"));
    assert!(resp.fully_deleted());

    let partial = DeleteRelationshipsResponse {
        deleted_at: Some(ZedToken::new("t7".to_string())),
        deletion_progress: DeletionProgress::Partial,
    };
    assert!(!partial.fully_deleted());
}

#[test]
fn watch_without_change_tracking_fails_with_precondition_status() {
    // The engine rejects a watch when change tracking is off; the failure
    // surfaces as a status error of the failed-precondition class, which
    // the caller can tell apart from every other kind.
    let err = Error::Status(RpcStatus {
        code: StatusCode::FailedPrecondition,
        message: "object definition `document` requires change tracking".to_string(),
    });
    assert_eq!(err.status_code(), Some(StatusCode::FailedPrecondition));
    assert_ne!(err.status_code(), Some(StatusCode::DeadlineExceeded));
    match &err {
        Error::Status(s) => assert_eq!(s.code, StatusCode::FailedPrecondition),
        _ => panic!("a remote failure must be a status error"),
    }
}

#[test]
fn local_errors_carry_no_status_code() {
    assert_eq!(Error::InvalidPresharedKey.status_code(), None);
    assert_eq!(Error::InvalidEndpoint.status_code(), None);
    assert_eq!(Error::Transport("refused".to_string()).status_code(), None);
}
