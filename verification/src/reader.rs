//! Response envelopes and their readers: pure projections that extract
//! normalized values (schema text, consistency tokens, verdicts) without
//! forcing callers to unwrap optional substructures by hand.
//!
//! A reader never mutates and never fails: an absent source field simply
//! reads as an absent value.

use vstd::prelude::*;
use crate::error::RpcStatus;
use crate::types::{ContextValue, Cursor, Permissionship, ZedToken};
use crate::relationship::{ObjectReference, Relationship, SubjectReference};
use crate::request::RelationshipUpdate;

verus! {

/// Reads the token string out of an opaque consistency token.
pub trait ZedTokenReader {
    fn token(&self) -> &str;
}

impl ZedTokenReader for ZedToken {
    fn token(&self) -> (r: &str)
        ensures
            r@ == self@,
    {
        self.token.as_str()
    }
}

/// The response to a schema read: the schema text and the token at which
/// it was read.
#[derive(Clone, Debug)]
pub struct ReadSchemaResponse {
    pub schema_text: String,
    pub read_at: Option<ZedToken>,
}

/// Reads the normalized parts of a schema-read response.
pub trait ReadSchemaResponseReader {
    fn schema_text(&self) -> &str;

    fn read_at(&self) -> Option<&str>;
}

impl ReadSchemaResponseReader for ReadSchemaResponse {
    fn schema_text(&self) -> (r: &str)
        ensures
            r@ == self.schema_text@,
    {
        self.schema_text.as_str()
    }

    fn read_at(&self) -> (r: Option<&str>)
        ensures
            match r {
                Some(s) => self.read_at matches Some(t) && s@ == t@,
                None => self.read_at is None,
            },
    {
        match &self.read_at {
            Some(t) => Some(t.token.as_str()),
            None => None,
        }
    }
}

/// The response to a schema write: the token at which the new schema took
/// effect.
#[derive(Clone, Debug)]
pub struct WriteSchemaResponse {
    pub written_at: Option<ZedToken>,
}

/// Reads the normalized parts of a schema-write response.
pub trait WriteSchemaResponseReader {
    fn written_at(&self) -> Option<&str>;
}

impl WriteSchemaResponseReader for WriteSchemaResponse {
    fn written_at(&self) -> (r: Option<&str>)
        ensures
            match r {
                Some(s) => self.written_at matches Some(t) && s@ == t@,
                None => self.written_at is None,
            },
    {
        match &self.written_at {
            Some(t) => Some(t.token.as_str()),
            None => None,
        }
    }
}

/// One streamed result of a relationship read: a matched relationship, the
/// token at which it was read, and the cursor to resume after it.
#[derive(Debug)]
pub struct ReadRelationshipsResponse {
    pub read_at: Option<ZedToken>,
    pub relationship: Option<Relationship>,
    pub after_result_cursor: Option<Cursor>,
}

impl ReadRelationshipsResponse {
    pub fn read_at(&self) -> (r: Option<&str>)
        ensures
            match r {
                Some(s) => self.read_at matches Some(t) && s@ == t@,
                None => self.read_at is None,
            },
    {
        match &self.read_at {
            Some(t) => Some(t.token.as_str()),
            None => None,
        }
    }

    pub fn after_result_cursor(&self) -> (r: Option<&str>)
        ensures
            match r {
                Some(s) => self.after_result_cursor matches Some(c) && s@ == c@,
                None => self.after_result_cursor is None,
            },
    {
        match &self.after_result_cursor {
            Some(c) => Some(c.token.as_str()),
            None => None,
        }
    }
}

/// The response to a batch relationship write: the token at which the
/// batch committed.
#[derive(Clone, Debug)]
pub struct WriteRelationshipsResponse {
    pub written_at: Option<ZedToken>,
}

impl WriteRelationshipsResponse {
    pub fn written_at(&self) -> (r: Option<&str>)
        ensures
            match r {
                Some(s) => self.written_at matches Some(t) && s@ == t@,
                None => self.written_at is None,
            },
    {
        match &self.written_at {
            Some(t) => Some(t.token.as_str()),
            None => None,
        }
    }
}

/// How far a capped bulk deletion got.
#[derive(Clone, Copy, PartialEq, Eq, Structural, Debug)]
pub enum DeletionProgress {
    Unspecified,
    /// Every matching relationship was deleted.
    Complete,
    /// The optional cap was reached before every match was deleted.
    Partial,
}

/// The response to a bulk deletion: the token at which it committed and
/// whether it deleted everything that matched.
#[derive(Clone, Debug)]
pub struct DeleteRelationshipsResponse {
    pub deleted_at: Option<ZedToken>,
    pub deletion_progress: DeletionProgress,
}

impl DeleteRelationshipsResponse {
    pub fn deleted_at(&self) -> (r: Option<&str>)
        ensures
            match r {
                Some(s) => self.deleted_at matches Some(t) && s@ == t@,
                None => self.deleted_at is None,
            },
    {
        match &self.deleted_at {
            Some(t) => Some(t.token.as_str()),
            None => None,
        }
    }

    /// Whether the deletion removed every matching relationship.
    pub fn fully_deleted(&self) -> (r: bool)
        ensures
            r == (self.deletion_progress == DeletionProgress::Complete),
    {
        match self.deletion_progress {
            DeletionProgress::Complete => true,
            _ => false,
        }
    }
}

/// The response to a permission check: the verdict and the token at which
/// it was evaluated.
#[derive(Clone, Debug)]
pub struct CheckPermissionResponse {
    pub checked_at: Option<ZedToken>,
    pub permissionship: Permissionship,
}

impl CheckPermissionResponse {
    pub fn checked_at(&self) -> (r: Option<&str>)
        ensures
            match r {
                Some(s) => self.checked_at matches Some(t) && s@ == t@,
                None => self.checked_at is None,
            },
    {
        match &self.checked_at {
            Some(t) => Some(t.token.as_str()),
            None => None,
        }
    }

    /// Whether the verdict grants the permission outright.
    pub fn has_permission(&self) -> (r: bool)
        ensures
            r == (self.permissionship == Permissionship::HasPermission),
    {
        match self.permissionship {
            Permissionship::HasPermission => true,
            _ => false,
        }
    }
}

/// One item of a bulk permission check.
#[derive(Debug)]
pub struct CheckBulkPermissionsRequestItem {
    pub resource: ObjectReference,
    pub permission: String,
    pub subject: SubjectReference,
    pub context: Vec<(String, ContextValue)>,
}

/// One per-item outcome of a bulk permission check: the item it answers
/// and either its verdict or the status it failed with. One item's failure
/// does not fail the batch.
#[derive(Debug)]
pub struct CheckBulkPermissionsPair {
    pub request: CheckBulkPermissionsRequestItem,
    pub response: Result<Permissionship, RpcStatus>,
}

/// The response to a bulk permission check: the token at which the batch
/// was evaluated and the per-item outcomes, in input order.
#[derive(Debug)]
pub struct CheckBulkPermissionsResponse {
    pub checked_at: Option<ZedToken>,
    pub pairs: Vec<CheckBulkPermissionsPair>,
}

impl CheckBulkPermissionsResponse {
    pub fn checked_at(&self) -> (r: Option<&str>)
        ensures
            match r {
                Some(s) => self.checked_at matches Some(t) && s@ == t@,
                None => self.checked_at is None,
            },
    {
        match &self.checked_at {
            Some(t) => Some(t.token.as_str()),
            None => None,
        }
    }
}

/// How an expression node of a permission tree combines its children.
#[derive(Clone, Copy, PartialEq, Eq, Structural, Debug)]
pub enum TreeOperation {
    Union,
    Intersection,
    Exclusion,
}

/// One level of a permission's expression tree. Deep trees are unnested by
/// re-invoking the expansion on child nodes.
#[derive(Debug)]
pub enum PermissionTreeNode {
    /// Direct subjects of the expanded relation.
    Leaf(Vec<SubjectReference>),
    /// An algebraic combination of child trees.
    Expression(TreeOperation, Vec<PermissionRelationshipTree>),
}

/// A permission tree rooted at an expanded object and relation.
#[derive(Debug)]
pub struct PermissionRelationshipTree {
    pub expanded_object: Option<ObjectReference>,
    pub expanded_relation: String,
    pub node: PermissionTreeNode,
}

/// The response to a permission-tree expansion.
#[derive(Debug)]
pub struct ExpandPermissionTreeResponse {
    pub expanded_at: Option<ZedToken>,
    pub tree_root: Option<PermissionRelationshipTree>,
}

impl ExpandPermissionTreeResponse {
    pub fn expanded_at(&self) -> (r: Option<&str>)
        ensures
            match r {
                Some(s) => self.expanded_at matches Some(t) && s@ == t@,
                None => self.expanded_at is None,
            },
    {
        match &self.expanded_at {
            Some(t) => Some(t.token.as_str()),
            None => None,
        }
    }
}

/// One streamed result of a resource lookup: a resource id the subject can
/// access, its permissionship, and the token at which it was evaluated.
#[derive(Clone, Debug)]
pub struct LookupResourcesResponse {
    pub looked_up_at: Option<ZedToken>,
    pub resource_object_id: String,
    pub permissionship: Permissionship,
}

impl LookupResourcesResponse {
    pub fn looked_up_at(&self) -> (r: Option<&str>)
        ensures
            match r {
                Some(s) => self.looked_up_at matches Some(t) && s@ == t@,
                None => self.looked_up_at is None,
            },
    {
        match &self.looked_up_at {
            Some(t) => Some(t.token.as_str()),
            None => None,
        }
    }
}

/// One streamed result of a subject lookup: a subject id with access to
/// the resource and permission, and its permissionship.
#[derive(Clone, Debug)]
pub struct LookupSubjectsResponse {
    pub looked_up_at: Option<ZedToken>,
    pub subject_object_id: String,
    pub permissionship: Permissionship,
}

impl LookupSubjectsResponse {
    pub fn looked_up_at(&self) -> (r: Option<&str>)
        ensures
            match r {
                Some(s) => self.looked_up_at matches Some(t) && s@ == t@,
                None => self.looked_up_at is None,
            },
    {
        match &self.looked_up_at {
            Some(t) => Some(t.token.as_str()),
            None => None,
        }
    }
}

/// One change notification from the watch stream: a batch of relationship
/// mutations and the token at which they became visible.
#[derive(Debug)]
pub struct WatchResponse {
    pub updates: Vec<RelationshipUpdate>,
    pub changes_through: Option<ZedToken>,
}

impl WatchResponse {
    pub fn changes_through(&self) -> (r: Option<&str>)
        ensures
            match r {
                Some(s) => self.changes_through matches Some(t) && s@ == t@,
                None => self.changes_through is None,
            },
    {
        match &self.changes_through {
            Some(t) => Some(t.token.as_str()),
            None => None,
        }
    }
}

} // verus!
