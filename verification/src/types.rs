//! Core value types shared by requests and responses: opaque tokens,
//! consistency requirements, operation tags, and the dynamic value model
//! used for caveat context arguments.

use vstd::prelude::*;

verus! {

/// An opaque token marking a point in the engine's change history.
///
/// The client never interprets its internal structure; it only threads it
/// through requests and responses.
#[derive(Clone, Debug)]
pub struct ZedToken {
    pub token: String,
}

impl View for ZedToken {
    type V = Seq<char>;

    open spec fn view(&self) -> Seq<char> {
        self.token@
    }
}

impl ZedToken {
    pub fn new(token: String) -> (r: ZedToken)
        ensures
            r@ == token@,
    {
        ZedToken { token }
    }
}

/// An opaque continuation token for resuming a paginated read.
#[derive(Clone, Debug)]
pub struct Cursor {
    pub token: String,
}

impl View for Cursor {
    type V = Seq<char>;

    open spec fn view(&self) -> Seq<char> {
        self.token@
    }
}

/// How stale a read against the remote engine is allowed to be.
#[derive(Clone, Debug)]
pub enum ConsistencyRequirement {
    /// Serve from the fastest snapshot available.
    MinimizeLatency,
    /// Serve data at least as fresh as the given token.
    AtLeastAsFresh(ZedToken),
    /// Serve data from the exact snapshot the given token names.
    AtExactSnapshot(ZedToken),
    /// Serve fully consistent data.
    FullyConsistent,
}

/// Spec-level image of [`ConsistencyRequirement`].
#[verifier::ext_equal]
pub enum ConsistencyRequirementView {
    MinimizeLatency,
    AtLeastAsFresh(Seq<char>),
    AtExactSnapshot(Seq<char>),
    FullyConsistent,
}

impl View for ConsistencyRequirement {
    type V = ConsistencyRequirementView;

    open spec fn view(&self) -> ConsistencyRequirementView {
        match self {
            ConsistencyRequirement::MinimizeLatency => ConsistencyRequirementView::MinimizeLatency,
            ConsistencyRequirement::AtLeastAsFresh(t) => ConsistencyRequirementView::AtLeastAsFresh(
                t@,
            ),
            ConsistencyRequirement::AtExactSnapshot(t) => ConsistencyRequirementView::AtExactSnapshot(
                t@,
            ),
            ConsistencyRequirement::FullyConsistent => ConsistencyRequirementView::FullyConsistent,
        }
    }
}

/// The mutation intent of one relationship update within a batch write.
#[derive(Clone, Copy, PartialEq, Eq, Structural, Debug)]
pub enum RelationshipUpdateOperation {
    /// Create the relationship; fails if it already exists.
    Create,
    /// Upsert the relationship: create it or leave it in place.
    Touch,
    /// Delete the relationship if it exists.
    Delete,
}

/// What a precondition demands of a write or delete.
#[derive(Clone, Copy, PartialEq, Eq, Structural, Debug)]
pub enum PreconditionOperation {
    /// The filter must match at commit time.
    MustMatch,
    /// The filter must not match at commit time.
    MustNotMatch,
}

/// The verdict of a permission check.
#[derive(Clone, Copy, PartialEq, Eq, Structural, Debug)]
pub enum Permissionship {
    /// The engine did not specify a verdict.
    Unspecified,
    /// The subject does not have the permission.
    NoPermission,
    /// The subject has the permission.
    HasPermission,
    /// The verdict depends on caveat context that was not supplied.
    ConditionalPermission,
}

/// A dynamic structured value passed as a caveat context argument.
///
/// The client does not interpret these beyond passing them through. A
/// numeric value is carried as its decimal text here; the transport layer
/// converts it to the wire's floating-point representation.
#[derive(Debug)]
pub enum ContextValue {
    Null,
    Bool(bool),
    Number(String),
    Text(String),
    List(Vec<ContextValue>),
    Mapping(Vec<(String, ContextValue)>),
}

} // verus!
