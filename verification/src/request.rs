//! Request envelopes and their mutation builders: reading relationships,
//! writing a batch of relationship updates guarded by preconditions, and the
//! remaining per-operation envelopes the client submits.

use vstd::prelude::*;
use crate::types::{
    ConsistencyRequirement, ConsistencyRequirementView, ContextValue, Cursor,
    PreconditionOperation, RelationshipUpdateOperation, ZedToken,
};
use crate::filter::{
    RelationshipFilter, RelationshipFilterBuilder, RelationshipFilterView, SubjectFilter,
};
use crate::relationship::{
    relationship_of, ObjectReference, Relationship, RelationshipBuilder, RelationshipView,
    SubjectReference,
};

verus! {

/// The view of an optional viewable field.
pub open spec fn view_opt<T: View>(o: Option<T>) -> Option<T::V> {
    match o {
        Some(x) => Some(x@),
        None => None,
    }
}

/// A guard on a write or delete: the operation commits only if the nested
/// filter's match state is as demanded at commit time.
///
/// The operation is absent until one is chosen through
/// [`WriteRelationshipsRequestBuilder::add_precondition`] or a sibling.
#[derive(Debug)]
pub struct Precondition {
    pub operation: Option<PreconditionOperation>,
    pub filter: Option<RelationshipFilter>,
}

/// Spec-level image of [`Precondition`].
#[verifier::ext_equal]
pub struct PreconditionView {
    pub operation: Option<PreconditionOperation>,
    pub filter: Option<RelationshipFilterView>,
}

impl View for Precondition {
    type V = PreconditionView;

    open spec fn view(&self) -> PreconditionView {
        PreconditionView { operation: self.operation, filter: view_opt(self.filter) }
    }
}

impl RelationshipFilterBuilder for Precondition {
    open spec fn filter_view(&self) -> Option<RelationshipFilterView> {
        view_opt(self.filter)
    }

    open spec fn with_filter(&self, f: Option<RelationshipFilterView>) -> PreconditionView {
        PreconditionView { operation: self.operation, filter: f }
    }

    open spec fn clear_creates_filter() -> bool {
        true
    }

    open spec fn empty_view() -> PreconditionView {
        PreconditionView { operation: None, filter: None }
    }

    fn new() -> Precondition {
        Precondition { operation: None, filter: None }
    }

    fn resource_type(&mut self, resource_type: &str) {
        match &mut self.filter {
            Some(f) => f.resource_type(resource_type),
            None => {
                let mut f = RelationshipFilter::new();
                f.resource_type(resource_type);
                self.filter = Some(f);
            },
        }
    }

    fn clear_resource_type(&mut self) {
        match &mut self.filter {
            Some(f) => f.clear_resource_type(),
            None => {
                let mut f = RelationshipFilter::new();
                f.clear_resource_type();
                self.filter = Some(f);
            },
        }
    }

    fn resource_id(&mut self, resource_id: &str) {
        match &mut self.filter {
            Some(f) => f.resource_id(resource_id),
            None => {
                let mut f = RelationshipFilter::new();
                f.resource_id(resource_id);
                self.filter = Some(f);
            },
        }
    }

    fn clear_resource_id(&mut self) {
        match &mut self.filter {
            Some(f) => f.clear_resource_id(),
            None => {
                let mut f = RelationshipFilter::new();
                f.clear_resource_id();
                self.filter = Some(f);
            },
        }
    }

    fn resource_id_prefix(&mut self, resource_id_prefix: &str) {
        match &mut self.filter {
            Some(f) => f.resource_id_prefix(resource_id_prefix),
            None => {
                let mut f = RelationshipFilter::new();
                f.resource_id_prefix(resource_id_prefix);
                self.filter = Some(f);
            },
        }
    }

    fn clear_resource_id_prefix(&mut self) {
        match &mut self.filter {
            Some(f) => f.clear_resource_id_prefix(),
            None => {
                let mut f = RelationshipFilter::new();
                f.clear_resource_id_prefix();
                self.filter = Some(f);
            },
        }
    }

    fn relation(&mut self, relation: &str) {
        match &mut self.filter {
            Some(f) => f.relation(relation),
            None => {
                let mut f = RelationshipFilter::new();
                f.relation(relation);
                self.filter = Some(f);
            },
        }
    }

    fn clear_relation(&mut self) {
        match &mut self.filter {
            Some(f) => f.clear_relation(),
            None => {
                let mut f = RelationshipFilter::new();
                f.clear_relation();
                self.filter = Some(f);
            },
        }
    }

    fn subject_type(&mut self, subject_type: &str) {
        match &mut self.filter {
            Some(f) => f.subject_type(subject_type),
            None => {
                let mut f = RelationshipFilter::new();
                f.subject_type(subject_type);
                self.filter = Some(f);
            },
        }
    }

    fn subject_filter(&self) -> Option<&SubjectFilter> {
        match &self.filter {
            Some(f) => f.subject_filter(),
            None => None,
        }
    }

    fn clear_subject_filter(&mut self) {
        match &mut self.filter {
            Some(f) => f.clear_subject_filter(),
            None => {
                let mut f = RelationshipFilter::new();
                f.clear_subject_filter();
                self.filter = Some(f);
            },
        }
    }
}

/// A request to read the relationships matching a filter, with an optional
/// consistency requirement, an optional page-size hint (0 means use the
/// server default), and an optional continuation cursor.
#[derive(Debug)]
pub struct ReadRelationshipsRequest {
    pub relationship_filter: Option<RelationshipFilter>,
    pub consistency: Option<ConsistencyRequirement>,
    pub optional_limit: u32,
    pub optional_cursor: Option<Cursor>,
}

/// Spec-level image of [`ReadRelationshipsRequest`].
#[verifier::ext_equal]
pub struct ReadRelationshipsRequestView {
    pub filter: Option<RelationshipFilterView>,
    pub consistency: Option<ConsistencyRequirementView>,
    pub limit: u32,
    pub cursor: Option<Seq<char>>,
}

impl View for ReadRelationshipsRequest {
    type V = ReadRelationshipsRequestView;

    open spec fn view(&self) -> ReadRelationshipsRequestView {
        ReadRelationshipsRequestView {
            filter: view_opt(self.relationship_filter),
            consistency: view_opt(self.consistency),
            limit: self.optional_limit,
            cursor: view_opt(self.optional_cursor),
        }
    }
}

/// Mutators over a read-relationships envelope. The nested relationship
/// filter is mutated through [`RelationshipFilterBuilder`], which the
/// envelope also implements.
pub trait ReadRelationshipsRequestBuilder: View<V = ReadRelationshipsRequestView> + Sized {
    fn new() -> (r: Self)
        ensures
            r@ == (ReadRelationshipsRequestView {
                filter: None,
                consistency: None,
                limit: 0,
                cursor: None,
            }),
    ;

    /// The current nested filter, absent when no setter has created it.
    fn relationship_filter(&self) -> (r: Option<&RelationshipFilter>)
        ensures
            view_opt(r) == self@.filter,
    ;

    fn clear_relationship_filter(&mut self)
        ensures
            final(self)@ == (ReadRelationshipsRequestView { filter: None, ..old(self)@ }),
    ;

    fn consistency(&mut self, requirement: ConsistencyRequirement)
        ensures
            final(self)@ == (ReadRelationshipsRequestView {
                consistency: Some(requirement@),
                ..old(self)@
            }),
    ;

    fn clear_consistency(&mut self)
        ensures
            final(self)@ == (ReadRelationshipsRequestView { consistency: None, ..old(self)@ }),
    ;

    fn limit(&mut self, limit: u32)
        ensures
            final(self)@ == (ReadRelationshipsRequestView { limit: limit, ..old(self)@ }),
    ;

    fn clear_limit(&mut self)
        ensures
            final(self)@ == (ReadRelationshipsRequestView { limit: 0, ..old(self)@ }),
    ;

    fn cursor(&mut self, token: &str)
        ensures
            final(self)@ == (ReadRelationshipsRequestView {
                cursor: Some(token@),
                ..old(self)@
            }),
    ;

    fn clear_cursor(&mut self)
        ensures
            final(self)@ == (ReadRelationshipsRequestView { cursor: None, ..old(self)@ }),
    ;
}

impl ReadRelationshipsRequestBuilder for ReadRelationshipsRequest {
    fn new() -> ReadRelationshipsRequest {
        ReadRelationshipsRequest {
            relationship_filter: None,
            consistency: None,
            optional_limit: 0,
            optional_cursor: None,
        }
    }

    fn relationship_filter(&self) -> Option<&RelationshipFilter> {
        self.relationship_filter.as_ref()
    }

    fn clear_relationship_filter(&mut self) {
        self.relationship_filter = None;
    }

    fn consistency(&mut self, requirement: ConsistencyRequirement) {
        self.consistency = Some(requirement);
    }

    fn clear_consistency(&mut self) {
        self.consistency = None;
    }

    fn limit(&mut self, limit: u32) {
        self.optional_limit = limit;
    }

    fn clear_limit(&mut self) {
        self.optional_limit = 0;
    }

    fn cursor(&mut self, token: &str) {
        self.optional_cursor = Some(Cursor { token: token.to_owned() });
    }

    fn clear_cursor(&mut self) {
        self.optional_cursor = None;
    }
}

impl RelationshipFilterBuilder for ReadRelationshipsRequest {
    open spec fn filter_view(&self) -> Option<RelationshipFilterView> {
        view_opt(self.relationship_filter)
    }

    open spec fn with_filter(&self, f: Option<RelationshipFilterView>) -> ReadRelationshipsRequestView {
        ReadRelationshipsRequestView { filter: f, ..self@ }
    }

    /// A `clear` on this envelope leaves an absent nested filter absent.
    open spec fn clear_creates_filter() -> bool {
        false
    }

    open spec fn empty_view() -> ReadRelationshipsRequestView {
        ReadRelationshipsRequestView { filter: None, consistency: None, limit: 0, cursor: None }
    }

    fn new() -> ReadRelationshipsRequest {
        ReadRelationshipsRequestBuilder::new()
    }

    fn resource_type(&mut self, resource_type: &str) {
        match &mut self.relationship_filter {
            Some(f) => f.resource_type(resource_type),
            None => {
                let mut f = RelationshipFilter::new();
                f.resource_type(resource_type);
                self.relationship_filter = Some(f);
            },
        }
    }

    fn clear_resource_type(&mut self) {
        if let Some(f) = &mut self.relationship_filter {
            f.clear_resource_type();
        }
    }

    fn resource_id(&mut self, resource_id: &str) {
        match &mut self.relationship_filter {
            Some(f) => f.resource_id(resource_id),
            None => {
                let mut f = RelationshipFilter::new();
                f.resource_id(resource_id);
                self.relationship_filter = Some(f);
            },
        }
    }

    fn clear_resource_id(&mut self) {
        if let Some(f) = &mut self.relationship_filter {
            f.clear_resource_id();
        }
    }

    fn resource_id_prefix(&mut self, resource_id_prefix: &str) {
        match &mut self.relationship_filter {
            Some(f) => f.resource_id_prefix(resource_id_prefix),
            None => {
                let mut f = RelationshipFilter::new();
                f.resource_id_prefix(resource_id_prefix);
                self.relationship_filter = Some(f);
            },
        }
    }

    fn clear_resource_id_prefix(&mut self) {
        if let Some(f) = &mut self.relationship_filter {
            f.clear_resource_id_prefix();
        }
    }

    fn relation(&mut self, relation: &str) {
        match &mut self.relationship_filter {
            Some(f) => f.relation(relation),
            None => {
                let mut f = RelationshipFilter::new();
                f.relation(relation);
                self.relationship_filter = Some(f);
            },
        }
    }

    fn clear_relation(&mut self) {
        if let Some(f) = &mut self.relationship_filter {
            f.clear_relation();
        }
    }

    fn subject_type(&mut self, subject_type: &str) {
        match &mut self.relationship_filter {
            Some(f) => f.subject_type(subject_type),
            None => {
                let mut f = RelationshipFilter::new();
                f.subject_type(subject_type);
                self.relationship_filter = Some(f);
            },
        }
    }

    fn subject_filter(&self) -> Option<&SubjectFilter> {
        match &self.relationship_filter {
            Some(f) => f.subject_filter(),
            None => None,
        }
    }

    fn clear_subject_filter(&mut self) {
        if let Some(f) = &mut self.relationship_filter {
            f.clear_subject_filter();
        }
    }
}

/// One mutation intent within a batch write: an operation tag and the
/// relationship it applies to.
#[derive(Debug)]
pub struct RelationshipUpdate {
    pub operation: RelationshipUpdateOperation,
    pub relationship: Relationship,
}

/// Spec-level image of [`RelationshipUpdate`].
#[verifier::ext_equal]
pub struct RelationshipUpdateView {
    pub operation: RelationshipUpdateOperation,
    pub relationship: RelationshipView,
}

impl View for RelationshipUpdate {
    type V = RelationshipUpdateView;

    open spec fn view(&self) -> RelationshipUpdateView {
        RelationshipUpdateView { operation: self.operation, relationship: self.relationship@ }
    }
}

/// A request to apply a batch of relationship updates atomically, guarded by
/// an optional set of preconditions.
#[derive(Debug)]
pub struct WriteRelationshipsRequest {
    pub updates: Vec<RelationshipUpdate>,
    pub optional_preconditions: Vec<Precondition>,
}

/// Spec-level image of [`WriteRelationshipsRequest`].
#[verifier::ext_equal]
pub struct WriteRelationshipsRequestView {
    pub updates: Seq<RelationshipUpdateView>,
    pub preconditions: Seq<PreconditionView>,
}

impl View for WriteRelationshipsRequest {
    type V = WriteRelationshipsRequestView;

    open spec fn view(&self) -> WriteRelationshipsRequestView {
        WriteRelationshipsRequestView {
            updates: self.updates@.map_values(|u: RelationshipUpdate| u@),
            preconditions: self.optional_preconditions@.map_values(|p: Precondition| p@),
        }
    }
}

/// Mutators over a write-relationships envelope: seeding and appending
/// updates, and managing the precondition list.
///
/// Each append returns the index of the element it added, so a caller can
/// refine that element in place afterwards.
pub trait WriteRelationshipsRequestBuilder: View<V = WriteRelationshipsRequestView> + Sized {
    fn new(updates: Vec<RelationshipUpdate>) -> (r: Self)
        ensures
            r@ == (WriteRelationshipsRequestView {
                updates: updates@.map_values(|u: RelationshipUpdate| u@),
                preconditions: Seq::empty(),
            }),
    ;

    fn updates(&self) -> (r: &Vec<RelationshipUpdate>)
        ensures
            r@.map_values(|u: RelationshipUpdate| u@) == self@.updates,
    ;

    /// Appends one update built from the given components, with the given
    /// operation tag.
    fn add_relationship_update(
        &mut self,
        operation: RelationshipUpdateOperation,
        object_type: &str,
        object_id: &str,
        relation: &str,
        subject_type: &str,
        subject_id: &str,
    ) -> (i: usize)
        ensures
            final(self)@ == (WriteRelationshipsRequestView {
                updates: old(self)@.updates.push(RelationshipUpdateView {
                    operation: operation,
                    relationship: relationship_of(
                        object_type@,
                        object_id@,
                        relation@,
                        subject_type@,
                        subject_id@,
                    ),
                }),
                ..old(self)@
            }),
            i == old(self)@.updates.len(),
    ;

    /// Appends one update carrying an already built relationship.
    fn add_update(&mut self, operation: RelationshipUpdateOperation, relationship: Relationship) -> (i:
        usize)
        ensures
            final(self)@ == (WriteRelationshipsRequestView {
                updates: old(self)@.updates.push(RelationshipUpdateView {
                    operation: operation,
                    relationship: relationship@,
                }),
                ..old(self)@
            }),
            i == old(self)@.updates.len(),
    ;

    /// Appends one create-operation update.
    fn create_relationship(
        &mut self,
        object_type: &str,
        object_id: &str,
        relation: &str,
        subject_type: &str,
        subject_id: &str,
    ) -> (i: usize)
        ensures
            final(self)@ == (WriteRelationshipsRequestView {
                updates: old(self)@.updates.push(RelationshipUpdateView {
                    operation: RelationshipUpdateOperation::Create,
                    relationship: relationship_of(
                        object_type@,
                        object_id@,
                        relation@,
                        subject_type@,
                        subject_id@,
                    ),
                }),
                ..old(self)@
            }),
            i == old(self)@.updates.len(),
    ;

    /// Appends one touch-operation (upsert) update.
    fn update_relationship(
        &mut self,
        object_type: &str,
        object_id: &str,
        relation: &str,
        subject_type: &str,
        subject_id: &str,
    ) -> (i: usize)
        ensures
            final(self)@ == (WriteRelationshipsRequestView {
                updates: old(self)@.updates.push(RelationshipUpdateView {
                    operation: RelationshipUpdateOperation::Touch,
                    relationship: relationship_of(
                        object_type@,
                        object_id@,
                        relation@,
                        subject_type@,
                        subject_id@,
                    ),
                }),
                ..old(self)@
            }),
            i == old(self)@.updates.len(),
    ;

    /// Appends one delete-operation update.
    fn delete_relationship(
        &mut self,
        object_type: &str,
        object_id: &str,
        relation: &str,
        subject_type: &str,
        subject_id: &str,
    ) -> (i: usize)
        ensures
            final(self)@ == (WriteRelationshipsRequestView {
                updates: old(self)@.updates.push(RelationshipUpdateView {
                    operation: RelationshipUpdateOperation::Delete,
                    relationship: relationship_of(
                        object_type@,
                        object_id@,
                        relation@,
                        subject_type@,
                        subject_id@,
                    ),
                }),
                ..old(self)@
            }),
            i == old(self)@.updates.len(),
    ;

    fn preconditions(&self) -> (r: &Vec<Precondition>)
        ensures
            r@.map_values(|p: Precondition| p@) == self@.preconditions,
    ;

    /// Appends one precondition with the given operation and no filter yet.
    fn add_precondition(&mut self, operation: PreconditionOperation) -> (i: usize)
        ensures
            final(self)@ == (WriteRelationshipsRequestView {
                preconditions: old(self)@.preconditions.push(PreconditionView {
                    operation: Some(operation),
                    filter: None,
                }),
                ..old(self)@
            }),
            i == old(self)@.preconditions.len(),
    ;

    /// Appends one must-match precondition.
    fn match_precondition(&mut self) -> (i: usize)
        ensures
            final(self)@ == (WriteRelationshipsRequestView {
                preconditions: old(self)@.preconditions.push(PreconditionView {
                    operation: Some(PreconditionOperation::MustMatch),
                    filter: None,
                }),
                ..old(self)@
            }),
            i == old(self)@.preconditions.len(),
    ;

    /// Appends one must-not-match precondition.
    fn not_match_precondition(&mut self) -> (i: usize)
        ensures
            final(self)@ == (WriteRelationshipsRequestView {
                preconditions: old(self)@.preconditions.push(PreconditionView {
                    operation: Some(PreconditionOperation::MustNotMatch),
                    filter: None,
                }),
                ..old(self)@
            }),
            i == old(self)@.preconditions.len(),
    ;

    fn clear_preconditions(&mut self)
        ensures
            final(self)@ == (WriteRelationshipsRequestView {
                preconditions: Seq::empty(),
                ..old(self)@
            }),
    ;
}

impl WriteRelationshipsRequestBuilder for WriteRelationshipsRequest {
    fn new(updates: Vec<RelationshipUpdate>) -> WriteRelationshipsRequest {
        WriteRelationshipsRequest { updates, optional_preconditions: Vec::new() }
    }

    fn updates(&self) -> &Vec<RelationshipUpdate> {
        &self.updates
    }

    fn add_relationship_update(
        &mut self,
        operation: RelationshipUpdateOperation,
        object_type: &str,
        object_id: &str,
        relation: &str,
        subject_type: &str,
        subject_id: &str,
    ) -> usize {
        let i = self.updates.len();
        let relationship = Relationship::new(
            object_type,
            object_id,
            relation,
            subject_type,
            subject_id,
        );
        self.updates.push(RelationshipUpdate { operation, relationship });
        i
    }

    fn add_update(
        &mut self,
        operation: RelationshipUpdateOperation,
        relationship: Relationship,
    ) -> usize {
        let i = self.updates.len();
        self.updates.push(RelationshipUpdate { operation, relationship });
        i
    }

    fn create_relationship(
        &mut self,
        object_type: &str,
        object_id: &str,
        relation: &str,
        subject_type: &str,
        subject_id: &str,
    ) -> usize {
        self.add_relationship_update(
            RelationshipUpdateOperation::Create,
            object_type,
            object_id,
            relation,
            subject_type,
            subject_id,
        )
    }

    fn update_relationship(
        &mut self,
        object_type: &str,
        object_id: &str,
        relation: &str,
        subject_type: &str,
        subject_id: &str,
    ) -> usize {
        self.add_relationship_update(
            RelationshipUpdateOperation::Touch,
            object_type,
            object_id,
            relation,
            subject_type,
            subject_id,
        )
    }

    fn delete_relationship(
        &mut self,
        object_type: &str,
        object_id: &str,
        relation: &str,
        subject_type: &str,
        subject_id: &str,
    ) -> usize {
        self.add_relationship_update(
            RelationshipUpdateOperation::Delete,
            object_type,
            object_id,
            relation,
            subject_type,
            subject_id,
        )
    }

    fn preconditions(&self) -> &Vec<Precondition> {
        &self.optional_preconditions
    }

    fn add_precondition(&mut self, operation: PreconditionOperation) -> usize {
        let i = self.optional_preconditions.len();
        self.optional_preconditions.push(Precondition {
            operation: Some(operation),
            filter: None,
        });
        i
    }

    fn match_precondition(&mut self) -> usize {
        self.add_precondition(PreconditionOperation::MustMatch)
    }

    fn not_match_precondition(&mut self) -> usize {
        self.add_precondition(PreconditionOperation::MustNotMatch)
    }

    fn clear_preconditions(&mut self) {
        self.optional_preconditions.clear();
    }
}

/// Every `clear` on a read-relationships envelope is idempotent: clearing
/// a field twice in a row leaves the same envelope as clearing it once.
pub proof fn lemma_read_request_clear_idempotent(v: ReadRelationshipsRequestView)
    ensures
        (ReadRelationshipsRequestView {
            filter: None,
            ..(ReadRelationshipsRequestView { filter: None, ..v })
        }) == (ReadRelationshipsRequestView { filter: None, ..v }),
        (ReadRelationshipsRequestView {
            consistency: None,
            ..(ReadRelationshipsRequestView { consistency: None, ..v })
        }) == (ReadRelationshipsRequestView { consistency: None, ..v }),
        (ReadRelationshipsRequestView {
            limit: 0,
            ..(ReadRelationshipsRequestView { limit: 0, ..v })
        }) == (ReadRelationshipsRequestView { limit: 0, ..v }),
        (ReadRelationshipsRequestView {
            cursor: None,
            ..(ReadRelationshipsRequestView { cursor: None, ..v })
        }) == (ReadRelationshipsRequestView { cursor: None, ..v }),
{
}

/// Clearing the precondition list twice leaves the same envelope as
/// clearing it once.
pub proof fn lemma_write_request_clear_idempotent(v: WriteRelationshipsRequestView)
    ensures
        (WriteRelationshipsRequestView {
            preconditions: Seq::empty(),
            ..(WriteRelationshipsRequestView { preconditions: Seq::empty(), ..v })
        }) == (WriteRelationshipsRequestView { preconditions: Seq::empty(), ..v }),
{
}

/// A request to bulk delete every relationship matching a filter, guarded by
/// optional preconditions. The optional cap limits how many relationships
/// are removed (0 means no cap); when partial deletions are allowed, a
/// capped run deletes a portion and reports partial progress instead of
/// failing.
#[derive(Debug)]
pub struct DeleteRelationshipsRequest {
    pub relationship_filter: Option<RelationshipFilter>,
    pub optional_preconditions: Vec<Precondition>,
    pub optional_limit: u32,
    pub optional_allow_partial_deletions: bool,
}

/// A request to check whether a subject has a permission on a resource,
/// optionally with caveat context and a request for a debug trace.
#[derive(Debug)]
pub struct CheckPermissionRequest {
    pub consistency: Option<ConsistencyRequirement>,
    pub resource: ObjectReference,
    pub permission: String,
    pub subject: SubjectReference,
    pub context: Vec<(String, ContextValue)>,
    pub with_tracing: bool,
}

/// One item of a bulk permission check request.
#[derive(Debug)]
pub struct CheckBulkPermissionsRequestItem {
    pub resource: ObjectReference,
    pub permission: String,
    pub subject: SubjectReference,
    pub context: Vec<(String, ContextValue)>,
}

/// A request to evaluate a list of permission checks in one call.
#[derive(Debug)]
pub struct CheckBulkPermissionsRequest {
    pub consistency: Option<ConsistencyRequirement>,
    pub items: Vec<CheckBulkPermissionsRequestItem>,
}

/// A request to reveal one level of the expression tree of a permission or
/// relation on a resource.
#[derive(Debug)]
pub struct ExpandPermissionTreeRequest {
    pub consistency: Option<ConsistencyRequirement>,
    pub resource: ObjectReference,
    pub permission: String,
}

/// A request to list the resources of a type a subject can access through
/// a permission.
#[derive(Debug)]
pub struct LookupResourcesRequest {
    pub consistency: Option<ConsistencyRequirement>,
    pub resource_object_type: String,
    pub permission: String,
    pub subject: SubjectReference,
    pub context: Vec<(String, ContextValue)>,
    pub optional_limit: u32,
    pub optional_cursor: Option<Cursor>,
}

/// A request to list the subjects of a type with access to a resource
/// through a permission.
#[derive(Debug)]
pub struct LookupSubjectsRequest {
    pub consistency: Option<ConsistencyRequirement>,
    pub resource: ObjectReference,
    pub permission: String,
    pub subject_object_type: String,
    pub optional_subject_relation: Option<String>,
    pub context: Vec<(String, ContextValue)>,
}

/// A request to watch the engine for relationship mutations, optionally
/// restricted to some object types and starting from a given point in the
/// change history.
#[derive(Debug)]
pub struct WatchRequest {
    pub optional_object_types: Vec<String>,
    pub optional_start_cursor: Option<ZedToken>,
}

} // verus!
