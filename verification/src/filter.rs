//! Relationship filters and subject filters, with their mutation builders.
//!
//! A [`RelationshipFilter`] locates relationships by resource type, by
//! resource id or id prefix (mutually exclusive, made structural by
//! [`ResourceIdFilter`]), by relation, and by an optional nested
//! [`SubjectFilter`]. The builder traits are implemented both by the filter
//! types themselves and by request envelopes that carry a nested filter.

use vstd::prelude::*;

verus! {

/// The view of an optional string field: the character sequence, if present.
pub open spec fn view_opt_string(o: Option<String>) -> Option<Seq<char>> {
    match o {
        Some(s) => Some(s@),
        None => None,
    }
}

/// How a filter locates resources by identity: not at all, by exact id, or
/// by id prefix.
///
/// Only one strategy can be active at a time; holding the choice as one
/// tagged value makes an id/prefix conflict unrepresentable rather than
/// merely checked.
#[derive(Clone, Debug)]
pub enum ResourceIdFilter {
    /// No identity constraint.
    Unset,
    /// Match the one resource with exactly this id.
    ById(String),
    /// Match every resource whose id starts with this prefix.
    ByPrefix(String),
}

/// Spec-level image of [`ResourceIdFilter`].
#[verifier::ext_equal]
pub enum ResourceIdFilterView {
    Unset,
    ById(Seq<char>),
    ByPrefix(Seq<char>),
}

impl View for ResourceIdFilter {
    type V = ResourceIdFilterView;

    open spec fn view(&self) -> ResourceIdFilterView {
        match self {
            ResourceIdFilter::Unset => ResourceIdFilterView::Unset,
            ResourceIdFilter::ById(s) => ResourceIdFilterView::ById(s@),
            ResourceIdFilter::ByPrefix(s) => ResourceIdFilterView::ByPrefix(s@),
        }
    }
}

/// A filter on the subject of a relationship, used only for querying.
///
/// The subject type is mandatory; the subject id and the subject-side
/// relation filter are optional.
#[derive(Clone, Debug)]
pub struct SubjectFilter {
    pub subject_type: String,
    pub optional_subject_id: Option<String>,
    pub optional_relation: Option<String>,
}

/// Spec-level image of [`SubjectFilter`].
#[verifier::ext_equal]
pub struct SubjectFilterView {
    pub subject_type: Seq<char>,
    pub subject_id: Option<Seq<char>>,
    pub relation: Option<Seq<char>>,
}

impl View for SubjectFilter {
    type V = SubjectFilterView;

    open spec fn view(&self) -> SubjectFilterView {
        SubjectFilterView {
            subject_type: self.subject_type@,
            subject_id: view_opt_string(self.optional_subject_id),
            relation: view_opt_string(self.optional_relation),
        }
    }
}

/// Mutators over a subject filter. Construction requires the subject type;
/// every optional field has a setter and a `clear` counterpart.
pub trait SubjectFilterBuilder: View<V = SubjectFilterView> + Sized {
    fn new(subject_type: &str) -> (r: Self)
        ensures
            r@ == (SubjectFilterView {
                subject_type: subject_type@,
                subject_id: None,
                relation: None,
            }),
    ;

    fn subject_type(&mut self, subject_type: &str)
        ensures
            final(self)@ == (SubjectFilterView { subject_type: subject_type@, ..old(self)@ }),
    ;

    fn subject_id(&mut self, subject_id: &str)
        ensures
            final(self)@ == (SubjectFilterView {
                subject_id: Some(subject_id@),
                ..old(self)@
            }),
    ;

    fn clear_subject_id(&mut self)
        ensures
            final(self)@ == (SubjectFilterView { subject_id: None, ..old(self)@ }),
    ;

    fn relation(&mut self, relation: &str)
        ensures
            final(self)@ == (SubjectFilterView { relation: Some(relation@), ..old(self)@ }),
    ;

    fn clear_relation(&mut self)
        ensures
            final(self)@ == (SubjectFilterView { relation: None, ..old(self)@ }),
    ;
}

impl SubjectFilterBuilder for SubjectFilter {
    fn new(subject_type: &str) -> SubjectFilter {
        SubjectFilter {
            subject_type: subject_type.to_owned(),
            optional_subject_id: None,
            optional_relation: None,
        }
    }

    fn subject_type(&mut self, subject_type: &str) {
        self.subject_type = subject_type.to_owned();
    }

    fn subject_id(&mut self, subject_id: &str) {
        self.optional_subject_id = Some(subject_id.to_owned());
    }

    fn clear_subject_id(&mut self) {
        self.optional_subject_id = None;
    }

    fn relation(&mut self, relation: &str) {
        self.optional_relation = Some(relation.to_owned());
    }

    fn clear_relation(&mut self) {
        self.optional_relation = None;
    }
}

/// A filter over relationships: resource type, an optional identity
/// constraint (id or prefix), an optional relation, and an optional subject
/// filter.
///
/// The empty resource type means "not constrained by type", matching the
/// wire convention of an empty string.
#[derive(Clone, Debug)]
pub struct RelationshipFilter {
    pub resource_type: String,
    pub resource_id_filter: ResourceIdFilter,
    pub optional_relation: Option<String>,
    pub optional_subject_filter: Option<SubjectFilter>,
}

/// Spec-level image of [`RelationshipFilter`].
#[verifier::ext_equal]
pub struct RelationshipFilterView {
    pub resource_type: Seq<char>,
    pub resource_id_filter: ResourceIdFilterView,
    pub relation: Option<Seq<char>>,
    pub subject_filter: Option<SubjectFilterView>,
}

impl View for RelationshipFilter {
    type V = RelationshipFilterView;

    open spec fn view(&self) -> RelationshipFilterView {
        RelationshipFilterView {
            resource_type: self.resource_type@,
            resource_id_filter: self.resource_id_filter@,
            relation: view_opt_string(self.optional_relation),
            subject_filter: match self.optional_subject_filter {
                Some(f) => Some(f@),
                None => None,
            },
        }
    }
}

impl RelationshipFilterView {
    /// The filter that constrains nothing.
    pub open spec fn empty() -> RelationshipFilterView {
        RelationshipFilterView {
            resource_type: Seq::empty(),
            resource_id_filter: ResourceIdFilterView::Unset,
            relation: None,
            subject_filter: None,
        }
    }

    pub open spec fn with_resource_type(self, t: Seq<char>) -> RelationshipFilterView {
        RelationshipFilterView { resource_type: t, ..self }
    }

    /// Setting an id activates the by-id strategy, displacing any prefix.
    pub open spec fn with_resource_id(self, id: Seq<char>) -> RelationshipFilterView {
        RelationshipFilterView { resource_id_filter: ResourceIdFilterView::ById(id), ..self }
    }

    /// Setting a prefix activates the by-prefix strategy, displacing any id.
    pub open spec fn with_resource_id_prefix(self, p: Seq<char>) -> RelationshipFilterView {
        RelationshipFilterView { resource_id_filter: ResourceIdFilterView::ByPrefix(p), ..self }
    }

    pub open spec fn with_relation(self, r: Seq<char>) -> RelationshipFilterView {
        RelationshipFilterView { relation: Some(r), ..self }
    }

    /// Sets the subject type, keeping any other subject-filter fields that
    /// were already present.
    pub open spec fn with_subject_type(self, t: Seq<char>) -> RelationshipFilterView {
        RelationshipFilterView {
            subject_filter: Some(SubjectFilterView {
                subject_type: t,
                ..match self.subject_filter {
                    Some(sf) => sf,
                    None => SubjectFilterView { subject_type: Seq::empty(), subject_id: None, relation: None },
                }
            }),
            ..self
        }
    }

    pub open spec fn cleared_resource_type(self) -> RelationshipFilterView {
        RelationshipFilterView { resource_type: Seq::empty(), ..self }
    }

    /// Drops the id constraint if the by-id strategy is active; a prefix
    /// constraint is left in place.
    pub open spec fn cleared_resource_id(self) -> RelationshipFilterView {
        if self.resource_id_filter is ById {
            RelationshipFilterView { resource_id_filter: ResourceIdFilterView::Unset, ..self }
        } else {
            self
        }
    }

    /// Drops the prefix constraint if the by-prefix strategy is active; an
    /// id constraint is left in place.
    pub open spec fn cleared_resource_id_prefix(self) -> RelationshipFilterView {
        if self.resource_id_filter is ByPrefix {
            RelationshipFilterView { resource_id_filter: ResourceIdFilterView::Unset, ..self }
        } else {
            self
        }
    }

    pub open spec fn cleared_relation(self) -> RelationshipFilterView {
        RelationshipFilterView { relation: None, ..self }
    }

    pub open spec fn cleared_subject_filter(self) -> RelationshipFilterView {
        RelationshipFilterView { subject_filter: None, ..self }
    }
}

/// Applies `g` to a possibly absent filter. An absent filter is first
/// created empty when `create_if_absent` holds, and otherwise left absent.
pub open spec fn update_filter(
    f: Option<RelationshipFilterView>,
    create_if_absent: bool,
    g: spec_fn(RelationshipFilterView) -> RelationshipFilterView,
) -> Option<RelationshipFilterView> {
    match f {
        Some(x) => Some(g(x)),
        None => if create_if_absent {
            Some(g(RelationshipFilterView::empty()))
        } else {
            None
        },
    }
}

/// Mutators over a relationship filter, implemented by the filter itself
/// and by envelopes that carry one as a nested optional field.
///
/// On an envelope, a setter creates the nested filter on first use; whether
/// a `clear` does too is the implementor's choice, exposed as
/// [`clear_creates_filter`](Self::clear_creates_filter).
pub trait RelationshipFilterBuilder: View + Sized {
    /// The nested filter this builder currently carries, absent when it has
    /// not been created yet.
    spec fn filter_view(&self) -> Option<RelationshipFilterView>;

    /// The view of `self` with the nested filter replaced and everything
    /// else unchanged.
    spec fn with_filter(&self, f: Option<RelationshipFilterView>) -> Self::V;

    /// Whether a `clear` operation creates an absent nested filter (as an
    /// empty one) rather than leaving it absent.
    spec fn clear_creates_filter() -> bool;

    /// The view of the builder `new` returns.
    spec fn empty_view() -> Self::V;

    fn new() -> (r: Self)
        ensures
            r@ == Self::empty_view(),
    ;

    fn resource_type(&mut self, resource_type: &str)
        ensures
            final(self)@ == old(self).with_filter(update_filter(
                old(self).filter_view(),
                true,
                |f: RelationshipFilterView| f.with_resource_type(resource_type@),
            )),
    ;

    fn clear_resource_type(&mut self)
        ensures
            final(self)@ == old(self).with_filter(update_filter(
                old(self).filter_view(),
                Self::clear_creates_filter(),
                |f: RelationshipFilterView| f.cleared_resource_type(),
            )),
    ;

    /// Sets the resource id. This displaces any previously set resource id
    /// prefix: only one locates-by-identity strategy is active at a time.
    fn resource_id(&mut self, resource_id: &str)
        ensures
            final(self)@ == old(self).with_filter(update_filter(
                old(self).filter_view(),
                true,
                |f: RelationshipFilterView| f.with_resource_id(resource_id@),
            )),
    ;

    fn clear_resource_id(&mut self)
        ensures
            final(self)@ == old(self).with_filter(update_filter(
                old(self).filter_view(),
                Self::clear_creates_filter(),
                |f: RelationshipFilterView| f.cleared_resource_id(),
            )),
    ;

    /// Sets the resource id prefix. This displaces any previously set
    /// resource id: only one locates-by-identity strategy is active at a
    /// time.
    fn resource_id_prefix(&mut self, resource_id_prefix: &str)
        ensures
            final(self)@ == old(self).with_filter(update_filter(
                old(self).filter_view(),
                true,
                |f: RelationshipFilterView| f.with_resource_id_prefix(resource_id_prefix@),
            )),
    ;

    fn clear_resource_id_prefix(&mut self)
        ensures
            final(self)@ == old(self).with_filter(update_filter(
                old(self).filter_view(),
                Self::clear_creates_filter(),
                |f: RelationshipFilterView| f.cleared_resource_id_prefix(),
            )),
    ;

    fn relation(&mut self, relation: &str)
        ensures
            final(self)@ == old(self).with_filter(update_filter(
                old(self).filter_view(),
                true,
                |f: RelationshipFilterView| f.with_relation(relation@),
            )),
    ;

    fn clear_relation(&mut self)
        ensures
            final(self)@ == old(self).with_filter(update_filter(
                old(self).filter_view(),
                Self::clear_creates_filter(),
                |f: RelationshipFilterView| f.cleared_relation(),
            )),
    ;

    /// Sets the subject type on the nested subject filter, creating filter
    /// and subject filter as needed and keeping any other subject-filter
    /// fields already present.
    fn subject_type(&mut self, subject_type: &str)
        ensures
            final(self)@ == old(self).with_filter(update_filter(
                old(self).filter_view(),
                true,
                |f: RelationshipFilterView| f.with_subject_type(subject_type@),
            )),
    ;

    /// The current subject filter, absent when the nested filter or its
    /// subject filter has not been created.
    fn subject_filter(&self) -> (r: Option<&SubjectFilter>)
        ensures
            match r {
                Some(sf) => self.filter_view() matches Some(f) && f.subject_filter == Some(sf@),
                None => match self.filter_view() {
                    Some(f) => f.subject_filter is None,
                    None => true,
                },
            },
    ;

    fn clear_subject_filter(&mut self)
        ensures
            final(self)@ == old(self).with_filter(update_filter(
                old(self).filter_view(),
                Self::clear_creates_filter(),
                |f: RelationshipFilterView| f.cleared_subject_filter(),
            )),
    ;
}

impl RelationshipFilterBuilder for RelationshipFilter {
    open spec fn filter_view(&self) -> Option<RelationshipFilterView> {
        Some(self@)
    }

    open spec fn with_filter(&self, f: Option<RelationshipFilterView>) -> RelationshipFilterView {
        match f {
            Some(x) => x,
            None => RelationshipFilterView::empty(),
        }
    }

    open spec fn clear_creates_filter() -> bool {
        true
    }

    open spec fn empty_view() -> RelationshipFilterView {
        RelationshipFilterView::empty()
    }

    fn new() -> RelationshipFilter {
        RelationshipFilter {
            resource_type: String::new(),
            resource_id_filter: ResourceIdFilter::Unset,
            optional_relation: None,
            optional_subject_filter: None,
        }
    }

    fn resource_type(&mut self, resource_type: &str) {
        self.resource_type = resource_type.to_owned();
    }

    fn clear_resource_type(&mut self) {
        self.resource_type = String::new();
    }

    fn resource_id(&mut self, resource_id: &str) {
        self.resource_id_filter = ResourceIdFilter::ById(resource_id.to_owned());
    }

    fn clear_resource_id(&mut self) {
        if let ResourceIdFilter::ById(_) = &self.resource_id_filter {
            self.resource_id_filter = ResourceIdFilter::Unset;
        }
    }

    fn resource_id_prefix(&mut self, resource_id_prefix: &str) {
        self.resource_id_filter = ResourceIdFilter::ByPrefix(resource_id_prefix.to_owned());
    }

    fn clear_resource_id_prefix(&mut self) {
        if let ResourceIdFilter::ByPrefix(_) = &self.resource_id_filter {
            self.resource_id_filter = ResourceIdFilter::Unset;
        }
    }

    fn relation(&mut self, relation: &str) {
        self.optional_relation = Some(relation.to_owned());
    }

    fn clear_relation(&mut self) {
        self.optional_relation = None;
    }

    fn subject_type(&mut self, subject_type: &str) {
        match &mut self.optional_subject_filter {
            Some(sf) => {
                sf.subject_type = subject_type.to_owned();
            },
            None => {
                self.optional_subject_filter = Some(SubjectFilter::new(subject_type));
            },
        }
    }

    fn subject_filter(&self) -> Option<&SubjectFilter> {
        self.optional_subject_filter.as_ref()
    }

    fn clear_subject_filter(&mut self) {
        self.optional_subject_filter = None;
    }
}

/// Exclusivity of the identity strategies: no filter ever constrains by id
/// and by prefix at the same time. The choice is one tagged value, so the
/// conflict is unrepresentable.
pub proof fn lemma_resource_id_exclusive(f: RelationshipFilterView)
    ensures
        !(f.resource_id_filter is ById && f.resource_id_filter is ByPrefix),
{
}

/// Every `clear` on a relationship filter is idempotent: clearing a field
/// twice in a row leaves the same filter as clearing it once.
pub proof fn lemma_filter_clear_idempotent(f: RelationshipFilterView)
    ensures
        f.cleared_resource_type().cleared_resource_type() == f.cleared_resource_type(),
        f.cleared_resource_id().cleared_resource_id() == f.cleared_resource_id(),
        f.cleared_resource_id_prefix().cleared_resource_id_prefix()
            == f.cleared_resource_id_prefix(),
        f.cleared_relation().cleared_relation() == f.cleared_relation(),
        f.cleared_subject_filter().cleared_subject_filter() == f.cleared_subject_filter(),
{
}

/// An idempotent mutation of the nested filter is idempotent on the
/// envelope that carries it, whether or not a `clear` creates the filter.
pub proof fn lemma_update_filter_idempotent(
    f: Option<RelationshipFilterView>,
    create_if_absent: bool,
    g: spec_fn(RelationshipFilterView) -> RelationshipFilterView,
)
    requires
        forall|x: RelationshipFilterView| #[trigger] g(g(x)) == g(x),
    ensures
        update_filter(update_filter(f, create_if_absent, g), create_if_absent, g)
            == update_filter(f, create_if_absent, g),
{
}

/// Every `clear` on a subject filter is idempotent.
pub proof fn lemma_subject_filter_clear_idempotent(v: SubjectFilterView)
    ensures
        (SubjectFilterView { subject_id: None, ..(SubjectFilterView { subject_id: None, ..v }) })
            == (SubjectFilterView { subject_id: None, ..v }),
        (SubjectFilterView { relation: None, ..(SubjectFilterView { relation: None, ..v }) })
            == (SubjectFilterView { relation: None, ..v }),
{
}

/// Setting the id and then the prefix leaves the prefix active and the id
/// cleared, and vice versa.
pub proof fn lemma_resource_id_displacement(f: RelationshipFilterView, id: Seq<char>, p: Seq<char>)
    ensures
        f.with_resource_id(id).with_resource_id_prefix(p).resource_id_filter
            == ResourceIdFilterView::ByPrefix(p),
        f.with_resource_id_prefix(p).with_resource_id(id).resource_id_filter
            == ResourceIdFilterView::ById(id),
{
}

} // verus!
