//! Relationship tuples: object and subject references, caveats with their
//! context arguments, and the relationship mutation builder.

use vstd::prelude::*;
use crate::types::ContextValue;
use crate::filter::view_opt_string;

verus! {

/// Identifies one object instance: its type and its id.
#[derive(Clone, Debug)]
pub struct ObjectReference {
    pub object_type: String,
    pub object_id: String,
}

/// Spec-level image of [`ObjectReference`].
#[verifier::ext_equal]
pub struct ObjectReferenceView {
    pub object_type: Seq<char>,
    pub object_id: Seq<char>,
}

impl View for ObjectReference {
    type V = ObjectReferenceView;

    open spec fn view(&self) -> ObjectReferenceView {
        ObjectReferenceView {
            object_type: self.object_type@,
            object_id: self.object_id@,
        }
    }
}

/// The subject of a relationship: an object, or, when the relation is set,
/// the set of entities reachable via that relation on the object.
#[derive(Clone, Debug)]
pub struct SubjectReference {
    pub object: ObjectReference,
    pub optional_relation: Option<String>,
}

/// Spec-level image of [`SubjectReference`].
#[verifier::ext_equal]
pub struct SubjectReferenceView {
    pub object: ObjectReferenceView,
    pub relation: Option<Seq<char>>,
}

impl View for SubjectReference {
    type V = SubjectReferenceView;

    open spec fn view(&self) -> SubjectReferenceView {
        SubjectReferenceView {
            object: self.object@,
            relation: view_opt_string(self.optional_relation),
        }
    }
}

/// Inserts the entries of `s` into `m` from left to right; a later entry
/// with the same key overwrites an earlier one.
pub open spec fn insert_entries(
    m: Map<Seq<char>, ContextValue>,
    s: Seq<(String, ContextValue)>,
) -> Map<Seq<char>, ContextValue>
    decreases s.len(),
{
    if s.len() == 0 {
        m
    } else {
        insert_entries(m, s.drop_last()).insert(s.last().0@, s.last().1)
    }
}

/// The keys of a sequence of context entries.
pub open spec fn entry_keys(s: Seq<(String, ContextValue)>) -> Set<Seq<char>> {
    Set::new(|k: Seq<char>| exists|i: int| 0 <= i < s.len() && s[i].0@ == k)
}

/// The value of the last entry of `s` whose key is `k`.
pub open spec fn last_value(s: Seq<(String, ContextValue)>, k: Seq<char>) -> ContextValue
    decreases s.len(),
{
    if s.len() == 0 {
        ContextValue::Null
    } else if s.last().0@ == k {
        s.last().1
    } else {
        last_value(s.drop_last(), k)
    }
}

/// Inserting a concatenation is inserting one part after the other.
pub proof fn lemma_insert_entries_append(
    m: Map<Seq<char>, ContextValue>,
    a: Seq<(String, ContextValue)>,
    b: Seq<(String, ContextValue)>,
)
    ensures
        insert_entries(m, a + b) == insert_entries(insert_entries(m, a), b),
    decreases b.len(),
{
    if b.len() == 0 {
        assert(a + b =~= a);
    } else {
        lemma_insert_entries_append(m, a, b.drop_last());
        assert((a + b).drop_last() =~= a + b.drop_last());
        assert((a + b).last() == b.last());
    }
}

/// What inserting entries does: the domain becomes the union of the old
/// keys and the entries' keys; on an entry key the last entry wins; other
/// keys keep their old value.
pub proof fn lemma_insert_entries_lookup(
    m: Map<Seq<char>, ContextValue>,
    s: Seq<(String, ContextValue)>,
)
    ensures
        insert_entries(m, s).dom() =~= m.dom().union(entry_keys(s)),
        forall|k: Seq<char>|
            entry_keys(s).contains(k) ==> insert_entries(m, s)[k] == last_value(s, k),
        forall|k: Seq<char>|
            m.dom().contains(k) && !entry_keys(s).contains(k)
                ==> insert_entries(m, s)[k] == m[k],
    decreases s.len(),
{
    if s.len() == 0 {
        assert(entry_keys(s) =~= Set::<Seq<char>>::empty());
    } else {
        let d = s.drop_last();
        lemma_insert_entries_lookup(m, d);
        assert forall|k: Seq<char>| #[trigger] entry_keys(s).contains(k) implies
            entry_keys(d).contains(k) || s.last().0@ == k by {
            let i = choose|i: int| 0 <= i < s.len() && s[i].0@ == k;
            if i < s.len() - 1 {
                assert(d[i].0@ == k);
            }
        }
        assert forall|k: Seq<char>| entry_keys(d).contains(k) implies
            #[trigger] entry_keys(s).contains(k) by {
            let i = choose|i: int| 0 <= i < d.len() && d[i].0@ == k;
            assert(s[i].0@ == k);
        }
        assert(entry_keys(s).contains(s.last().0@)) by {
            assert(s[s.len() - 1].0@ == s.last().0@);
        }
        assert forall|k: Seq<char>| entry_keys(s).contains(k) implies
            #[trigger] insert_entries(m, s)[k] == last_value(s, k) by {
            if k == s.last().0@ {
            } else {
                assert(entry_keys(d).contains(k));
                assert(insert_entries(m, s)
                    == insert_entries(m, d).insert(s.last().0@, s.last().1));
                assert(insert_entries(m, s)[k] == insert_entries(m, d)[k]);
                assert(last_value(s, k) == last_value(d, k));
            }
        }
    }
}

/// A caveat attached to a relationship: a named predicate the engine
/// evaluates with the given context arguments.
///
/// The context is kept as the sequence of insertions made through the
/// builder; its meaning is the mapping in which a later insertion of a key
/// overwrites an earlier one, and the transport layer folds it into the
/// wire's map form the same way.
#[derive(Debug)]
pub struct ContextualizedCaveat {
    pub caveat_name: String,
    pub context: Vec<(String, ContextValue)>,
}

/// Spec-level image of [`ContextualizedCaveat`]: the name and the folded
/// context mapping.
#[verifier::ext_equal]
pub struct CaveatView {
    pub name: Seq<char>,
    pub context: Map<Seq<char>, ContextValue>,
}

impl View for ContextualizedCaveat {
    type V = CaveatView;

    open spec fn view(&self) -> CaveatView {
        CaveatView {
            name: self.caveat_name@,
            context: insert_entries(Map::empty(), self.context@),
        }
    }
}

impl ContextualizedCaveat {
    /// Looks a key up in the context mapping: the last inserted value for
    /// that key, or none if the key was never inserted.
    pub fn context_get<'a>(&'a self, key: &String) -> (r: Option<&'a ContextValue>)
        ensures
            match r {
                Some(v) => self@.context.dom().contains(key@) && *v == self@.context[key@],
                None => !self@.context.dom().contains(key@),
            },
    {
        let ghost full = self.context@;
        let mut i: usize = self.context.len();
        while i > 0
            invariant
                i <= self.context.len(),
                self.context@ == full,
                forall|j: int| i <= j < full.len() ==> full[j].0@ != key@,
            decreases i,
        {
            i = i - 1;
            if self.context[i].0 == *key {
                proof {
                    lemma_last_match(full, key@, i as int);
                }
                return Some(&self.context[i].1);
            }
        }
        proof {
            lemma_insert_entries_lookup(Map::empty(), full);
            assert(!entry_keys(full).contains(key@));
        }
        None
    }
}

/// One relationship tuple: "subject has relation to resource", optionally
/// conditioned on a named caveat evaluated with contextual arguments.
#[derive(Debug)]
pub struct Relationship {
    pub resource: ObjectReference,
    pub relation: String,
    pub subject: SubjectReference,
    pub optional_caveat: Option<ContextualizedCaveat>,
}

/// Spec-level image of [`Relationship`].
#[verifier::ext_equal]
pub struct RelationshipView {
    pub resource: ObjectReferenceView,
    pub relation: Seq<char>,
    pub subject: SubjectReferenceView,
    pub caveat: Option<CaveatView>,
}

impl View for Relationship {
    type V = RelationshipView;

    open spec fn view(&self) -> RelationshipView {
        RelationshipView {
            resource: self.resource@,
            relation: self.relation@,
            subject: self.subject@,
            caveat: match self.optional_caveat {
                Some(c) => Some(c@),
                None => None,
            },
        }
    }
}

/// The context mapping of the caveat of `v`, empty when no caveat is
/// attached.
pub open spec fn caveat_context_of(v: RelationshipView) -> Map<Seq<char>, ContextValue> {
    match v.caveat {
        Some(c) => c.context,
        None => Map::empty(),
    }
}

/// The view of the optional entry list handed to
/// [`RelationshipBuilder::caveat`]: the entries, or none at all.
pub open spec fn view_opt_entries(o: Option<Vec<(String, ContextValue)>>) -> Seq<
    (String, ContextValue),
> {
    match o {
        Some(v) => v@,
        None => Seq::empty(),
    }
}

/// The fully populated relationship [`RelationshipBuilder::new`] builds:
/// every required component set, no subject relation, no caveat.
pub open spec fn relationship_of(
    object_type: Seq<char>,
    object_id: Seq<char>,
    relation: Seq<char>,
    subject_type: Seq<char>,
    subject_id: Seq<char>,
) -> RelationshipView {
    RelationshipView {
        resource: ObjectReferenceView { object_type: object_type, object_id: object_id },
        relation: relation,
        subject: SubjectReferenceView {
            object: ObjectReferenceView { object_type: subject_type, object_id: subject_id },
            relation: None,
        },
        caveat: None,
    }
}

/// Mutators over one relationship tuple. `new` populates every required
/// component in one call; the component setters mutate in place.
pub trait RelationshipBuilder: View<V = RelationshipView> + Sized {
    fn new(
        object_type: &str,
        object_id: &str,
        relation: &str,
        subject_type: &str,
        subject_id: &str,
    ) -> (r: Self)
        ensures
            r@ == relationship_of(object_type@, object_id@, relation@, subject_type@, subject_id@),
    ;

    fn object_type(&mut self, object_type: &str)
        ensures
            final(self)@ == (RelationshipView {
                resource: (ObjectReferenceView {
                    object_type: object_type@,
                    ..old(self)@.resource
                }),
                ..old(self)@
            }),
    ;

    fn object_id(&mut self, object_id: &str)
        ensures
            final(self)@ == (RelationshipView {
                resource: (ObjectReferenceView { object_id: object_id@, ..old(self)@.resource }),
                ..old(self)@
            }),
    ;

    fn relation(&mut self, relation: &str)
        ensures
            final(self)@ == (RelationshipView { relation: relation@, ..old(self)@ }),
    ;

    fn subject_type(&mut self, subject_type: &str)
        ensures
            final(self)@ == (RelationshipView {
                subject: (SubjectReferenceView {
                    object: (ObjectReferenceView {
                        object_type: subject_type@,
                        ..old(self)@.subject.object
                    }),
                    ..old(self)@.subject
                }),
                ..old(self)@
            }),
    ;

    fn subject_id(&mut self, subject_id: &str)
        ensures
            final(self)@ == (RelationshipView {
                subject: (SubjectReferenceView {
                    object: (ObjectReferenceView {
                        object_id: subject_id@,
                        ..old(self)@.subject.object
                    }),
                    ..old(self)@.subject
                }),
                ..old(self)@
            }),
    ;

    fn subject_relation(&mut self, subject_relation: &str)
        ensures
            final(self)@ == (RelationshipView {
                subject: (SubjectReferenceView {
                    relation: Some(subject_relation@),
                    ..old(self)@.subject
                }),
                ..old(self)@
            }),
    ;

    fn clear_subject_relation(&mut self)
        ensures
            final(self)@ == (RelationshipView {
                subject: (SubjectReferenceView { relation: None, ..old(self)@.subject }),
                ..old(self)@
            }),
    ;

    /// Attaches a caveat, or renames the one attached, and merges the given
    /// context entries into its argument mapping. A key inserted again
    /// overwrites the value it had, so across calls the mapping holds the
    /// union of the inserted keys with the latest value for each.
    fn caveat(&mut self, name: &str, context: Option<Vec<(String, ContextValue)>>)
        ensures
            final(self)@ == (RelationshipView {
                caveat: Some(CaveatView {
                    name: name@,
                    context: insert_entries(
                        caveat_context_of(old(self)@),
                        view_opt_entries(context),
                    ),
                }),
                ..old(self)@
            }),
    ;

    fn clear_caveat(&mut self)
        ensures
            final(self)@ == (RelationshipView { caveat: None, ..old(self)@ }),
    ;
}

impl RelationshipBuilder for Relationship {
    fn new(
        object_type: &str,
        object_id: &str,
        relation: &str,
        subject_type: &str,
        subject_id: &str,
    ) -> Relationship {
        Relationship {
            resource: ObjectReference {
                object_type: object_type.to_owned(),
                object_id: object_id.to_owned(),
            },
            relation: relation.to_owned(),
            subject: SubjectReference {
                object: ObjectReference {
                    object_type: subject_type.to_owned(),
                    object_id: subject_id.to_owned(),
                },
                optional_relation: None,
            },
            optional_caveat: None,
        }
    }

    fn object_type(&mut self, object_type: &str) {
        self.resource.object_type = object_type.to_owned();
    }

    fn object_id(&mut self, object_id: &str) {
        self.resource.object_id = object_id.to_owned();
    }

    fn relation(&mut self, relation: &str) {
        self.relation = relation.to_owned();
    }

    fn subject_type(&mut self, subject_type: &str) {
        self.subject.object.object_type = subject_type.to_owned();
    }

    fn subject_id(&mut self, subject_id: &str) {
        self.subject.object.object_id = subject_id.to_owned();
    }

    fn subject_relation(&mut self, subject_relation: &str) {
        self.subject.optional_relation = Some(subject_relation.to_owned());
    }

    fn clear_subject_relation(&mut self) {
        self.subject.optional_relation = None;
    }

    fn caveat(&mut self, name: &str, context: Option<Vec<(String, ContextValue)>>) {
        let ghost entries = view_opt_entries(context);
        let mut new_entries = match context {
            Some(v) => v,
            None => Vec::new(),
        };
        match &mut self.optional_caveat {
            Some(c) => {
                let ghost old_log = c.context@;
                c.caveat_name = name.to_owned();
                c.context.append(&mut new_entries);
                proof {
                    lemma_insert_entries_append(Map::empty(), old_log, entries);
                }
            },
            None => {
                self.optional_caveat = Some(ContextualizedCaveat {
                    caveat_name: name.to_owned(),
                    context: new_entries,
                });
            },
        }
    }

    fn clear_caveat(&mut self) {
        self.optional_caveat = None;
    }
}

/// The `clear` operations on a relationship are idempotent: clearing the
/// subject relation or the caveat twice in a row leaves the same
/// relationship as clearing it once.
pub proof fn lemma_relationship_clear_idempotent(v: RelationshipView)
    ensures
        (RelationshipView {
            subject: (SubjectReferenceView {
                relation: None,
                ..(RelationshipView {
                    subject: (SubjectReferenceView { relation: None, ..v.subject }),
                    ..v
                }).subject
            }),
            ..(RelationshipView {
                subject: (SubjectReferenceView { relation: None, ..v.subject }),
                ..v
            })
        }) == (RelationshipView {
            subject: (SubjectReferenceView { relation: None, ..v.subject }),
            ..v
        }),
        (RelationshipView { caveat: None, ..(RelationshipView { caveat: None, ..v }) })
            == (RelationshipView { caveat: None, ..v }),
{
}

/// Merging context across two calls: the mapping's keys are the union of
/// the keys present before and the keys of both entry lists, and on a key
/// of the second list its last entry wins.
pub proof fn lemma_caveat_context_union(
    m: Map<Seq<char>, ContextValue>,
    first: Seq<(String, ContextValue)>,
    second: Seq<(String, ContextValue)>,
)
    ensures
        insert_entries(insert_entries(m, first), second).dom()
            =~= m.dom().union(entry_keys(first)).union(entry_keys(second)),
        forall|k: Seq<char>|
            entry_keys(second).contains(k)
                ==> insert_entries(insert_entries(m, first), second)[k] == last_value(second, k),
        forall|k: Seq<char>|
            entry_keys(first).contains(k) && !entry_keys(second).contains(k)
                ==> insert_entries(insert_entries(m, first), second)[k]
                    == last_value(first, k),
{
    lemma_insert_entries_lookup(m, first);
    lemma_insert_entries_lookup(insert_entries(m, first), second);
}

/// If `s[i]` has key `k` and no later entry does, the folded mapping takes
/// `k` to `s[i]`'s value.
proof fn lemma_last_match(s: Seq<(String, ContextValue)>, k: Seq<char>, i: int)
    requires
        0 <= i < s.len(),
        s[i].0@ == k,
        forall|j: int| i < j < s.len() ==> s[j].0@ != k,
    ensures
        insert_entries(Map::empty(), s).dom().contains(k),
        insert_entries(Map::empty(), s)[k] == s[i].1,
    decreases s.len(),
{
    if i == s.len() - 1 {
        lemma_insert_entries_lookup(Map::empty(), s);
        assert(entry_keys(s).contains(k));
        assert(last_value(s, k) == s[i].1);
    } else {
        lemma_last_match(s.drop_last(), k, i);
    }
}

} // verus!
