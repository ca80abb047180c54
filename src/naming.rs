use vstd::prelude::*;
use crate::schema::{ExistingRelation, ExistingRelationView, existing_view, ForeignKey, NameTriple, RelationName};

verus! {

/// Whether a column name is `a`, compared without regard to ASCII case.
pub open spec fn is_a_name(s: Seq<char>) -> bool {
    s == seq!['a'] || s == seq!['A']
}

/// Tells whether `name` is `a` or `A`.
pub fn is_a_column_name(name: &str) -> (r: bool)
    ensures
        r == is_a_name(name@),
{
    if name.unicode_len() != 1 {
        return false;
    }
    let c = name.get_char(0);
    proof {
        if c == 'a' {
            assert(name@ =~= seq!['a']);
        }
        if c == 'A' {
            assert(name@ =~= seq!['A']);
        }
    }
    c == 'a' || c == 'A'
}


/// Whether the first constrained column of `fk` is named `a` in any case.
pub open spec fn leads_with_a(fk: ForeignKey) -> bool {
    fk.constrained_columns@.len() > 0 && is_a_name(fk.constrained_columns@[0]@)
}

/// Whether `first` (rather than `second`) is endpoint A: the foreign key led
/// by a column `a` is endpoint A, and where neither or both are, the first
/// one is.
pub open spec fn first_is_endpoint_a(first: ForeignKey, second: ForeignKey) -> bool {
    leads_with_a(first) || !leads_with_a(second)
}

pub fn foreign_key_leads_with_a(fk: &ForeignKey) -> (r: bool)
    ensures
        r == leads_with_a(*fk),
{
    if fk.constrained_columns.len() == 0 {
        false
    } else {
        is_a_column_name(fk.constrained_columns[0].as_str())
    }
}

/// Orders two foreign keys as (endpoint A, endpoint B).
pub fn pair_foreign_keys<'a>(first: &'a ForeignKey, second: &'a ForeignKey) -> (r: (
    &'a ForeignKey,
    &'a ForeignKey,
))
    ensures
        first_is_endpoint_a(*first, *second) ==> r == (first, second),
        !first_is_endpoint_a(*first, *second) ==> r == (second, first),
{
    if foreign_key_leads_with_a(first) || !foreign_key_leads_with_a(second) {
        (first, second)
    } else {
        (second, first)
    }
}

/// The names given to a relation: a previously recorded relation keeps its
/// name, and its field names too unless it is a self-relation, whose field
/// names are always the conventional ones; without a record, the
/// conventional names.
pub open spec fn resolved_names(existing: Option<ExistingRelationView>, default: NameTriple) -> NameTriple {
    match existing {
        None => default,
        Some(r) => if r.is_self_relation {
            NameTriple {
                relation_name: r.relation_name,
                field_a: default.field_a,
                field_b: default.field_b,
            }
        } else {
            NameTriple { relation_name: r.relation_name, field_a: r.field_a, field_b: r.field_b }
        },
    }
}

/// Where the names of a relation came from.
pub enum NameSource {
    /// The naming convention alone.
    Synthesized(RelationName),
    /// A previously recorded relation, in part or in whole.
    Reused(RelationName),
}

impl NameSource {
    pub open spec fn names(self) -> RelationName {
        match self {
            NameSource::Synthesized(n) => n,
            NameSource::Reused(n) => n,
        }
    }

    pub fn into_names(self) -> (r: RelationName)
        ensures
            r == self.names(),
    {
        match self {
            NameSource::Synthesized(n) => n,
            NameSource::Reused(n) => n,
        }
    }
}

/// Decides the names of the many-to-many relation of a table from what a
/// previous run recorded and from the conventional default names.
pub fn name_relation(existing: &Option<ExistingRelation>, default: &RelationName) -> (r: NameSource)
    ensures
        r.names()@ == resolved_names(existing_view(*existing), default@),
        r is Reused <==> existing is Some,
{
    match existing {
        None => NameSource::Synthesized(
            RelationName {
                relation_name: default.relation_name.clone(),
                field_a: default.field_a.clone(),
                field_b: default.field_b.clone(),
            },
        ),
        Some(relation) => {
            let relation_name = relation.relation_name.clone();
            if relation.is_self_relation {
                NameSource::Reused(
                    RelationName {
                        relation_name,
                        field_a: default.field_a.clone(),
                        field_b: default.field_b.clone(),
                    },
                )
            } else {
                NameSource::Reused(
                    RelationName {
                        relation_name,
                        field_a: relation.field_a.clone(),
                        field_b: relation.field_b.clone(),
                    },
                )
            }
        },
    }
}


/// A foreign key whose first column is `a` (in either case) is endpoint A
/// whichever of the two foreign keys the schema lists first, provided the
/// other one is not also led by such a column.
pub proof fn lemma_column_a_is_endpoint_a(fk: ForeignKey, other: ForeignKey)
    requires
        fk.constrained_columns@.len() > 0,
        fk.constrained_columns@[0]@ == seq!['a'] || fk.constrained_columns@[0]@ == seq!['A'],
        !leads_with_a(other),
    ensures
        first_is_endpoint_a(fk, other),
        !first_is_endpoint_a(other, fk),
{
}

/// A recorded self-relation keeps its relation name, but its field names
/// are always the conventional ones, never the recorded ones; so the two
/// field names differ whenever the conventional ones do.
pub proof fn lemma_self_relation_field_names(existing: ExistingRelationView, default: NameTriple)
    requires
        existing.is_self_relation,
    ensures
        resolved_names(Some(existing), default).relation_name == existing.relation_name,
        resolved_names(Some(existing), default).field_a == default.field_a,
        resolved_names(Some(existing), default).field_b == default.field_b,
        default.field_a != default.field_b ==> resolved_names(Some(existing), default).field_a
            != resolved_names(Some(existing), default).field_b,
{
}

} // verus!
