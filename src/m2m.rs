use vstd::prelude::*;
use crate::naming::{first_is_endpoint_a, name_relation, pair_foreign_keys, resolved_names};
use crate::output::{add_field, add_fields, models_view, FieldView, ModelField, OutputContext};
use crate::schema::{
    existing_view, ExistingRelationView, ForeignKey, InputContext, NameTriple, RelationNames, Table,
};

verus! {

pub open spec fn names_view(names: Seq<String>) -> Seq<Seq<char>> {
    names.map_values(|s: String| s@)
}

/// A table holds an implicit many-to-many relation when the schema deems it
/// a join table and it has exactly two foreign keys.
pub open spec fn is_m2m_table(t: Table) -> bool {
    t.join_table && t.foreign_keys@.len() == 2
}

/// The two foreign keys of a many-to-many table, as (endpoint A, endpoint B).
pub open spec fn endpoints(t: Table) -> (ForeignKey, ForeignKey) {
    let first = t.foreign_keys@[0];
    let second = t.foreign_keys@[1];
    if first_is_endpoint_a(first, second) {
        (first, second)
    } else {
        (second, first)
    }
}

/// The index of the output model that stands for the table `fk` references.
pub open spec fn target_of(fk: ForeignKey, targets: Seq<Option<usize>>) -> int {
    targets[fk.referenced_table as int].unwrap() as int
}

/// The list field pointing at the model of the table `to` references, named
/// `field_name` and annotated with `relation_name` unless that is empty.
pub open spec fn m2m_field(
    to: ForeignKey,
    relation_name: Seq<char>,
    field_name: Seq<char>,
    model_names: Seq<Seq<char>>,
) -> FieldView {
    FieldView {
        name: field_name,
        field_type: model_names[to.referenced_table as int],
        array: true,
        relation_name: if relation_name.len() == 0 {
            None
        } else {
            Some(relation_name)
        },
    }
}

/// The fields a table contributes, each with the index of the model it is
/// appended to: none unless the table holds a many-to-many relation, and
/// then one on each endpoint's model, pointing at the other.
pub open spec fn table_fields(
    t: Table,
    existing: Option<ExistingRelationView>,
    default: NameTriple,
    model_names: Seq<Seq<char>>,
    targets: Seq<Option<usize>>,
) -> Seq<(int, FieldView)> {
    if !is_m2m_table(t) {
        seq![]
    } else {
        let (a, b) = endpoints(t);
        let n = resolved_names(existing, default);
        seq![
            (target_of(a, targets), m2m_field(b, n.relation_name, n.field_a, model_names)),
            (target_of(b, targets), m2m_field(a, n.relation_name, n.field_b, model_names)),
        ]
    }
}

/// The fields contributed by the first `k` tables, in table order.
pub open spec fn emitted_fields(
    input: InputContext,
    names: RelationNames,
    targets: Seq<Option<usize>>,
    k: int,
) -> Seq<(int, FieldView)>
    decreases k,
{
    if k <= 0 {
        seq![]
    } else {
        emitted_fields(input, names, targets, k - 1) + table_fields(
            input.tables@[k - 1],
            existing_view(input.existing_relations@[k - 1]),
            names.m2m@[k - 1]@,
            names_view(input.model_names@),
            targets,
        )
    }
}

/// Tells whether `table` holds an implicit many-to-many relation.
pub fn is_join_table(table: &Table) -> (r: bool)
    ensures
        r == is_m2m_table(*table),
{
    table.join_table && table.foreign_keys.len() == 2
}

/// Every table referenced by a many-to-many table has a model in `output`.
pub open spec fn targets_cover(input: InputContext, output: OutputContext) -> bool {
    &&& output.target_models@.len() == input.tables@.len()
    &&& forall|t: int, k: int|
        0 <= t < input.tables@.len() && is_m2m_table(input.tables@[t]) && 0 <= k < 2 ==> {
            let r = (#[trigger] input.tables@[t].foreign_keys@[k]).referenced_table as int;
            &&& output.target_models@[r] is Some
            &&& output.target_models@[r].unwrap() < output.models@.len()
        }
}

/// Appends to the model of `fk`'s table a list field named `field_name`
/// that points at the model of `other_fk`'s table, annotated with
/// `relation_name` unless that is empty.
pub fn calculate_many_to_many_field(
    fk: &ForeignKey,
    other_fk: &ForeignKey,
    relation_name: String,
    field_name: String,
    input: &InputContext,
    output: &mut OutputContext,
)
    requires
        other_fk.referenced_table < input.model_names@.len(),
        fk.referenced_table < old(output).target_models@.len(),
        old(output).target_models@[fk.referenced_table as int] is Some,
        old(output).target_models@[fk.referenced_table as int].unwrap() < old(
            output,
        ).models@.len(),
    ensures
        final(output).target_models@ == old(output).target_models@,
        final(output).models@.len() == old(output).models@.len(),
        models_view(final(output).models@) == add_field(
            models_view(old(output).models@),
            target_of(*fk, old(output).target_models@),
            m2m_field(*other_fk, relation_name@, field_name@, names_view(input.model_names@)),
        ),
{
    let opposite_model_name = input.table_prisma_name(other_fk.referenced_table).clone();
    let mut field = ModelField::new(field_name, opposite_model_name);
    field.array();
    if !relation_name.as_str().is_empty() {
        field.relation(relation_name);
    }
    let model = output.target_models[fk.referenced_table].unwrap();
    output.push_field(model, field);
}


/// Adds, for every table holding a many-to-many relation, one list field on
/// each endpoint's model pointing at the other, named after what a previous
/// run recorded or else after the naming convention. Tables are taken in
/// schema order, and nothing but these fields changes in the output.
pub fn render(relation_names: &RelationNames, input: &InputContext, output: &mut OutputContext)
    requires
        input.wf(),
        relation_names.m2m@.len() == input.tables@.len(),
        targets_cover(*input, *old(output)),
    ensures
        final(output).target_models@ == old(output).target_models@,
        final(output).models@.len() == old(output).models@.len(),
        models_view(final(output).models@) == add_fields(
            models_view(old(output).models@),
            emitted_fields(
                *input,
                *relation_names,
                old(output).target_models@,
                input.tables@.len() as int,
            ),
        ),
{
    let ghost targets = output.target_models@;
    let ghost models0 = models_view(output.models@);
    let ghost model_names = names_view(input.model_names@);
    let mut i: usize = 0;
    while i < input.tables.len()
        invariant
            i <= input.tables@.len(),
            input.wf(),
            relation_names.m2m@.len() == input.tables@.len(),
            output.target_models@ == targets,
            model_names == names_view(input.model_names@),
            output.models@.len() == models0.len(),
            targets_cover(*input, *output),
            models_view(output.models@) == add_fields(
                models0,
                emitted_fields(*input, *relation_names, targets, i as int),
            ),
        decreases input.tables@.len() - i,
    {
        let table = &input.tables[i];
        let ghost before = emitted_fields(*input, *relation_names, targets, i as int);
        if is_join_table(table) {
            let (fk_a, fk_b) = pair_foreign_keys(&table.foreign_keys[0], &table.foreign_keys[1]);
            let names = name_relation(
                input.existing_m2m_relation(i),
                relation_names.m2m_relation_name(i),
            ).into_names();
            let ghost n = names@;
            let ghost m_before = models_view(output.models@);
            calculate_many_to_many_field(
                fk_a,
                fk_b,
                names.relation_name.clone(),
                names.field_a,
                input,
                output,
            );
            let ghost m_mid = models_view(output.models@);
            calculate_many_to_many_field(fk_b, fk_a, names.relation_name, names.field_b, input, output);
            proof {
                let x = (target_of(*fk_a, targets), m2m_field(*fk_b, n.relation_name, n.field_a, model_names));
                let y = (target_of(*fk_b, targets), m2m_field(*fk_a, n.relation_name, n.field_b, model_names));
                let t = input.tables@[i as int];
                assert(m_mid == add_field(m_before, x.0, x.1));
                assert(models_view(output.models@) == add_field(m_mid, y.0, y.1));
                assert(endpoints(t) == (*fk_a, *fk_b));
                let tf = table_fields(
                    t,
                    existing_view(input.existing_relations@[i as int]),
                    relation_names.m2m@[i as int]@,
                    names_view(input.model_names@),
                    targets,
                );
                assert(tf =~= seq![x, y]);
                let after = emitted_fields(*input, *relation_names, targets, i + 1);
                assert(after =~= before.push(x).push(y));
                assert(after.drop_last() =~= before.push(x));
                assert(before.push(x).drop_last() =~= before);
                assert(add_fields(models0, before.push(x)) == add_field(
                    add_fields(models0, before),
                    x.0,
                    x.1,
                ));
                assert(add_fields(models0, after) == add_field(
                    add_fields(models0, before.push(x)),
                    y.0,
                    y.1,
                ));
            }
        } else {
            proof {
                let after = emitted_fields(*input, *relation_names, targets, i + 1);
                assert(after =~= before);
            }
        }
        i = i + 1;
    }
}


/// A table holding a many-to-many relation contributes exactly two fields,
/// one on the model of each referenced table, each a list pointing at the
/// model of the other referenced table.
pub proof fn lemma_two_mirror_fields(
    t: Table,
    existing: Option<ExistingRelationView>,
    default: NameTriple,
    model_names: Seq<Seq<char>>,
    targets: Seq<Option<usize>>,
)
    requires
        is_m2m_table(t),
    ensures
        ({
            let f = table_fields(t, existing, default, model_names, targets);
            let first = t.foreign_keys@[0];
            let second = t.foreign_keys@[1];
            &&& f.len() == 2
            &&& f[0].1.array && f[1].1.array
            &&& {
                ||| f[0].0 == target_of(first, targets) && f[0].1.field_type
                    == model_names[second.referenced_table as int] && f[1].0 == target_of(
                    second,
                    targets,
                ) && f[1].1.field_type == model_names[first.referenced_table as int]
                ||| f[0].0 == target_of(second, targets) && f[0].1.field_type
                    == model_names[first.referenced_table as int] && f[1].0 == target_of(
                    first,
                    targets,
                ) && f[1].1.field_type == model_names[second.referenced_table as int]
            }
        }),
{
}

/// A relation named by the empty string still yields both list fields, of
/// the right types, but neither carries a relation annotation.
pub proof fn lemma_empty_relation_name_unannotated(
    t: Table,
    existing: Option<ExistingRelationView>,
    default: NameTriple,
    model_names: Seq<Seq<char>>,
    targets: Seq<Option<usize>>,
)
    requires
        is_m2m_table(t),
        resolved_names(existing, default).relation_name.len() == 0,
    ensures
        ({
            let f = table_fields(t, existing, default, model_names, targets);
            let (a, b) = endpoints(t);
            &&& f.len() == 2
            &&& f[0].1.relation_name is None && f[1].1.relation_name is None
            &&& f[0].1.array && f[1].1.array
            &&& f[0].1.field_type == model_names[b.referenced_table as int]
            &&& f[1].1.field_type == model_names[a.referenced_table as int]
        }),
{
}

/// The relation a later run reads back from the two fields that one run
/// produced for a table: the annotation on endpoint A's field (the empty
/// name where there is none) and the two field names.
pub open spec fn relation_read_back(
    on_a: FieldView,
    on_b: FieldView,
    is_self_relation: bool,
) -> ExistingRelationView {
    ExistingRelationView {
        relation_name: match on_a.relation_name {
            Some(n) => n,
            None => seq![],
        },
        is_self_relation,
        field_a: on_a.name,
        field_b: on_b.name,
    }
}

/// Running again with what a run produced as the recorded relation keeps
/// the relation name, and, for a relation that is not a self-relation, the
/// very same fields.
pub proof fn lemma_rerun_keeps_names(
    t: Table,
    existing: Option<ExistingRelationView>,
    default: NameTriple,
    model_names: Seq<Seq<char>>,
    targets: Seq<Option<usize>>,
    is_self_relation: bool,
)
    requires
        is_m2m_table(t),
    ensures
        ({
            let first = table_fields(t, existing, default, model_names, targets);
            let recorded = relation_read_back(first[0].1, first[1].1, is_self_relation);
            let second = table_fields(t, Some(recorded), default, model_names, targets);
            &&& second.len() == 2
            &&& second[0].1.relation_name == first[0].1.relation_name
            &&& second[1].1.relation_name == first[1].1.relation_name
            &&& !is_self_relation ==> second == first
        }),
{
    let first = table_fields(t, existing, default, model_names, targets);
    let n = resolved_names(existing, default);
    let recorded = relation_read_back(first[0].1, first[1].1, is_self_relation);
    assert(recorded.relation_name =~= n.relation_name);
    let second = table_fields(t, Some(recorded), default, model_names, targets);
    if !is_self_relation {
        assert(second =~= first);
    }
}

} // verus!
