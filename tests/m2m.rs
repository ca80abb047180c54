use m2m_relations::m2m::render;
use m2m_relations::naming::{is_a_column_name, name_relation, pair_foreign_keys, NameSource};
use m2m_relations::output::{Model, ModelField, OutputContext};
use m2m_relations::schema::{
    ExistingRelation, ForeignKey, InputContext, RelationName, RelationNames, Table,
};

fn s(x: &str) -> String {
    x.to_string()
}

fn fk(column: &str, referenced_table: usize) -> ForeignKey {
    ForeignKey { constrained_columns: vec![s(column)], referenced_table }
}

fn plain_table(name: &str) -> Table {
    Table { name: s(name), foreign_keys: vec![], join_table: false }
}

fn names(relation: &str, a: &str, b: &str) -> RelationName {
    RelationName { relation_name: s(relation), field_a: s(a), field_b: s(b) }
}

fn model(name: &str) -> Model {
    Model { name: s(name), fields: vec![] }
}

/// Category (0), Post (1) and a join table (2) with the given foreign keys.
fn category_post(
    fks: Vec<ForeignKey>,
    join_table: bool,
    existing: Option<ExistingRelation>,
    default: RelationName,
) -> (RelationNames, InputContext, OutputContext) {
    let input = InputContext {
        tables: vec![
            plain_table("Category"),
            plain_table("Post"),
            Table { name: s("_CategoryToPost"), foreign_keys: fks, join_table },
        ],
        model_names: vec![s("Category"), s("Post"), s("_CategoryToPost")],
        existing_relations: vec![None, None, existing],
    };
    let relation_names = RelationNames {
        m2m: vec![names("", "x", "y"), names("", "x", "y"), default],
    };
    let output = OutputContext {
        models: vec![model("Category"), model("Post")],
        target_models: vec![Some(0), Some(1), None],
    };
    (relation_names, input, output)
}

fn assert_field(f: &ModelField, name: &str, ty: &str, relation: Option<&str>) {
    assert_eq!(f.name, name);
    assert_eq!(f.field_type, ty);
    assert!(f.array);
    assert_eq!(f.relation_name.as_deref(), relation);
}

#[test]
fn category_to_post_without_existing_relation() {
    let (rn, input, mut output) = category_post(
        vec![fk("A", 0), fk("B", 1)],
        true,
        None,
        names("CategoryToPost", "posts", "categories"),
    );
    render(&rn, &input, &mut output);
    assert_eq!(output.models[0].fields.len(), 1);
    assert_eq!(output.models[1].fields.len(), 1);
    assert_field(&output.models[0].fields[0], "posts", "Post", Some("CategoryToPost"));
    assert_field(&output.models[1].fields[0], "categories", "Category", Some("CategoryToPost"));
}

#[test]
fn leading_column_a_is_endpoint_a_in_any_order_and_case() {
    for (first, second) in [(fk("b", 1), fk("a", 0)), (fk("a", 0), fk("b", 1)), (fk("B", 1), fk("A", 0))]
    {
        let (rn, input, mut output) = category_post(
            vec![first, second],
            true,
            None,
            names("CategoryToPost", "posts", "categories"),
        );
        render(&rn, &input, &mut output);
        assert_field(&output.models[0].fields[0], "posts", "Post", Some("CategoryToPost"));
        assert_field(&output.models[1].fields[0], "categories", "Category", Some("CategoryToPost"));
    }
}

#[test]
fn first_foreign_key_is_endpoint_a_when_no_column_is_a() {
    let (x, y) = (fk("post_id", 1), fk("category_id", 0));
    let (a, b) = pair_foreign_keys(&x, &y);
    assert_eq!(a.referenced_table, 1);
    assert_eq!(b.referenced_table, 0);
    let (x, y) = (fk("a", 1), fk("A", 0));
    let (a, _) = pair_foreign_keys(&x, &y);
    assert_eq!(a.referenced_table, 1);
    let (x, y) = (fk("B", 1), fk("a", 0));
    let (a, _) = pair_foreign_keys(&x, &y);
    assert_eq!(a.referenced_table, 0);
}

#[test]
fn column_name_a_check() {
    assert!(is_a_column_name("a"));
    assert!(is_a_column_name("A"));
    assert!(!is_a_column_name("b"));
    assert!(!is_a_column_name(""));
    assert!(!is_a_column_name("aa"));
    assert!(!is_a_column_name("ä"));
}

#[test]
fn foreign_key_without_columns_is_not_led_by_a() {
    let x = ForeignKey { constrained_columns: vec![], referenced_table: 1 };
    let y = ForeignKey { constrained_columns: vec![], referenced_table: 0 };
    let (a, _) = pair_foreign_keys(&x, &y);
    assert_eq!(a.referenced_table, 1);
}

#[test]
fn empty_relation_name_leaves_fields_unannotated() {
    let (rn, input, mut output) =
        category_post(vec![fk("A", 0), fk("B", 1)], true, None, names("", "posts", "categories"));
    render(&rn, &input, &mut output);
    assert_field(&output.models[0].fields[0], "posts", "Post", None);
    assert_field(&output.models[1].fields[0], "categories", "Category", None);
}

#[test]
fn existing_relation_keeps_custom_names() {
    let existing = ExistingRelation {
        relation_name: s("Tagging"),
        is_self_relation: false,
        field_a: s("articles"),
        field_b: s("tags"),
    };
    let (rn, input, mut output) = category_post(
        vec![fk("A", 0), fk("B", 1)],
        true,
        Some(existing),
        names("CategoryToPost", "posts", "categories"),
    );
    render(&rn, &input, &mut output);
    assert_field(&output.models[0].fields[0], "articles", "Post", Some("Tagging"));
    assert_field(&output.models[1].fields[0], "tags", "Category", Some("Tagging"));
}

#[test]
fn rerun_with_own_output_keeps_names() {
    for default in [names("CategoryToPost", "posts", "categories"), names("", "posts", "categories")] {
        let (rn, input, mut output) =
            category_post(vec![fk("B", 1), fk("A", 0)], true, None, default);
        render(&rn, &input, &mut output);
        let on_a = &output.models[0].fields[0];
        let on_b = &output.models[1].fields[0];
        let recorded = ExistingRelation {
            relation_name: on_a.relation_name.clone().unwrap_or_default(),
            is_self_relation: false,
            field_a: on_a.name.clone(),
            field_b: on_b.name.clone(),
        };
        let (rn2, input2, mut output2) = category_post(
            vec![fk("B", 1), fk("A", 0)],
            true,
            Some(recorded),
            names("Other", "other_a", "other_b"),
        );
        render(&rn2, &input2, &mut output2);
        for m in 0..2 {
            let (f1, f2) = (&output.models[m].fields[0], &output2.models[m].fields[0]);
            assert_eq!(f1.name, f2.name);
            assert_eq!(f1.field_type, f2.field_type);
            assert_eq!(f1.relation_name, f2.relation_name);
        }
    }
}

#[test]
fn self_relation_uses_conventional_field_names() {
    let input = InputContext {
        tables: vec![
            plain_table("User"),
            Table {
                name: s("_FriendToFriend"),
                foreign_keys: vec![fk("A", 0), fk("B", 0)],
                join_table: true,
            },
        ],
        model_names: vec![s("User"), s("_FriendToFriend")],
        existing_relations: vec![
            None,
            Some(ExistingRelation {
                relation_name: s("Friends"),
                is_self_relation: true,
                field_a: s("oldA"),
                field_b: s("oldB"),
            }),
        ],
    };
    let rn = RelationNames {
        m2m: vec![names("", "x", "y"), names("FriendToFriend", "User_A", "User_B")],
    };
    let mut output = OutputContext { models: vec![model("User")], target_models: vec![Some(0), None] };
    render(&rn, &input, &mut output);
    let fields = &output.models[0].fields;
    assert_eq!(fields.len(), 2);
    assert_field(&fields[0], "User_A", "User", Some("Friends"));
    assert_field(&fields[1], "User_B", "User", Some("Friends"));
    assert_ne!(fields[0].name, fields[1].name);
    for f in fields {
        assert_ne!(f.name, "oldA");
        assert_ne!(f.name, "oldB");
    }
}

#[test]
fn name_relation_reports_where_names_came_from() {
    let default = names("CategoryToPost", "posts", "categories");
    match name_relation(&None, &default) {
        NameSource::Synthesized(n) => {
            assert_eq!(n.relation_name, "CategoryToPost");
            assert_eq!(n.field_a, "posts");
            assert_eq!(n.field_b, "categories");
        }
        NameSource::Reused(_) => panic!("expected synthesized names"),
    }
    let existing = Some(ExistingRelation {
        relation_name: s("Friends"),
        is_self_relation: true,
        field_a: s("oldA"),
        field_b: s("oldB"),
    });
    let n = name_relation(&existing, &default).into_names();
    assert_eq!(n.relation_name, "Friends");
    assert_eq!(n.field_a, "posts");
    assert_eq!(n.field_b, "categories");
}

#[test]
fn tables_without_exactly_two_foreign_keys_are_skipped() {
    let cases = vec![
        (vec![], true),
        (vec![fk("A", 0)], true),
        (vec![fk("A", 0), fk("B", 1), fk("C", 1)], true),
        (vec![fk("A", 0), fk("B", 1)], false),
    ];
    for (fks, join_table) in cases {
        let (rn, input, mut output) =
            category_post(fks, join_table, None, names("CategoryToPost", "posts", "categories"));
        render(&rn, &input, &mut output);
        assert!(output.models[0].fields.is_empty());
        assert!(output.models[1].fields.is_empty());
    }
}

#[test]
fn fields_are_appended_after_existing_ones() {
    let (rn, input, mut output) = category_post(
        vec![fk("A", 0), fk("B", 1)],
        true,
        None,
        names("CategoryToPost", "posts", "categories"),
    );
    output.models[0].fields.push(ModelField::new(s("id"), s("Int")));
    render(&rn, &input, &mut output);
    assert_eq!(output.models[0].fields.len(), 2);
    assert_eq!(output.models[0].fields[0].name, "id");
    assert!(!output.models[0].fields[0].array);
    assert_field(&output.models[0].fields[1], "posts", "Post", Some("CategoryToPost"));
}

#[test]
fn join_table_classification() {
    let t = Table { name: s("_AToB"), foreign_keys: vec![fk("A", 0), fk("B", 1)], join_table: true };
    assert!(m2m_relations::m2m::is_join_table(&t));
    let t = Table { name: s("_AToB"), foreign_keys: vec![fk("A", 0), fk("B", 1)], join_table: false };
    assert!(!m2m_relations::m2m::is_join_table(&t));
    let t = Table { name: s("_AToB"), foreign_keys: vec![fk("A", 0)], join_table: true };
    assert!(!m2m_relations::m2m::is_join_table(&t));
}
