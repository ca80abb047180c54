use vstd::prelude::*;

verus! {

/// A foreign key of a table: its constrained columns, in order, and the
/// identity (index) of the table it references.
pub struct ForeignKey {
    pub constrained_columns: Vec<String>,
    pub referenced_table: usize,
}

/// A table of the described schema, with its foreign keys in schema order.
/// `join_table` is the schema's own verdict on whether the table is a pure
/// junction table.
pub struct Table {
    pub name: String,
    pub foreign_keys: Vec<ForeignKey>,
    pub join_table: bool,
}

/// What a previous run recorded about the many-to-many relation of a table.
pub struct ExistingRelation {
    pub relation_name: String,
    pub is_self_relation: bool,
    pub field_a: String,
    pub field_b: String,
}

pub ghost struct ExistingRelationView {
    pub relation_name: Seq<char>,
    pub is_self_relation: bool,
    pub field_a: Seq<char>,
    pub field_b: Seq<char>,
}

impl View for ExistingRelation {
    type V = ExistingRelationView;

    open spec fn view(&self) -> ExistingRelationView {
        ExistingRelationView {
            relation_name: self.relation_name@,
            is_self_relation: self.is_self_relation,
            field_a: self.field_a@,
            field_b: self.field_b@,
        }
    }
}

/// The names of a many-to-many relation: the relation itself, the field on
/// the model of endpoint A and the field on the model of endpoint B.
pub struct RelationName {
    pub relation_name: String,
    pub field_a: String,
    pub field_b: String,
}

pub ghost struct NameTriple {
    pub relation_name: Seq<char>,
    pub field_a: Seq<char>,
    pub field_b: Seq<char>,
}

impl View for RelationName {
    type V = NameTriple;

    open spec fn view(&self) -> NameTriple {
        NameTriple {
            relation_name: self.relation_name@,
            field_a: self.field_a@,
            field_b: self.field_b@,
        }
    }
}

pub open spec fn existing_view(e: Option<ExistingRelation>) -> Option<ExistingRelationView> {
    match e {
        Some(r) => Some(r@),
        None => None,
    }
}

/// The schema being introspected, with what is known of each table; every
/// per-table vector is indexed by table identity.
pub struct InputContext {
    pub tables: Vec<Table>,
    /// The name of the model that stands for each table.
    pub model_names: Vec<String>,
    /// The relation a previous run recorded for each table, if any.
    pub existing_relations: Vec<Option<ExistingRelation>>,
}

/// Conventional default names of the many-to-many relation of each table,
/// indexed by table identity.
pub struct RelationNames {
    pub m2m: Vec<RelationName>,
}

impl InputContext {
    /// Every per-table vector covers every table, and every foreign key
    /// references a table of the schema.
    pub open spec fn wf(&self) -> bool {
        &&& self.model_names@.len() == self.tables@.len()
        &&& self.existing_relations@.len() == self.tables@.len()
        &&& forall|t: int, k: int|
            0 <= t < self.tables@.len() && 0 <= k < self.tables@[t].foreign_keys@.len()
                ==> (#[trigger] self.tables@[t].foreign_keys@[k]).referenced_table
                < self.tables@.len()
    }

    pub fn existing_m2m_relation(&self, table: usize) -> (r: &Option<ExistingRelation>)
        requires
            table < self.existing_relations@.len(),
        ensures
            *r == self.existing_relations@[table as int],
    {
        &self.existing_relations[table]
    }

    pub fn table_prisma_name(&self, table: usize) -> (r: &String)
        requires
            table < self.model_names@.len(),
        ensures
            r == self.model_names@[table as int],
    {
        &self.model_names[table]
    }
}

impl RelationNames {
    pub fn m2m_relation_name(&self, table: usize) -> (r: &RelationName)
        requires
            table < self.m2m@.len(),
        ensures
            r == self.m2m@[table as int],
    {
        &self.m2m[table]
    }
}

} // verus!
