use vstd::prelude::*;

verus! {

/// A field of an output model: its name, the name of the model it points at,
/// whether it is a list, and the relation name it is annotated with, if any.
pub struct ModelField {
    pub name: String,
    pub field_type: String,
    pub array: bool,
    pub relation_name: Option<String>,
}

pub ghost struct FieldView {
    pub name: Seq<char>,
    pub field_type: Seq<char>,
    pub array: bool,
    pub relation_name: Option<Seq<char>>,
}

impl View for ModelField {
    type V = FieldView;

    open spec fn view(&self) -> FieldView {
        FieldView {
            name: self.name@,
            field_type: self.field_type@,
            array: self.array,
            relation_name: match self.relation_name {
                Some(n) => Some(n@),
                None => None,
            },
        }
    }
}

impl ModelField {
    /// A scalar field without relation annotation.
    pub fn new(name: String, field_type: String) -> (r: ModelField)
        ensures
            r@ == (FieldView { name: name@, field_type: field_type@, array: false, relation_name: None }),
    {
        ModelField { name, field_type, array: false, relation_name: None }
    }

    /// Makes the field a list.
    pub fn array(&mut self)
        ensures
            final(self)@ == (FieldView { array: true, ..old(self)@ }),
    {
        self.array = true;
    }

    /// Annotates the field with a relation name.
    pub fn relation(&mut self, name: String)
        ensures
            final(self)@ == (FieldView { relation_name: Some(name@), ..old(self)@ }),
    {
        self.relation_name = Some(name);
    }
}

/// A model of the output document, with its fields in order.
pub struct Model {
    pub name: String,
    pub fields: Vec<ModelField>,
}

pub ghost struct ModelView {
    pub name: Seq<char>,
    pub fields: Seq<FieldView>,
}

impl View for Model {
    type V = ModelView;

    open spec fn view(&self) -> ModelView {
        ModelView { name: self.name@, fields: self.fields@.map_values(|f: ModelField| f@) }
    }
}

pub open spec fn models_view(models: Seq<Model>) -> Seq<ModelView> {
    models.map_values(|m: Model| m@)
}

/// Appends `field` to the model at index `model`.
pub open spec fn add_field(models: Seq<ModelView>, model: int, field: FieldView) -> Seq<ModelView> {
    models.update(
        model,
        ModelView { name: models[model].name, fields: models[model].fields.push(field) },
    )
}

/// Appends each field, in order, to the model its index names.
pub open spec fn add_fields(models: Seq<ModelView>, fields: Seq<(int, FieldView)>) -> Seq<ModelView>
    decreases fields.len(),
{
    if fields.len() == 0 {
        models
    } else {
        let (model, field) = fields.last();
        add_field(add_fields(models, fields.drop_last()), model, field)
    }
}

/// The document being produced: its models, and for each table identity the
/// index of the model that stands for it, where there is one.
pub struct OutputContext {
    pub models: Vec<Model>,
    pub target_models: Vec<Option<usize>>,
}

impl OutputContext {
    /// Appends `field` to the model at index `model`, leaving everything
    /// else as it was.
    pub fn push_field(&mut self, model: usize, field: ModelField)
        requires
            model < old(self).models@.len(),
        ensures
            final(self).target_models@ == old(self).target_models@,
            final(self).models@.len() == old(self).models@.len(),
            models_view(final(self).models@) == add_field(
                models_view(old(self).models@),
                model as int,
                field@,
            ),
    {
        let ghost f = field@;
        self.models[model].fields.push(field);
        proof {
            let before = models_view(old(self).models@);
            let after = models_view(self.models@);
            assert(after[model as int].fields =~= before[model as int].fields.push(f));
            assert(after =~= add_field(before, model as int, f));
        }
    }
}

} // verus!
