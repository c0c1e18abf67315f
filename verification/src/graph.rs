//! The live graph: schemas, their models, and the registry that keeps them.

use vstd::prelude::*;
use vstd::string::StringExecFns;
use once_cell::unsync::OnceCell;
use crate::once::{cell_contents, empty_cell, fill_cell, read_cell};
use crate::template::{ModelTemplate, SchemaTemplate};

verus! {

/// A non-owning reference to a schema: the slot that the schema occupies in
/// a [`Registry`]. Holding one keeps nothing alive.
#[derive(Clone, Copy, Debug, PartialEq, Eq, Structural)]
pub struct SchemaWeakRef {
    pub slot: usize,
}

/// A model: its name and a reference back to the schema that owns it.
#[derive(Debug)]
pub struct Model {
    pub name: String,
    pub schema: SchemaWeakRef,
}

/// A schema: its name and its models, installed once and never changed after.
#[derive(Debug)]
pub struct Schema {
    pub name: String,
    pub models: OnceCell<Vec<Model>>,
}

/// `at` is the position of the first of `models` that is named `name`.
pub open spec fn first_named(models: Seq<Model>, name: Seq<char>, at: int) -> bool {
    &&& 0 <= at < models.len()
    &&& models[at].name@ == name
    &&& forall|i: int| 0 <= i < at ==> (#[trigger] models[i]).name@ != name
}

/// None of `models` is named `name`.
pub open spec fn none_named(models: Seq<Model>, name: Seq<char>) -> bool {
    forall|i: int| 0 <= i < models.len() ==> (#[trigger] models[i]).name@ != name
}

/// `found` is what a lookup of `name` among `models` returns: the first
/// model of that name, or `None` where there is none.
pub open spec fn lookup_gives(models: Seq<Model>, name: Seq<char>, found: Option<&Model>) -> bool {
    match found {
        Some(model) => exists|at: int| first_named(models, name, at) && models[at] == *model,
        None => none_named(models, name),
    }
}

/// Each of `models` refers back to `link`.
pub open spec fn all_refer_to(models: Seq<Model>, link: SchemaWeakRef) -> bool {
    forall|i: int| 0 <= i < models.len() ==> (#[trigger] models[i]).schema == link
}

/// `models` are as many as `names`, and each has the name at its position.
pub open spec fn named_in_order(models: Seq<Model>, names: Seq<Seq<char>>) -> bool {
    &&& models.len() == names.len()
    &&& forall|i: int| 0 <= i < models.len() ==> (#[trigger] models[i]).name@ == names[i]
}

impl Schema {
    /// The models installed in this schema, in their order; `None` while
    /// nothing has been installed.
    pub open spec fn installed(&self) -> Option<Seq<Model>> {
        cell_contents(self.models)
    }

    /// The installed models, in their order; none while nothing has been
    /// installed.
    pub open spec fn model_seq(&self) -> Seq<Model> {
        match self.installed() {
            Some(models) => models,
            None => Seq::empty(),
        }
    }

    /// The names of the installed models, in their order.
    pub open spec fn model_names(&self) -> Seq<Seq<char>> {
        Seq::new(self.model_seq().len(), |i: int| self.model_seq()[i].name@)
    }

    /// This schema is what `template` describes, with every model wired to
    /// `link`: it has the template's name, and its models are installed, one
    /// for each that the template describes, in the template's order and
    /// under the names it gives.
    pub open spec fn realizes(&self, template: SchemaTemplate, link: SchemaWeakRef) -> bool {
        &&& self.name@ == template@.name
        &&& self.installed() is Some
        &&& named_in_order(self.model_seq(), template@.models)
        &&& all_refer_to(self.model_seq(), link)
    }

    /// The models of this schema are installed and each refers back to
    /// `link`.
    pub open spec fn wired_to(&self, link: SchemaWeakRef) -> bool {
        &&& self.installed() is Some
        &&& all_refer_to(self.model_seq(), link)
    }

    /// The installed models, in their order; `None` while nothing has been
    /// installed.
    pub fn models(&self) -> (models: Option<&Vec<Model>>)
        ensures
            match models {
                Some(held) => self.installed() == Some(held@),
                None => self.installed() is None,
            },
    {
        read_cell(&self.models)
    }

    /// A copy of the schema's name.
    pub fn name_text(&self) -> (text: String)
        ensures
            text@ == self.name@,
    {
        self.name.clone()
    }

    /// Looks `name` up among the models, in their order: the first model of
    /// that name, or `None` where no model has it.
    pub fn find_model(&self, name: &str) -> (found: Option<&Model>)
        ensures
            lookup_gives(self.model_seq(), name@, found),
    {
        match read_cell(&self.models) {
            Some(models) => {
                let wanted: String = name.to_owned();
                let mut at: usize = 0;
                while at < models.len()
                    invariant
                        self.model_seq() == models@,
                        wanted@ == name@,
                        at <= models.len(),
                        forall|i: int| 0 <= i < at ==> (#[trigger] models@[i]).name@ != name@,
                    decreases models.len() - at,
                {
                    if models[at].name == wanted {
                        return Some(&models[at]);
                    }
                    at += 1;
                }
                None
            },
            None => None,
        }
    }
}

/// The keeper of every live schema. A schema lives in the slot it was built
/// into, together with its models, for as long as the registry does.
#[derive(Debug)]
pub struct Registry {
    pub(crate) schemas: Vec<Schema>,
}

impl View for Registry {
    type V = Seq<Schema>;

    /// The schemas by slot.
    closed spec fn view(&self) -> Seq<Schema> {
        self.schemas@
    }
}

impl Registry {
    /// `link` refers to a schema that lives in this registry.
    pub open spec fn resolves(&self, link: SchemaWeakRef) -> bool {
        link.slot < self@.len()
    }

    /// The schema that `link` refers to.
    pub open spec fn target(&self, link: SchemaWeakRef) -> Schema
        recommends
            self.resolves(link),
    {
        self@[link.slot as int]
    }

    /// Every schema has its models installed, and every model refers back to
    /// the slot of the schema that owns it. This holds of every registry.
    #[verifier::type_invariant]
    pub open spec fn wf(&self) -> bool {
        forall|slot: usize|
            slot < self@.len() ==> (#[trigger] self.target(SchemaWeakRef { slot })).wired_to(
                SchemaWeakRef { slot },
            )
    }

    /// A registry without schemas.
    pub fn new() -> (registry: Registry)
        ensures
            registry@ == Seq::<Schema>::empty(),
    {
        Registry { schemas: Vec::new() }
    }

    /// The number of schemas.
    pub fn len(&self) -> (count: usize)
        ensures
            count == self@.len(),
    {
        self.schemas.len()
    }

    /// Resolves `link`: the schema in its slot, or `None` where no schema
    /// lives there. A schema that is found has its models installed, and
    /// each of them refers back to `link`.
    pub fn resolve(&self, link: SchemaWeakRef) -> (found: Option<&Schema>)
        ensures
            match found {
                Some(schema) => self.resolves(link) && *schema == self.target(link)
                    && schema.wired_to(link),
                None => !self.resolves(link),
            },
    {
        proof {
            use_type_invariant(self);
            if self.resolves(link) {
                assert(self.target(SchemaWeakRef { slot: link.slot }).wired_to(
                    SchemaWeakRef { slot: link.slot },
                ));
            }
        }
        if link.slot < self.schemas.len() {
            Some(&self.schemas[link.slot])
        } else {
            None
        }
    }
}

impl ModelTemplate {
    /// Builds the described model, wired to `schema`.
    pub fn build(self, schema: SchemaWeakRef) -> (model: Model)
        ensures
            model.name == self.name,
            model.schema == schema,
    {
        Model { name: self.name, schema }
    }
}

impl SchemaTemplate {
    /// Builds the described schema into the next free slot of `registry` and
    /// returns the reference to it.
    ///
    /// The schema gets its identity first, then its models are built against
    /// that identity in the template's order and installed in one step; only
    /// the finished schema enters the registry. The schemas that were there
    /// stay as they were.
    pub fn build(self, registry: &mut Registry) -> (link: SchemaWeakRef)
        ensures
            link.slot == old(registry)@.len(),
            final(registry)@ == old(registry)@.push(final(registry).target(link)),
            final(registry).resolves(link),
            final(registry).target(link).realizes(self, link),
    {
        proof {
            use_type_invariant(&*registry);
        }
        let link = SchemaWeakRef { slot: registry.schemas.len() };
        let ghost described = self.models@;
        let mut schema = Schema { name: self.name, models: empty_cell() };
        let mut models: Vec<Model> = Vec::new();
        for template in iter: self.models
            invariant
                iter.seq() == described,
                models@.len() == iter.index(),
                forall|i: int|
                    0 <= i < models@.len() ==> (#[trigger] models@[i]).name@ == described[i]@
                        && models@[i].schema == link,
        {
            models.push(template.build(link));
        }
        fill_cell(&mut schema.models, models).unwrap();
        // The schemas are taken out while the new one joins them, so that the
        // registry is well-formed at every step.
        let mut schemas: Vec<Schema> = Vec::new();
        std::mem::swap(&mut schemas, &mut registry.schemas);
        schemas.push(schema);
        proof {
            assert forall|slot: usize| slot < schemas@.len() implies (
            #[trigger] schemas@[slot as int]).wired_to(SchemaWeakRef { slot }) by {
                if slot < old(registry)@.len() {
                    assert(old(registry).target(SchemaWeakRef { slot }).wired_to(
                        SchemaWeakRef { slot },
                    ));
                }
            }
        }
        registry.schemas = schemas;
        link
    }
}

impl Model {
    /// Resolves the schema that owns this model and hands it to `action`.
    ///
    /// The reference back must resolve: a model whose schema is gone is a
    /// broken lifecycle, not a case to recover from.
    pub fn with_schema<F, T>(&self, registry: &Registry, action: F) -> (outcome: T) where
        F: FnOnce(&Schema) -> T,

        requires
            registry.resolves(self.schema),
            action.requires((&registry.target(self.schema),)),
        ensures
            action.ensures((&registry.target(self.schema),), outcome),
    {
        let schema = registry.resolve(self.schema).expect(
            "Parent Schema is dead and Model still exists, always delete them together!",
        );
        action(schema)
    }

    /// Writes the name of the owning schema and a line terminator to `out`.
    pub fn print_schema(&self, registry: &Registry, out: &mut String)
        requires
            registry.resolves(self.schema),
        ensures
            final(out)@ == old(out)@ + registry.target(self.schema).name@ + seq!['\n'],
    {
        let name = self.with_schema(registry, Schema::name_text);
        out.append(name.as_str());
        out.append("\n");
        proof {
            reveal_strlit("\n");
        }
    }
}

/// A lookup in a schema built from a template finds a model exactly when the
/// template describes one of the wanted name, and the model found has that
/// name.
pub proof fn lemma_lookup_follows_template(
    schema: Schema,
    template: SchemaTemplate,
    link: SchemaWeakRef,
    name: Seq<char>,
    found: Option<&Model>,
)
    requires
        schema.realizes(template, link),
        lookup_gives(schema.model_seq(), name, found),
    ensures
        found is Some <==> template@.models.contains(name),
        found matches Some(model) ==> model.name@ == name,
{
    let models = schema.model_seq();
    if template@.models.contains(name) {
        let i = choose|i: int| 0 <= i < template@.models.len() && template@.models[i] == name;
        assert(models[i].name@ == name);
    }
}

/// The models of a schema built from a template carry the names that the
/// template lists, in the template's order.
pub proof fn lemma_build_keeps_order(schema: Schema, template: SchemaTemplate, link: SchemaWeakRef)
    requires
        schema.realizes(template, link),
    ensures
        schema.model_names() == template@.models,
{
}

/// Every model of a schema built from a template resolves, in the registry
/// that holds the schema, to that schema; so an action that reads the name
/// of the resolved schema reads the name that the template gives.
pub proof fn lemma_models_see_their_schema(
    registry: Registry,
    template: SchemaTemplate,
    link: SchemaWeakRef,
    at: int,
    seen: String,
)
    requires
        registry.resolves(link),
        registry.target(link).realizes(template, link),
        0 <= at < template@.models.len(),
        call_ensures(
            Schema::name_text,
            (&registry.target(registry.target(link).model_seq()[at].schema),),
            seen,
        ),
    ensures
        registry.target(link).model_seq()[at].schema == link,
        seen@ == template@.name,
{
}

/// A schema that lives in a registry stays in its slot, as it is, when
/// another schema is built into the registry.
pub proof fn lemma_built_schemas_stay(
    before: Registry,
    after: Registry,
    built: Schema,
    link: SchemaWeakRef,
)
    requires
        after@ == before@.push(built),
        before.resolves(link),
    ensures
        after.resolves(link),
        after.target(link) == before.target(link),
{
}

/// In a well-formed registry every schema has its models installed, and
/// each of them refers back to the schema that holds it.
pub proof fn lemma_models_refer_to_owner(registry: Registry, link: SchemaWeakRef)
    requires
        registry.wf(),
        registry.resolves(link),
    ensures
        registry.target(link).wired_to(link),
{
}

/// Two lookups of one name among the same models give the same answer.
pub proof fn lemma_lookup_repeats(
    models: Seq<Model>,
    name: Seq<char>,
    first: Option<&Model>,
    second: Option<&Model>,
)
    requires
        lookup_gives(models, name, first),
        lookup_gives(models, name, second),
    ensures
        first == second,
{
}

} // verus!
