use schema_graph::graph::{Model, Registry, Schema, SchemaWeakRef};
use schema_graph::template::{ModelTemplate, SchemaTemplate};

fn described(name: &str, models: &[&str]) -> SchemaTemplate {
    SchemaTemplate {
        name: name.to_string(),
        models: models.iter().map(|m| ModelTemplate { name: m.to_string() }).collect(),
    }
}

fn names(schema: &Schema) -> Vec<String> {
    schema.models().unwrap().iter().map(|m| m.name.clone()).collect()
}

#[test]
fn model_template_builds_a_wired_model() {
    let link = SchemaWeakRef { slot: 7 };
    let model = ModelTemplate { name: "testo".to_string() }.build(link);
    assert_eq!(model.name, "testo");
    assert_eq!(model.schema, SchemaWeakRef { slot: 7 });
}

#[test]
fn new_registry_is_empty() {
    let registry = Registry::new();
    assert_eq!(registry.len(), 0);
    assert!(registry.resolve(SchemaWeakRef { slot: 0 }).is_none());
}

#[test]
fn build_takes_the_next_free_slot() {
    let mut registry = Registry::new();
    let first = described("a", &["x"]).build(&mut registry);
    let second = described("b", &["y", "z"]).build(&mut registry);
    assert_eq!(first, SchemaWeakRef { slot: 0 });
    assert_eq!(second, SchemaWeakRef { slot: 1 });
    assert_eq!(registry.len(), 2);
}

#[test]
fn build_installs_name_and_models() {
    let mut registry = Registry::new();
    let link = described("test", &["testo"]).build(&mut registry);
    let schema = registry.resolve(link).unwrap();
    assert_eq!(schema.name, "test");
    let models = schema.models().unwrap();
    assert_eq!(models.len(), 1);
    assert_eq!(models[0].name, "testo");
    assert_eq!(models[0].schema, link);
}

#[test]
fn build_installs_into_the_cell_exactly_once() {
    let mut registry = Registry::new();
    let link = described("test", &["a", "b"]).build(&mut registry);
    let schema = registry.resolve(link).unwrap();
    let held = schema.models.get().unwrap();
    assert_eq!(held.len(), 2);
    let late = vec![Model { name: "late".to_string(), schema: link }];
    let refused = schema.models.set(late);
    assert_eq!(refused.unwrap_err()[0].name, "late");
    assert_eq!(names(schema), vec!["a".to_string(), "b".to_string()]);
}

#[test]
fn build_keeps_the_template_order() {
    let wanted = ["delta", "alpha", "charlie", "bravo", "alpha"];
    let mut registry = Registry::new();
    let link = described("ordered", &wanted).build(&mut registry);
    let schema = registry.resolve(link).unwrap();
    assert_eq!(names(schema), wanted.iter().map(|n| n.to_string()).collect::<Vec<_>>());
}

#[test]
fn build_leaves_earlier_schemas_alone() {
    let mut registry = Registry::new();
    let first = described("first", &["a", "b"]).build(&mut registry);
    let second = described("second", &["c"]).build(&mut registry);
    let earlier = registry.resolve(first).unwrap();
    assert_eq!(earlier.name, "first");
    assert_eq!(names(earlier), vec!["a".to_string(), "b".to_string()]);
    assert!(earlier.models().unwrap().iter().all(|m| m.schema == first));
    let later = registry.resolve(second).unwrap();
    assert_eq!(later.name, "second");
    assert_eq!(names(later), vec!["c".to_string()]);
    assert!(later.models().unwrap().iter().all(|m| m.schema == second));
}

#[test]
fn find_model_finds_each_described_name() {
    let wanted = ["user", "order", "item"];
    let mut registry = Registry::new();
    let link = described("shop", &wanted).build(&mut registry);
    let schema = registry.resolve(link).unwrap();
    for name in wanted {
        assert_eq!(schema.find_model(name).unwrap().name, name);
    }
}

#[test]
fn find_model_finds_no_other_name() {
    let mut registry = Registry::new();
    let link = described("shop", &["user", "order"]).build(&mut registry);
    let schema = registry.resolve(link).unwrap();
    assert!(schema.find_model("item").is_none());
    assert!(schema.find_model("").is_none());
    assert!(schema.find_model("shop").is_none());
}

#[test]
fn find_model_matches_the_whole_name_exactly() {
    let mut registry = Registry::new();
    let link = described("shop", &["user"]).build(&mut registry);
    let schema = registry.resolve(link).unwrap();
    assert!(schema.find_model("User").is_none());
    assert!(schema.find_model("use").is_none());
    assert!(schema.find_model("users").is_none());
    assert!(schema.find_model(" user").is_none());
    assert!(schema.find_model("user").is_some());
}

#[test]
fn find_model_returns_the_first_of_equal_names() {
    let mut registry = Registry::new();
    let link = described("shop", &["a", "twin", "b", "twin"]).build(&mut registry);
    let schema = registry.resolve(link).unwrap();
    let found = schema.find_model("twin").unwrap();
    let models = schema.models().unwrap();
    assert!(std::ptr::eq(found, &models[1]));
    assert!(!std::ptr::eq(found, &models[3]));
}

#[test]
fn find_model_handles_empty_and_non_ascii_names() {
    let mut registry = Registry::new();
    let link = described("shop", &["", "modèle", "模型"]).build(&mut registry);
    let schema = registry.resolve(link).unwrap();
    assert!(std::ptr::eq(schema.find_model("").unwrap(), &schema.models().unwrap()[0]));
    assert_eq!(schema.find_model("modèle").unwrap().name, "modèle");
    assert_eq!(schema.find_model("模型").unwrap().name, "模型");
    assert!(schema.find_model("modele").is_none());
}

#[test]
fn find_model_gives_the_same_answer_again() {
    let mut registry = Registry::new();
    let link = described("shop", &["user", "order"]).build(&mut registry);
    let schema = registry.resolve(link).unwrap();
    let first = schema.find_model("order").unwrap();
    let second = schema.find_model("order").unwrap();
    assert!(std::ptr::eq(first, second));
    assert!(schema.find_model("nothing").is_none());
    assert!(schema.find_model("nothing").is_none());
    assert_eq!(names(schema), vec!["user".to_string(), "order".to_string()]);
}

#[test]
fn find_model_on_a_schema_without_installed_models() {
    let bare = Schema { name: "bare".to_string(), models: Default::default() };
    assert!(bare.models().is_none());
    assert!(bare.find_model("anything").is_none());
}

#[test]
fn resolve_finds_the_schema_in_its_slot() {
    let mut registry = Registry::new();
    let first = described("first", &[]).build(&mut registry);
    let second = described("second", &[]).build(&mut registry);
    assert_eq!(registry.resolve(first).unwrap().name, "first");
    assert_eq!(registry.resolve(second).unwrap().name, "second");
}

#[test]
fn resolve_refuses_a_link_to_no_schema() {
    let mut registry = Registry::new();
    described("only", &["m"]).build(&mut registry);
    assert!(registry.resolve(SchemaWeakRef { slot: 1 }).is_none());
    assert!(registry.resolve(SchemaWeakRef { slot: usize::MAX }).is_none());
}

#[test]
fn with_schema_hands_the_owner_to_the_action() {
    let mut registry = Registry::new();
    described("other", &["x"]).build(&mut registry);
    let link = described("test", &["testo", "second"]).build(&mut registry);
    let schema = registry.resolve(link).unwrap();
    for model in schema.models().unwrap() {
        assert_eq!(model.with_schema(&registry, |owner| owner.name.clone()), "test");
        assert!(model.with_schema(&registry, |owner| std::ptr::eq(owner, schema)));
    }
}

#[test]
fn with_schema_returns_what_the_action_returns() {
    let mut registry = Registry::new();
    let link = described("test", &["a", "b", "c"]).build(&mut registry);
    let model = registry.resolve(link).unwrap().find_model("b").unwrap();
    let count = model.with_schema(&registry, |owner| owner.models().unwrap().len());
    assert_eq!(count, 3);
    assert_eq!(model.with_schema(&registry, Schema::name_text), "test");
}

#[test]
fn print_schema_writes_the_name_and_a_line_end() {
    let mut registry = Registry::new();
    let link = described("test", &["testo"]).build(&mut registry);
    let model = registry.resolve(link).unwrap().find_model("testo").unwrap();
    let mut out = String::new();
    model.print_schema(&registry, &mut out);
    assert_eq!(out, "test\n");
}

#[test]
fn print_schema_appends_to_what_was_written() {
    let mut registry = Registry::new();
    let link = described("schéma", &["a", "b"]).build(&mut registry);
    let schema = registry.resolve(link).unwrap();
    let mut out = String::from("> ");
    schema.find_model("a").unwrap().print_schema(&registry, &mut out);
    schema.find_model("b").unwrap().print_schema(&registry, &mut out);
    assert_eq!(out, "> schéma\nschéma\n");
}

#[test]
fn name_text_copies_the_name() {
    let schema = Schema { name: "test".to_string(), models: Default::default() };
    assert_eq!(schema.name_text(), "test");
}

#[test]
fn scenario_one_model() {
    let mut registry = Registry::new();
    let link = described("test", &["testo"]).build(&mut registry);
    let schema = registry.resolve(link).unwrap();
    let model = schema.find_model("testo").unwrap();
    assert_eq!(model.name, "testo");
    let seen = model.with_schema(&registry, |owner| owner.name.clone());
    assert_eq!(seen, "test");
    let mut out = String::new();
    model.print_schema(&registry, &mut out);
    assert_eq!(out, "test\n");
}

#[test]
fn scenario_no_models() {
    let mut registry = Registry::new();
    let link = described("test", &[]).build(&mut registry);
    let schema = registry.resolve(link).unwrap();
    assert_eq!(schema.name, "test");
    assert_eq!(schema.models().unwrap().len(), 0);
    assert!(schema.find_model("anything").is_none());
}
