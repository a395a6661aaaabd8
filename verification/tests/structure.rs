//! Validation of the input module: every structural fault, and the shape of
//! a successful parse.

use enum_trait_matrix::model::{
    FieldDef, Interface, Item, Method, Module, ReceiverSpec, Shape, StructuralError, SumType,
    TraitItem, Variant,
};
use enum_trait_matrix::parse::ParsedModule;

fn s(x: &str) -> String {
    x.to_string()
}

fn sample_sum() -> SumType {
    SumType {
        attrs: vec![s("#[derive(Clone)]")],
        name: s("Shape"),
        variants: vec![
            Variant { name: s("A"), shape: Shape::Unit },
            Variant {
                name: s("B"),
                shape: Shape::Named(vec![FieldDef { name: s("x"), ty: s("Int") }]),
            },
            Variant { name: s("C"), shape: Shape::Positional(vec![s("Int"), s("Int")]) },
        ],
    }
}

fn sample_interface() -> Interface {
    Interface {
        name: s("Describe"),
        items: vec![TraitItem::MethodItem(Method {
            decl: s("fn describe(&self) -> String;"),
            sig: s("fn describe(&self) -> String"),
            name: s("describe"),
            receiver: Some(ReceiverSpec { by_ref: true, mutable: false }),
            params: vec![],
        })],
    }
}

fn module_with(items: Vec<Item>) -> Module {
    Module { unsafety: false, vis: s("pub"), name: s("shapes"), content: Some(items) }
}

#[test]
fn parse_accepts_a_well_formed_module() {
    let m = module_with(vec![
        Item::Import(s("use std::fmt;")),
        Item::Sum(sample_sum()),
        Item::Iface(sample_interface()),
    ]);
    let pm = ParsedModule::parse(m).unwrap();
    assert_eq!(pm.vis, s("pub"));
    assert_eq!(pm.name, s("shapes"));
    assert_eq!(pm.sum_type, sample_sum());
    assert_eq!(pm.interface, sample_interface());
    assert_eq!(pm.imports, vec![s("use std::fmt;")]);
}

#[test]
fn parse_keeps_imports_in_order() {
    let m = module_with(vec![
        Item::Import(s("use a;")),
        Item::Sum(sample_sum()),
        Item::Import(s("use b;")),
        Item::Iface(sample_interface()),
        Item::Import(s("use c;")),
    ]);
    let pm = ParsedModule::parse(m).unwrap();
    assert_eq!(pm.imports, vec![s("use a;"), s("use b;"), s("use c;")]);
}

#[test]
fn parse_rejects_an_unsafe_module() {
    let m = Module {
        unsafety: true,
        vis: s("pub"),
        name: s("shapes"),
        content: Some(vec![Item::Sum(sample_sum()), Item::Iface(sample_interface())]),
    };
    assert_eq!(ParsedModule::parse(m), Err(StructuralError::UnsafeModule));
}

#[test]
fn parse_rejects_a_module_without_a_body() {
    let m = Module { unsafety: false, vis: s("pub"), name: s("shapes"), content: None };
    assert_eq!(ParsedModule::parse(m), Err(StructuralError::EmptyModule));
}

#[test]
fn parse_rejects_an_invalid_item() {
    let m = module_with(vec![
        Item::Sum(sample_sum()),
        Item::Other,
        Item::Iface(sample_interface()),
    ]);
    assert_eq!(ParsedModule::parse(m), Err(StructuralError::InvalidItem));
}

#[test]
fn parse_rejects_a_duplicate_sum_type() {
    let m = module_with(vec![
        Item::Sum(sample_sum()),
        Item::Sum(sample_sum()),
        Item::Iface(sample_interface()),
    ]);
    assert_eq!(ParsedModule::parse(m), Err(StructuralError::DuplicateSumType));
}

#[test]
fn parse_rejects_a_duplicate_interface() {
    let m = module_with(vec![
        Item::Sum(sample_sum()),
        Item::Iface(sample_interface()),
        Item::Iface(sample_interface()),
    ]);
    assert_eq!(ParsedModule::parse(m), Err(StructuralError::DuplicateInterface));
}

#[test]
fn parse_rejects_a_missing_sum_type() {
    let m = module_with(vec![Item::Iface(sample_interface())]);
    assert_eq!(ParsedModule::parse(m), Err(StructuralError::MissingSumType));
}

#[test]
fn parse_reports_a_missing_sum_type_even_in_an_empty_item_list() {
    let m = module_with(vec![]);
    assert_eq!(ParsedModule::parse(m), Err(StructuralError::MissingSumType));
}

#[test]
fn parse_rejects_a_missing_interface() {
    let m = module_with(vec![Item::Sum(sample_sum())]);
    assert_eq!(ParsedModule::parse(m), Err(StructuralError::MissingInterface));
}

#[test]
fn the_first_fault_in_item_order_wins() {
    // An invalid item stands before the second sum type, so it is reported.
    let m = module_with(vec![
        Item::Sum(sample_sum()),
        Item::Other,
        Item::Sum(sample_sum()),
    ]);
    assert_eq!(ParsedModule::parse(m), Err(StructuralError::InvalidItem));
    // The second sum type stands before the invalid item, so it is reported.
    let m = module_with(vec![
        Item::Sum(sample_sum()),
        Item::Sum(sample_sum()),
        Item::Other,
    ]);
    assert_eq!(ParsedModule::parse(m), Err(StructuralError::DuplicateSumType));
}

#[test]
fn the_unsafe_marker_outranks_a_missing_body() {
    let m = Module { unsafety: true, vis: s(""), name: s("m"), content: None };
    assert_eq!(ParsedModule::parse(m), Err(StructuralError::UnsafeModule));
}
