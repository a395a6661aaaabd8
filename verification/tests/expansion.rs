//! The emitters and the runtime meaning of their output: carriers,
//! conversions, the expanded sum type, dispatch, and one full expansion.

use enum_trait_matrix::dispatch::{
    dispatch_of, receiver_mode, Arm, ArmPattern, ArmTarget, ReceiverMode,
};
use enum_trait_matrix::emit::{
    carriers_of, conversions_of, expanded_sum_of, reemit_interface,
};
use enum_trait_matrix::expand::expand;
use enum_trait_matrix::model::{
    FieldDef, Interface, Item, Method, Module, ReceiverSpec, Shape, StructuralError, SumType,
    TraitItem, Variant,
};
use enum_trait_matrix::semantics::{
    apply_conversion, forward, CarrierValue, ForwardTarget, SumValue,
};

fn s(x: &str) -> String {
    x.to_string()
}

fn sample_sum() -> SumType {
    SumType {
        attrs: vec![s("#[derive(Clone)]")],
        name: s("Shape"),
        variants: vec![
            Variant { name: s("A"), shape: Shape::Unit },
            Variant {
                name: s("B"),
                shape: Shape::Named(vec![FieldDef { name: s("x"), ty: s("Int") }]),
            },
            Variant { name: s("C"), shape: Shape::Positional(vec![s("Int"), s("Int")]) },
        ],
    }
}

fn describe_method() -> Method {
    Method {
        decl: s("fn describe(&self) -> String;"),
        sig: s("fn describe(&self) -> String"),
        name: s("describe"),
        receiver: Some(ReceiverSpec { by_ref: true, mutable: false }),
        params: vec![],
    }
}

fn sample_interface() -> Interface {
    Interface { name: s("Describe"), items: vec![TraitItem::MethodItem(describe_method())] }
}

#[test]
fn one_carrier_per_variant_with_matching_shape() {
    let sum = sample_sum();
    let carriers = carriers_of(&sum);
    assert_eq!(carriers.len(), sum.variants.len());
    for (carrier, variant) in carriers.iter().zip(sum.variants.iter()) {
        assert_eq!(carrier.name, variant.name);
        assert_eq!(carrier.shape, variant.shape);
        assert_eq!(carrier.attrs, sum.attrs);
    }
}

#[test]
fn one_conversion_per_variant_into_the_sum_type() {
    let sum = sample_sum();
    let conversions = conversions_of(&sum);
    assert_eq!(conversions.len(), 3);
    for (conversion, variant) in conversions.iter().zip(sum.variants.iter()) {
        assert_eq!(conversion.carrier, variant.name);
        assert_eq!(conversion.target, s("Shape"));
    }
    assert!(conversions[0].unit);
    assert!(!conversions[1].unit);
    assert!(!conversions[2].unit);
}

#[test]
fn a_non_unit_conversion_round_trips_its_payload() {
    let sum = sample_sum();
    let conversions = conversions_of(&sum);
    let payload = CarrierValue { data: vec![s("7")] };
    let result = apply_conversion(&conversions[1], payload);
    match result {
        SumValue::Wrapped { variant, payload } => {
            assert_eq!(variant, s("B"));
            assert_eq!(payload, CarrierValue { data: vec![s("7")] });
        },
        SumValue::UnitVariant { .. } => panic!("a named variant must wrap its payload"),
    }
}

#[test]
fn a_unit_conversion_is_constant() {
    let sum = sample_sum();
    let conversions = conversions_of(&sum);
    let one = apply_conversion(&conversions[0], CarrierValue { data: vec![] });
    let other = apply_conversion(&conversions[0], CarrierValue { data: vec![s("ignored")] });
    assert_eq!(one, other);
    assert_eq!(one, SumValue::UnitVariant { variant: s("A") });
}

#[test]
fn the_expanded_sum_type_wraps_non_unit_variants() {
    let sum = sample_sum();
    let expanded = expanded_sum_of(&sum);
    assert_eq!(expanded.name, s("Shape"));
    assert_eq!(expanded.attrs, sum.attrs);
    assert_eq!(expanded.variants.len(), 3);
    assert_eq!(expanded.variants[0].name, s("A"));
    assert_eq!(expanded.variants[0].payload, None);
    assert_eq!(expanded.variants[1].name, s("B"));
    assert_eq!(expanded.variants[1].payload, Some(s("B")));
    assert_eq!(expanded.variants[2].name, s("C"));
    assert_eq!(expanded.variants[2].payload, Some(s("C")));
}

#[test]
fn the_interface_is_re_emitted_unchanged() {
    let iface = sample_interface();
    assert_eq!(reemit_interface(&iface), sample_interface());
}

#[test]
fn receiver_modes_follow_the_declared_receiver() {
    assert_eq!(
        receiver_mode(&ReceiverSpec { by_ref: false, mutable: false }),
        ReceiverMode::ByValue
    );
    assert_eq!(
        receiver_mode(&ReceiverSpec { by_ref: false, mutable: true }),
        ReceiverMode::ByValue
    );
    assert_eq!(receiver_mode(&ReceiverSpec { by_ref: true, mutable: false }), ReceiverMode::ByRef);
    assert_eq!(
        receiver_mode(&ReceiverSpec { by_ref: true, mutable: true }),
        ReceiverMode::ByMutRef
    );
}

#[test]
fn a_method_without_a_receiver_is_rejected() {
    let sum = sample_sum();
    let iface = Interface {
        name: s("Describe"),
        items: vec![TraitItem::MethodItem(Method {
            decl: s("fn describe(target: Shape) -> String;"),
            sig: s("fn describe(target: Shape) -> String"),
            name: s("describe"),
            receiver: None,
            params: vec![s("target")],
        })],
    };
    assert_eq!(dispatch_of(&sum, &iface), Err(StructuralError::MissingReceiver));
}

#[test]
fn an_expansion_fails_on_a_method_without_a_receiver() {
    let iface = Interface {
        name: s("Describe"),
        items: vec![TraitItem::MethodItem(Method {
            decl: s("fn describe(target: Shape) -> String;"),
            sig: s("fn describe(target: Shape) -> String"),
            name: s("describe"),
            receiver: None,
            params: vec![s("target")],
        })],
    };
    let m = Module {
        unsafety: false,
        vis: s("pub"),
        name: s("shapes"),
        content: Some(vec![Item::Sum(sample_sum()), Item::Iface(iface)]),
    };
    assert_eq!(expand(m), Err(StructuralError::MissingReceiver));
}

#[test]
fn dispatch_has_one_arm_per_variant() {
    let sum = sample_sum();
    let iface = sample_interface();
    let dispatch = dispatch_of(&sum, &iface).unwrap();
    assert_eq!(dispatch.trait_name, s("Describe"));
    assert_eq!(dispatch.enum_name, s("Shape"));
    assert_eq!(dispatch.methods.len(), 1);
    let method = &dispatch.methods[0];
    assert_eq!(method.sig, s("fn describe(&self) -> String"));
    assert_eq!(method.name, s("describe"));
    assert_eq!(method.mode, ReceiverMode::ByRef);
    assert_eq!(method.args, Vec::<String>::new());
    let expected_arms = vec![
        Arm {
            variant: s("A"),
            pattern: ArmPattern::BareUnit,
            target: ArmTarget::Singleton { mode: ReceiverMode::ByRef },
        },
        Arm { variant: s("B"), pattern: ArmPattern::BindPayload, target: ArmTarget::PayloadBinding },
        Arm { variant: s("C"), pattern: ArmPattern::BindPayload, target: ArmTarget::PayloadBinding },
    ];
    assert_eq!(method.arms, expected_arms);
}

#[test]
fn dispatch_skips_non_method_items_and_keeps_argument_order() {
    let sum = sample_sum();
    let iface = Interface {
        name: s("Describe"),
        items: vec![
            TraitItem::OtherItem(s("const LIMIT: Int;")),
            TraitItem::MethodItem(Method {
                decl: s("fn blend(self, other: Shape, weight: Int) -> Shape;"),
                sig: s("fn blend(self, other: Shape, weight: Int) -> Shape"),
                name: s("blend"),
                receiver: Some(ReceiverSpec { by_ref: false, mutable: false }),
                params: vec![s("other"), s("weight")],
            }),
        ],
    };
    let dispatch = dispatch_of(&sum, &iface).unwrap();
    assert_eq!(dispatch.methods.len(), 1);
    let method = &dispatch.methods[0];
    assert_eq!(method.name, s("blend"));
    assert_eq!(method.mode, ReceiverMode::ByValue);
    assert_eq!(method.args, vec![s("other"), s("weight")]);
    assert_eq!(method.arms.len(), 3);
}

#[test]
fn forwarding_reaches_the_active_variant() {
    let sum = sample_sum();
    let iface = sample_interface();
    let dispatch = dispatch_of(&sum, &iface).unwrap();
    let method = &dispatch.methods[0];

    let unit_value = SumValue::UnitVariant { variant: s("A") };
    assert_eq!(
        forward(method, unit_value),
        ForwardTarget::UnitSingleton { variant: s("A"), mode: ReceiverMode::ByRef }
    );

    let named_value = SumValue::Wrapped {
        variant: s("B"),
        payload: CarrierValue { data: vec![s("7")] },
    };
    assert_eq!(
        forward(method, named_value),
        ForwardTarget::CarrierPayload(CarrierValue { data: vec![s("7")] })
    );

    let positional_value = SumValue::Wrapped {
        variant: s("C"),
        payload: CarrierValue { data: vec![s("1"), s("2")] },
    };
    assert_eq!(
        forward(method, positional_value),
        ForwardTarget::CarrierPayload(CarrierValue { data: vec![s("1"), s("2")] })
    );
}

#[test]
fn a_full_expansion_of_the_three_shape_module() {
    let m = Module {
        unsafety: false,
        vis: s("pub"),
        name: s("shapes"),
        content: Some(vec![Item::Sum(sample_sum()), Item::Iface(sample_interface())]),
    };
    let out = expand(m).unwrap();
    assert_eq!(out.vis, s("pub"));
    assert_eq!(out.name, s("shapes"));
    assert_eq!(out.carriers.len(), 3);
    assert_eq!(out.carriers[0].shape, Shape::Unit);
    assert_eq!(
        out.carriers[1].shape,
        Shape::Named(vec![FieldDef { name: s("x"), ty: s("Int") }])
    );
    assert_eq!(out.carriers[2].shape, Shape::Positional(vec![s("Int"), s("Int")]));
    assert_eq!(out.conversions.len(), 3);
    assert_eq!(out.sum.variants[1].payload, Some(s("B")));
    assert_eq!(out.dispatch.methods.len(), 1);
    assert_eq!(out.dispatch.methods[0].arms.len(), 3);
    assert_eq!(out.interface, sample_interface());
}

#[test]
fn an_expansion_of_a_faulty_module_yields_no_partial_output() {
    let m = Module {
        unsafety: false,
        vis: s("pub"),
        name: s("shapes"),
        content: Some(vec![Item::Sum(sample_sum())]),
    };
    assert_eq!(expand(m), Err(StructuralError::MissingInterface));
}

#[test]
fn a_sum_type_without_variants_expands_to_nothing_but_the_interface() {
    let sum = SumType { attrs: vec![], name: s("Never"), variants: vec![] };
    let m = Module {
        unsafety: false,
        vis: s(""),
        name: s("empty"),
        content: Some(vec![Item::Sum(sum), Item::Iface(sample_interface())]),
    };
    let out = expand(m).unwrap();
    assert_eq!(out.carriers.len(), 0);
    assert_eq!(out.conversions.len(), 0);
    assert_eq!(out.sum.variants.len(), 0);
    assert_eq!(out.dispatch.methods[0].arms.len(), 0);
}
