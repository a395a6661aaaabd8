//! The output model, and the emitters that derive it from a validated input:
//! one carrier per variant, one conversion per variant, the expanded sum
//! type, and the interface re-emitted unchanged.

use vstd::prelude::*;

use crate::model::{
    copy_shape, copy_strings, copy_trait_item, Interface, InterfaceV, Shape, ShapeV, SumType,
    SumTypeV, TraitItem, TraitItemV, Variant, VariantV,
};

verus! {

/// One emitted data-carrier type: it is named after its variant, repeats the
/// sum type's annotations, and holds exactly the variant's fields.
#[derive(Debug, PartialEq, Eq)]
pub struct Carrier {
    pub attrs: Vec<String>,
    pub name: String,
    pub shape: Shape,
}

/// View of [`Carrier`].
pub struct CarrierV {
    pub attrs: Seq<Seq<char>>,
    pub name: Seq<char>,
    pub shape: ShapeV,
}

impl View for Carrier {
    type V = CarrierV;

    open spec fn view(&self) -> CarrierV {
        CarrierV {
            attrs: self.attrs@.map_values(|a: String| a@),
            name: self.name@,
            shape: self.shape@,
        }
    }
}

/// The carrier each variant of the sum type gives rise to.
pub open spec fn spec_carriers(s: SumTypeV) -> Seq<CarrierV> {
    s.variants.map_values(
        |v: VariantV| CarrierV { attrs: s.attrs, name: v.name, shape: v.shape },
    )
}

/// Emits one carrier type per variant of the sum type.
pub fn carriers_of(sum: &SumType) -> (r: Vec<Carrier>)
    ensures
        r@.map_values(|c: Carrier| c@) == spec_carriers(sum@),
{
    let mut r: Vec<Carrier> = Vec::new();
    let mut i: usize = 0;
    while i < sum.variants.len()
        invariant
            i <= sum.variants.len(),
            r@.len() == i as nat,
            forall|j: int| 0 <= j < i ==> (#[trigger] r@[j])@ == spec_carriers(sum@)[j],
        decreases sum.variants.len() - i,
    {
        let v = &sum.variants[i];
        r.push(
            Carrier {
                attrs: copy_strings(&sum.attrs),
                name: v.name.clone(),
                shape: copy_shape(&v.shape),
            },
        );
        i += 1;
    }
    proof {
        assert(r@.map_values(|c: Carrier| c@) =~= spec_carriers(sum@));
    }
    r
}

/// Law: there is exactly one carrier per variant, it bears the variant's
/// name, its shape is the variant's shape — same fields, same types, same
/// order — and it repeats the sum type's annotations.
pub proof fn lemma_carriers_match_variants(s: SumTypeV)
    ensures
        spec_carriers(s).len() == s.variants.len(),
        forall|i: int| 0 <= i < s.variants.len() ==> {
            &&& (#[trigger] spec_carriers(s)[i]).name == s.variants[i].name
            &&& spec_carriers(s)[i].shape == s.variants[i].shape
            &&& spec_carriers(s)[i].attrs == s.attrs
        },
{
}

/// One emitted conversion, from the carrier named `carrier` into the expanded
/// sum type named `target`. A `unit` conversion ignores its informationless
/// input and yields the bare unit variant; any other wraps its input
/// unchanged as the variant's payload.
#[derive(Debug, PartialEq, Eq)]
pub struct Conversion {
    pub carrier: String,
    pub target: String,
    pub unit: bool,
}

/// View of [`Conversion`].
pub struct ConversionV {
    pub carrier: Seq<char>,
    pub target: Seq<char>,
    pub unit: bool,
}

impl View for Conversion {
    type V = ConversionV;

    open spec fn view(&self) -> ConversionV {
        ConversionV { carrier: self.carrier@, target: self.target@, unit: self.unit }
    }
}

/// The conversion each variant of the sum type gives rise to.
pub open spec fn spec_conversions(s: SumTypeV) -> Seq<ConversionV> {
    s.variants.map_values(
        |v: VariantV| ConversionV { carrier: v.name, target: s.name, unit: v.shape is Unit },
    )
}

/// Emits one conversion per variant, from its carrier into the sum type.
pub fn conversions_of(sum: &SumType) -> (r: Vec<Conversion>)
    ensures
        r@.map_values(|c: Conversion| c@) == spec_conversions(sum@),
{
    let mut r: Vec<Conversion> = Vec::new();
    let mut i: usize = 0;
    while i < sum.variants.len()
        invariant
            i <= sum.variants.len(),
            r@.len() == i as nat,
            forall|j: int| 0 <= j < i ==> (#[trigger] r@[j])@ == spec_conversions(sum@)[j],
        decreases sum.variants.len() - i,
    {
        let v = &sum.variants[i];
        let unit = matches!(v.shape, Shape::Unit);
        r.push(Conversion { carrier: v.name.clone(), target: sum.name.clone(), unit });
        i += 1;
    }
    proof {
        assert(r@.map_values(|c: Conversion| c@) =~= spec_conversions(sum@));
    }
    r
}

/// One variant of the expanded sum type: re-declared bare where the source
/// variant was unit, otherwise re-declared with its carrier — named in
/// `payload` — as its sole payload.
#[derive(Debug, PartialEq, Eq)]
pub struct ExpandedVariant {
    pub name: String,
    pub payload: Option<String>,
}

/// View of [`ExpandedVariant`].
pub struct ExpandedVariantV {
    pub name: Seq<char>,
    pub payload: Option<Seq<char>>,
}

impl View for ExpandedVariant {
    type V = ExpandedVariantV;

    open spec fn view(&self) -> ExpandedVariantV {
        ExpandedVariantV {
            name: self.name@,
            payload: match &self.payload {
                Some(p) => Some(p@),
                None => None,
            },
        }
    }
}

/// The expanded sum type: same annotations, name and variant names as the
/// input sum type, with every non-unit variant wrapping its carrier.
#[derive(Debug, PartialEq, Eq)]
pub struct ExpandedSum {
    pub attrs: Vec<String>,
    pub name: String,
    pub variants: Vec<ExpandedVariant>,
}

/// View of [`ExpandedSum`].
pub struct ExpandedSumV {
    pub attrs: Seq<Seq<char>>,
    pub name: Seq<char>,
    pub variants: Seq<ExpandedVariantV>,
}

impl View for ExpandedSum {
    type V = ExpandedSumV;

    open spec fn view(&self) -> ExpandedSumV {
        ExpandedSumV {
            attrs: self.attrs@.map_values(|a: String| a@),
            name: self.name@,
            variants: self.variants@.map_values(|v: ExpandedVariant| v@),
        }
    }
}

/// The expanded sum type a sum type gives rise to.
pub open spec fn spec_expanded_sum(s: SumTypeV) -> ExpandedSumV {
    ExpandedSumV {
        attrs: s.attrs,
        name: s.name,
        variants: s.variants.map_values(
            |v: VariantV| ExpandedVariantV {
                name: v.name,
                payload: if v.shape is Unit {
                    None
                } else {
                    Some(v.name)
                },
            },
        ),
    }
}

/// Emits the expanded sum type.
pub fn expanded_sum_of(sum: &SumType) -> (r: ExpandedSum)
    ensures
        r@ == spec_expanded_sum(sum@),
{
    let mut variants: Vec<ExpandedVariant> = Vec::new();
    let mut i: usize = 0;
    while i < sum.variants.len()
        invariant
            i <= sum.variants.len(),
            variants@.len() == i as nat,
            forall|j: int| 0 <= j < i ==> (#[trigger] variants@[j])@ == spec_expanded_sum(
                sum@,
            ).variants[j],
        decreases sum.variants.len() - i,
    {
        let v = &sum.variants[i];
        let payload = if matches!(v.shape, Shape::Unit) {
            None
        } else {
            Some(v.name.clone())
        };
        variants.push(ExpandedVariant { name: v.name.clone(), payload });
        i += 1;
    }
    let r = ExpandedSum { attrs: copy_strings(&sum.attrs), name: sum.name.clone(), variants };
    proof {
        assert(r@.variants =~= spec_expanded_sum(sum@).variants);
        assert(r@ == spec_expanded_sum(sum@));
    }
    r
}

/// Law: the rewrite keeps the variant count and every variant name, leaves
/// unit variants without a payload, and gives every other variant exactly its
/// own carrier — the type of its name — as payload.
pub proof fn lemma_expanded_sum_shape(s: SumTypeV)
    ensures
        spec_expanded_sum(s).name == s.name,
        spec_expanded_sum(s).attrs == s.attrs,
        spec_expanded_sum(s).variants.len() == s.variants.len(),
        forall|i: int| 0 <= i < s.variants.len() ==> {
            &&& (#[trigger] spec_expanded_sum(s).variants[i]).name == s.variants[i].name
            &&& (spec_expanded_sum(s).variants[i].payload is None <==> s.variants[i].shape
                is Unit)
            &&& (s.variants[i].shape !is Unit ==> spec_expanded_sum(s).variants[i].payload
                == Some(s.variants[i].name))
        },
{
}

/// Emits the interface again, unchanged: the expansion's output declares it
/// beside the types that implement and reference it.
pub fn reemit_interface(iface: &Interface) -> (r: Interface)
    ensures
        r@ == iface@,
{
    let mut items: Vec<TraitItem> = Vec::new();
    let mut i: usize = 0;
    while i < iface.items.len()
        invariant
            i <= iface.items.len(),
            items@.len() == i as nat,
            forall|j: int| 0 <= j < i ==> (#[trigger] items@[j])@ == iface@.items[j],
        decreases iface.items.len() - i,
    {
        items.push(copy_trait_item(&iface.items[i]));
        i += 1;
    }
    let r = Interface { name: iface.name.clone(), items };
    proof {
        assert(r@.items =~= iface@.items);
        assert(r@ == iface@);
    }
    r
}

} // verus!
