//! What the emitted code does when run: the value-level meaning of the
//! conversions and of the dispatch match, and the laws that hold of them —
//! conversions are total and lossless, dispatch is exhaustive and forwards
//! to the active variant's carrier.

use vstd::prelude::*;

use crate::dispatch::{ArmPattern, ArmV, DispatchMethod, ReceiverMode};
use crate::emit::{Conversion, ConversionV};
use crate::model::SumTypeV;

verus! {

/// An instance of one carrier type: its field data, one field value per
/// field, in field order.
#[derive(Debug, PartialEq, Eq)]
pub struct CarrierValue {
    pub data: Vec<String>,
}

/// View of [`CarrierValue`].
pub struct CarrierValueV {
    pub data: Seq<Seq<char>>,
}

impl View for CarrierValue {
    type V = CarrierValueV;

    open spec fn view(&self) -> CarrierValueV {
        CarrierValueV { data: self.data@.map_values(|d: String| d@) }
    }
}

/// A value of the expanded sum type: a bare unit variant, or a variant
/// wrapping its carrier instance as sole payload.
#[derive(Debug, PartialEq, Eq)]
pub enum SumValue {
    UnitVariant { variant: String },
    Wrapped { variant: String, payload: CarrierValue },
}

/// View of [`SumValue`].
pub enum SumValueV {
    UnitVariant { variant: Seq<char> },
    Wrapped { variant: Seq<char>, payload: CarrierValueV },
}

impl View for SumValue {
    type V = SumValueV;

    open spec fn view(&self) -> SumValueV {
        match self {
            SumValue::UnitVariant { variant } => SumValueV::UnitVariant { variant: variant@ },
            SumValue::Wrapped { variant, payload } => SumValueV::Wrapped {
                variant: variant@,
                payload: payload@,
            },
        }
    }
}

/// What an emitted conversion yields: a unit conversion ignores its input
/// and yields the bare unit variant; any other wraps its input unchanged.
pub open spec fn spec_apply(c: ConversionV, v: CarrierValueV) -> SumValueV {
    if c.unit {
        SumValueV::UnitVariant { variant: c.carrier }
    } else {
        SumValueV::Wrapped { variant: c.carrier, payload: v }
    }
}

/// Runs one emitted conversion on one carrier instance. Total: it never
/// fails, whatever the instance.
pub fn apply_conversion(conv: &Conversion, v: CarrierValue) -> (r: SumValue)
    ensures
        r@ == spec_apply(conv@, v@),
{
    if conv.unit {
        SumValue::UnitVariant { variant: conv.carrier.clone() }
    } else {
        SumValue::Wrapped { variant: conv.carrier.clone(), payload: v }
    }
}

/// Law: for a non-unit variant, converting a carrier instance and matching
/// the result yields back the payload unchanged, under the variant's own
/// name.
pub proof fn lemma_conversion_round_trip(c: ConversionV, v: CarrierValueV)
    requires
        !c.unit,
    ensures
        spec_apply(c, v) == (SumValueV::Wrapped { variant: c.carrier, payload: v }),
{
}

/// Law: for a non-unit variant the conversion is injective — equal results
/// come only from equal carrier instances.
pub proof fn lemma_conversion_injective(c: ConversionV, v1: CarrierValueV, v2: CarrierValueV)
    requires
        !c.unit,
        spec_apply(c, v1) == spec_apply(c, v2),
    ensures
        v1 == v2,
{
}

/// Law: for a unit variant the conversion is total and constant — it yields
/// the same unit variant whichever carrier instance is supplied.
pub proof fn lemma_unit_conversion_constant(c: ConversionV, v1: CarrierValueV, v2: CarrierValueV)
    requires
        c.unit,
    ensures
        spec_apply(c, v1) == spec_apply(c, v2),
        spec_apply(c, v1) == (SumValueV::UnitVariant { variant: c.carrier }),
{
}

/// What a dispatch arm forwards to, as a value: the payload of the active
/// variant, or the unit carrier's singleton, taken under the receiver mode.
#[derive(Debug, PartialEq, Eq)]
pub enum ForwardTarget {
    CarrierPayload(CarrierValue),
    UnitSingleton { variant: String, mode: ReceiverMode },
}

/// View of [`ForwardTarget`].
pub enum ForwardTargetV {
    CarrierPayload(CarrierValueV),
    UnitSingleton { variant: Seq<char>, mode: ReceiverMode },
}

impl View for ForwardTarget {
    type V = ForwardTargetV;

    open spec fn view(&self) -> ForwardTargetV {
        match self {
            ForwardTarget::CarrierPayload(p) => ForwardTargetV::CarrierPayload(p@),
            ForwardTarget::UnitSingleton { variant, mode } => ForwardTargetV::UnitSingleton {
                variant: variant@,
                mode: *mode,
            },
        }
    }
}

/// Whether the value is an instance of the sum type's variant at `k`: the
/// variant names it, and it is bare exactly where the variant is unit.
pub open spec fn fits_at(v: SumValueV, s: SumTypeV, k: int) -> bool {
    match v {
        SumValueV::UnitVariant { variant } => s.variants[k].name == variant && s.variants[k].shape
            is Unit,
        SumValueV::Wrapped { variant, payload } => s.variants[k].name == variant
            && s.variants[k].shape !is Unit,
    }
}

/// Whether the value is an instance of some variant of the sum type.
pub open spec fn value_fits(v: SumValueV, s: SumTypeV) -> bool {
    exists|k: int| 0 <= k < s.variants.len() && #[trigger] fits_at(v, s, k)
}

/// Whether one dispatch arm matches the value: same variant name, and the
/// arm's pattern has the value's form.
pub open spec fn arm_matches(a: ArmV, v: SumValueV) -> bool {
    match v {
        SumValueV::UnitVariant { variant } => a.variant == variant && a.pattern
            == ArmPattern::BareUnit,
        SumValueV::Wrapped { variant, payload } => a.variant == variant && a.pattern
            == ArmPattern::BindPayload,
    }
}

/// Runs one emitted dispatch method's match on one value of the expanded sum
/// type: the first arm whose pattern matches the value forwards. For a
/// dispatch method emitted for the value's own sum type the match is
/// exhaustive, so this always succeeds, and it forwards a wrapped payload
/// unchanged and a unit variant's singleton under the method's receiver
/// mode.
#[verifier::loop_isolation(false)]
pub fn forward(dm: &DispatchMethod, v: SumValue) -> (t: ForwardTarget)
    requires
        exists|s: SumTypeV, m: crate::model::MethodV|
            dm@ == crate::dispatch::spec_dispatch_method(m, s) && value_fits(v@, s),
    ensures
        (v@ matches SumValueV::Wrapped { payload, .. } ==> t@ == ForwardTargetV::CarrierPayload(
            payload,
        )),
        (v@ matches SumValueV::UnitVariant { variant } ==> t@ == (ForwardTargetV::UnitSingleton {
            variant,
            mode: dm@.mode,
        })),
{
    let vname: String = match &v {
        SumValue::UnitVariant { variant } => variant.clone(),
        SumValue::Wrapped { variant, .. } => variant.clone(),
    };
    let value_is_unit = matches!(v, SumValue::UnitVariant { .. });
    let mut i: usize = 0;
    while i < dm.arms.len()
        invariant
            i <= dm.arms.len(),
            forall|j: int| 0 <= j < i ==> !arm_matches(#[trigger] dm@.arms[j], v@),
        decreases dm.arms.len() - i,
    {
        let arm = &dm.arms[i];
        let name_eq = arm.variant == vname;
        let arm_is_unit = matches!(arm.pattern, ArmPattern::BareUnit);
        if name_eq && arm_is_unit == value_is_unit {
            return (match v {
                SumValue::Wrapped { payload, .. } => ForwardTarget::CarrierPayload(payload),
                SumValue::UnitVariant { variant } => ForwardTarget::UnitSingleton {
                    variant,
                    mode: dm.mode,
                },
            });
        }
        proof {
            assert(!arm_matches(dm@.arms[i as int], v@));
        }
        i += 1;
    }
    proof {
        let (s, m) = choose|s: SumTypeV, m: crate::model::MethodV|
            dm@ == crate::dispatch::spec_dispatch_method(m, s) && value_fits(v@, s);
        let k = choose|k: int| 0 <= k < s.variants.len() && #[trigger] fits_at(v@, s, k);
        assert(dm@.arms.len() == s.variants.len());
        assert(dm@.arms.len() == dm.arms@.len());
        assert(0 <= k < i as int);
        assert(dm@.arms[k] == crate::dispatch::spec_arm(s.variants[k], dm@.mode));
        assert(arm_matches(dm@.arms[k], v@));
        assert(false);
    }
    vstd::pervasive::unreached()
}

} // verus!
