//! The dispatch emitter: the forwarding implementation of the interface for
//! the expanded sum type, one exhaustive match per method, one arm per
//! variant.
//!
//! A method without an instance receiver has no forwarding target, so the
//! emitter rejects it outright with [`StructuralError::MissingReceiver`]
//! rather than emitting an implementation that cannot call it.

use vstd::prelude::*;

use crate::model::{
    Interface, InterfaceV, Method, MethodV, ReceiverSpec, StructuralError, SumType, SumTypeV,
    TraitItem, TraitItemV, VariantV,
};

verus! {

/// How a method takes its receiver: by value, by shared reference, or by
/// exclusive reference.
#[derive(Clone, Copy, PartialEq, Eq, Structural, Debug)]
pub enum ReceiverMode {
    ByValue,
    ByRef,
    ByMutRef,
}

/// The receiver mode a declared receiver denotes: a reference is shared or
/// exclusive by its `mutable` marker; no reference, with or without an owned
/// `mut` binding, is by value.
pub open spec fn spec_receiver_mode(rs: ReceiverSpec) -> ReceiverMode {
    if rs.by_ref && rs.mutable {
        ReceiverMode::ByMutRef
    } else if rs.by_ref {
        ReceiverMode::ByRef
    } else {
        ReceiverMode::ByValue
    }
}

/// Determines the receiver mode of a method from its declared receiver.
pub fn receiver_mode(rs: &ReceiverSpec) -> (m: ReceiverMode)
    ensures
        m == spec_receiver_mode(*rs),
{
    if rs.by_ref && rs.mutable {
        ReceiverMode::ByMutRef
    } else if rs.by_ref {
        ReceiverMode::ByRef
    } else {
        ReceiverMode::ByValue
    }
}

/// How one arm matches its variant: a unit variant is matched bare, any
/// other binds its single payload.
#[derive(Clone, Copy, PartialEq, Eq, Structural, Debug)]
pub enum ArmPattern {
    BareUnit,
    BindPayload,
}

/// What one arm forwards to: for a unit variant, the carrier's singleton
/// value, taken as the receiver mode asks; for any other variant, the
/// payload binding, whose reference mode mirrors how the receiver itself was
/// matched.
#[derive(Clone, Copy, PartialEq, Eq, Structural, Debug)]
pub enum ArmTarget {
    Singleton { mode: ReceiverMode },
    PayloadBinding,
}

/// One arm of an emitted dispatch match.
#[derive(Debug, PartialEq, Eq)]
pub struct Arm {
    pub variant: String,
    pub pattern: ArmPattern,
    pub target: ArmTarget,
}

/// View of [`Arm`].
pub struct ArmV {
    pub variant: Seq<char>,
    pub pattern: ArmPattern,
    pub target: ArmTarget,
}

impl View for Arm {
    type V = ArmV;

    open spec fn view(&self) -> ArmV {
        ArmV { variant: self.variant@, pattern: self.pattern, target: self.target }
    }
}

/// One emitted dispatch method: the method's own signature, the receiver
/// mode it was matched with, the argument names handed on in order, and one
/// match arm per variant.
#[derive(Debug, PartialEq, Eq)]
pub struct DispatchMethod {
    pub sig: String,
    pub name: String,
    pub mode: ReceiverMode,
    pub args: Vec<String>,
    pub arms: Vec<Arm>,
}

/// View of [`DispatchMethod`].
pub struct DispatchMethodV {
    pub sig: Seq<char>,
    pub name: Seq<char>,
    pub mode: ReceiverMode,
    pub args: Seq<Seq<char>>,
    pub arms: Seq<ArmV>,
}

impl View for DispatchMethod {
    type V = DispatchMethodV;

    open spec fn view(&self) -> DispatchMethodV {
        DispatchMethodV {
            sig: self.sig@,
            name: self.name@,
            mode: self.mode,
            args: self.args@.map_values(|a: String| a@),
            arms: self.arms@.map_values(|a: Arm| a@),
        }
    }
}

/// The emitted implementation of the interface for the expanded sum type.
#[derive(Debug, PartialEq, Eq)]
pub struct DispatchImpl {
    pub trait_name: String,
    pub enum_name: String,
    pub methods: Vec<DispatchMethod>,
}

/// View of [`DispatchImpl`].
pub struct DispatchImplV {
    pub trait_name: Seq<char>,
    pub enum_name: Seq<char>,
    pub methods: Seq<DispatchMethodV>,
}

impl View for DispatchImpl {
    type V = DispatchImplV;

    open spec fn view(&self) -> DispatchImplV {
        DispatchImplV {
            trait_name: self.trait_name@,
            enum_name: self.enum_name@,
            methods: self.methods@.map_values(|m: DispatchMethod| m@),
        }
    }
}

/// The arm one variant gives rise to, under the given receiver mode.
pub open spec fn spec_arm(v: VariantV, mode: ReceiverMode) -> ArmV {
    if v.shape is Unit {
        ArmV { variant: v.name, pattern: ArmPattern::BareUnit, target: ArmTarget::Singleton { mode } }
    } else {
        ArmV { variant: v.name, pattern: ArmPattern::BindPayload, target: ArmTarget::PayloadBinding }
    }
}

/// The arms of one dispatch match: one per variant, in variant order.
pub open spec fn spec_arms(s: SumTypeV, mode: ReceiverMode) -> Seq<ArmV> {
    s.variants.map_values(|v: VariantV| spec_arm(v, mode))
}

/// The dispatch method one interface method gives rise to. Meaningful only
/// for a method with an instance receiver; one without is rejected before
/// this applies.
pub open spec fn spec_dispatch_method(m: MethodV, s: SumTypeV) -> DispatchMethodV {
    DispatchMethodV {
        sig: m.sig,
        name: m.name,
        mode: spec_receiver_mode(m.receiver->0),
        args: m.params,
        arms: spec_arms(s, spec_receiver_mode(m.receiver->0)),
    }
}

/// The methods among the interface's items, in order; other items are
/// neither forwarded nor declared in the implementation.
pub open spec fn spec_methods_of(items: Seq<TraitItemV>) -> Seq<MethodV>
    decreases items.len(),
{
    if items.len() == 0 {
        Seq::empty()
    } else {
        let rest = spec_methods_of(items.drop_last());
        match items.last() {
            TraitItemV::MethodItem(m) => rest.push(m),
            TraitItemV::OtherItem(_) => rest,
        }
    }
}

/// Whether some method of the interface lacks an instance receiver.
pub open spec fn has_receiverless_method(items: Seq<TraitItemV>) -> bool {
    exists|j: int|
        0 <= j < items.len() && ((#[trigger] items[j]) matches TraitItemV::MethodItem(m)
            && m.receiver is None)
}

/// The forwarding implementation a sum type and an interface give rise to:
/// a method without an instance receiver has no forwarding target and is
/// rejected; otherwise, one dispatch method per interface method.
pub open spec fn spec_dispatch(s: SumTypeV, i: InterfaceV) -> Result<
    DispatchImplV,
    StructuralError,
> {
    if has_receiverless_method(i.items) {
        Err(StructuralError::MissingReceiver)
    } else {
        Ok(
            DispatchImplV {
                trait_name: i.name,
                enum_name: s.name,
                methods: spec_methods_of(i.items).map_values(
                    |m: MethodV| spec_dispatch_method(m, s),
                ),
            },
        )
    }
}

/// Emits the arms of one dispatch match, one per variant.
pub fn arms_of(sum: &SumType, mode: ReceiverMode) -> (r: Vec<Arm>)
    ensures
        r@.map_values(|a: Arm| a@) == spec_arms(sum@, mode),
{
    let mut r: Vec<Arm> = Vec::new();
    let mut i: usize = 0;
    while i < sum.variants.len()
        invariant
            i <= sum.variants.len(),
            r@.len() == i as nat,
            forall|j: int| 0 <= j < i ==> (#[trigger] r@[j])@ == spec_arms(sum@, mode)[j],
        decreases sum.variants.len() - i,
    {
        let v = &sum.variants[i];
        let arm = if matches!(v.shape, crate::model::Shape::Unit) {
            Arm {
                variant: v.name.clone(),
                pattern: ArmPattern::BareUnit,
                target: ArmTarget::Singleton { mode },
            }
        } else {
            Arm {
                variant: v.name.clone(),
                pattern: ArmPattern::BindPayload,
                target: ArmTarget::PayloadBinding,
            }
        };
        r.push(arm);
        i += 1;
    }
    proof {
        assert(r@.map_values(|a: Arm| a@) =~= spec_arms(sum@, mode));
    }
    r
}

/// Emits the dispatch method for one interface method with an instance
/// receiver: its own signature over an exhaustive match, forwarding to the
/// active variant's carrier with the argument names in original order.
pub fn dispatch_method_of(m: &Method, sum: &SumType) -> (r: DispatchMethod)
    requires
        m@.receiver is Some,
    ensures
        r@ == spec_dispatch_method(m@, sum@),
{
    let mode = match &m.receiver {
        Some(rs) => receiver_mode(rs),
        None => vstd::pervasive::unreached(),
    };
    DispatchMethod {
        sig: m.sig.clone(),
        name: m.name.clone(),
        mode,
        args: crate::model::copy_strings(&m.params),
        arms: arms_of(sum, mode),
    }
}

/// Emits the implementation of the interface for the expanded sum type: one
/// dispatch method per interface method, in order; non-method items are
/// skipped; a method without an instance receiver is rejected.
#[verifier::loop_isolation(false)]
pub fn dispatch_of(sum: &SumType, iface: &Interface) -> (r: Result<DispatchImpl, StructuralError>)
    ensures
        (match r {
            Ok(d) => spec_dispatch(sum@, iface@) matches Ok(dv) && d@ == dv,
            Err(e) => spec_dispatch(sum@, iface@) matches Err(ev) && e == ev,
        }),
{
    let mut methods: Vec<DispatchMethod> = Vec::new();
    let mut i: usize = 0;
    while i < iface.items.len()
        invariant
            i <= iface.items.len(),
            forall|j: int| 0 <= j < i ==> ((#[trigger] iface@.items[j]) matches
                TraitItemV::MethodItem(m) ==> m.receiver is Some),
            methods@.map_values(|m: DispatchMethod| m@) == spec_methods_of(
                iface@.items.subrange(0, i as int),
            ).map_values(|m: MethodV| spec_dispatch_method(m, sum@)),
        decreases iface.items.len() - i,
    {
        let ghost prefix = iface@.items.subrange(0, i as int);
        let ghost longer = iface@.items.subrange(0, i + 1 as int);
        proof {
            assert(longer.drop_last() =~= prefix);
            assert(longer.last() == iface@.items[i as int]);
            assert(spec_methods_of(longer.drop_last()) == spec_methods_of(prefix));
        }
        match &iface.items[i] {
            TraitItem::MethodItem(m) => {
                if m.receiver.is_none() {
                    proof {
                        assert(iface@.items[i as int] == TraitItemV::MethodItem(m@));
                        assert(has_receiverless_method(iface@.items));
                    }
                    return Err(StructuralError::MissingReceiver);
                }
                let dm = dispatch_method_of(m, sum);
                let ghost pre_methods = methods@;
                methods.push(dm);
                proof {
                    assert(iface@.items[i as int] == TraitItemV::MethodItem(m@));
                    assert(spec_methods_of(longer) == spec_methods_of(prefix).push(m@));
                    assert(methods@.map_values(|x: DispatchMethod| x@) =~= pre_methods.map_values(
                        |x: DispatchMethod| x@,
                    ).push(dm@));
                    assert(spec_methods_of(longer).map_values(
                        |x: MethodV| spec_dispatch_method(x, sum@),
                    ) =~= spec_methods_of(prefix).map_values(
                        |x: MethodV| spec_dispatch_method(x, sum@),
                    ).push(spec_dispatch_method(m@, sum@)));
                    assert(dm@ == spec_dispatch_method(m@, sum@));
                    assert(methods@.map_values(|x: DispatchMethod| x@) == spec_methods_of(
                        longer,
                    ).map_values(|x: MethodV| spec_dispatch_method(x, sum@)));
                }
            },
            TraitItem::OtherItem(_) => {
                proof {
                    assert(iface@.items[i as int] matches TraitItemV::OtherItem(_));
                    assert(spec_methods_of(longer) == spec_methods_of(prefix));
                }
            },
        }
        i += 1;
    }
    proof {
        assert(iface@.items.subrange(0, iface@.items.len() as int) =~= iface@.items);
        assert(!has_receiverless_method(iface@.items));
    }
    Ok(
        DispatchImpl {
            trait_name: iface.name.clone(),
            enum_name: sum.name.clone(),
            methods,
        },
    )
}

/// Law: dispatch emission fails exactly when some interface method lacks an
/// instance receiver; otherwise the implementation holds exactly one
/// dispatch method per interface method, in interface order, each derived
/// from its method and the sum type.
pub proof fn lemma_dispatch_covers_every_method(s: SumTypeV, i: InterfaceV)
    ensures
        spec_dispatch(s, i) is Err <==> has_receiverless_method(i.items),
        spec_dispatch(s, i) is Err ==> spec_dispatch(s, i)
            == Err::<DispatchImplV, StructuralError>(StructuralError::MissingReceiver),
        spec_dispatch(s, i) matches Ok(d) ==> {
            &&& d.trait_name == i.name
            &&& d.enum_name == s.name
            &&& d.methods.len() == spec_methods_of(i.items).len()
            &&& forall|j: int| 0 <= j < spec_methods_of(i.items).len() ==> #[trigger] d.methods[j]
                == spec_dispatch_method(spec_methods_of(i.items)[j], s)
        },
{
}

/// Law: for an interface method with an instance receiver, the emitted
/// dispatch method keeps the method's signature and argument names, and its
/// match is exhaustive — exactly one arm per variant, in variant order; a
/// unit variant's arm matches bare and forwards the carrier singleton under
/// the receiver mode, any other arm binds the payload and forwards it.
pub proof fn lemma_dispatch_exhaustive(m: MethodV, s: SumTypeV)
    requires
        m.receiver is Some,
    ensures
        spec_dispatch_method(m, s).arms.len() == s.variants.len(),
        forall|i: int| 0 <= i < s.variants.len() ==> {
            let arm = #[trigger] spec_dispatch_method(m, s).arms[i];
            &&& arm.variant == s.variants[i].name
            &&& (s.variants[i].shape is Unit ==> arm.pattern == ArmPattern::BareUnit
                && arm.target == (ArmTarget::Singleton {
                    mode: spec_receiver_mode(m.receiver->0),
                }))
            &&& (s.variants[i].shape !is Unit ==> arm.pattern == ArmPattern::BindPayload
                && arm.target == ArmTarget::PayloadBinding)
        },
        spec_dispatch_method(m, s).sig == m.sig,
        spec_dispatch_method(m, s).args == m.params,
{
}

} // verus!
