//! The driver: one expansion, from the input module to the complete output,
//! or the first structural fault.

use vstd::prelude::*;

use crate::dispatch::{dispatch_of, spec_dispatch, DispatchImpl, DispatchImplV};
use crate::emit::{
    carriers_of, conversions_of, expanded_sum_of, reemit_interface, spec_carriers,
    spec_conversions, spec_expanded_sum, Carrier, CarrierV, Conversion, ConversionV, ExpandedSum,
    ExpandedSumV,
};
use crate::model::{Interface, InterfaceV, Module, ModuleV, StructuralError};
use crate::parse::{spec_parse, ParsedModule};

verus! {

/// The complete output of one expansion, in emission order: the carrier
/// types, the conversions, the expanded sum type, the forwarding
/// implementation, and the interface re-emitted unchanged — all inside a
/// module of the input's visibility and name. Imports are parsed and
/// validated but not re-emitted.
#[derive(Debug, PartialEq, Eq)]
pub struct Expansion {
    pub vis: String,
    pub name: String,
    pub carriers: Vec<Carrier>,
    pub conversions: Vec<Conversion>,
    pub sum: ExpandedSum,
    pub dispatch: DispatchImpl,
    pub interface: Interface,
}

/// View of [`Expansion`].
pub struct ExpansionV {
    pub vis: Seq<char>,
    pub name: Seq<char>,
    pub carriers: Seq<CarrierV>,
    pub conversions: Seq<ConversionV>,
    pub sum: ExpandedSumV,
    pub dispatch: DispatchImplV,
    pub interface: InterfaceV,
}

impl View for Expansion {
    type V = ExpansionV;

    open spec fn view(&self) -> ExpansionV {
        ExpansionV {
            vis: self.vis@,
            name: self.name@,
            carriers: self.carriers@.map_values(|c: Carrier| c@),
            conversions: self.conversions@.map_values(|c: Conversion| c@),
            sum: self.sum@,
            dispatch: self.dispatch@,
            interface: self.interface@,
        }
    }
}

/// The meaning of one expansion: parse and validate, then emit every
/// component from the validated model; a fault of the dispatch emitter — an
/// interface method without a receiver — aborts the expansion too.
pub open spec fn spec_expand(m: ModuleV) -> Result<ExpansionV, StructuralError> {
    match spec_parse(m) {
        Err(e) => Err(e),
        Ok(pm) => match spec_dispatch(pm.sum_type, pm.interface) {
            Err(e) => Err(e),
            Ok(dispatch) => Ok(
                ExpansionV {
                    vis: pm.vis,
                    name: pm.name,
                    carriers: spec_carriers(pm.sum_type),
                    conversions: spec_conversions(pm.sum_type),
                    sum: spec_expanded_sum(pm.sum_type),
                    dispatch: dispatch,
                    interface: pm.interface,
                },
            ),
        },
    }
}

/// Expands one input module: validates it, then derives the carriers, the
/// conversions, the expanded sum type, the forwarding implementation and the
/// re-emitted interface. Fails with the first structural fault, yielding no
/// partial output.
pub fn expand(m: Module) -> (r: Result<Expansion, StructuralError>)
    ensures
        (match r {
            Ok(e) => spec_expand(m@) matches Ok(ev) && e@ == ev,
            Err(e) => spec_expand(m@) matches Err(ev) && e == ev,
        }),
{
    let pm = match ParsedModule::parse(m) {
        Ok(pm) => pm,
        Err(e) => {
            return Err(e);
        },
    };
    let ParsedModule { vis, name, sum_type, interface, imports: _ } = pm;
    let dispatch = match dispatch_of(&sum_type, &interface) {
        Ok(dispatch) => dispatch,
        Err(e) => {
            return Err(e);
        },
    };
    let carriers = carriers_of(&sum_type);
    let conversions = conversions_of(&sum_type);
    let sum = expanded_sum_of(&sum_type);
    let interface_out = reemit_interface(&interface);
    Ok(
        Expansion {
            vis,
            name,
            carriers,
            conversions,
            sum,
            dispatch,
            interface: interface_out,
        },
    )
}

} // verus!
