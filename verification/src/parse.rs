//! Validation of the input module: exactly one sum type, exactly one
//! interface, imports collected in order, and a [`StructuralError`] for every
//! malformed input.

use vstd::prelude::*;

use crate::model::{
    Interface, InterfaceV, Item, ItemV, Module, StructuralError, SumType, SumTypeV,
};

verus! {

/// The validated input: visibility and name of the module, its unique sum
/// type and interface, and its imports in declaration order.
#[derive(Debug, PartialEq, Eq)]
pub struct ParsedModule {
    pub vis: String,
    pub name: String,
    pub sum_type: SumType,
    pub interface: Interface,
    pub imports: Vec<String>,
}

/// View of [`ParsedModule`].
pub struct ParsedModuleV {
    pub vis: Seq<char>,
    pub name: Seq<char>,
    pub sum_type: SumTypeV,
    pub interface: InterfaceV,
    pub imports: Seq<Seq<char>>,
}

impl View for ParsedModule {
    type V = ParsedModuleV;

    open spec fn view(&self) -> ParsedModuleV {
        ParsedModuleV {
            vis: self.vis@,
            name: self.name@,
            sum_type: self.sum_type@,
            interface: self.interface@,
            imports: self.imports@.map_values(|u: String| u@),
        }
    }
}

/// The state a scan of the module items accumulates: the first sum type and
/// interface seen, and the imports in order.
pub type ScanState = (Option<SumTypeV>, Option<InterfaceV>, Seq<Seq<char>>);

/// What a left-to-right scan of the module items yields: either the first
/// structural fault, or the sum type, interface and imports gathered so far.
/// `sum` and `iface` accumulate the first sum type and interface seen.
pub open spec fn scan_items(
    items: Seq<ItemV>,
    sum: Option<SumTypeV>,
    iface: Option<InterfaceV>,
    imports: Seq<Seq<char>>,
) -> Result<ScanState, StructuralError>
    decreases items.len(),
{
    if items.len() == 0 {
        Ok((sum, iface, imports))
    } else {
        match items[0] {
            ItemV::Sum(s) => {
                if sum is Some {
                    Err(StructuralError::DuplicateSumType)
                } else {
                    scan_items(items.drop_first(), Some(s), iface, imports)
                }
            },
            ItemV::Iface(i) => {
                if iface is Some {
                    Err(StructuralError::DuplicateInterface)
                } else {
                    scan_items(items.drop_first(), sum, Some(i), imports)
                }
            },
            ItemV::Import(u) => scan_items(items.drop_first(), sum, iface, imports.push(u)),
            ItemV::Other => Err(StructuralError::InvalidItem),
        }
    }
}

/// The meaning of parsing: the checks in the order the parser makes them.
/// An unsafe module and a bodyless module are rejected outright; then the
/// items are scanned left to right, and the first fault wins; a scan without
/// fault must have found the sum type and the interface.
pub open spec fn spec_parse(m: crate::model::ModuleV) -> Result<ParsedModuleV, StructuralError> {
    if m.unsafety {
        Err(StructuralError::UnsafeModule)
    } else {
        match m.content {
            None => Err(StructuralError::EmptyModule),
            Some(items) => match scan_items(items, None, None, Seq::empty()) {
                Err(e) => Err(e),
                Ok((sum, iface, imports)) => match (sum, iface) {
                    (None, _) => Err(StructuralError::MissingSumType),
                    (Some(_), None) => Err(StructuralError::MissingInterface),
                    (Some(s), Some(i)) => Ok(
                        ParsedModuleV {
                            vis: m.vis,
                            name: m.name,
                            sum_type: s,
                            interface: i,
                            imports: imports,
                        },
                    ),
                },
            },
        }
    }
}

/// View of an optional sum type.
pub open spec fn opt_sum_view(o: Option<SumType>) -> Option<SumTypeV> {
    match o {
        Some(s) => Some(s@),
        None => None,
    }
}

/// View of an optional interface.
pub open spec fn opt_iface_view(o: Option<Interface>) -> Option<InterfaceV> {
    match o {
        Some(i) => Some(i@),
        None => None,
    }
}

/// How many of the items declare a sum type.
pub open spec fn count_sums(items: Seq<ItemV>) -> nat
    decreases items.len(),
{
    if items.len() == 0 {
        0
    } else {
        (if items[0] is Sum {
            1nat
        } else {
            0nat
        }) + count_sums(items.drop_first())
    }
}

/// How many of the items declare an interface.
pub open spec fn count_ifaces(items: Seq<ItemV>) -> nat
    decreases items.len(),
{
    if items.len() == 0 {
        0
    } else {
        (if items[0] is Iface {
            1nat
        } else {
            0nat
        }) + count_ifaces(items.drop_first())
    }
}

/// How many of the items are neither import, sum type, nor interface.
pub open spec fn count_others(items: Seq<ItemV>) -> nat
    decreases items.len(),
{
    if items.len() == 0 {
        0
    } else {
        (if items[0] is Other {
            1nat
        } else {
            0nat
        }) + count_others(items.drop_first())
    }
}

/// The count a started scan carries: one for an accumulated sum type or
/// interface, none yet otherwise.
pub open spec fn opt_count<A>(o: Option<A>) -> nat {
    if o is Some {
        1
    } else {
        0
    }
}

proof fn lemma_scan_duplicate_sum(
    items: Seq<ItemV>,
    sum: Option<SumTypeV>,
    iface: Option<InterfaceV>,
    imports: Seq<Seq<char>>,
    p: int,
)
    requires
        0 <= p < items.len(),
        items[p] is Sum,
        count_sums(items.subrange(0, p)) + opt_count(sum) >= 1,
        count_others(items.subrange(0, p)) == 0,
        count_ifaces(items.subrange(0, p)) + opt_count(iface) <= 1,
    ensures
        scan_items(items, sum, iface, imports) == Err::<ScanState, StructuralError>(
            StructuralError::DuplicateSumType,
        ),
    decreases p,
{
    let prefix = items.subrange(0, p);
    if p == 0 {
        assert(sum is Some);
    } else {
        let rest = items.drop_first();
        assert(prefix[0] == items[0]);
        assert(prefix.drop_first() =~= rest.subrange(0, p - 1));
        assert(rest[p - 1] == items[p]);
        match items[0] {
            ItemV::Sum(s) => {
                if sum is None {
                    lemma_scan_duplicate_sum(rest, Some(s), iface, imports, p - 1);
                }
            },
            ItemV::Iface(i) => {
                assert(count_ifaces(prefix) >= 1);
                assert(iface is None);
                lemma_scan_duplicate_sum(rest, sum, Some(i), imports, p - 1);
            },
            ItemV::Import(u) => {
                lemma_scan_duplicate_sum(rest, sum, iface, imports.push(u), p - 1);
            },
            ItemV::Other => {
                assert(count_others(prefix) >= 1);
                assert(false);
            },
        }
    }
}

/// Law: a module, not unsafe and with a body, holding a second sum-type
/// declaration — with everything before that declaration permitted, at most
/// one interface among it, and one sum type already seen — is rejected as a
/// duplicate sum type, whatever follows.
pub proof fn lemma_duplicate_sum_type(m: crate::model::ModuleV, p: int)
    requires
        m.content matches Some(items) && 0 <= p < items.len() && items[p] is Sum && count_sums(
            items.subrange(0, p),
        ) >= 1 && count_others(items.subrange(0, p)) == 0 && count_ifaces(items.subrange(0, p))
            <= 1,
        !m.unsafety,
    ensures
        spec_parse(m) == Err::<ParsedModuleV, StructuralError>(StructuralError::DuplicateSumType),
{
    let items = m.content->0;
    lemma_scan_duplicate_sum(items, None, None, Seq::empty(), p);
}

proof fn lemma_scan_no_sum(
    items: Seq<ItemV>,
    iface: Option<InterfaceV>,
    imports: Seq<Seq<char>>,
)
    requires
        count_others(items) == 0,
        count_sums(items) == 0,
        count_ifaces(items) + opt_count(iface) <= 1,
    ensures
        scan_items(items, None, iface, imports) matches Ok(st) && st.0 is None,
    decreases items.len(),
{
    if items.len() == 0 {
    } else {
        match items[0] {
            ItemV::Sum(s) => {
                assert(false);
            },
            ItemV::Iface(i) => {
                assert(iface is None);
                lemma_scan_no_sum(items.drop_first(), Some(i), imports);
            },
            ItemV::Import(u) => {
                lemma_scan_no_sum(items.drop_first(), iface, imports.push(u));
            },
            ItemV::Other => {
                assert(false);
            },
        }
    }
}

/// Law: a module, not unsafe and with a body, whose items are all permitted
/// and hold at most one interface but no sum type declaration, is rejected
/// for the missing sum type.
pub proof fn lemma_missing_sum_type(m: crate::model::ModuleV)
    requires
        !m.unsafety,
        m.content matches Some(items) && count_others(items) == 0 && count_ifaces(items) <= 1
            && count_sums(items) == 0,
    ensures
        spec_parse(m) == Err::<ParsedModuleV, StructuralError>(StructuralError::MissingSumType),
{
    let items = m.content->0;
    lemma_scan_no_sum(items, None, Seq::empty());
}

proof fn lemma_scan_invalid_item(
    items: Seq<ItemV>,
    sum: Option<SumTypeV>,
    iface: Option<InterfaceV>,
    imports: Seq<Seq<char>>,
    p: int,
)
    requires
        0 <= p < items.len(),
        items[p] is Other,
        count_others(items.subrange(0, p)) == 0,
        count_sums(items.subrange(0, p)) + opt_count(sum) <= 1,
        count_ifaces(items.subrange(0, p)) + opt_count(iface) <= 1,
    ensures
        scan_items(items, sum, iface, imports) == Err::<ScanState, StructuralError>(
            StructuralError::InvalidItem,
        ),
    decreases p,
{
    let prefix = items.subrange(0, p);
    if p == 0 {
        assert(items[0] is Other);
    } else {
        let rest = items.drop_first();
        assert(prefix[0] == items[0]);
        assert(prefix.drop_first() =~= rest.subrange(0, p - 1));
        assert(rest[p - 1] == items[p]);
        match items[0] {
            ItemV::Sum(s) => {
                assert(count_sums(prefix) >= 1);
                assert(sum is None);
                lemma_scan_invalid_item(rest, Some(s), iface, imports, p - 1);
            },
            ItemV::Iface(i) => {
                assert(count_ifaces(prefix) >= 1);
                assert(iface is None);
                lemma_scan_invalid_item(rest, sum, Some(i), imports, p - 1);
            },
            ItemV::Import(u) => {
                lemma_scan_invalid_item(rest, sum, iface, imports.push(u), p - 1);
            },
            ItemV::Other => {
                assert(count_others(prefix) >= 1);
                assert(false);
            },
        }
    }
}

/// Law: a module, not unsafe and with a body, holding a free-standing item
/// that is neither import, sum type, nor interface — with everything before
/// that item permitted and unrepeated — is rejected for the invalid item.
pub proof fn lemma_invalid_item(m: crate::model::ModuleV, p: int)
    requires
        m.content matches Some(items) && 0 <= p < items.len() && items[p] is Other
            && count_others(items.subrange(0, p)) == 0 && count_sums(items.subrange(0, p)) <= 1
            && count_ifaces(items.subrange(0, p)) <= 1,
        !m.unsafety,
    ensures
        spec_parse(m) == Err::<ParsedModuleV, StructuralError>(StructuralError::InvalidItem),
{
    let items = m.content->0;
    lemma_scan_invalid_item(items, None, None, Seq::empty(), p);
}

impl ParsedModule {
    /// Classifies and validates the items of the input module, returning the
    /// structured model or the first structural fault found.
    #[verifier::loop_isolation(false)]
    pub fn parse(m: Module) -> (r: Result<ParsedModule, StructuralError>)
        ensures
            (match r {
                Ok(pm) => spec_parse(m@) matches Ok(pmv) && pm@ == pmv,
                Err(e) => spec_parse(m@) matches Err(ev) && e == ev,
            }),
    {
        let ghost mv = m@;
        let Module { unsafety, vis, name, content } = m;
        if unsafety {
            return Err(StructuralError::UnsafeModule);
        }
        let mut items = match content {
            Some(items) => items,
            None => {
                return Err(StructuralError::EmptyModule);
            },
        };
        let ghost all_items: Seq<ItemV> = items@.map_values(|i: Item| i@);
        proof {
            assert(mv.content == Some(all_items));
        }

        let mut sum: Option<SumType> = None;
        let mut iface: Option<Interface> = None;
        let mut imports: Vec<String> = Vec::new();

        proof {
            assert(imports@.map_values(|u: String| u@) =~= Seq::<Seq<char>>::empty());
        }
        while items.len() > 0
            invariant
                scan_items(all_items, None, None, Seq::empty()) == scan_items(
                    items@.map_values(|i: Item| i@),
                    opt_sum_view(sum),
                    opt_iface_view(iface),
                    imports@.map_values(|u: String| u@),
                ),
            decreases items.len(),
        {
            let ghost pre: Seq<ItemV> = items@.map_values(|i: Item| i@);
            let ghost pre_sum = opt_sum_view(sum);
            let ghost pre_iface = opt_iface_view(iface);
            let ghost pre_imports: Seq<Seq<char>> = imports@.map_values(|u: String| u@);
            let item = items.remove(0);
            proof {
                assert(items@.map_values(|i: Item| i@) =~= pre.drop_first());
                assert(pre[0] == item@);
            }
            match item {
                Item::Sum(s) => {
                    if sum.is_none() {
                        sum = Some(s);
                        proof {
                            assert(scan_items(pre, pre_sum, pre_iface, pre_imports)
                                == scan_items(pre.drop_first(), Some(s@), pre_iface, pre_imports));
                        }
                    } else {
                        proof {
                            assert(scan_items(pre, pre_sum, pre_iface, pre_imports)
                                == Err::<ScanState, StructuralError>(StructuralError::DuplicateSumType));
                        }
                        return Err(StructuralError::DuplicateSumType);
                    }
                },
                Item::Iface(i) => {
                    if iface.is_none() {
                        iface = Some(i);
                        proof {
                            assert(scan_items(pre, pre_sum, pre_iface, pre_imports)
                                == scan_items(pre.drop_first(), pre_sum, Some(i@), pre_imports));
                        }
                    } else {
                        proof {
                            assert(scan_items(pre, pre_sum, pre_iface, pre_imports)
                                == Err::<ScanState, StructuralError>(StructuralError::DuplicateInterface));
                        }
                        return Err(StructuralError::DuplicateInterface);
                    }
                },
                Item::Import(u) => {
                    let ghost uv: Seq<char> = u@;
                    imports.push(u);
                    proof {
                        assert(imports@.map_values(|x: String| x@) =~= pre_imports.push(uv));
                        assert(scan_items(pre, pre_sum, pre_iface, pre_imports)
                            == scan_items(pre.drop_first(), pre_sum, pre_iface, pre_imports.push(uv)));
                    }
                },
                Item::Other => {
                    proof {
                        assert(scan_items(pre, pre_sum, pre_iface, pre_imports)
                            == Err::<ScanState, StructuralError>(StructuralError::InvalidItem));
                    }
                    return Err(StructuralError::InvalidItem);
                },
            }
        }

        proof {
            assert(items@.map_values(|i: Item| i@) =~= Seq::<ItemV>::empty());
            assert(scan_items(all_items, None, None, Seq::empty()) == Ok::<ScanState, StructuralError>(
                (opt_sum_view(sum), opt_iface_view(iface), imports@.map_values(|u: String| u@)),
            ));
        }
        let sum_type = match sum {
            Some(s) => s,
            None => {
                return Err(StructuralError::MissingSumType);
            },
        };
        let interface = match iface {
            Some(i) => i,
            None => {
                return Err(StructuralError::MissingInterface);
            },
        };
        Ok(ParsedModule { vis, name, sum_type, interface, imports })
    }
}

} // verus!
