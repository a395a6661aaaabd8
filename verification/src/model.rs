//! The data model of an expansion: the input module with its items, the sum
//! type with its variants and shapes, the interface with its methods, and the
//! structural errors.
//!
//! Every type carries identifier and type text as plain strings; the
//! mathematical model of each type (its view) replaces each string by its
//! `Seq<char>` and each `Vec` by a `Seq`.

use vstd::prelude::*;

verus! {

/// One named field of a variant: its name and the text of its type.
#[derive(Debug, PartialEq, Eq)]
pub struct FieldDef {
    pub name: String,
    pub ty: String,
}

/// View of [`FieldDef`].
pub struct FieldDefV {
    pub name: Seq<char>,
    pub ty: Seq<char>,
}

impl View for FieldDef {
    type V = FieldDefV;

    open spec fn view(&self) -> FieldDefV {
        FieldDefV { name: self.name@, ty: self.ty@ }
    }
}

/// The field shape of one variant: no fields, named fields, or positional
/// fields.
#[derive(Debug, PartialEq, Eq)]
pub enum Shape {
    Unit,
    Named(Vec<FieldDef>),
    Positional(Vec<String>),
}

/// View of [`Shape`].
pub enum ShapeV {
    Unit,
    Named(Seq<FieldDefV>),
    Positional(Seq<Seq<char>>),
}

impl View for Shape {
    type V = ShapeV;

    open spec fn view(&self) -> ShapeV {
        match self {
            Shape::Unit => ShapeV::Unit,
            Shape::Named(fields) => ShapeV::Named(fields@.map_values(|f: FieldDef| f@)),
            Shape::Positional(tys) => ShapeV::Positional(tys@.map_values(|t: String| t@)),
        }
    }
}

/// One variant of the sum type.
#[derive(Debug, PartialEq, Eq)]
pub struct Variant {
    pub name: String,
    pub shape: Shape,
}

/// View of [`Variant`].
pub struct VariantV {
    pub name: Seq<char>,
    pub shape: ShapeV,
}

impl View for Variant {
    type V = VariantV;

    open spec fn view(&self) -> VariantV {
        VariantV { name: self.name@, shape: self.shape@ }
    }
}

/// The sum type of the input: its annotations, its name, and its variants in
/// declaration order.
#[derive(Debug, PartialEq, Eq)]
pub struct SumType {
    pub attrs: Vec<String>,
    pub name: String,
    pub variants: Vec<Variant>,
}

/// View of [`SumType`].
pub struct SumTypeV {
    pub attrs: Seq<Seq<char>>,
    pub name: Seq<char>,
    pub variants: Seq<VariantV>,
}

impl View for SumType {
    type V = SumTypeV;

    open spec fn view(&self) -> SumTypeV {
        SumTypeV {
            attrs: self.attrs@.map_values(|a: String| a@),
            name: self.name@,
            variants: self.variants@.map_values(|v: Variant| v@),
        }
    }
}

/// The receiver of an interface method, as declared: whether it is taken
/// behind a reference, and whether that reference is exclusive.
#[derive(Clone, Copy, PartialEq, Eq, Structural, Debug)]
pub struct ReceiverSpec {
    pub by_ref: bool,
    pub mutable: bool,
}

/// One method of the interface.
///
/// `decl` is the whole declaration verbatim (signature and default body, if
/// any); `sig` is the signature alone, reused as the header of the emitted
/// dispatch method. `params` lists the parameter names after the receiver, in
/// order: only the names are needed at a forwarding call site.
#[derive(Debug, PartialEq, Eq)]
pub struct Method {
    pub decl: String,
    pub sig: String,
    pub name: String,
    pub receiver: Option<ReceiverSpec>,
    pub params: Vec<String>,
}

/// View of [`Method`].
pub struct MethodV {
    pub decl: Seq<char>,
    pub sig: Seq<char>,
    pub name: Seq<char>,
    pub receiver: Option<ReceiverSpec>,
    pub params: Seq<Seq<char>>,
}

impl View for Method {
    type V = MethodV;

    open spec fn view(&self) -> MethodV {
        MethodV {
            decl: self.decl@,
            sig: self.sig@,
            name: self.name@,
            receiver: self.receiver,
            params: self.params@.map_values(|p: String| p@),
        }
    }
}

/// One item of the interface: a method, or some other associated item kept
/// verbatim (an associated constant or type).
#[derive(Debug, PartialEq, Eq)]
pub enum TraitItem {
    MethodItem(Method),
    OtherItem(String),
}

/// View of [`TraitItem`].
pub enum TraitItemV {
    MethodItem(MethodV),
    OtherItem(Seq<char>),
}

impl View for TraitItem {
    type V = TraitItemV;

    open spec fn view(&self) -> TraitItemV {
        match self {
            TraitItem::MethodItem(m) => TraitItemV::MethodItem(m@),
            TraitItem::OtherItem(t) => TraitItemV::OtherItem(t@),
        }
    }
}

/// The interface of the input: its name and its items in declaration order.
#[derive(Debug, PartialEq, Eq)]
pub struct Interface {
    pub name: String,
    pub items: Vec<TraitItem>,
}

/// View of [`Interface`].
pub struct InterfaceV {
    pub name: Seq<char>,
    pub items: Seq<TraitItemV>,
}

impl View for Interface {
    type V = InterfaceV;

    open spec fn view(&self) -> InterfaceV {
        InterfaceV {
            name: self.name@,
            items: self.items@.map_values(|i: TraitItem| i@),
        }
    }
}

/// One top-level item of the input module. Anything that is neither an
/// import, the sum type, nor the interface is `Other`, and is rejected by
/// parsing.
#[derive(Debug, PartialEq, Eq)]
pub enum Item {
    Import(String),
    Sum(SumType),
    Iface(Interface),
    Other,
}

/// View of [`Item`].
pub enum ItemV {
    Import(Seq<char>),
    Sum(SumTypeV),
    Iface(InterfaceV),
    Other,
}

impl View for Item {
    type V = ItemV;

    open spec fn view(&self) -> ItemV {
        match self {
            Item::Import(u) => ItemV::Import(u@),
            Item::Sum(s) => ItemV::Sum(s@),
            Item::Iface(i) => ItemV::Iface(i@),
            Item::Other => ItemV::Other,
        }
    }
}

/// The input module declaration: its unsafety marker, visibility text, name,
/// and its items, or `None` where the module has no body.
#[derive(Debug, PartialEq, Eq)]
pub struct Module {
    pub unsafety: bool,
    pub vis: String,
    pub name: String,
    pub content: Option<Vec<Item>>,
}

/// View of [`Module`].
pub struct ModuleV {
    pub unsafety: bool,
    pub vis: Seq<char>,
    pub name: Seq<char>,
    pub content: Option<Seq<ItemV>>,
}

impl View for Module {
    type V = ModuleV;

    open spec fn view(&self) -> ModuleV {
        ModuleV {
            unsafety: self.unsafety,
            vis: self.vis@,
            name: self.name@,
            content: match &self.content {
                Some(items) => Some(items@.map_values(|i: Item| i@)),
                None => None,
            },
        }
    }
}

/// Copies a vector of strings; the copy is equal, element for element, to the
/// original.
pub fn copy_strings(xs: &Vec<String>) -> (r: Vec<String>)
    ensures
        r@ == xs@,
{
    let mut r: Vec<String> = Vec::new();
    let mut i: usize = 0;
    while i < xs.len()
        invariant
            i <= xs.len(),
            r@.len() == i as nat,
            forall|j: int| 0 <= j < i ==> r@[j] == xs@[j],
        decreases xs.len() - i,
    {
        r.push(xs[i].clone());
        i += 1;
    }
    proof {
        assert(r@ =~= xs@);
    }
    r
}

/// Copies a vector of fields; the copy is equal, element for element, to the
/// original.
pub fn copy_fields(xs: &Vec<FieldDef>) -> (r: Vec<FieldDef>)
    ensures
        r@ == xs@,
{
    let mut r: Vec<FieldDef> = Vec::new();
    let mut i: usize = 0;
    while i < xs.len()
        invariant
            i <= xs.len(),
            r@.len() == i as nat,
            forall|j: int| 0 <= j < i ==> r@[j] == xs@[j],
        decreases xs.len() - i,
    {
        r.push(FieldDef { name: xs[i].name.clone(), ty: xs[i].ty.clone() });
        i += 1;
    }
    proof {
        assert(r@ =~= xs@);
    }
    r
}

/// Copies a shape; the copy has the same view as the original.
pub fn copy_shape(s: &Shape) -> (r: Shape)
    ensures
        r@ == s@,
{
    match s {
        Shape::Unit => Shape::Unit,
        Shape::Named(fields) => Shape::Named(copy_fields(fields)),
        Shape::Positional(tys) => Shape::Positional(copy_strings(tys)),
    }
}

/// Copies a method; the copy has the same view as the original.
pub fn copy_method(m: &Method) -> (r: Method)
    ensures
        r@ == m@,
{
    Method {
        decl: m.decl.clone(),
        sig: m.sig.clone(),
        name: m.name.clone(),
        receiver: m.receiver,
        params: copy_strings(&m.params),
    }
}

/// Copies an interface item; the copy has the same view as the original.
pub fn copy_trait_item(t: &TraitItem) -> (r: TraitItem)
    ensures
        r@ == t@,
{
    match t {
        TraitItem::MethodItem(m) => TraitItem::MethodItem(copy_method(m)),
        TraitItem::OtherItem(text) => TraitItem::OtherItem(text.clone()),
    }
}

/// A structural fault of the input. Each expansion either returns a
/// complete output or exactly one of these. `MissingReceiver` is raised by
/// the dispatch emitter for an interface method that takes no instance
/// receiver: such a method has no forwarding target.
#[derive(Clone, Copy, PartialEq, Eq, Structural, Debug)]
pub enum StructuralError {
    UnsafeModule,
    EmptyModule,
    InvalidItem,
    DuplicateSumType,
    DuplicateInterface,
    MissingSumType,
    MissingInterface,
    MissingReceiver,
}

} // verus!
