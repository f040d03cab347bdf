//! The in-memory model of an interface description.
use vstd::prelude::*;

verus! {

/// A type expression of an interface description.
#[derive(Debug, PartialEq, Eq)]
pub enum IdlType {
    Bool,
    U8,
    I8,
    U16,
    I16,
    U32,
    I32,
    F32,
    U64,
    I64,
    F64,
    U128,
    I128,
    /// A byte sequence of any length.
    Bytes,
    /// UTF-8 text of any length.
    Text,
    /// A public key of 32 bytes, taken as a primitive.
    PublicKey,
    /// A value that may be absent.
    Optional(Box<IdlType>),
    /// A sequence of any length.
    List(Box<IdlType>),
    /// An array of exactly that many elements.
    FixedArray(Box<IdlType>, usize),
    /// A user-defined type, referred to by name.
    Reference(String),
}

/// A named, typed member: a field of a struct or an argument of an
/// instruction.
#[derive(Debug, PartialEq, Eq)]
pub struct IdlField {
    pub name: String,
    pub ty: IdlType,
}

/// A variant of an enum. Declarations know unit variants only: of a variant
/// that carries data the name is declared and the data is not.
#[derive(Debug, PartialEq, Eq)]
pub struct IdlEnumVariant {
    pub name: String,
    /// Whether the description gives the variant fields.
    pub carries_data: bool,
}

/// The body of a type definition.
#[derive(Debug, PartialEq, Eq)]
pub enum IdlTypeDefinitionTy {
    /// Fields in the order of their binary layout.
    Struct { fields: Vec<IdlField> },
    /// The variants, in order.
    Enum { variants: Vec<IdlEnumVariant> },
}

/// A user-defined type: a name and a body.
#[derive(Debug, PartialEq, Eq)]
pub struct IdlTypeDefinition {
    pub name: String,
    pub ty: IdlTypeDefinitionTy,
}

/// A callable instruction: a name and its arguments in order.
#[derive(Debug, PartialEq, Eq)]
pub struct IdlInstruction {
    pub name: String,
    pub args: Vec<IdlField>,
}

/// What the metadata holds under the key `address`.
#[derive(Debug, PartialEq, Eq)]
pub enum AddressValue {
    /// A string: the program's address.
    Text(String),
    /// A value of any other kind.
    Other,
}

/// The metadata of a description, as far as the library reads it.
#[derive(Debug, PartialEq, Eq)]
pub struct IdlMetadata {
    /// The value under `address`, if the key is present.
    pub address: Option<AddressValue>,
}

/// An interface description.
#[derive(Debug, PartialEq, Eq)]
pub struct Idl {
    pub metadata: Option<IdlMetadata>,
    pub instructions: Vec<IdlInstruction>,
    /// The account-shaped type definitions, searched first.
    pub accounts: Vec<IdlTypeDefinition>,
    /// The auxiliary type definitions, searched second.
    pub types: Vec<IdlTypeDefinition>,
}

/// A type expression as a mathematical value.
pub enum TypeExpr {
    Bool,
    U8,
    I8,
    U16,
    I16,
    U32,
    I32,
    F32,
    U64,
    I64,
    F64,
    U128,
    I128,
    Bytes,
    Text,
    PublicKey,
    Optional(Box<TypeExpr>),
    List(Box<TypeExpr>),
    FixedArray(Box<TypeExpr>, nat),
    Reference(Seq<char>),
}

/// A field as a mathematical value.
pub struct FieldView {
    pub name: Seq<char>,
    pub ty: TypeExpr,
}

/// A variant of an enum as a mathematical value.
pub struct VariantView {
    pub name: Seq<char>,
    pub carries_data: bool,
}

/// The body of a type definition as a mathematical value.
pub enum DefinitionBody {
    Struct { fields: Seq<FieldView> },
    Enum { variants: Seq<VariantView> },
}

/// A type definition as a mathematical value.
pub struct DefinitionView {
    pub name: Seq<char>,
    pub body: DefinitionBody,
}

/// An instruction as a mathematical value.
pub struct InstructionView {
    pub name: Seq<char>,
    pub args: Seq<FieldView>,
}

/// What the metadata holds under `address`, as a mathematical value.
pub enum AddressView {
    Text(Seq<char>),
    Other,
}

/// An interface description as a mathematical value. The metadata is absent
/// (`None`), present without an address (`Some(None)`), or present with one.
pub struct IdlView {
    pub metadata: Option<Option<AddressView>>,
    pub instructions: Seq<InstructionView>,
    pub accounts: Seq<DefinitionView>,
    pub types: Seq<DefinitionView>,
}

/// The mathematical value of a type expression.
pub open spec fn type_expr(ty: IdlType) -> TypeExpr
    decreases ty,
{
    match ty {
        IdlType::Bool => TypeExpr::Bool,
        IdlType::U8 => TypeExpr::U8,
        IdlType::I8 => TypeExpr::I8,
        IdlType::U16 => TypeExpr::U16,
        IdlType::I16 => TypeExpr::I16,
        IdlType::U32 => TypeExpr::U32,
        IdlType::I32 => TypeExpr::I32,
        IdlType::F32 => TypeExpr::F32,
        IdlType::U64 => TypeExpr::U64,
        IdlType::I64 => TypeExpr::I64,
        IdlType::F64 => TypeExpr::F64,
        IdlType::U128 => TypeExpr::U128,
        IdlType::I128 => TypeExpr::I128,
        IdlType::Bytes => TypeExpr::Bytes,
        IdlType::Text => TypeExpr::Text,
        IdlType::PublicKey => TypeExpr::PublicKey,
        IdlType::Optional(inner) => TypeExpr::Optional(Box::new(type_expr(*inner))),
        IdlType::List(inner) => TypeExpr::List(Box::new(type_expr(*inner))),
        IdlType::FixedArray(inner, size) => TypeExpr::FixedArray(
            Box::new(type_expr(*inner)),
            size as nat,
        ),
        IdlType::Reference(name) => TypeExpr::Reference(name@),
    }
}

/// The mathematical values of a list of fields, in order.
pub open spec fn field_views(fields: Seq<IdlField>) -> Seq<FieldView> {
    fields.map_values(|field: IdlField| field@)
}

/// The mathematical values of a list of variants, in order.
pub open spec fn variant_views(variants: Seq<IdlEnumVariant>) -> Seq<VariantView> {
    variants.map_values(|variant: IdlEnumVariant| variant@)
}

/// The mathematical values of a list of definitions, in order.
pub open spec fn definition_views(defs: Seq<IdlTypeDefinition>) -> Seq<DefinitionView> {
    defs.map_values(|def: IdlTypeDefinition| def@)
}

/// The mathematical values of a list of instructions, in order.
pub open spec fn instruction_views(instructions: Seq<IdlInstruction>) -> Seq<InstructionView> {
    instructions.map_values(|instruction: IdlInstruction| instruction@)
}

impl View for IdlType {
    type V = TypeExpr;

    open spec fn view(&self) -> TypeExpr {
        type_expr(*self)
    }
}

impl View for IdlField {
    type V = FieldView;

    open spec fn view(&self) -> FieldView {
        FieldView { name: self.name@, ty: self.ty@ }
    }
}

impl View for IdlEnumVariant {
    type V = VariantView;

    open spec fn view(&self) -> VariantView {
        VariantView { name: self.name@, carries_data: self.carries_data }
    }
}

impl View for IdlTypeDefinitionTy {
    type V = DefinitionBody;

    open spec fn view(&self) -> DefinitionBody {
        match *self {
            IdlTypeDefinitionTy::Struct { fields } => DefinitionBody::Struct {
                fields: field_views(fields@),
            },
            IdlTypeDefinitionTy::Enum { variants } => DefinitionBody::Enum {
                variants: variant_views(variants@),
            },
        }
    }
}

impl View for IdlTypeDefinition {
    type V = DefinitionView;

    open spec fn view(&self) -> DefinitionView {
        DefinitionView { name: self.name@, body: self.ty@ }
    }
}

impl View for IdlInstruction {
    type V = InstructionView;

    open spec fn view(&self) -> InstructionView {
        InstructionView { name: self.name@, args: field_views(self.args@) }
    }
}

impl View for AddressValue {
    type V = AddressView;

    open spec fn view(&self) -> AddressView {
        match *self {
            AddressValue::Text(address) => AddressView::Text(address@),
            AddressValue::Other => AddressView::Other,
        }
    }
}

impl View for IdlMetadata {
    type V = Option<AddressView>;

    open spec fn view(&self) -> Option<AddressView> {
        match self.address {
            Some(address) => Some(address@),
            None => None,
        }
    }
}

impl View for Idl {
    type V = IdlView;

    open spec fn view(&self) -> IdlView {
        IdlView {
            metadata: match self.metadata {
                Some(metadata) => Some(metadata@),
                None => None,
            },
            instructions: instruction_views(self.instructions@),
            accounts: definition_views(self.accounts@),
            types: definition_views(self.types@),
        }
    }
}

impl TypeExpr {
    /// Whether the expression is one of the sixteen primitive kinds.
    pub open spec fn is_primitive(self) -> bool {
        match self {
            TypeExpr::Optional(_) | TypeExpr::List(_) | TypeExpr::FixedArray(_, _)
            | TypeExpr::Reference(_) => false,
            _ => true,
        }
    }
}

} // verus!
