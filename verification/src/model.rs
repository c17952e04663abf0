//! The declarative description of a model: roles, type kinds, declared
//! fields, variable descriptors and model metadata.
use vstd::prelude::*;
use vstd::string::*;
use crate::text::same_text;

verus! {

/// The role a variable plays at the model's interface.
#[derive(Clone, Copy, Debug, PartialEq, Eq, Structural)]
pub enum Causality {
    /// The field is not part of the interface at all.
    Ignore,
    Output,
    Input,
    Parameter,
    Independent,
}

/// How often a variable may change.
#[derive(Clone, Copy, Debug, PartialEq, Eq, Structural)]
pub enum Variability {
    Fixed,
    Continuous,
}

impl Causality {
    /// The lower-case name under which the role appears in a model description.
    pub open spec fn text(self) -> Seq<char> {
        match self {
            Causality::Ignore => "ignore"@,
            Causality::Output => "output"@,
            Causality::Input => "input"@,
            Causality::Parameter => "parameter"@,
            Causality::Independent => "independent"@,
        }
    }

    /// Parameters are fixed; every other role is continuous.
    pub open spec fn spec_variability(self) -> Variability {
        if self == Causality::Parameter {
            Variability::Fixed
        } else {
            Variability::Continuous
        }
    }

    pub fn to_string(&self) -> (text: String)
        ensures
            text@ == self.text(),
    {
        match self {
            Causality::Ignore => String::from_str("ignore"),
            Causality::Output => String::from_str("output"),
            Causality::Input => String::from_str("input"),
            Causality::Parameter => String::from_str("parameter"),
            Causality::Independent => String::from_str("independent"),
        }
    }

    #[verifier::when_used_as_spec(spec_variability)]
    pub fn variability(self) -> (v: Variability)
        ensures
            v == self.spec_variability(),
            (v == Variability::Fixed) <==> (self == Causality::Parameter),
    {
        match self {
            Causality::Parameter => Variability::Fixed,
            _ => Variability::Continuous,
        }
    }
}

impl Default for Causality {
    fn default() -> (c: Causality)
        ensures
            c == Causality::Ignore,
    {
        Causality::Ignore
    }
}

/// The kind of value a variable holds.
#[derive(Clone, Copy, Debug, PartialEq, Eq, Structural)]
pub enum TypeKind {
    Real,
    Integer,
    Boolean,
}

impl TypeKind {
    /// The kind that a declared type name stands for, if it is supported.
    pub open spec fn of_declared_type(name: Seq<char>) -> Option<TypeKind> {
        if name == "f64"@ {
            Some(TypeKind::Real)
        } else if name == "i64"@ {
            Some(TypeKind::Integer)
        } else if name == "bool"@ {
            Some(TypeKind::Boolean)
        } else {
            None
        }
    }

    /// The name of the element that carries a variable of this kind in a
    /// model description.
    pub open spec fn element(self) -> Seq<char> {
        match self {
            TypeKind::Real => "Real"@,
            TypeKind::Integer => "Integer"@,
            TypeKind::Boolean => "Boolean"@,
        }
    }

    /// Resolves a declared type name; `None` means the type is unsupported.
    pub fn from_declared_type(name: &str) -> (kind: Option<TypeKind>)
        ensures
            kind == Self::of_declared_type(name@),
    {
        if same_text(name, "f64") {
            Some(TypeKind::Real)
        } else if same_text(name, "i64") {
            Some(TypeKind::Integer)
        } else if same_text(name, "bool") {
            Some(TypeKind::Boolean)
        } else {
            None
        }
    }

    pub fn element_name(self) -> (name: String)
        ensures
            name@ == self.element(),
    {
        match self {
            TypeKind::Real => String::from_str("Real"),
            TypeKind::Integer => String::from_str("Integer"),
            TypeKind::Boolean => String::from_str("Boolean"),
        }
    }
}

/// What a declared field says, as mathematical data.
pub struct Field {
    pub name: Seq<char>,
    pub declared_type: Seq<char>,
    pub causality: Causality,
    pub id: Option<u64>,
    pub description: Seq<char>,
    pub unit: Seq<char>,
    pub starting_value: Option<u64>,
}

/// One field of a model as its author declared it.
///
/// `id` is the value reference the author asked for, if any.  A starting
/// value of a real variable is kept as the bit pattern of its IEEE 754
/// double.
#[derive(Clone, Debug)]
pub struct FieldDeclaration {
    pub name: String,
    pub declared_type: String,
    pub causality: Causality,
    pub id: Option<u64>,
    pub description: String,
    pub unit: String,
    pub starting_value: Option<u64>,
}

impl View for FieldDeclaration {
    type V = Field;

    open spec fn view(&self) -> Field {
        Field {
            name: self.name@,
            declared_type: self.declared_type@,
            causality: self.causality,
            id: self.id,
            description: self.description@,
            unit: self.unit@,
            starting_value: self.starting_value,
        }
    }
}

impl DeepView for FieldDeclaration {
    type V = Field;

    open spec fn deep_view(&self) -> Field {
        self@
    }
}

impl FieldDeclaration {
    /// A field with the given name and type and every attribute at its
    /// default: ignored, no value reference, empty unit and description.
    pub fn new(name: &str, declared_type: &str) -> (field: FieldDeclaration)
        ensures
            field@ == (Field {
                name: name@,
                declared_type: declared_type@,
                causality: Causality::Ignore,
                id: None,
                description: Seq::empty(),
                unit: Seq::empty(),
                starting_value: None,
            }),
    {
        FieldDeclaration {
            name: String::from_str(name),
            declared_type: String::from_str(declared_type),
            causality: Causality::Ignore,
            id: None,
            description: String::new(),
            unit: String::new(),
            starting_value: None,
        }
    }
}

/// A variable of the model's interface, as mathematical data.
pub struct Variable {
    pub name: Seq<char>,
    pub type_kind: TypeKind,
    pub causality: Causality,
    pub value_reference: u64,
    pub unit: Seq<char>,
    pub description: Seq<char>,
    pub starting_value: Option<u64>,
}

/// A variable of the model's interface with its value reference assigned.
#[derive(Clone, Debug)]
pub struct VariableDescriptor {
    pub name: String,
    pub type_kind: TypeKind,
    pub causality: Causality,
    pub value_reference: u64,
    pub unit: String,
    pub description: String,
    pub starting_value: Option<u64>,
}

impl View for VariableDescriptor {
    type V = Variable;

    open spec fn view(&self) -> Variable {
        Variable {
            name: self.name@,
            type_kind: self.type_kind,
            causality: self.causality,
            value_reference: self.value_reference,
            unit: self.unit@,
            description: self.description@,
            starting_value: self.starting_value,
        }
    }
}

impl DeepView for VariableDescriptor {
    type V = Variable;

    open spec fn deep_view(&self) -> Variable {
        self@
    }
}

impl VariableDescriptor {
    #[verifier::when_used_as_spec(spec_variability)]
    pub fn variability(&self) -> (v: Variability)
        ensures
            v == self.spec_variability(),
            (v == Variability::Fixed) <==> (self.causality == Causality::Parameter),
    {
        self.causality.variability()
    }

    pub open spec fn spec_variability(&self) -> Variability {
        self.causality.spec_variability()
    }
}

impl Variability {
    pub open spec fn text(self) -> Seq<char> {
        match self {
            Variability::Fixed => "fixed"@,
            Variability::Continuous => "continuous"@,
        }
    }

    pub fn to_string(&self) -> (text: String)
        ensures
            text@ == self.text(),
    {
        match self {
            Variability::Fixed => String::from_str("fixed"),
            Variability::Continuous => String::from_str("continuous"),
        }
    }
}

/// The identity of a model, as mathematical data.
pub struct Metadata {
    pub model_name: Seq<char>,
    pub description: Seq<char>,
    pub guid: Seq<char>,
    pub platform: Seq<char>,
}

/// The identity of a model: its name, what it is, the token that binds a
/// compiled plugin to this definition, and the platform it is built for.
#[derive(Clone, Debug)]
pub struct ModelMetadata {
    pub model_name: String,
    pub description: String,
    pub guid: String,
    pub platform: String,
}

impl View for ModelMetadata {
    type V = Metadata;

    open spec fn view(&self) -> Metadata {
        Metadata {
            model_name: self.model_name@,
            description: self.description@,
            guid: self.guid@,
            platform: self.platform@,
        }
    }
}

/// Why a definition cannot be generated from a model's declaration.
#[derive(Clone, Copy, Debug, PartialEq, Eq, Structural)]
pub enum GenerationError {
    /// A variable of the interface has a type other than `f64`, `i64` or `bool`.
    UnsupportedType,
    /// The value references left to be allocated do not fit in 64 bits.
    ReferencesExhausted,
}

} // verus!
