//! From a model's declaration to its definition.
//!
//! `derive` is the generation pass: it builds the variable table, settles
//! the model's identity and renders the model-description template.
use vstd::prelude::*;
use vstd::string::*;
use crate::description::{document_text, model_description_template, DefaultExperiment};
use crate::model::{Field, FieldDeclaration, GenerationError, Metadata, ModelMetadata};
use crate::table::{
    all_supported, build_variable_table, check_references_fit, check_supported,
    explicit_distinct, references_fit, references_unique, survivors, table_of, VariableTable,
};

verus! {

/// The number of characters of a hyphenated identifier.
pub open spec fn identifier_length() -> nat {
    36
}

/// A text in curly brackets.
pub open spec fn braced(inner: Seq<char>) -> Seq<char> {
    "{"@ + inner + "}"@
}

/// Whether a text has the form of a generated identity token: an identifier
/// in curly brackets.
pub open spec fn is_generated_guid(guid: Seq<char>) -> bool {
    exists|inner: Seq<char>| inner.len() == identifier_length() && guid == braced(inner)
}

/// `Uuid::new_v4` followed by `to_string`: a random identifier in its
/// hyphenated form, which has 36 characters.  Which identifier comes back is
/// left open.
#[verifier::external_body]
fn fresh_identifier() -> (text: String)
    ensures
        text@.len() == identifier_length(),
{
    uuid::Uuid::new_v4().to_string()
}

/// Puts an identifier in curly brackets.
pub fn brace(inner: &str) -> (guid: String)
    ensures
        guid@ == braced(inner@),
{
    let mut guid = String::from_str("{");
    guid.append(inner);
    guid.append("}");
    guid
}

/// The identity token of a model whose author declared none: a fresh
/// random identifier in curly brackets.
pub fn default_guid() -> (guid: String)
    ensures
        is_generated_guid(guid@),
{
    let inner = fresh_identifier();
    brace(inner.as_str())
}

/// A model's declaration as mathematical data.
pub struct Declaration {
    pub model_name: Seq<char>,
    pub description: Seq<char>,
    pub guid: Option<Seq<char>>,
    pub fields: Seq<Field>,
}

/// What the author of a model declares: its name, what it is, optionally
/// its identity token, and its fields.
#[derive(Debug)]
pub struct ModelDeclaration {
    pub model_name: String,
    pub description: String,
    pub guid: Option<String>,
    pub fields: Vec<FieldDeclaration>,
}

impl View for ModelDeclaration {
    type V = Declaration;

    open spec fn view(&self) -> Declaration {
        Declaration {
            model_name: self.model_name@,
            description: self.description@,
            guid: match self.guid {
                Some(guid) => Some(guid@),
                None => None,
            },
            fields: self.fields.deep_view(),
        }
    }
}

/// What is fixed when a model is generated rather than declared with it.
#[derive(Debug)]
pub struct GenerationConfig {
    /// The identifier of the platform the plugin is built for.
    pub platform: String,
    pub experiment: DefaultExperiment,
}

/// A model that is ready to be instantiated and packaged.
#[derive(Debug)]
pub struct ModelDefinition {
    pub metadata: ModelMetadata,
    pub table: VariableTable,
    /// The model description, with placeholders for start values.
    pub template: String,
}

impl ModelDefinition {
    /// The identity token of the model.
    pub fn guid(&self) -> (guid: &str)
        ensures
            guid@ == self.metadata.guid@,
    {
        self.metadata.guid.as_str()
    }

    /// What the model is, in its author's words.
    pub fn description(&self) -> (description: &str)
        ensures
            description@ == self.metadata.description@,
    {
        self.metadata.description.as_str()
    }

    /// The canonical name of the model.
    pub fn model_name(&self) -> (name: &str)
        ensures
            name@ == self.metadata.model_name@,
    {
        self.metadata.model_name.as_str()
    }
}

/// Whether an identity is the one that a declaration and a configuration
/// lead to: name and description as declared, the platform as configured,
/// and the declared token or else a generated one.
pub open spec fn identifies(metadata: Metadata, declaration: Declaration, platform: Seq<char>) -> bool {
    &&& metadata.model_name == declaration.model_name
    &&& metadata.description == declaration.description
    &&& metadata.platform == platform
    &&& match declaration.guid {
        Some(guid) => metadata.guid == guid,
        None => is_generated_guid(metadata.guid),
    }
}

/// Whether a definition can be generated from a declaration: every field
/// that is not ignored has a supported type, and the value references left
/// to be allocated fit in 64 bits.
pub open spec fn derivable(declaration: Declaration) -> bool {
    all_supported(survivors(declaration.fields)) && references_fit(declaration.fields)
}

/// Says what, if anything, stands against generating a definition.  An
/// unsupported type is named before exhausted references.
pub fn check_declaration(declaration: &ModelDeclaration) -> (result: Result<(), GenerationError>)
    ensures
        result is Ok <==> derivable(declaration@),
        result == Err::<(), GenerationError>(GenerationError::UnsupportedType) <==> !all_supported(
            survivors(declaration@.fields),
        ),
{
    if !check_supported(&declaration.fields) {
        Err(GenerationError::UnsupportedType)
    } else if !check_references_fit(&declaration.fields) {
        Err(GenerationError::ReferencesExhausted)
    } else {
        Ok(())
    }
}

/// Decides whether `derive` may be called on a declaration.
pub fn can_derive(declaration: &ModelDeclaration) -> (fit: bool)
    ensures
        fit == derivable(declaration@),
{
    check_supported(&declaration.fields) && check_references_fit(&declaration.fields)
}

/// Generates the definition of a model from its declaration.
///
/// A declaration with a field of an unsupported type that is not ignored,
/// or with value references that cannot be allocated, has no definition;
/// `can_derive` and `check_declaration` tell.
pub fn derive(declaration: &ModelDeclaration, config: &GenerationConfig) -> (definition:
    ModelDefinition)
    requires
        derivable(declaration@),
    ensures
        definition.table@ == table_of(declaration@.fields),
        explicit_distinct(survivors(declaration@.fields)) ==> references_unique(definition.table@),
        identifies(definition.metadata@, declaration@, config.platform@),
        definition.template@ == document_text(
            definition.metadata@,
            config.experiment@,
            definition.table@,
        ),
{
    let table = build_variable_table(&declaration.fields);
    let guid = match &declaration.guid {
        Some(guid) => guid.clone(),
        None => default_guid(),
    };
    let metadata = ModelMetadata {
        model_name: declaration.model_name.clone(),
        description: declaration.description.clone(),
        guid,
        platform: config.platform.clone(),
    };
    let template = model_description_template(&metadata, &config.experiment, &table);
    ModelDefinition { metadata, table, template }
}

} // verus!
