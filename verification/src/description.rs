//! The model-description document.
//!
//! The document has a fixed structure: the XML declaration, the root element
//! with the model's identity, the co-simulation capabilities, the distinct
//! units, the default experiment, one entry per variable, and the list of
//! outputs.  `document_events` says which events make up the document of a
//! model; `model_description_template` renders them.  Parameters and inputs
//! carry a placeholder `{{name}}` for their start value, so the rendered text
//! is a template that an instance's values are filled into.
use vstd::prelude::*;
use vstd::string::*;
use crate::markup::{render, rendered, tag, Element, ElementText, EventText, XmlEvent};
use crate::model::{Causality, Metadata, ModelMetadata, TypeKind, Variable, VariableDescriptor};
use crate::table::VariableTable;
use crate::text::{decimal, same_text, to_decimal};

verus! {

/// The settings of the default experiment, as mathematical data.
pub struct Experiment {
    pub start_time: Seq<char>,
    pub stop_time: Seq<char>,
    pub tolerance: Seq<char>,
    pub step_size: Seq<char>,
}

/// The settings that a model description proposes for a simulation run,
/// each as the numeral that is put into the document.
#[derive(Clone, Debug)]
pub struct DefaultExperiment {
    pub start_time: String,
    pub stop_time: String,
    pub tolerance: String,
    pub step_size: String,
}

impl View for DefaultExperiment {
    type V = Experiment;

    open spec fn view(&self) -> Experiment {
        Experiment {
            start_time: self.start_time@,
            stop_time: self.stop_time@,
            tolerance: self.tolerance@,
            step_size: self.step_size@,
        }
    }
}

/// The experiment that is proposed when the model's author names none.
pub open spec fn standard_experiment() -> Experiment {
    Experiment {
        start_time: "0.0"@,
        stop_time: "1.0"@,
        tolerance: "0.0001"@,
        step_size: "0.01"@,
    }
}

impl Default for DefaultExperiment {
    fn default() -> (experiment: DefaultExperiment)
        ensures
            experiment@ == standard_experiment(),
    {
        DefaultExperiment {
            start_time: String::from_str("0.0"),
            stop_time: String::from_str("1.0"),
            tolerance: String::from_str("0.0001"),
            step_size: String::from_str("0.01"),
        }
    }
}

/// The units of the variables, each once, in the order of first use.
pub open spec fn distinct_units(table: Seq<Variable>) -> Seq<Seq<char>>
    decreases table.len(),
{
    if table.len() == 0 {
        Seq::empty()
    } else {
        let before = distinct_units(table.drop_last());
        if before.contains(table.last().unit) {
            before
        } else {
            before.push(table.last().unit)
        }
    }
}

/// The one-based positions of the output variables, in increasing order.
pub open spec fn output_indices(table: Seq<Variable>) -> Seq<nat>
    decreases table.len(),
{
    if table.len() == 0 {
        Seq::empty()
    } else {
        let before = output_indices(table.drop_last());
        if table.last().causality == Causality::Output {
            before.push(table.len())
        } else {
            before
        }
    }
}

/// The root element, which carries the model's identity.
pub open spec fn root_element(metadata: Metadata) -> ElementText {
    tag("fmiModelDescription"@).with("fmiVersion"@, "2.0"@).with(
        "modelName"@,
        metadata.model_name,
    ).with("guid"@, metadata.guid).with("description"@, metadata.description)
}

/// The co-simulation element with its fixed capability flags.
pub open spec fn cosimulation_element(metadata: Metadata) -> ElementText {
    tag("CoSimulation"@).with("modelIdentifier"@, metadata.model_name).with(
        "canHandleVariableCommunicationStepSize"@,
        "true"@,
    ).with("canGetAndSetFMUstate"@, "true"@).with("canSerializeFMUstate"@, "false"@).with(
        "providesDirectionalDerivative"@,
        "false"@,
    ).with("canInterpolateInputs"@, "false"@)
}

/// The element that defines one unit.
pub open spec fn unit_element(unit: Seq<char>) -> ElementText {
    tag("Unit"@).with("name"@, unit)
}

/// The element that proposes the default experiment.
pub open spec fn experiment_element(experiment: Experiment) -> ElementText {
    tag("DefaultExperiment"@).with("startTime"@, experiment.start_time).with(
        "stopTime"@,
        experiment.stop_time,
    ).with("tolerance"@, experiment.tolerance).with("stepSize"@, experiment.step_size)
}

/// The element that introduces a variable: its name, value reference,
/// description, causality and the variability that follows from the causality.
pub open spec fn scalar_variable_element(variable: Variable) -> ElementText {
    tag("ScalarVariable"@).with("name"@, variable.name).with(
        "valueReference"@,
        decimal(variable.value_reference as nat),
    ).with("description"@, variable.description).with("causality"@, variable.causality.text()).with(
        "variability"@,
        variable.causality.spec_variability().text(),
    )
}

/// The placeholder that stands for the start value of a variable.
pub open spec fn start_placeholder(name: Seq<char>) -> Seq<char> {
    "{{"@ + name + "}}"@
}

/// Whether a variable announces a start value.
pub open spec fn has_start(variable: Variable) -> bool {
    variable.causality == Causality::Parameter || variable.causality == Causality::Input
}

/// The element that gives a variable's type: the unit for a real variable,
/// the start placeholder for a parameter or an input.
pub open spec fn typed_element(variable: Variable) -> ElementText {
    let bare = tag(variable.type_kind.element());
    let with_unit = if variable.type_kind == TypeKind::Real {
        bare.with("unit"@, variable.unit)
    } else {
        bare
    };
    if has_start(variable) {
        with_unit.with("start"@, start_placeholder(variable.name))
    } else {
        with_unit
    }
}

/// The element that lists one output by its position in the table.
pub open spec fn unknown_element(index: nat) -> ElementText {
    tag("Unknown"@).with("index"@, decimal(index)).with("dependencies"@, Seq::empty())
}

/// Declaration, root element and capabilities.
pub open spec fn header_events(metadata: Metadata) -> Seq<EventText> {
    seq![
        EventText::Declaration { version: "1.0"@, encoding: "ISO-8859-1"@ },
        EventText::Indent,
        EventText::Start(root_element(metadata)),
        EventText::Indent,
        EventText::Start(cosimulation_element(metadata)),
        EventText::End("CoSimulation"@),
        EventText::Indent,
    ]
}

/// One empty element per unit.
pub open spec fn unit_events(units: Seq<Seq<char>>) -> Seq<EventText> {
    Seq::new(units.len(), |i: int| EventText::Empty(unit_element(units[i])))
}

/// The unit definitions of a table.
pub open spec fn unit_block(table: Seq<Variable>) -> Seq<EventText> {
    seq![EventText::Start(tag("UnitDefinitions"@))] + unit_events(distinct_units(table))
        + seq![EventText::End("UnitDefinitions"@), EventText::Indent]
}

/// The default experiment.
pub open spec fn experiment_block(experiment: Experiment) -> Seq<EventText> {
    seq![EventText::Empty(experiment_element(experiment)), EventText::Indent]
}

/// The entry of one variable.
pub open spec fn variable_events(variable: Variable) -> Seq<EventText> {
    seq![
        EventText::Start(scalar_variable_element(variable)),
        EventText::Empty(typed_element(variable)),
        EventText::End("ScalarVariable"@),
        EventText::Indent,
    ]
}

/// The entries of all variables, in table order.
pub open spec fn variables_events(table: Seq<Variable>) -> Seq<EventText>
    decreases table.len(),
{
    if table.len() == 0 {
        Seq::empty()
    } else {
        variables_events(table.drop_last()) + variable_events(table.last())
    }
}

/// The model variables of a table.
pub open spec fn variables_block(table: Seq<Variable>) -> Seq<EventText> {
    seq![EventText::Start(tag("ModelVariables"@))] + variables_events(table)
        + seq![EventText::End("ModelVariables"@)]
}

/// One empty element per output position.
pub open spec fn output_events(indices: Seq<nat>) -> Seq<EventText> {
    Seq::new(indices.len(), |i: int| EventText::Empty(unknown_element(indices[i])))
}

/// The model structure of a table: its outputs.
pub open spec fn structure_block(table: Seq<Variable>) -> Seq<EventText> {
    seq![EventText::Start(tag("ModelStructure"@)), EventText::Start(tag("Outputs"@))]
        + output_events(output_indices(table))
        + seq![EventText::End("Outputs"@), EventText::End("ModelStructure"@)]
}

/// The events that make up the model description of a model.
pub open spec fn document_events(
    metadata: Metadata,
    experiment: Experiment,
    table: Seq<Variable>,
) -> Seq<EventText> {
    header_events(metadata) + unit_block(table) + experiment_block(experiment) + variables_block(
        table,
    ) + structure_block(table) + seq![EventText::End("fmiModelDescription"@)]
}

/// The text of the model description of a model.
pub open spec fn document_text(
    metadata: Metadata,
    experiment: Experiment,
    table: Seq<Variable>,
) -> Seq<char> {
    rendered(document_events(metadata, experiment, table))
}

/// A unit is listed once, and the units listed are those that some variable
/// uses.
pub proof fn lemma_distinct_units(table: Seq<Variable>)
    ensures
        distinct_units(table).no_duplicates(),
        forall|unit: Seq<char>|
            distinct_units(table).contains(unit) <==> exists|i: int|
                0 <= i < table.len() && (#[trigger] table[i]).unit == unit,
    decreases table.len(),
{
    if table.len() > 0 {
        let shorter = table.drop_last();
        let before = distinct_units(shorter);
        let units = distinct_units(table);
        lemma_distinct_units(shorter);
        assert forall|unit: Seq<char>| units.contains(unit) implies exists|i: int|
            0 <= i < table.len() && (#[trigger] table[i]).unit == unit by {
            if before.contains(unit) {
                let i = choose|i: int| 0 <= i < shorter.len() && (#[trigger] shorter[i]).unit == unit;
                assert(table[i].unit == unit);
            } else {
                let k = choose|k: int| 0 <= k < units.len() && units[k] == unit;
                if k < before.len() {
                    assert(before[k] == unit);
                }
                assert(table[table.len() - 1].unit == unit);
            }
        }
        assert forall|unit: Seq<char>|
            (exists|i: int| 0 <= i < table.len() && (#[trigger] table[i]).unit == unit)
            implies units.contains(unit) by {
            let i = choose|i: int| 0 <= i < table.len() && (#[trigger] table[i]).unit == unit;
            if i < shorter.len() {
                assert(shorter[i].unit == unit);
                assert(before.contains(unit));
                let k = choose|k: int| 0 <= k < before.len() && before[k] == unit;
                assert(units[k] == unit);
            } else if before.contains(unit) {
            } else {
                assert(units[before.len() as int] == unit);
            }
        }
    }
}

/// The outputs listed are the one-based positions of the variables whose
/// causality is `Output`, no others, in increasing order.
pub proof fn lemma_output_indices(table: Seq<Variable>)
    ensures
        forall|index: nat|
            output_indices(table).contains(index) <==> 1 <= index <= table.len() && table[index
                - 1].causality == Causality::Output,
        forall|i: int, j: int|
            0 <= i < j < output_indices(table).len() ==> output_indices(table)[i] < output_indices(
                table,
            )[j],
    decreases table.len(),
{
    if table.len() > 0 {
        let shorter = table.drop_last();
        let before = output_indices(shorter);
        let indices = output_indices(table);
        lemma_output_indices(shorter);
        assert forall|index: nat| indices.contains(index) implies 1 <= index <= table.len()
            && table[index - 1].causality == Causality::Output by {
            let k = choose|k: int| 0 <= k < indices.len() && indices[k] == index;
            if k < before.len() {
                assert(before[k] == index);
                assert(before.contains(index));
                assert(shorter[index - 1] == table[index - 1]);
            }
        }
        assert forall|index: nat|
            1 <= index <= table.len() && table[index - 1].causality
                == Causality::Output implies indices.contains(index) by {
            if index < table.len() {
                assert(shorter[index - 1] == table[index - 1]);
                assert(before.contains(index));
                let k = choose|k: int| 0 <= k < before.len() && before[k] == index;
                assert(indices[k] == index);
            } else {
                assert(indices[before.len() as int] == index);
            }
        }
        assert forall|i: int, j: int| 0 <= i < j < indices.len() implies indices[i]
            < indices[j] by {
            if j >= before.len() {
                assert(before[i] == indices[i]);
                assert(before.contains(indices[i]));
            }
        }
    }
}

/// The variability that a variable's entry shows is `fixed` exactly when
/// the variable is a parameter, and `continuous` otherwise.
pub proof fn lemma_variability_attribute(variable: Variable)
    ensures
        scalar_variable_element(variable).attributes.len() == 5,
        scalar_variable_element(variable).attributes[4].key == "variability"@,
        scalar_variable_element(variable).attributes[4].value == "fixed"@ <==> variable.causality
            == Causality::Parameter,
        scalar_variable_element(variable).attributes[4].value == "continuous"@
            <==> variable.causality != Causality::Parameter,
{
    reveal_strlit("fixed");
    reveal_strlit("continuous");
    assert("fixed"@.len() != "continuous"@.len());
}

fn push_event(events: &mut Vec<XmlEvent>, event: XmlEvent)
    ensures
        final(events).deep_view() == old(events).deep_view().push(event@),
{
    events.push(event);
    assert(events.deep_view() =~= old(events).deep_view().push(event@));
}

fn new_root(metadata: &ModelMetadata) -> (element: Element)
    ensures
        element@ == root_element(metadata@),
{
    Element::new("fmiModelDescription").with("fmiVersion", "2.0").with(
        "modelName",
        metadata.model_name.as_str(),
    ).with("guid", metadata.guid.as_str()).with("description", metadata.description.as_str())
}

fn new_cosimulation(metadata: &ModelMetadata) -> (element: Element)
    ensures
        element@ == cosimulation_element(metadata@),
{
    Element::new("CoSimulation").with("modelIdentifier", metadata.model_name.as_str()).with(
        "canHandleVariableCommunicationStepSize",
        "true",
    ).with("canGetAndSetFMUstate", "true").with("canSerializeFMUstate", "false").with(
        "providesDirectionalDerivative",
        "false",
    ).with("canInterpolateInputs", "false")
}

fn new_experiment(experiment: &DefaultExperiment) -> (element: Element)
    ensures
        element@ == experiment_element(experiment@),
{
    Element::new("DefaultExperiment").with("startTime", experiment.start_time.as_str()).with(
        "stopTime",
        experiment.stop_time.as_str(),
    ).with("tolerance", experiment.tolerance.as_str()).with(
        "stepSize",
        experiment.step_size.as_str(),
    )
}

fn new_scalar_variable(variable: &VariableDescriptor) -> (element: Element)
    ensures
        element@ == scalar_variable_element(variable@),
{
    let reference = to_decimal(variable.value_reference);
    let causality = variable.causality.to_string();
    let variability = variable.causality.variability().to_string();
    Element::new("ScalarVariable").with("name", variable.name.as_str()).with(
        "valueReference",
        reference.as_str(),
    ).with("description", variable.description.as_str()).with("causality", causality.as_str()).with(
        "variability",
        variability.as_str(),
    )
}

fn new_typed(variable: &VariableDescriptor) -> (element: Element)
    ensures
        element@ == typed_element(variable@),
{
    let name = variable.type_kind.element_name();
    let bare = Element::new(name.as_str());
    let with_unit = match variable.type_kind {
        TypeKind::Real => bare.with("unit", variable.unit.as_str()),
        _ => bare,
    };
    match variable.causality {
        Causality::Parameter | Causality::Input => {
            let mut placeholder = String::from_str("{{");
            placeholder.append(variable.name.as_str());
            placeholder.append("}}");
            with_unit.with("start", placeholder.as_str())
        },
        _ => with_unit,
    }
}

fn new_unknown(index: usize) -> (element: Element)
    ensures
        element@ == unknown_element(index as nat),
{
    let position = to_decimal(index as u64);
    let element = Element::new("Unknown").with("index", position.as_str()).with("dependencies", "");
    proof {
        reveal_strlit("");
        assert(""@ =~= Seq::<char>::empty());
    }
    element
}

/// The units of a table's variables, each once, in the order of first use.
pub fn units_of(table: &VariableTable) -> (units: Vec<String>)
    ensures
        units.deep_view() == distinct_units(table@),
{
    let mut units: Vec<String> = Vec::new();
    let mut i: usize = 0;
    assert(table@.take(0) =~= Seq::<Variable>::empty());
    assert(units.deep_view() =~= Seq::<Seq<char>>::empty());
    while i < table.len()
        invariant
            i <= table@.len(),
            units.deep_view() == distinct_units(table@.take(i as int)),
        decreases table@.len() - i,
    {
        let unit = table.at(i).unit.as_str();
        let ghost seen = units.deep_view();
        proof {
            assert(table@.take(i + 1).drop_last() =~= table@.take(i as int));
            assert(table@.take(i + 1).last() == table@[i as int]);
        }
        let mut known = false;
        let mut k: usize = 0;
        while k < units.len()
            invariant
                k <= units.len(),
                seen == units.deep_view(),
                known <==> exists|m: int| 0 <= m < k && seen[m] == unit@,
            decreases units.len() - k,
        {
            if same_text(units[k].as_str(), unit) {
                known = true;
                assert(seen[k as int] == unit@);
            }
            k += 1;
        }
        if !known {
            units.push(String::from_str(unit));
            assert(units.deep_view() =~= seen.push(unit@));
        }
        i += 1;
    }
    assert(table@.take(table@.len() as int) =~= table@);
    units
}

/// The one-based positions of a table's output variables, in increasing order.
pub fn outputs_of(table: &VariableTable) -> (indices: Vec<usize>)
    ensures
        indices@.len() == output_indices(table@).len(),
        forall|k: int| 0 <= k < indices@.len() ==> indices@[k] as nat == output_indices(table@)[k],
{
    let mut indices: Vec<usize> = Vec::new();
    let mut i: usize = 0;
    assert(table@.take(0) =~= Seq::<Variable>::empty());
    while i < table.len()
        invariant
            i <= table@.len(),
            indices@.len() == output_indices(table@.take(i as int)).len(),
            forall|k: int|
                0 <= k < indices@.len() ==> indices@[k] as nat == output_indices(
                    table@.take(i as int),
                )[k],
        decreases table@.len() - i,
    {
        proof {
            assert(table@.take(i + 1).drop_last() =~= table@.take(i as int));
            assert(table@.take(i + 1).last() == table@[i as int]);
        }
        match table.at(i).causality {
            Causality::Output => {
                indices.push(i + 1);
            },
            _ => {},
        }
        i += 1;
    }
    assert(table@.take(table@.len() as int) =~= table@);
    indices
}

fn push_header(events: &mut Vec<XmlEvent>, metadata: &ModelMetadata)
    ensures
        final(events).deep_view() == old(events).deep_view() + header_events(metadata@),
{
    push_event(
        events,
        XmlEvent::Declaration {
            version: String::from_str("1.0"),
            encoding: String::from_str("ISO-8859-1"),
        },
    );
    push_event(events, XmlEvent::Indent);
    push_event(events, XmlEvent::Start(new_root(metadata)));
    push_event(events, XmlEvent::Indent);
    push_event(events, XmlEvent::Start(new_cosimulation(metadata)));
    push_event(events, XmlEvent::End(String::from_str("CoSimulation")));
    push_event(events, XmlEvent::Indent);
    assert(events.deep_view() =~= old(events).deep_view() + header_events(metadata@));
}

fn push_units(events: &mut Vec<XmlEvent>, table: &VariableTable)
    ensures
        final(events).deep_view() == old(events).deep_view() + unit_block(table@),
{
    let ghost before = events.deep_view();
    push_event(events, XmlEvent::Start(Element::new("UnitDefinitions")));
    let units = units_of(table);
    let ghost opened = events.deep_view();
    let ghost listed = unit_events(distinct_units(table@));
    let mut i: usize = 0;
    assert(events.deep_view() =~= opened + listed.take(0));
    while i < units.len()
        invariant
            i <= units.len(),
            units.deep_view() == distinct_units(table@),
            listed == unit_events(distinct_units(table@)),
            events.deep_view() == opened + listed.take(i as int),
        decreases units.len() - i,
    {
        let ghost so_far = events.deep_view();
        push_event(events, XmlEvent::Empty(Element::new("Unit").with("name", units[i].as_str())));
        proof {
            assert(units.deep_view()[i as int] == units[i as int]@);
            assert(listed.take(i + 1) =~= listed.take(i as int).push(listed[i as int]));
            assert(events.deep_view() =~= opened + listed.take(i + 1));
        }
        i += 1;
    }
    push_event(events, XmlEvent::End(String::from_str("UnitDefinitions")));
    push_event(events, XmlEvent::Indent);
    proof {
        assert(listed.take(units.len() as int) =~= listed);
        assert(events.deep_view() =~= before + unit_block(table@));
    }
}

fn push_experiment(events: &mut Vec<XmlEvent>, experiment: &DefaultExperiment)
    ensures
        final(events).deep_view() == old(events).deep_view() + experiment_block(experiment@),
{
    push_event(events, XmlEvent::Empty(new_experiment(experiment)));
    push_event(events, XmlEvent::Indent);
    assert(events.deep_view() =~= old(events).deep_view() + experiment_block(experiment@));
}

fn push_variables(events: &mut Vec<XmlEvent>, table: &VariableTable)
    ensures
        final(events).deep_view() == old(events).deep_view() + variables_block(table@),
{
    let ghost before = events.deep_view();
    push_event(events, XmlEvent::Start(Element::new("ModelVariables")));
    let ghost opened = events.deep_view();
    let mut i: usize = 0;
    proof {
        assert(table@.take(0) =~= Seq::<Variable>::empty());
        assert(events.deep_view() =~= opened + variables_events(table@.take(0)));
    }
    while i < table.len()
        invariant
            i <= table@.len(),
            events.deep_view() == opened + variables_events(table@.take(i as int)),
        decreases table@.len() - i,
    {
        let ghost so_far = events.deep_view();
        proof {
            assert(table@.take(i + 1).drop_last() =~= table@.take(i as int));
            assert(table@.take(i + 1).last() == table@[i as int]);
        }
        let variable = table.at(i);
        push_event(events, XmlEvent::Start(new_scalar_variable(variable)));
        push_event(events, XmlEvent::Empty(new_typed(variable)));
        push_event(events, XmlEvent::End(String::from_str("ScalarVariable")));
        push_event(events, XmlEvent::Indent);
        proof {
            assert(events.deep_view() =~= so_far + variable_events(table@[i as int]));
            assert(events.deep_view() =~= opened + variables_events(table@.take(i + 1)));
        }
        i += 1;
    }
    push_event(events, XmlEvent::End(String::from_str("ModelVariables")));
    proof {
        assert(table@.take(table@.len() as int) =~= table@);
        assert(events.deep_view() =~= before + variables_block(table@));
    }
}

fn push_structure(events: &mut Vec<XmlEvent>, table: &VariableTable)
    ensures
        final(events).deep_view() == old(events).deep_view() + structure_block(table@),
{
    let ghost before = events.deep_view();
    push_event(events, XmlEvent::Start(Element::new("ModelStructure")));
    push_event(events, XmlEvent::Start(Element::new("Outputs")));
    let indices = outputs_of(table);
    let ghost opened = events.deep_view();
    let ghost listed = output_events(output_indices(table@));
    let mut i: usize = 0;
    assert(events.deep_view() =~= opened + listed.take(0));
    while i < indices.len()
        invariant
            i <= indices.len(),
            indices@.len() == output_indices(table@).len(),
            forall|k: int|
                0 <= k < indices@.len() ==> indices@[k] as nat == output_indices(table@)[k],
            listed == output_events(output_indices(table@)),
            events.deep_view() == opened + listed.take(i as int),
        decreases indices.len() - i,
    {
        push_event(events, XmlEvent::Empty(new_unknown(indices[i])));
        proof {
            assert(listed.take(i + 1) =~= listed.take(i as int).push(listed[i as int]));
            assert(events.deep_view() =~= opened + listed.take(i + 1));
        }
        i += 1;
    }
    push_event(events, XmlEvent::End(String::from_str("Outputs")));
    push_event(events, XmlEvent::End(String::from_str("ModelStructure")));
    proof {
        assert(listed.take(indices.len() as int) =~= listed);
        assert(events.deep_view() =~= before + structure_block(table@));
    }
}

/// Builds the events of a model's description.
pub fn description_events(
    metadata: &ModelMetadata,
    experiment: &DefaultExperiment,
    table: &VariableTable,
) -> (events: Vec<XmlEvent>)
    ensures
        events.deep_view() == document_events(metadata@, experiment@, table@),
{
    let mut events: Vec<XmlEvent> = Vec::new();
    assert(events.deep_view() =~= Seq::<EventText>::empty());
    push_header(&mut events, metadata);
    push_units(&mut events, table);
    push_experiment(&mut events, experiment);
    push_variables(&mut events, table);
    push_structure(&mut events, table);
    push_event(&mut events, XmlEvent::End(String::from_str("fmiModelDescription")));
    assert(events.deep_view() =~= document_events(metadata@, experiment@, table@));
    events
}

/// Renders the model description of a model.
///
/// The text is a template: the start value of each parameter and input is a
/// placeholder to be filled with an instance's value.
pub fn model_description_template(
    metadata: &ModelMetadata,
    experiment: &DefaultExperiment,
    table: &VariableTable,
) -> (text: String)
    ensures
        text@ == document_text(metadata@, experiment@, table@),
{
    let events = description_events(metadata, experiment, table);
    render(&events)
}

} // verus!
