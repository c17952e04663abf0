use fmi2::description::{
    description_events, model_description_template, outputs_of, units_of, DefaultExperiment,
};
use fmi2::markup::{render, Element, XmlEvent};
use fmi2::model::{Causality, FieldDeclaration, ModelMetadata};
use fmi2::table::{build_variable_table, VariableTable};

fn field(
    name: &str,
    declared_type: &str,
    causality: Causality,
    id: Option<u64>,
    description: &str,
    unit: &str,
) -> FieldDeclaration {
    FieldDeclaration {
        name: name.to_string(),
        declared_type: declared_type.to_string(),
        causality,
        id,
        description: description.to_string(),
        unit: unit.to_string(),
        starting_value: None,
    }
}

fn sine_table() -> VariableTable {
    build_variable_table(&vec![
        field("frequency", "f64", Causality::Parameter, Some(0), "Frequency in Hz", "Hz"),
        field("gain", "f64", Causality::Input, None, "gain", "V"),
        field("output", "f64", Causality::Output, None, "output", "V"),
        field("elapsed_time", "f64", Causality::Independent, None, "elapsed time", "s"),
        field("state", "ModelState", Causality::Ignore, None, "", ""),
        field("loggingOn", "fmi2Boolean", Causality::Ignore, None, "", ""),
    ])
}

fn sine_metadata() -> ModelMetadata {
    ModelMetadata {
        model_name: "SineModel".to_string(),
        description: "How is it going?".to_string(),
        guid: "{21d9f232-b090-4c79-933f-33da939b5934}".to_string(),
        platform: "linux64".to_string(),
    }
}

fn roles(causalities: &[Causality]) -> VariableTable {
    let fields: Vec<FieldDeclaration> = causalities
        .iter()
        .enumerate()
        .map(|(i, causality)| field(&format!("v{}", i), "f64", *causality, None, "", ""))
        .collect();
    build_variable_table(&fields)
}

fn count(text: &str, pattern: &str) -> usize {
    text.matches(pattern).count()
}

#[test]
fn the_sine_model_is_described_in_full() {
    let text =
        model_description_template(&sine_metadata(), &DefaultExperiment::default(), &sine_table());
    let expected = [
        "<?xml version=\"1.0\" encoding=\"ISO-8859-1\"?>",
        "",
        "<fmiModelDescription fmiVersion=\"2.0\" modelName=\"SineModel\" guid=\"{21d9f232-b090-4c79-933f-33da939b5934}\" description=\"How is it going?\">",
        "    ",
        "    <CoSimulation modelIdentifier=\"SineModel\" canHandleVariableCommunicationStepSize=\"true\" canGetAndSetFMUstate=\"true\" canSerializeFMUstate=\"false\" providesDirectionalDerivative=\"false\" canInterpolateInputs=\"false\">",
        "    </CoSimulation>",
        "    ",
        "    <UnitDefinitions>",
        "        <Unit name=\"Hz\"/>",
        "        <Unit name=\"V\"/>",
        "        <Unit name=\"s\"/>",
        "    </UnitDefinitions>",
        "    ",
        "    <DefaultExperiment startTime=\"0.0\" stopTime=\"1.0\" tolerance=\"0.0001\" stepSize=\"0.01\"/>",
        "    ",
        "    <ModelVariables>",
        "        <ScalarVariable name=\"frequency\" valueReference=\"0\" description=\"Frequency in Hz\" causality=\"parameter\" variability=\"fixed\">",
        "            <Real unit=\"Hz\" start=\"{{frequency}}\"/>",
        "        </ScalarVariable>",
        "        ",
        "        <ScalarVariable name=\"gain\" valueReference=\"1\" description=\"gain\" causality=\"input\" variability=\"continuous\">",
        "            <Real unit=\"V\" start=\"{{gain}}\"/>",
        "        </ScalarVariable>",
        "        ",
        "        <ScalarVariable name=\"output\" valueReference=\"2\" description=\"output\" causality=\"output\" variability=\"continuous\">",
        "            <Real unit=\"V\"/>",
        "        </ScalarVariable>",
        "        ",
        "        <ScalarVariable name=\"elapsed_time\" valueReference=\"3\" description=\"elapsed time\" causality=\"independent\" variability=\"continuous\">",
        "            <Real unit=\"s\"/>",
        "        </ScalarVariable>",
        "        ",
        "    </ModelVariables>",
        "    <ModelStructure>",
        "        <Outputs>",
        "            <Unknown index=\"3\" dependencies=\"\"/>",
        "        </Outputs>",
        "    </ModelStructure>",
        "</fmiModelDescription>",
    ]
    .join("\n");
    assert_eq!(text, expected);
}

#[test]
fn a_model_without_variables_renders_no_entries() {
    let table = build_variable_table(&Vec::new());
    let text =
        model_description_template(&sine_metadata(), &DefaultExperiment::default(), &table);
    assert_eq!(count(&text, "<ScalarVariable"), 0);
    assert_eq!(count(&text, "<Unit "), 0);
    assert_eq!(count(&text, "<Unknown"), 0);
    assert!(text.contains("    <UnitDefinitions>\n    </UnitDefinitions>"));
    assert!(text.contains("    <ModelVariables>\n    </ModelVariables>"));
    assert!(text.contains("        <Outputs>\n        </Outputs>"));
    assert!(text.ends_with("\n</fmiModelDescription>"));
}

#[test]
fn a_unit_used_twice_is_defined_once() {
    let table = build_variable_table(&vec![
        field("a", "f64", Causality::Input, None, "", "Hz"),
        field("b", "f64", Causality::Output, None, "", "Hz"),
    ]);
    assert_eq!(units_of(&table), vec!["Hz".to_string()]);
    let text =
        model_description_template(&sine_metadata(), &DefaultExperiment::default(), &table);
    assert_eq!(count(&text, "<Unit name=\"Hz\"/>"), 1);
    assert_eq!(count(&text, "<Unit "), 1);
    assert_eq!(count(&text, "<Real unit=\"Hz\""), 2);
}

#[test]
fn units_are_listed_in_the_order_of_first_use() {
    let table = build_variable_table(&vec![
        field("a", "f64", Causality::Input, None, "", "V"),
        field("b", "i64", Causality::Output, None, "", ""),
        field("c", "f64", Causality::Output, None, "", "Hz"),
        field("d", "f64", Causality::Output, None, "", "V"),
        field("e", "bool", Causality::Output, None, "", ""),
        field("hidden", "f64", Causality::Ignore, None, "", "kg"),
    ]);
    assert_eq!(units_of(&table), vec!["V".to_string(), "".to_string(), "Hz".to_string()]);
}

#[test]
fn outputs_are_listed_by_their_position_in_the_table() {
    let table = roles(&[
        Causality::Parameter,
        Causality::Output,
        Causality::Input,
        Causality::Output,
    ]);
    assert_eq!(outputs_of(&table), vec![2, 4]);
    let text =
        model_description_template(&sine_metadata(), &DefaultExperiment::default(), &table);
    assert_eq!(count(&text, "<Unknown "), 2);
    assert!(text.contains(
        "<Outputs>\n            <Unknown index=\"2\" dependencies=\"\"/>\n            <Unknown index=\"4\" dependencies=\"\"/>\n        </Outputs>"
    ));
}

#[test]
fn positions_of_outputs_do_not_count_ignored_fields() {
    let table = roles(&[Causality::Ignore, Causality::Output, Causality::Ignore, Causality::Output]);
    assert_eq!(outputs_of(&table), vec![1, 2]);
    assert_eq!(outputs_of(&roles(&[Causality::Input, Causality::Parameter])), Vec::<usize>::new());
}

#[test]
fn variability_follows_causality_in_the_document() {
    let table = roles(&[
        Causality::Parameter,
        Causality::Output,
        Causality::Input,
        Causality::Independent,
    ]);
    let text =
        model_description_template(&sine_metadata(), &DefaultExperiment::default(), &table);
    assert_eq!(count(&text, "causality=\"parameter\" variability=\"fixed\""), 1);
    assert_eq!(count(&text, "variability=\"fixed\""), 1);
    assert_eq!(count(&text, "causality=\"output\" variability=\"continuous\""), 1);
    assert_eq!(count(&text, "causality=\"input\" variability=\"continuous\""), 1);
    assert_eq!(count(&text, "causality=\"independent\" variability=\"continuous\""), 1);
}

#[test]
fn ignored_fields_never_appear_in_the_document() {
    let text =
        model_description_template(&sine_metadata(), &DefaultExperiment::default(), &sine_table());
    assert!(!text.contains("loggingOn"));
    assert!(!text.contains("name=\"state\""));
    assert!(!text.contains("ignore"));
    assert_eq!(count(&text, "<ScalarVariable"), 4);
}

#[test]
fn each_kind_has_its_own_element() {
    let table = build_variable_table(&vec![
        field("r", "f64", Causality::Output, None, "", "m"),
        field("i", "i64", Causality::Parameter, None, "", "m"),
        field("b", "bool", Causality::Input, None, "", "m"),
    ]);
    let text =
        model_description_template(&sine_metadata(), &DefaultExperiment::default(), &table);
    assert!(text.contains("\n            <Real unit=\"m\"/>\n"));
    assert!(text.contains("\n            <Integer start=\"{{i}}\"/>\n"));
    assert!(text.contains("\n            <Boolean start=\"{{b}}\"/>\n"));
}

#[test]
fn the_experiment_is_taken_from_the_configuration() {
    let experiment = DefaultExperiment {
        start_time: "2.5".to_string(),
        stop_time: "10".to_string(),
        tolerance: "1e-6".to_string(),
        step_size: "0.5".to_string(),
    };
    let text = model_description_template(&sine_metadata(), &experiment, &sine_table());
    assert!(text.contains(
        "<DefaultExperiment startTime=\"2.5\" stopTime=\"10\" tolerance=\"1e-6\" stepSize=\"0.5\"/>"
    ));
    let standard = DefaultExperiment::default();
    assert_eq!(standard.start_time, "0.0");
    assert_eq!(standard.stop_time, "1.0");
    assert_eq!(standard.tolerance, "0.0001");
    assert_eq!(standard.step_size, "0.01");
}

#[test]
fn attribute_values_are_escaped() {
    let metadata = ModelMetadata {
        model_name: "M".to_string(),
        description: "a < b & \"c\" > 'd'".to_string(),
        guid: "g".to_string(),
        platform: "linux64".to_string(),
    };
    let table = build_variable_table(&Vec::new());
    let text =
        model_description_template(&metadata, &DefaultExperiment::default(), &table);
    assert!(text.contains(
        "description=\"a &lt; b &amp; &quot;c&quot; &gt; &apos;d&apos;\""
    ));
}

#[test]
fn events_render_with_indentation() {
    let events = vec![
        XmlEvent::Start(Element::new("a").with("k", "v")),
        XmlEvent::Empty(Element::new("b")),
        XmlEvent::Start(Element::new("c")),
        XmlEvent::End("c".to_string()),
        XmlEvent::End("a".to_string()),
    ];
    assert_eq!(
        render(&events),
        "<a k=\"v\">\n    <b/>\n    <c>\n    </c>\n</a>"
    );
}

#[test]
fn an_explicit_line_break_keeps_the_indentation() {
    let events = vec![
        XmlEvent::Declaration { version: "1.1".to_string(), encoding: "UTF-8".to_string() },
        XmlEvent::Start(Element::new("a")),
        XmlEvent::Indent,
        XmlEvent::Empty(Element::new("b").with("x", "1").with("y", "<2>")),
        XmlEvent::End("a".to_string()),
        XmlEvent::End("stray".to_string()),
    ];
    assert_eq!(
        render(&events),
        "<?xml version=\"1.1\" encoding=\"UTF-8\"?>\n<a>\n    \n    <b x=\"1\" y=\"&lt;2&gt;\"/>\n</a>\n</stray>"
    );
}

#[test]
fn no_events_render_to_nothing() {
    assert_eq!(render(&Vec::new()), "");
    assert_eq!(render(&vec![XmlEvent::Indent]), "\n");
}

#[test]
fn the_document_has_four_events_per_variable() {
    let events =
        description_events(&sine_metadata(), &DefaultExperiment::default(), &sine_table());
    assert_eq!(events.len(), 7 + (1 + 3 + 2) + 2 + (1 + 4 * 4 + 1) + (2 + 1 + 2) + 1);
    assert!(matches!(events[0], XmlEvent::Declaration { .. }));
    assert!(matches!(events[events.len() - 1], XmlEvent::End(_)));
}
