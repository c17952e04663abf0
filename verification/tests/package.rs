use std::io::{Cursor, Read};

use fmi2::abi::{get_model_description, Runtime};
use fmi2::description::{model_description_template, DefaultExperiment};
use fmi2::generate::{
    brace, can_derive, check_declaration, default_guid, GenerationConfig, ModelDeclaration,
};
use fmi2::model::{Causality, FieldDeclaration, GenerationError};
use fmi2::package::{archive_binary_path, binary_file_name, build_archive, plan_package};
use fmi2::runtime::{FMIErrors, Scalar};
use fmi2::template::{accept_rendering, is_plain_template, to_model_description_xml, StartValue};

fn field(name: &str, declared_type: &str, causality: Causality, id: Option<u64>, unit: &str) -> FieldDeclaration {
    FieldDeclaration {
        name: name.to_string(),
        declared_type: declared_type.to_string(),
        causality,
        id,
        description: String::new(),
        unit: unit.to_string(),
        starting_value: None,
    }
}

fn sine(guid: Option<&str>) -> ModelDeclaration {
    ModelDeclaration {
        model_name: "Sine".to_string(),
        description: "Model Sine Wave".to_string(),
        guid: guid.map(str::to_string),
        fields: vec![
            field("frequency", "f64", Causality::Parameter, Some(0), "Hz"),
            field("gain", "f64", Causality::Input, None, "V"),
            field("output", "f64", Causality::Output, None, "V"),
            field("state", "ModelState", Causality::Ignore, None, ""),
        ],
    }
}

fn config() -> GenerationConfig {
    GenerationConfig { platform: "linux64".to_string(), experiment: DefaultExperiment::default() }
}

fn value(name: &str, text: &str) -> StartValue {
    StartValue { name: name.to_string(), text: text.to_string() }
}

fn entries(archive: &[u8]) -> Vec<(String, Vec<u8>, zip::CompressionMethod)> {
    let mut reader = zip::ZipArchive::new(Cursor::new(archive.to_vec())).unwrap();
    let mut found = Vec::new();
    for i in 0..reader.len() {
        let mut file = reader.by_index(i).unwrap();
        let mut content = Vec::new();
        file.read_to_end(&mut content).unwrap();
        found.push((file.name().to_string(), content, file.compression()));
    }
    found
}

#[test]
fn the_archive_holds_the_description_and_the_plugin() {
    let artifact = vec![0x7f, b'E', b'L', b'F', 0, 1, 2, 3];
    let archive = build_archive("Sine", "linux64", "so", "<fmiModelDescription/>", &artifact).unwrap();
    assert_eq!(
        entries(&archive),
        vec![
            (
                "modelDescription.xml".to_string(),
                b"<fmiModelDescription/>".to_vec(),
                zip::CompressionMethod::Stored,
            ),
            ("binaries/linux64/Sine.so".to_string(), artifact, zip::CompressionMethod::Stored),
        ]
    );
}

#[test]
fn the_archive_of_the_same_package_is_the_same() {
    let first = build_archive("Sine", "linux64", "so", "text", &vec![1, 2, 3]).unwrap();
    let second = build_archive("Sine", "linux64", "so", "text", &vec![1, 2, 3]).unwrap();
    assert_eq!(first, second);
    let other = build_archive("Sine", "darwin64", "dylib", "text", &vec![1, 2, 3]).unwrap();
    assert_ne!(first, other);
    assert_eq!(entries(&other)[1].0, "binaries/darwin64/Sine.dylib");
}

#[test]
fn an_archive_may_hold_empty_files() {
    let archive = build_archive("M", "win64", "dll", "", &Vec::new()).unwrap();
    assert_eq!(
        entries(&archive),
        vec![
            ("modelDescription.xml".to_string(), Vec::new(), zip::CompressionMethod::Stored),
            ("binaries/win64/M.dll".to_string(), Vec::new(), zip::CompressionMethod::Stored),
        ]
    );
}

#[test]
fn the_package_is_laid_out_under_the_output_directory() {
    let layout = plan_package("target/fmu", "Sine", "linux64", "so");
    assert_eq!(layout.root, "target/fmu/Sine");
    assert_eq!(layout.binaries_directory, "target/fmu/Sine/binaries/linux64");
    assert_eq!(layout.binary_file, "target/fmu/Sine/binaries/linux64/Sine.so");
    assert_eq!(layout.description_file, "target/fmu/Sine/modelDescription.xml");
    assert_eq!(layout.archive_file, "target/fmu/Sine.zip");
    assert_eq!(binary_file_name("Sine", "so"), "Sine.so");
    assert_eq!(archive_binary_path("linux64", "Sine", "so"), "binaries/linux64/Sine.so");
}

#[test]
fn placeholders_are_filled_with_the_values_given() {
    let text = to_model_description_xml(
        "<Real start=\"{{frequency}}\"/><Real start=\"{{gain}}\"/>",
        &vec![value("frequency", "0.01"), value("gain", "1.0"), value("unused", "7")],
    );
    assert_eq!(text.unwrap(), "<Real start=\"0.01\"/><Real start=\"1.0\"/>");
}

#[test]
fn of_two_values_for_one_placeholder_the_later_counts() {
    let text = to_model_description_xml(
        "{{a}}|{{b}}|{{c}}",
        &vec![value("a", "1"), value("b", "2"), value("a", "3")],
    );
    assert_eq!(text.unwrap(), "3|2|");
}

#[test]
fn a_template_that_cannot_be_read_is_an_error() {
    let text = to_model_description_xml("{{#if}}", &Vec::new());
    assert_eq!(text, Err(FMIErrors::Error));
    assert_eq!(accept_rendering(None), Err(FMIErrors::Error));
    assert_eq!(accept_rendering(Some("x".to_string())), Ok("x".to_string()));
}

#[test]
fn the_description_of_a_model_is_its_template_with_values_filled_in() {
    let definition = fmi2::generate::derive(&sine(Some("{g}")), &config());
    let rt = Runtime::new(
        definition,
        &vec![Scalar::Real(0.01f64.to_bits()), Scalar::Real(1.0f64.to_bits()), Scalar::Real(0)],
    )
    .unwrap();
    let values = vec![value("frequency", "0.01"), value("gain", "1.0"), value("output", "0.0")];
    let description = get_model_description(&rt, &values).unwrap();
    assert!(description.contains("<Real unit=\"Hz\" start=\"0.01\"/>"));
    assert!(description.contains("<Real unit=\"V\" start=\"1.0\"/>"));
    assert!(description.contains("guid=\"{g}\""));
    assert!(!description.contains("{{"));
    assert_eq!(
        description,
        rt.definition.template.replace("{{frequency}}", "0.01").replace("{{gain}}", "1.0")
    );
}

#[test]
fn a_definition_is_derived_from_a_declaration() {
    let declaration = sine(Some("{21d9f232-b090-4c79-933f-33da939b5934}"));
    assert!(can_derive(&declaration));
    let definition = fmi2::generate::derive(&declaration, &config());
    assert_eq!(definition.metadata.model_name, "Sine");
    assert_eq!(definition.metadata.description, "Model Sine Wave");
    assert_eq!(definition.metadata.guid, "{21d9f232-b090-4c79-933f-33da939b5934}");
    assert_eq!(definition.metadata.platform, "linux64");
    assert_eq!(definition.table.len(), 3);
    assert_eq!(definition.table.to_underlying(2), Some(2));
    assert_eq!(
        definition.template,
        model_description_template(&definition.metadata, &config().experiment, &definition.table)
    );
    assert!(definition.template.contains("modelName=\"Sine\""));
}

#[test]
fn a_model_without_a_guid_gets_a_fresh_one() {
    let first = fmi2::generate::derive(&sine(None), &config()).metadata.guid;
    let second = fmi2::generate::derive(&sine(None), &config()).metadata.guid;
    for guid in [&first, &second] {
        assert_eq!(guid.len(), 38);
        assert!(guid.starts_with('{') && guid.ends_with('}'));
        let inner = &guid[1..37];
        for (i, c) in inner.chars().enumerate() {
            if i == 8 || i == 13 || i == 18 || i == 23 {
                assert_eq!(c, '-');
            } else {
                assert!(c.is_ascii_hexdigit() && !c.is_ascii_uppercase());
            }
        }
    }
    assert_ne!(first, second);
    assert_eq!(default_guid().len(), 38);
    assert_eq!(brace("abc"), "{abc}");
}

#[test]
fn a_declaration_with_an_unsupported_type_cannot_be_derived() {
    assert_eq!(check_declaration(&sine(Some("{g}"))), Ok(()));
    let mut declaration = sine(Some("{g}"));
    declaration.fields.push(field("label", "String", Causality::Output, None, ""));
    assert!(!can_derive(&declaration));
    assert_eq!(check_declaration(&declaration), Err(GenerationError::UnsupportedType));
    declaration.fields[4].causality = Causality::Ignore;
    assert!(can_derive(&declaration));
    assert_eq!(check_declaration(&declaration), Ok(()));
    assert_eq!(fmi2::generate::derive(&declaration, &config()).table.len(), 3);
}

#[test]
fn a_declaration_whose_references_run_out_cannot_be_derived() {
    let mut overflowing = sine(Some("{g}"));
    overflowing.fields.push(field("last", "f64", Causality::Output, Some(u64::MAX), ""));
    assert!(!can_derive(&overflowing));
    assert_eq!(check_declaration(&overflowing), Err(GenerationError::ReferencesExhausted));
    overflowing.fields.push(field("label", "String", Causality::Output, None, ""));
    assert_eq!(check_declaration(&overflowing), Err(GenerationError::UnsupportedType));
}

#[test]
fn a_template_that_calls_a_partial_or_a_decorator_is_not_plain() {
    assert!(is_plain_template(""));
    assert!(is_plain_template("<Real start=\"{{gain}}\"/>"));
    assert!(is_plain_template("{{#if a}}x{{/if}} {{{raw}}} {{~ b ~}} a > b * c { >"));
    assert!(is_plain_template("{{"));
    assert!(is_plain_template("{{ #"));
    assert!(!is_plain_template("{{> a}}"));
    assert!(!is_plain_template("{{>a}}"));
    assert!(!is_plain_template("x{{ ~ > a}}"));
    assert!(!is_plain_template("{{#> a}}b{{/a}}"));
    assert!(!is_plain_template("{{* d}}"));
    assert!(!is_plain_template("{{#*inline \"a\"}}x{{/inline}}"));
    assert!(!is_plain_template("{{ \t\r\n~#{>"));
    assert!(!is_plain_template("\u{b5}{{{{*"));
}

#[test]
fn a_template_that_includes_itself_is_answered_with_an_error() {
    let text = to_model_description_xml(
        "{{#*inline \"a\"}}{{> a}}{{/inline}}{{> a}}",
        &vec![value("a", "1")],
    );
    assert_eq!(text, Err(FMIErrors::Error));
    assert_eq!(to_model_description_xml("{{> missing}}", &Vec::new()), Err(FMIErrors::Error));
}

#[test]
fn a_description_that_calls_a_partial_cannot_be_filled() {
    let mut declaration = sine(Some("{g}"));
    declaration.description = "see {{> notes}}".to_string();
    let definition = fmi2::generate::derive(&declaration, &config());
    assert!(definition.template.contains("description=\"see {{&gt; notes}}\""));
    let mut braces = sine(Some("{g}"));
    braces.model_name = "{{*x".to_string();
    let rt = Runtime::new(
        fmi2::generate::derive(&braces, &config()),
        &vec![Scalar::Real(0), Scalar::Real(0), Scalar::Real(0)],
    )
    .unwrap();
    assert_eq!(get_model_description(&rt, &Vec::new()), Err(FMIErrors::Error));
}
