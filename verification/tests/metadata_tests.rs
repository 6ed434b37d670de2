use routemeta::document::{DocValue, Document};
use routemeta::metadata::{MetaError, Metadata, load_metadata_str, retrieve_country_code};

/// The manifest of a complete route package, every field present.
fn antwerp_lines() -> Vec<String> {
    vec![
        "name = \"Simulation of Antwerp south\"".to_string(),
        "display_name = \"Antwerpen Centraal\"".to_string(),
        "description = \"Simulation covering the lines from Antwerpen Centraal to St. Katelijne-Waver/Lier\"".to_string(),
        "author = \"Krizar\"".to_string(),
        "contributors = [\"Albert Ball\"]".to_string(),
        "rly_file = \"Antwerpen_Centraal.rly\"".to_string(),
        "ttb_files = [\"Antwerpen_Centraal_2021.ttb\"]".to_string(),
        "doc_files = [\"README.md\"]".to_string(),
        "ssn_files = [\"Antwerpen_Centraal_2021.ssn\"]".to_string(),
        "img_files = [\"Antwerp_Centraal_2021.bmp\"]".to_string(),
        "graphic_files = [\"Antwerp.jpg\"]".to_string(),
        "release_date = \"2021-10-09\"".to_string(),
        "version = \"1.0.0\"".to_string(),
        "minimum_required = \"0.1.0\"".to_string(),
        "country_code = \"BE\"".to_string(),
        "factual = true".to_string(),
        "year = 2021".to_string(),
    ]
}

fn antwerp_toml() -> String {
    antwerp_lines().join("\n")
}

/// The same manifest with every line for `key` left out.
fn antwerp_toml_without(key: &str) -> String {
    let prefix = format!("{} =", key);
    let lines: Vec<String> =
        antwerp_lines().into_iter().filter(|l| !l.starts_with(&prefix)).collect();
    lines.join("\n")
}

/// The same manifest with the line for `key` replaced.
fn antwerp_toml_with(key: &str, line: &str) -> String {
    let prefix = format!("{} =", key);
    let lines: Vec<String> = antwerp_lines()
        .into_iter()
        .map(|l| if l.starts_with(&prefix) { line.to_string() } else { l })
        .collect();
    lines.join("\n")
}

#[test]
fn test_toml_file_parse() {
    let parsed = match load_metadata_str(&antwerp_toml()) {
        Ok(m) => m,
        Err(e) => panic!("{}", e.message()),
    };
    assert!(parsed.factual == true);
    assert!(parsed.name == "Simulation of Antwerp south");
    assert!(parsed.display_name == "Antwerpen Centraal");
    assert!(parsed.contributors == vec!["Albert Ball"]);
    assert!(parsed.country_code == "BE");
    assert!(parsed.rly_file == "Antwerpen_Centraal.rly");
    assert!(parsed.year == 2021);
    assert!(parsed.author == "Krizar");
    assert!(parsed.minimum_required == "0.1.0");
    assert!(parsed.version == "1.0.0");
    assert!(parsed.release_date == "2021-10-09");
    assert!(parsed.graphic_files == vec!["Antwerp.jpg"]);
    assert!(parsed.ttb_files == vec!["Antwerpen_Centraal_2021.ttb"]);
    assert!(parsed.doc_files == vec!["README.md"]);
    assert!(parsed.ssn_files == vec!["Antwerpen_Centraal_2021.ssn"]);
    assert!(parsed.img_files == vec!["Antwerp_Centraal_2021.bmp"]);
    assert!(
        parsed.description
            == "Simulation covering the lines from Antwerpen Centraal to St. Katelijne-Waver/Lier"
    )
}

fn test_record() -> Metadata {
    Metadata {
        rly_file: "test.rly".to_string(),
        ttb_files: vec!["test.ttb".to_string()],
        ssn_files: vec![],
        doc_files: vec!["README.md".to_string()],
        img_files: vec!["test.png".to_string()],
        graphic_files: vec![],
        version: "1.0.0".to_string(),
        minimum_required: "0.1.0".to_string(),
        release_date: "2022-04-02".to_string(),
        factual: false,
        country_code: "FN".to_string(),
        contributors: vec![],
        year: 2022,
        name: "Test Route".to_string(),
        description: "".to_string(),
        display_name: "".to_string(),
        author: "Joe Bloggs".to_string(),
    }
}

#[test]
fn test_write_toml() {
    let out_dat = test_record();
    match out_dat.to_toml_string() {
        Ok(text) => assert!(!text.is_empty()),
        Err(e) => panic!("{}", e.message()),
    }
}

#[test]
fn test_invalid_country_code() {
    let doc = Document {
        entries: vec![("country_code".to_string(), DocValue::Str("YO".to_string()))],
    };
    match retrieve_country_code(&doc) {
        Ok(c) => panic!("'{}' passed validation", c),
        Err(e) => {
            assert_eq!(e, MetaError::InvalidCountryCode("YO".to_string()));
            assert_eq!(e.message(), "Invalid country code 'YO'");
        }
    }
}

#[test]
fn test_fiction_country_code() {
    let doc = Document {
        entries: vec![("country_code".to_string(), DocValue::Str("FN".to_string()))],
    };
    match retrieve_country_code(&doc) {
        Ok(c) => assert_eq!(c, "FN"),
        Err(e) => panic!("{}", e.message()),
    }
}

#[test]
fn test_write_load_round_trip() {
    let out = Metadata {
        rly_file: "Loop.rly".to_string(),
        ttb_files: vec!["a.ttb".to_string(), "b.ttb".to_string()],
        ssn_files: vec!["s.ssn".to_string()],
        doc_files: vec!["guide.pdf".to_string()],
        img_files: vec!["map.bmp".to_string()],
        graphic_files: vec!["shot.jpg".to_string(), "shot2.jpg".to_string()],
        version: "2.1.3-rc.1+build5".to_string(),
        minimum_required: "0.9.0".to_string(),
        release_date: "1999-12-31".to_string(),
        factual: true,
        country_code: "BE".to_string(),
        contributors: vec!["A. One".to_string(), "B. Two".to_string()],
        year: 1999,
        name: "Loop Line".to_string(),
        description: "A line that loops.".to_string(),
        display_name: "Loop".to_string(),
        author: "Someone".to_string(),
    };
    let text = match out.to_toml_string() {
        Ok(t) => t,
        Err(e) => panic!("{}", e.message()),
    };
    let back = match load_metadata_str(&text) {
        Ok(m) => m,
        Err(e) => panic!("{}", e.message()),
    };
    assert_eq!(out, back);
}

#[test]
fn test_missing_required_fields() {
    let required = vec![
        "name",
        "rly_file",
        "author",
        "factual",
        "version",
        "release_date",
        "country_code",
        "ttb_files",
        "doc_files",
        "img_files",
    ];
    for key in required {
        match load_metadata_str(&antwerp_toml_without(key)) {
            Ok(_) => panic!("load succeeded without '{}'", key),
            Err(e) => {
                assert_eq!(e, MetaError::MissingRequiredField(key.to_string()));
                assert_eq!(e.message(), format!("Expected value for key '{}'", key));
            }
        }
    }
}

#[test]
fn test_omitted_optional_scalars_default() {
    let text = antwerp_toml_without("description");
    let text = {
        let lines: Vec<String> = text
            .lines()
            .filter(|l| {
                !l.starts_with("display_name =") && !l.starts_with("minimum_required =")
            })
            .map(|l| l.to_string())
            .collect();
        lines.join("\n")
    };
    let parsed = load_metadata_str(&text).unwrap();
    assert_eq!(parsed.description, "");
    assert_eq!(parsed.display_name, "");
    assert_eq!(parsed.minimum_required, "0.1.0");
}

#[test]
fn test_omitted_optional_lists_empty() {
    let text = antwerp_toml_without("contributors");
    let text = {
        let lines: Vec<String> = text
            .lines()
            .filter(|l| {
                !l.starts_with("ssn_files =") && !l.starts_with("graphic_files =")
                    && !l.starts_with("year =")
            })
            .map(|l| l.to_string())
            .collect();
        lines.join("\n")
    };
    let parsed = load_metadata_str(&text).unwrap();
    assert_eq!(parsed.contributors, Vec::<String>::new());
    assert_eq!(parsed.ssn_files, Vec::<String>::new());
    assert_eq!(parsed.graphic_files, Vec::<String>::new());
    assert_eq!(parsed.year, -1);
}

#[test]
fn test_wrong_type_optional_scalar_defaults() {
    let parsed = load_metadata_str(&antwerp_toml_with("display_name", "display_name = 7")).unwrap();
    assert_eq!(parsed.display_name, "");
    let parsed = load_metadata_str(&antwerp_toml_with("year", "year = \"abc\"")).unwrap();
    assert_eq!(parsed.year, -1);
}

#[test]
fn test_wrong_type_required_field() {
    match load_metadata_str(&antwerp_toml_with("name", "name = 3")) {
        Ok(_) => panic!("load accepted a non-string name"),
        Err(e) => assert_eq!(e, MetaError::MissingRequiredField("name".to_string())),
    }
    match load_metadata_str(&antwerp_toml_with("factual", "factual = \"yes\"")) {
        Ok(_) => panic!("load accepted a non-boolean factual"),
        Err(e) => assert_eq!(e, MetaError::MissingRequiredField("factual".to_string())),
    }
    match load_metadata_str(&antwerp_toml_with("ttb_files", "ttb_files = \"one.ttb\"")) {
        Ok(_) => panic!("load accepted a non-array ttb_files"),
        Err(e) => assert_eq!(e, MetaError::MissingRequiredField("ttb_files".to_string())),
    }
}

#[test]
fn test_invalid_version_string() {
    match load_metadata_str(&antwerp_toml_with("version", "version = \"not-a-version\"")) {
        Ok(_) => panic!("load accepted an invalid version"),
        Err(e) => assert_eq!(
            e,
            MetaError::InvalidVersionString("version".to_string(), "not-a-version".to_string())
        ),
    }
    let parsed = load_metadata_str(&antwerp_toml()).unwrap();
    assert_eq!(parsed.version, "1.0.0");
}

#[test]
fn test_invalid_minimum_required() {
    match load_metadata_str(&antwerp_toml_with(
        "minimum_required",
        "minimum_required = \"oldest\"",
    )) {
        Ok(_) => panic!("load accepted an invalid minimum_required"),
        Err(e) => assert_eq!(
            e,
            MetaError::InvalidVersionString("minimum_required".to_string(), "oldest".to_string())
        ),
    }
}

#[test]
fn test_invalid_release_date() {
    match load_metadata_str(&antwerp_toml_with("release_date", "release_date = \"09-10-2021\"")) {
        Ok(_) => panic!("load accepted an invalid release date"),
        Err(e) => assert_eq!(e, MetaError::InvalidDateString("09-10-2021".to_string())),
    }
    let parsed = load_metadata_str(&antwerp_toml()).unwrap();
    assert_eq!(parsed.release_date, "2021-10-09");
}

#[test]
fn test_invalid_array_element() {
    match load_metadata_str(&antwerp_toml_with("doc_files", "doc_files = [\"a.md\", 3]")) {
        Ok(_) => panic!("load accepted a non-string array element"),
        Err(e) => assert_eq!(
            e,
            MetaError::InvalidArrayElement("doc_files".to_string(), "3".to_string())
        ),
    }
}

#[test]
fn test_document_parse_error() {
    match load_metadata_str("this is [ not = toml") {
        Ok(_) => panic!("load accepted text that is not TOML"),
        Err(MetaError::DocumentParse(_)) => {}
        Err(e) => panic!("unexpected error: {}", e.message()),
    }
}

#[test]
fn test_fictional_code_in_full_document() {
    let parsed =
        load_metadata_str(&antwerp_toml_with("country_code", "country_code = \"FN\"")).unwrap();
    assert_eq!(parsed.country_code, "FN");
}

#[test]
fn test_unknown_code_in_full_document() {
    match load_metadata_str(&antwerp_toml_with("country_code", "country_code = \"YO\"")) {
        Ok(_) => panic!("load accepted an unknown country code"),
        Err(e) => assert_eq!(e, MetaError::InvalidCountryCode("YO".to_string())),
    }
}

#[test]
fn test_written_document_contains_every_field() {
    let text = test_record().to_toml_string().unwrap();
    for key in [
        "name", "display_name", "description", "author", "contributors", "rly_file", "ttb_files",
        "doc_files", "ssn_files", "img_files", "graphic_files", "release_date", "version",
        "minimum_required", "country_code", "factual", "year",
    ] {
        assert!(text.contains(&format!("{} = ", key)), "'{}' missing from: {}", key, text);
    }
}
