use sage::{Field, InstallInfo, MetadataParser, PackageParser, SageError};

const TEST_YML: &str = "
    versions:
        - 3.8.0
        - 3.7.0
    lts: 3.8.0
    latest: 3.8.0
    ";

const TEST_PACKAGE: &str = "
    name: Python
    version: 3.8.0
    url: https://www.python.org/ftp/python/3.8.0/Python-3.8.0.tar.xz
    type: tar.xz
    file: Python-3.8.0.tar.xz
    installation:
        type: make
    ";

#[test]
fn meta_parser_get_versions() {
    let meta_parser = match MetadataParser::new(TEST_YML) {
        Ok(parser) => parser,
        Err(_) => panic!("Could not create a metadata parser with the given string"),
    };
    let versions = meta_parser.get_versions();
    println!(":: versions: {:?}", versions);
    println!(":: first version:  {}", versions[0]);

    assert_eq!(
        versions,
        &vec![String::from("3.8.0"), String::from("3.7.0")]
    );
    assert_eq!(versions[0].as_str(), "3.8.0");
}

#[test]
fn meta_parser_get_lts() {
    let meta_parser = MetadataParser::new(TEST_YML)
        .expect("Could not create a metadata parser with the given string");
    let lts_version = meta_parser.get_lts_version();
    println!(":: LTS Version: {}", lts_version);

    assert_eq!(lts_version, "3.8.0");
}

#[test]
fn meta_parser_get_latest() {
    let meta_parser = MetadataParser::new(TEST_YML)
        .expect("Could not create a metadata parser with the given string");
    let latest_version = meta_parser.get_latest_version();
    println!(":: Latest Version: {}", latest_version);

    assert_eq!(latest_version, "3.8.0");
}

#[test]
fn pack_parser_get_everything() {
    let pack_parser = PackageParser::new(TEST_PACKAGE)
        .expect("Could not create a package parser with the given string");
    let name = pack_parser.get_name();
    let version = pack_parser.get_version();
    let url = pack_parser.get_ulr();
    let f_type = pack_parser.get_file_type();
    let file = pack_parser.get_file_name();
    let install_type = pack_parser.get_installation_info(InstallInfo::Type);

    assert_eq!(name, "Python");
    assert_eq!(version, "3.8.0");
    assert_eq!(
        url,
        "https://www.python.org/ftp/python/3.8.0/Python-3.8.0.tar.xz"
    );
    assert_eq!(f_type, "tar.xz");
    assert_eq!(file, "Python-3.8.0.tar.xz");
    assert_eq!(install_type, "make");
}

#[test]
fn metadata_keeps_document_order() {
    let text = "versions: [2.0.1, 3.1.4, 1.0.0, 3.1.5]\nlts: 2.0.1\nlatest: 3.1.5\n";
    let parser = MetadataParser::new(text).unwrap();
    assert_eq!(
        parser.get_versions(),
        &vec![
            String::from("2.0.1"),
            String::from("3.1.4"),
            String::from("1.0.0"),
            String::from("3.1.5"),
        ]
    );
    assert_eq!(parser.get_lts_version(), "2.0.1");
    assert_eq!(parser.get_latest_version(), "3.1.5");
}

#[test]
fn metadata_with_no_versions_listed_is_accepted() {
    let parser = MetadataParser::new("versions: []\nlts: a-1\nlatest: b-2\n").unwrap();
    assert!(parser.get_versions().is_empty());
    assert_eq!(parser.get_lts_version(), "a-1");
    assert_eq!(parser.get_latest_version(), "b-2");
}

#[test]
fn metadata_missing_versions() {
    let r = MetadataParser::new("lts: 3.8.0\nlatest: 3.8.0\n");
    assert_eq!(r.err(), Some(SageError::MissingField(Field::Versions)));
}

#[test]
fn metadata_versions_not_a_sequence() {
    let r = MetadataParser::new("versions: 3.8.0\nlts: 3.8.0\nlatest: 3.8.0\n");
    assert_eq!(r.err(), Some(SageError::MissingField(Field::Versions)));
}

#[test]
fn metadata_version_item_not_a_string() {
    let r = MetadataParser::new("versions: [3.8.0, 12]\nlts: 3.8.0\nlatest: 3.8.0\n");
    assert_eq!(r.err(), Some(SageError::MissingField(Field::Versions)));
}

#[test]
fn metadata_missing_lts() {
    let r = MetadataParser::new("versions: [3.8.0]\nlatest: 3.8.0\n");
    assert_eq!(r.err(), Some(SageError::MissingField(Field::Lts)));
}

#[test]
fn metadata_lts_read_as_number_is_missing() {
    let r = MetadataParser::new("versions: [3.8.0]\nlts: 3.8\nlatest: 3.8.0\n");
    assert_eq!(r.err(), Some(SageError::MissingField(Field::Lts)));
}

#[test]
fn metadata_missing_latest() {
    let r = MetadataParser::new("versions: [3.8.0]\nlts: 3.8.0\n");
    assert_eq!(r.err(), Some(SageError::MissingField(Field::Latest)));
}

#[test]
fn metadata_empty_text() {
    let r = MetadataParser::new("");
    assert_eq!(r.err(), Some(SageError::MissingField(Field::Versions)));
}

#[test]
fn metadata_malformed_yaml() {
    let r = MetadataParser::new("versions: [3.8.0, 3.7.0\nlts: 3.8.0\n");
    assert_eq!(r.err(), Some(SageError::Parse));
}

#[test]
fn metadata_reads_first_document_only() {
    let text = "versions: [1.0.0]\nlts: x\nlatest: y\n---\nversions: [9.9.9]\nlts: z\nlatest: w\n";
    let parser = MetadataParser::new(text).unwrap();
    assert_eq!(parser.get_versions(), &vec![String::from("1.0.0")]);
    assert_eq!(parser.get_lts_version(), "x");
}

fn package_without(key: &str) -> String {
    let lines = [
        ("name", "name: Python"),
        ("version", "version: 3.8.0"),
        ("url", "url: https://example.org/Python-3.8.0.tar.xz"),
        ("type", "type: tar.xz"),
        ("file", "file: Python-3.8.0.tar.xz"),
        ("installation", "installation:\n  type: make"),
    ];
    let mut text = String::new();
    for (k, line) in lines.iter() {
        if *k != key {
            text.push_str(line);
            text.push('\n');
        }
    }
    text
}

#[test]
fn package_missing_name() {
    let r = PackageParser::new(&package_without("name"));
    assert_eq!(r.err(), Some(SageError::MissingField(Field::Name)));
}

#[test]
fn package_missing_version() {
    let r = PackageParser::new(&package_without("version"));
    assert_eq!(r.err(), Some(SageError::MissingField(Field::Version)));
}

#[test]
fn package_missing_url() {
    let r = PackageParser::new(&package_without("url"));
    assert_eq!(r.err(), Some(SageError::MissingField(Field::Url)));
}

#[test]
fn package_missing_type() {
    let r = PackageParser::new(&package_without("type"));
    assert_eq!(r.err(), Some(SageError::MissingField(Field::Type)));
}

#[test]
fn package_missing_file() {
    let r = PackageParser::new(&package_without("file"));
    assert_eq!(r.err(), Some(SageError::MissingField(Field::File)));
}

#[test]
fn package_missing_installation() {
    let r = PackageParser::new(&package_without("installation"));
    assert_eq!(r.err(), Some(SageError::MissingField(Field::InstallationType)));
}

#[test]
fn package_installation_without_type() {
    let mut text = package_without("installation");
    text.push_str("installation:\n  kind: make\n");
    let r = PackageParser::new(&text);
    assert_eq!(r.err(), Some(SageError::MissingField(Field::InstallationType)));
}

#[test]
fn package_missing_several_names_the_first() {
    let r = PackageParser::new("type: tar.xz\nfile: a.tar.xz\n");
    assert_eq!(r.err(), Some(SageError::MissingField(Field::Name)));
}

#[test]
fn package_malformed_yaml() {
    let r = PackageParser::new("name: [Python\n");
    assert_eq!(r.err(), Some(SageError::Parse));
}

#[test]
fn field_keys() {
    assert_eq!(Field::Versions.key(), "versions");
    assert_eq!(Field::InstallationType.key(), "installation.type");
    assert_eq!(Field::Url.key(), "url");
}

#[test]
fn metadata_from_loaded_document() {
    let docs = yaml_rust::YamlLoader::load_from_str(TEST_YML).unwrap();
    let parser = MetadataParser::from_document(&docs[0]).unwrap();
    assert_eq!(
        parser.get_versions(),
        &vec![String::from("3.8.0"), String::from("3.7.0")]
    );
    assert_eq!(parser.get_latest_version(), "3.8.0");
}

#[test]
fn metadata_from_empty_mapping() {
    let doc = yaml_rust::Yaml::Hash(yaml_rust::yaml::Hash::new());
    assert_eq!(
        MetadataParser::from_document(&doc).err(),
        Some(SageError::MissingField(Field::Versions))
    );
}

#[test]
fn package_from_built_document() {
    let mut h = yaml_rust::yaml::Hash::new();
    let s = |t: &str| yaml_rust::Yaml::String(t.to_string());
    h.insert(s("name"), s("tool"));
    h.insert(s("version"), s("2.1.0"));
    h.insert(s("url"), s("https://example.org/tool-2.1.0.tar.gz"));
    h.insert(s("type"), s("tar.gz"));
    h.insert(s("file"), s("tool-2.1.0.tar.gz"));
    let mut inst = yaml_rust::yaml::Hash::new();
    inst.insert(s("type"), s("bin"));
    h.insert(s("installation"), yaml_rust::Yaml::Hash(inst));
    let p = PackageParser::from_document(&yaml_rust::Yaml::Hash(h)).unwrap();
    assert_eq!(p.get_name(), "tool");
    assert_eq!(p.get_file_type(), "tar.gz");
    assert_eq!(p.get_installation_info(InstallInfo::Type), "bin");
}

#[test]
fn package_from_scalar_document() {
    let doc = yaml_rust::Yaml::String(String::from("name: Python"));
    assert_eq!(
        PackageParser::from_document(&doc).err(),
        Some(SageError::MissingField(Field::Name))
    );
}
