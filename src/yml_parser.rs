//! Typed views of the two catalog documents: a program's metadata and one
//! version's package descriptor. Both are read eagerly: a document that lacks
//! a required key is refused when it is parsed, never filled with a default.
use vstd::prelude::*;
use vstd::string::*;
use yaml_rust::Yaml;

use crate::errors::{field_key, Field, SageError};
use crate::yaml::{
    load_yaml, node_field, yaml_as_str, yaml_as_vec, yaml_documents, yaml_field, yaml_node,
    YamlNode,
};

verus! {

/// The string of a scalar node.
pub open spec fn node_text(n: YamlNode) -> Option<Seq<char>> {
    match n {
        YamlNode::Text(s) => Some(s),
        _ => None,
    }
}

/// The strings of a sequence node whose items are all strings, in order.
pub open spec fn node_texts(n: YamlNode) -> Option<Seq<Seq<char>>> {
    match n {
        YamlNode::List(items) => if forall|i: int| 0 <= i < items.len() ==> #[trigger] items[i] is Text {
            Some(items.map_values(|e: YamlNode| e->Text_0))
        } else {
            None
        },
        _ => None,
    }
}

/// The document that the parsers read: the first one of the text. A text
/// with no document reads as an empty one.
pub open spec fn first_document(docs: Seq<YamlNode>) -> YamlNode {
    if docs.len() > 0 {
        docs[0]
    } else {
        YamlNode::Other
    }
}

/// The node under which a field stands; `installation.type` is nested.
pub open spec fn field_node(doc: YamlNode, f: Field) -> YamlNode {
    match f {
        Field::InstallationType => node_field(node_field(doc, "installation"@), "type"@),
        _ => node_field(doc, field_key(f)),
    }
}

/// What a metadata document states.
pub struct MetadataDoc {
    pub versions: Seq<Seq<char>>,
    pub lts: Seq<char>,
    pub latest: Seq<char>,
}

/// What a package document states.
pub struct PackageDoc {
    pub name: Seq<char>,
    pub version: Seq<char>,
    pub url: Seq<char>,
    pub file_type: Seq<char>,
    pub file: Seq<char>,
    pub install_type: Seq<char>,
}

/// The metadata of a document, or the first required field (in the order
/// `versions`, `lts`, `latest`) that is absent or of the wrong shape.
pub open spec fn metadata_of(doc: YamlNode) -> Result<MetadataDoc, Field> {
    if node_texts(field_node(doc, Field::Versions)) is None {
        Err(Field::Versions)
    } else if node_text(field_node(doc, Field::Lts)) is None {
        Err(Field::Lts)
    } else if node_text(field_node(doc, Field::Latest)) is None {
        Err(Field::Latest)
    } else {
        Ok(
            MetadataDoc {
                versions: node_texts(field_node(doc, Field::Versions))->Some_0,
                lts: node_text(field_node(doc, Field::Lts))->Some_0,
                latest: node_text(field_node(doc, Field::Latest))->Some_0,
            },
        )
    }
}

/// Whether a field is one that package documents require.
pub open spec fn package_field(f: Field) -> bool {
    match f {
        Field::Versions | Field::Lts | Field::Latest => false,
        _ => true,
    }
}

/// The package descriptor of a document, or the first required field that is
/// absent or not a string.
pub open spec fn package_of(doc: YamlNode) -> Result<PackageDoc, Field> {
    if node_text(field_node(doc, Field::Name)) is None {
        Err(Field::Name)
    } else if node_text(field_node(doc, Field::Version)) is None {
        Err(Field::Version)
    } else if node_text(field_node(doc, Field::Url)) is None {
        Err(Field::Url)
    } else if node_text(field_node(doc, Field::Type)) is None {
        Err(Field::Type)
    } else if node_text(field_node(doc, Field::File)) is None {
        Err(Field::File)
    } else if node_text(field_node(doc, Field::InstallationType)) is None {
        Err(Field::InstallationType)
    } else {
        Ok(
            PackageDoc {
                name: node_text(field_node(doc, Field::Name))->Some_0,
                version: node_text(field_node(doc, Field::Version))->Some_0,
                url: node_text(field_node(doc, Field::Url))->Some_0,
                file_type: node_text(field_node(doc, Field::Type))->Some_0,
                file: node_text(field_node(doc, Field::File))->Some_0,
                install_type: node_text(field_node(doc, Field::InstallationType))->Some_0,
            },
        )
    }
}

/// The outcome of parsing a metadata text.
pub open spec fn metadata_from_text(text: Seq<char>) -> Result<MetadataDoc, SageError> {
    match yaml_documents(text) {
        None => Err(SageError::Parse),
        Some(docs) => match metadata_of(first_document(docs)) {
            Ok(m) => Ok(m),
            Err(f) => Err(SageError::MissingField(f)),
        },
    }
}

/// The outcome of parsing a package text.
pub open spec fn package_from_text(text: Seq<char>) -> Result<PackageDoc, SageError> {
    match yaml_documents(text) {
        None => Err(SageError::Parse),
        Some(docs) => match package_of(first_document(docs)) {
            Ok(p) => Ok(p),
            Err(f) => Err(SageError::MissingField(f)),
        },
    }
}

/// A well-formed metadata text, whose first document holds `versions` as a
/// sequence of strings and `lts` and `latest` as strings, parses to exactly
/// those values: the versions in document order, `lts` and `latest` as
/// written.
pub proof fn lemma_metadata_fields(text: Seq<char>)
    requires
        yaml_documents(text) is Some,
        field_node(first_document(yaml_documents(text)->Some_0), Field::Versions) is List,
        forall|i: int|
            0 <= i < field_node(
                first_document(yaml_documents(text)->Some_0),
                Field::Versions,
            )->List_0.len() ==> #[trigger] field_node(
                first_document(yaml_documents(text)->Some_0),
                Field::Versions,
            )->List_0[i] is Text,
        field_node(first_document(yaml_documents(text)->Some_0), Field::Lts) is Text,
        field_node(first_document(yaml_documents(text)->Some_0), Field::Latest) is Text,
    ensures
        ({
            let doc = first_document(yaml_documents(text)->Some_0);
            let items = field_node(doc, Field::Versions)->List_0;
            &&& metadata_from_text(text) is Ok
            &&& metadata_from_text(text)->Ok_0.versions.len() == items.len()
            &&& forall|i: int|
                0 <= i < items.len() ==> #[trigger] metadata_from_text(text)->Ok_0.versions[i]
                    == items[i]->Text_0
            &&& metadata_from_text(text)->Ok_0.lts == field_node(doc, Field::Lts)->Text_0
            &&& metadata_from_text(text)->Ok_0.latest == field_node(doc, Field::Latest)->Text_0
        }),
{
}

/// A package text whose document lacks a required field, or holds
/// something other than a string there, is refused with `MissingField`
/// naming a field that is missing, never given a default; when that field is
/// the only one missing, the error names it.
pub proof fn lemma_missing_field(text: Seq<char>, f: Field)
    requires
        yaml_documents(text) is Some,
        package_field(f),
        node_text(field_node(first_document(yaml_documents(text)->Some_0), f)) is None,
    ensures
        ({
            let doc = first_document(yaml_documents(text)->Some_0);
            &&& package_from_text(text) is Err
            &&& package_from_text(text)->Err_0 is MissingField
            &&& package_field(package_from_text(text)->Err_0->MissingField_0)
            &&& node_text(field_node(doc, package_from_text(text)->Err_0->MissingField_0)) is None
            &&& (forall|g: Field|
                package_field(g) && g != f ==> #[trigger] node_text(field_node(doc, g)) is Some)
                ==> package_from_text(text) == Err::<PackageDoc, SageError>(
                SageError::MissingField(f),
            )
        }),
{
    let doc = first_document(yaml_documents(text)->Some_0);
    if forall|g: Field| package_field(g) && g != f ==> #[trigger] node_text(field_node(doc, g)) is Some {
        assert(node_text(field_node(doc, Field::Name)) is Some || f == Field::Name);
        assert(node_text(field_node(doc, Field::Version)) is Some || f == Field::Version);
        assert(node_text(field_node(doc, Field::Url)) is Some || f == Field::Url);
        assert(node_text(field_node(doc, Field::Type)) is Some || f == Field::Type);
        assert(node_text(field_node(doc, Field::File)) is Some || f == Field::File);
    }
}

/// The metadata of a program: its versions in catalog order, its long-term
/// support version and its latest version.
pub struct MetadataParser {
    versions: Vec<String>,
    lts: String,
    latest: String,
}

/// The descriptor of one version of a program.
pub struct PackageParser {
    name: String,
    version: String,
    url: String,
    file_type: String,
    file: String,
    install_type: String,
}

/// The details of the `installation` section that can be asked for.
#[derive(Debug, Clone, Copy, PartialEq, Eq, Structural)]
pub enum InstallInfo {
    Type,
}

impl View for MetadataParser {
    type V = MetadataDoc;

    closed spec fn view(&self) -> MetadataDoc {
        MetadataDoc {
            versions: self.versions@.map_values(|s: String| s@),
            lts: self.lts@,
            latest: self.latest@,
        }
    }
}

impl View for PackageParser {
    type V = PackageDoc;

    closed spec fn view(&self) -> PackageDoc {
        PackageDoc {
            name: self.name@,
            version: self.version@,
            url: self.url@,
            file_type: self.file_type@,
            file: self.file@,
            install_type: self.install_type@,
        }
    }
}

/// The strings of a sequence of strings, or `None` when the node is no
/// sequence or one of its items is no string.
fn text_list(node: &Yaml) -> (r: Option<Vec<String>>)
    ensures
        match r {
            Some(v) => node_texts(yaml_node(*node)) == Some(v@.map_values(|s: String| s@)),
            None => node_texts(yaml_node(*node)) is None,
        },
{
    let items = match yaml_as_vec(node) {
        Some(items) => items,
        None => return None,
    };
    let ghost model = items@.map_values(|e: Yaml| yaml_node(e));
    let mut out: Vec<String> = Vec::new();
    let mut i: usize = 0;
    while i < items.len()
        invariant
            i <= items@.len(),
            out@.len() == i,
            model == items@.map_values(|e: Yaml| yaml_node(e)),
            yaml_node(*node) == YamlNode::List(model),
            forall|j: int| 0 <= j < i ==> #[trigger] model[j] is Text,
            forall|j: int| 0 <= j < i ==> #[trigger] out@[j]@ == model[j]->Text_0,
        decreases items@.len() - i,
    {
        match yaml_as_str(&items[i]) {
            Some(s) => {
                out.push(String::from_str(s));
            },
            None => {
                assert(!(model[i as int] is Text));
                return None;
            },
        }
        i = i + 1;
    }
    assert(out@.map_values(|s: String| s@) =~= model.map_values(|e: YamlNode| e->Text_0));
    Some(out)
}

/// The string under a field of a document, or the error that names the field.
fn text_field(doc: &Yaml, f: Field) -> (r: Result<String, SageError>)
    ensures
        match node_text(field_node(yaml_node(*doc), f)) {
            Some(s) => r is Ok && r->Ok_0@ == s,
            None => r == Err::<String, SageError>(SageError::MissingField(f)),
        },
{
    let node = match f {
        Field::InstallationType => yaml_field(yaml_field(doc, "installation"), "type"),
        _ => yaml_field(doc, f.key()),
    };
    match yaml_as_str(node) {
        Some(s) => Ok(String::from_str(s)),
        None => Err(SageError::MissingField(f)),
    }
}

impl MetadataParser {
    /// Parses a metadata document: `versions` (a sequence of strings), `lts`
    /// and `latest` (strings). Malformed YAML is `Parse`; the first required
    /// key that is absent or of the wrong shape is `MissingField`.
    pub fn new(text: &str) -> (r: Result<MetadataParser, SageError>)
        ensures
            match r {
                Ok(p) => metadata_from_text(text@) == Ok::<MetadataDoc, SageError>(p@),
                Err(e) => metadata_from_text(text@) == Err::<MetadataDoc, SageError>(e),
            },
    {
        let docs = match load_yaml(text) {
            Ok(docs) => docs,
            Err(_) => return Err(SageError::Parse),
        };
        if docs.len() == 0 {
            return Err(SageError::MissingField(Field::Versions));
        }
        MetadataParser::from_document(&docs[0])
    }

    /// Reads the metadata of an already loaded YAML document.
    pub fn from_document(doc: &Yaml) -> (r: Result<MetadataParser, SageError>)
        ensures
            match r {
                Ok(p) => metadata_of(yaml_node(*doc)) == Ok::<MetadataDoc, Field>(p@),
                Err(e) => metadata_of(yaml_node(*doc)) matches Err(f) && e == SageError::MissingField(f),
            },
    {
        let versions = match text_list(yaml_field(doc, "versions")) {
            Some(v) => v,
            None => return Err(SageError::MissingField(Field::Versions)),
        };
        let lts = text_field(doc, Field::Lts)?;
        let latest = text_field(doc, Field::Latest)?;
        Ok(MetadataParser { versions, lts, latest })
    }

    /// The available versions, in catalog order.
    pub fn get_versions(&self) -> (r: &Vec<String>)
        ensures
            r@.map_values(|s: String| s@) == self@.versions,
    {
        &self.versions
    }

    /// The long-term support version.
    pub fn get_lts_version(&self) -> (r: &str)
        ensures
            r@ == self@.lts,
    {
        self.lts.as_str()
    }

    /// The latest version.
    pub fn get_latest_version(&self) -> (r: &str)
        ensures
            r@ == self@.latest,
    {
        self.latest.as_str()
    }
}

impl PackageParser {
    /// Parses a package document: `name`, `version`, `url`, `type`, `file` and
    /// `installation.type`, all strings. Malformed YAML is `Parse`; the first
    /// required key that is absent or not a string is `MissingField`.
    pub fn new(text: &str) -> (r: Result<PackageParser, SageError>)
        ensures
            match r {
                Ok(p) => package_from_text(text@) == Ok::<PackageDoc, SageError>(p@),
                Err(e) => package_from_text(text@) == Err::<PackageDoc, SageError>(e),
            },
    {
        let docs = match load_yaml(text) {
            Ok(docs) => docs,
            Err(_) => return Err(SageError::Parse),
        };
        if docs.len() == 0 {
            return Err(SageError::MissingField(Field::Name));
        }
        PackageParser::from_document(&docs[0])
    }

    /// Reads the descriptor of an already loaded YAML document.
    pub fn from_document(doc: &Yaml) -> (r: Result<PackageParser, SageError>)
        ensures
            match r {
                Ok(p) => package_of(yaml_node(*doc)) == Ok::<PackageDoc, Field>(p@),
                Err(e) => package_of(yaml_node(*doc)) matches Err(f) && e == SageError::MissingField(f),
            },
    {
        let name = text_field(doc, Field::Name)?;
        let version = text_field(doc, Field::Version)?;
        let url = text_field(doc, Field::Url)?;
        let file_type = text_field(doc, Field::Type)?;
        let file = text_field(doc, Field::File)?;
        let install_type = text_field(doc, Field::InstallationType)?;
        Ok(PackageParser { name, version, url, file_type, file, install_type })
    }

    /// The name of the program.
    pub fn get_name(&self) -> (r: &str)
        ensures
            r@ == self@.name,
    {
        self.name.as_str()
    }

    /// The version of the program.
    pub fn get_version(&self) -> (r: &str)
        ensures
            r@ == self@.version,
    {
        self.version.as_str()
    }

    /// The download URL of the archive.
    pub fn get_ulr(&self) -> (r: &str)
        ensures
            r@ == self@.url,
    {
        self.url.as_str()
    }

    /// The archive format tag, as the document writes it.
    pub fn get_file_type(&self) -> (r: &str)
        ensures
            r@ == self@.file_type,
    {
        self.file_type.as_str()
    }

    /// The file name under which the archive is stored.
    pub fn get_file_name(&self) -> (r: &str)
        ensures
            r@ == self@.file,
    {
        self.file.as_str()
    }

    /// A detail of the `installation` section.
    pub fn get_installation_info(&self, desired_info: InstallInfo) -> (r: &str)
        ensures
            r@ == self@.install_type,
    {
        match desired_info {
            InstallInfo::Type => self.install_type.as_str(),
        }
    }
}

} // verus!
