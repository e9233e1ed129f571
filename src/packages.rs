//! A package and the stages it goes through: described, downloaded, decoded,
//! installed. The library decides each step; the caller does the transfer,
//! the extraction and the commands, and reports how they went.
use vstd::prelude::*;
use vstd::string::*;

use crate::errors::{
    DecoderNotFoundError, FileTypeNotSupportedError, InstallTypeNotSupportedError,
    PathNotFoundError, SageError,
};
use crate::install_utils::{CommandRunner, Decoder, FileTypes, InstallTypes};
use crate::text::{join_path, joined, str_eq};
use crate::yml_parser::PackageParser;

verus! {

/// A stage that can fail.
#[derive(Debug, Clone, Copy, PartialEq, Eq, Structural)]
pub enum Step {
    Downloading,
    Decoding,
    Installing,
}

/// Where a package stands. The stages follow one another in the order
/// written, with no way back; `Failed` ends the run.
#[derive(Debug, Clone, PartialEq, Eq)]
pub enum Stage {
    Described,
    Downloading,
    Downloaded,
    Decoding,
    Decoded,
    Installing,
    Installed,
    Failed(Step, SageError),
}

/// What to extract, where to, and in which format.
pub struct DecodeJob {
    pub archive: String,
    pub unpack_dir: String,
    pub file_type: FileTypes,
}

/// A package with a validated descriptor.
pub struct Package {
    name: String,
    version: String,
    url: String,
    file_type: FileTypes,
    file: String,
    install_type: InstallTypes,
    install_target: String,
    stage: Stage,
}

/// A package as plain values.
pub struct PackageView {
    pub name: Seq<char>,
    pub version: Seq<char>,
    pub url: Seq<char>,
    pub file_type: FileTypes,
    pub file: Seq<char>,
    pub install_type: InstallTypes,
    pub install_target: Seq<char>,
    pub stage: Stage,
}

impl PackageView {
    /// The same package at another stage.
    pub open spec fn at(self, stage: Stage) -> PackageView {
        PackageView { stage, ..self }
    }
}

impl View for Package {
    type V = PackageView;

    closed spec fn view(&self) -> PackageView {
        PackageView {
            name: self.name@,
            version: self.version@,
            url: self.url@,
            file_type: self.file_type,
            file: self.file@,
            install_type: self.install_type,
            install_target: self.install_target@,
            stage: self.stage,
        }
    }
}

/// The archive format that a descriptor's `type` names.
pub open spec fn file_type_tag(s: Seq<char>) -> Option<FileTypes> {
    if s == "tar.xz"@ {
        Some(FileTypes::TarXz)
    } else if s == "tar.gz"@ {
        Some(FileTypes::TarGz)
    } else {
        None
    }
}

/// The installation method that a descriptor's `installation.type` names.
pub open spec fn install_type_tag(s: Seq<char>) -> Option<InstallTypes> {
    if s == "make"@ {
        Some(InstallTypes::MakeInstall)
    } else if s == "bin"@ {
        Some(InstallTypes::Bin)
    } else {
        None
    }
}

/// The package that a descriptor's strings describe, or why there is none:
/// an unknown format first, then an unknown installation method.
pub open spec fn described(
    name: Seq<char>,
    version: Seq<char>,
    url: Seq<char>,
    file_type: Seq<char>,
    file: Seq<char>,
    install_type: Seq<char>,
    install_target: Seq<char>,
) -> Result<PackageView, SageError> {
    match file_type_tag(file_type) {
        None => Err(SageError::UnsupportedFormat(FileTypeNotSupportedError)),
        Some(ft) => match install_type_tag(install_type) {
            None => Err(SageError::UnsupportedInstallType(InstallTypeNotSupportedError)),
            Some(it) => Ok(
                PackageView {
                    name,
                    version,
                    url,
                    file_type: ft,
                    file,
                    install_type: it,
                    install_target,
                    stage: Stage::Described,
                },
            ),
        },
    }
}

/// A descriptor whose `type` is not a supported archive format is refused
/// with `UnsupportedFormat`, and one with a supported format whose
/// `installation.type` is not a supported method with
/// `UnsupportedInstallType`; neither falls back to a default.
pub proof fn lemma_unknown_tags(
    name: Seq<char>,
    version: Seq<char>,
    url: Seq<char>,
    file_type: Seq<char>,
    file: Seq<char>,
    install_type: Seq<char>,
    install_target: Seq<char>,
)
    ensures
        file_type != "tar.xz"@ && file_type != "tar.gz"@ ==> described(
            name,
            version,
            url,
            file_type,
            file,
            install_type,
            install_target,
        ) == Err::<PackageView, SageError>(SageError::UnsupportedFormat(FileTypeNotSupportedError)),
        (file_type == "tar.xz"@ || file_type == "tar.gz"@) && install_type != "make"@
            && install_type != "bin"@ ==> described(
            name,
            version,
            url,
            file_type,
            file,
            install_type,
            install_target,
        ) == Err::<PackageView, SageError>(
            SageError::UnsupportedInstallType(InstallTypeNotSupportedError),
        ),
{
}

/// The stage after a step ends: the next one, or the failure with its cause.
pub open spec fn after(step: Step, outcome: Result<(), SageError>) -> Stage {
    match outcome {
        Ok(()) => match step {
            Step::Downloading => Stage::Downloaded,
            Step::Decoding => Stage::Decoded,
            Step::Installing => Stage::Installed,
        },
        Err(e) => Stage::Failed(step, e),
    }
}

fn file_type_of(s: &str) -> (r: Option<FileTypes>)
    ensures
        r == file_type_tag(s@),
{
    if str_eq(s, "tar.xz") {
        Some(FileTypes::TarXz)
    } else if str_eq(s, "tar.gz") {
        Some(FileTypes::TarGz)
    } else {
        None
    }
}

fn install_type_of(s: &str) -> (r: Option<InstallTypes>)
    ensures
        r == install_type_tag(s@),
{
    if str_eq(s, "make") {
        Some(InstallTypes::MakeInstall)
    } else if str_eq(s, "bin") {
        Some(InstallTypes::Bin)
    } else {
        None
    }
}

impl Package {
    /// A package from the strings of its descriptor. `file_type` must be
    /// `tar.xz` or `tar.gz`, and `install_type` `make` or `bin`.
    pub fn new(
        name: &str,
        version: &str,
        url: &str,
        file_type: &str,
        file_name: &str,
        install_type: &str,
        install_target: &str,
    ) -> (r: Result<Package, SageError>)
        ensures
            match r {
                Ok(p) => described(
                    name@,
                    version@,
                    url@,
                    file_type@,
                    file_name@,
                    install_type@,
                    install_target@,
                ) == Ok::<PackageView, SageError>(p@),
                Err(e) => described(
                    name@,
                    version@,
                    url@,
                    file_type@,
                    file_name@,
                    install_type@,
                    install_target@,
                ) == Err::<PackageView, SageError>(e),
            },
    {
        let file_type_enum = match file_type_of(file_type) {
            Some(t) => t,
            None => return Err(SageError::UnsupportedFormat(FileTypeNotSupportedError)),
        };
        let install_type_enum = match install_type_of(install_type) {
            Some(t) => t,
            None => return Err(SageError::UnsupportedInstallType(InstallTypeNotSupportedError)),
        };
        Ok(
            Package {
                name: String::from_str(name),
                version: String::from_str(version),
                url: String::from_str(url),
                file_type: file_type_enum,
                file: String::from_str(file_name),
                install_type: install_type_enum,
                install_target: String::from_str(install_target),
                stage: Stage::Described,
            },
        )
    }

    /// The package that a parsed descriptor describes. Its install target,
    /// the directory the archive unpacks into, is `<name>-<version>`.
    pub fn from_parser(parser: &PackageParser) -> (r: Result<Package, SageError>)
        ensures
            ({
                let d = parser@;
                let res = described(
                    d.name,
                    d.version,
                    d.url,
                    d.file_type,
                    d.file,
                    d.install_type,
                    d.name + "-"@ + d.version,
                );
                match r {
                    Ok(p) => res == Ok::<PackageView, SageError>(p@),
                    Err(e) => res == Err::<PackageView, SageError>(e),
                }
            }),
    {
        let target = String::from_str(parser.get_name()).concat("-").concat(parser.get_version());
        Package::new(
            parser.get_name(),
            parser.get_version(),
            parser.get_ulr(),
            parser.get_file_type(),
            parser.get_file_name(),
            parser.get_installation_info(crate::yml_parser::InstallInfo::Type),
            target.as_str(),
        )
    }

    pub fn get_name(&self) -> (r: &str)
        ensures
            r@ == self@.name,
    {
        self.name.as_str()
    }

    pub fn get_version(&self) -> (r: &str)
        ensures
            r@ == self@.version,
    {
        self.version.as_str()
    }

    pub fn get_url(&self) -> (r: &str)
        ensures
            r@ == self@.url,
    {
        self.url.as_str()
    }

    pub fn get_file_type(&self) -> (r: &FileTypes)
        ensures
            *r == self@.file_type,
    {
        &self.file_type
    }

    pub fn get_file(&self) -> (r: &str)
        ensures
            r@ == self@.file,
    {
        self.file.as_str()
    }

    pub fn get_install_type(&self) -> (r: &InstallTypes)
        ensures
            *r == self@.install_type,
    {
        &self.install_type
    }

    pub fn get_install_target(&self) -> (r: &str)
        ensures
            r@ == self@.install_target,
    {
        self.install_target.as_str()
    }

    pub fn stage(&self) -> (r: &Stage)
        ensures
            *r == self@.stage,
    {
        &self.stage
    }

    /// Starts the download: the archive is to be written to the returned
    /// path, `<download_dir>/<file>`, replacing any file there.
    pub fn begin_download(&mut self, download_dir: &str) -> (r: String)
        requires
            old(self)@.stage == Stage::Described,
        ensures
            r@ == joined(download_dir@, old(self)@.file),
            final(self)@ == old(self)@.at(Stage::Downloading),
    {
        self.stage = Stage::Downloading;
        join_path(download_dir, self.file.as_str())
    }

    /// Records how the download went; a failed download leaves no usable file.
    pub fn end_download(&mut self, outcome: Result<(), SageError>) -> (r: Result<(), SageError>)
        requires
            old(self)@.stage == Stage::Downloading,
        ensures
            r == outcome,
            final(self)@ == old(self)@.at(after(Step::Downloading, outcome)),
    {
        self.stage = match &outcome {
            Ok(()) => Stage::Downloaded,
            Err(e) => Stage::Failed(Step::Downloading, e.duplicate()),
        };
        outcome
    }

    /// Starts decoding the downloaded archive into `download_dir`. A decoder
    /// is required, and it must handle the package's format.
    pub fn begin_decode<D: Decoder>(&mut self, decoder: Option<&D>, download_dir: &str) -> (r: Result<DecodeJob, SageError>)
        requires
            old(self)@.stage == Stage::Downloaded,
        ensures
            match decoder {
                None => r == Err::<DecodeJob, SageError>(SageError::DecoderNotFound(DecoderNotFoundError))
                    && final(self)@ == old(self)@.at(Stage::Failed(Step::Decoding, SageError::DecoderNotFound(DecoderNotFoundError))),
                Some(d) => if d.handles() != old(self)@.file_type {
                    r == Err::<DecodeJob, SageError>(SageError::DecoderMismatch)
                        && final(self)@ == old(self)@.at(Stage::Failed(Step::Decoding, SageError::DecoderMismatch))
                } else {
                    r is Ok
                        && r->Ok_0.archive@ == joined(download_dir@, old(self)@.file)
                        && r->Ok_0.unpack_dir@ == download_dir@
                        && r->Ok_0.file_type == old(self)@.file_type
                        && final(self)@ == old(self)@.at(Stage::Decoding)
                },
            },
    {
        match decoder {
            None => {
                let e = SageError::DecoderNotFound(DecoderNotFoundError);
                self.stage = Stage::Failed(Step::Decoding, e.duplicate());
                Err(e)
            },
            Some(d) => {
                if d.file_type() != self.file_type {
                    self.stage = Stage::Failed(Step::Decoding, SageError::DecoderMismatch);
                    return Err(SageError::DecoderMismatch);
                }
                self.stage = Stage::Decoding;
                Ok(
                    DecodeJob {
                        archive: join_path(download_dir, self.file.as_str()),
                        unpack_dir: String::from_str(download_dir),
                        file_type: self.file_type,
                    },
                )
            },
        }
    }

    /// Records how the extraction went.
    pub fn end_decode(&mut self, outcome: Result<(), SageError>) -> (r: Result<(), SageError>)
        requires
            old(self)@.stage == Stage::Decoding,
        ensures
            r == outcome,
            final(self)@ == old(self)@.at(after(Step::Decoding, outcome)),
    {
        self.stage = match &outcome {
            Ok(()) => Stage::Decoded,
            Err(e) => Stage::Failed(Step::Decoding, e.duplicate()),
        };
        outcome
    }

    /// Starts the installation into the install root: the command to run,
    /// chosen by the package's installation method. Without a root nothing
    /// is run.
    pub fn begin_install(&mut self, sage_home_path: Option<&str>) -> (r: Result<CommandRunner, SageError>)
        requires
            old(self)@.stage == Stage::Decoded,
        ensures
            match sage_home_path {
                None => r == Err::<CommandRunner, SageError>(SageError::PathNotFound(PathNotFoundError))
                    && final(self)@ == old(self)@.at(Stage::Failed(Step::Installing, SageError::PathNotFound(PathNotFoundError))),
                Some(root) => r is Ok
                    && final(self)@ == old(self)@.at(Stage::Installing)
                    && match old(self)@.install_type {
                        InstallTypes::MakeInstall => r->Ok_0 is Make
                            && r->Ok_0->Make_0@ == old(self)@.install_target
                            && r->Ok_0->Make_1@ == root@,
                        InstallTypes::Bin => r->Ok_0 is Bin
                            && r->Ok_0->Bin_0@ == old(self)@.install_target
                            && r->Ok_0->Bin_1@ == root@,
                    },
            },
    {
        match sage_home_path {
            None => {
                let e = SageError::PathNotFound(PathNotFoundError);
                self.stage = Stage::Failed(Step::Installing, e.duplicate());
                Err(e)
            },
            Some(root) => {
                self.stage = Stage::Installing;
                let target = self.install_target.clone();
                match self.install_type {
                    InstallTypes::MakeInstall => Ok(CommandRunner::Make(target, String::from_str(root))),
                    InstallTypes::Bin => Ok(CommandRunner::Bin(target, String::from_str(root))),
                }
            },
        }
    }

    /// Records how the installation went. Nothing is rolled back on failure.
    pub fn end_install(&mut self, outcome: Result<(), SageError>) -> (r: Result<(), SageError>)
        requires
            old(self)@.stage == Stage::Installing,
        ensures
            r == outcome,
            final(self)@ == old(self)@.at(after(Step::Installing, outcome)),
    {
        self.stage = match &outcome {
            Ok(()) => Stage::Installed,
            Err(e) => Stage::Failed(Step::Installing, e.duplicate()),
        };
        outcome
    }
}

} // verus!
