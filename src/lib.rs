//! Resolves, downloads and installs programs described by a remote YAML
//! catalog. The library holds the decisions: where the catalog documents
//! are, what they say, which package they describe, and which stage of its
//! acquisition a package has reached. Transfers, extraction and the
//! installation commands are carried out by the caller.
use vstd::prelude::*;

pub mod commands;
pub mod config;
pub mod entries;
pub mod errors;
pub mod install_utils;
pub mod packages;
pub mod repositories;
pub mod text;
pub mod yaml;
pub mod yml_parser;

pub use commands::{generic_info, run, specific_info, Job, CATALOG_URL, HOST_OS};
pub use config::{parse_commands, parse_desired_pkg, Command, Config};
pub use entries::entry_is_contained;
pub use errors::{
    DecodeFailure, DecoderNotFoundError, Field, FileTypeNotSupportedError,
    InstallTypeNotSupportedError, NoVersionFoundError, NoVersionSpecifiedError,
    PackageNotFoundError, PathNotFoundError, ProcessFailure, SageError,
};
pub use install_utils::{
    after_task, TaskReport,
    CommandRunner, Decoder, FileTypes, InstallTypes, Invocation, Task, TarGzDecoder,
    TarXzDecoder,
};
pub use packages::{DecodeJob, Package, Stage, Step};
pub use repositories::{check_response, Repo};
pub use text::{join_path, str_eq};
pub use yml_parser::{InstallInfo, MetadataParser, PackageParser};

verus! {

} // verus!
