//! What each command of the tool does, up to the requests it needs made and
//! the lines it shows.
use vstd::prelude::*;
use vstd::string::*;

use crate::config::{Command, Config};
use crate::errors::{NoVersionFoundError, NoVersionSpecifiedError, SageError};
use crate::packages::{described, Package};
use crate::repositories::{metadata_url_of, package_url_of, Repo};
use crate::yml_parser::{
    metadata_from_text, package_from_text, MetadataDoc, MetadataParser, PackageDoc,
    PackageParser,
};

verus! {

/// The base URL of the catalog.
pub const CATALOG_URL: &'static str = "https://raw.githubusercontent.com/rvillegasm/Arcanum/master";

/// The host system whose packages are asked for.
pub const HOST_OS: &'static str = "linux";

/// The request that a command starts with.
pub enum Job {
    /// Fetch the metadata document at the URL and show the program's versions.
    Info { metadata_url: String, program: String },
    /// Fetch the package document at the URL and show it.
    Details { package_url: String, program: String, version: String },
    /// Fetch the package document at the URL and download its archive into
    /// the directory.
    Download { package_url: String, program: String, version: String, download_dir: String },
}

/// Decides what a configuration asks for. `details` and `download` need a
/// version.
pub fn run(config: &Config) -> (r: Result<Job, SageError>)
    ensures
        ({
            let c = config@;
            let meta_url = metadata_url_of(CATALOG_URL@, HOST_OS@, c.desired_pkg);
            &&& c.command == "info"@ ==> (r matches Ok(Job::Info { metadata_url, program })
                && metadata_url@ == meta_url && program@ == c.desired_pkg)
            &&& (c.command == "details"@ || c.command == "download"@) && c.desired_pkg_version is None
                ==> r == Err::<Job, SageError>(SageError::NoVersionSpecified(NoVersionSpecifiedError))
            &&& c.command == "details"@ && c.desired_pkg_version is Some ==> (r matches Ok(
                Job::Details { package_url, program, version },
            ) && package_url@ == package_url_of(
                CATALOG_URL@,
                HOST_OS@,
                c.desired_pkg,
                c.desired_pkg_version->Some_0,
            ) && program@ == c.desired_pkg && version@ == c.desired_pkg_version->Some_0)
            &&& c.command == "download"@ && c.desired_pkg_version is Some ==> (r matches Ok(
                Job::Download { package_url, program, version, download_dir },
            ) && package_url@ == package_url_of(
                CATALOG_URL@,
                HOST_OS@,
                c.desired_pkg,
                c.desired_pkg_version->Some_0,
            ) && program@ == c.desired_pkg && version@ == c.desired_pkg_version->Some_0
                && download_dir@ == c.download_dir)
        }),
{
    let repo = Repo::new("Arcanum", CATALOG_URL, HOST_OS)?;
    let program = config.get_desired_pkg();
    match config.command_kind() {
        Command::Info => Ok(
            Job::Info { metadata_url: repo.metadata_url(program), program: String::from_str(program) },
        ),
        Command::Details => {
            let version = match config.get_desired_pkg_version() {
                Some(v) => v,
                None => return Err(SageError::NoVersionSpecified(NoVersionSpecifiedError)),
            };
            Ok(
                Job::Details {
                    package_url: repo.package_url(program, version),
                    program: String::from_str(program),
                    version: String::from_str(version),
                },
            )
        },
        Command::Download => {
            let version = match config.get_desired_pkg_version() {
                Some(v) => v,
                None => return Err(SageError::NoVersionSpecified(NoVersionSpecifiedError)),
            };
            Ok(
                Job::Download {
                    package_url: repo.package_url(program, version),
                    program: String::from_str(program),
                    version: String::from_str(version),
                    download_dir: String::from_str(config.get_download_dir()),
                },
            )
        },
    }
}

/// The lines that describe a program's metadata.
pub open spec fn info_lines(program: Seq<char>, m: MetadataDoc) -> Seq<Seq<char>> {
    seq!["Package: "@ + program, "Available versions: "@] + m.versions.map_values(
        |v: Seq<char>| "  - "@ + v,
    ) + seq!["LTS Version: "@ + m.lts, "Latest Version: "@ + m.latest]
}

/// The lines that describe one version of a program.
pub open spec fn detail_lines(d: PackageDoc) -> Seq<Seq<char>> {
    seq![
        "Package: "@ + d.name,
        "Version: "@ + d.version,
        "Download Url: "@ + d.url,
        "File Type: "@ + d.file_type,
        "File Name: "@ + d.file,
    ]
}

/// The general information about a program, from its metadata document:
/// its versions, its long-term support and its latest version. A program
/// that lists no version is `NoVersionFound`.
pub fn generic_info(program_name: &str, metadata_text: &str) -> (r: Result<Vec<String>, SageError>)
    ensures
        match metadata_from_text(metadata_text@) {
            Err(e) => r == Err::<Vec<String>, SageError>(e),
            Ok(m) => if m.versions.len() == 0 {
                r == Err::<Vec<String>, SageError>(SageError::NoVersionFound(NoVersionFoundError))
            } else {
                r is Ok && r->Ok_0@.map_values(|s: String| s@) == info_lines(program_name@, m)
            },
        },
{
    let parser = MetadataParser::new(metadata_text)?;
    let versions = parser.get_versions();
    if versions.len() == 0 {
        return Err(SageError::NoVersionFound(NoVersionFoundError));
    }
    let ghost m = parser@;
    let mut lines: Vec<String> = Vec::new();
    lines.push(String::from_str("Package: ").concat(program_name));
    lines.push(String::from_str("Available versions: "));
    let mut i: usize = 0;
    while i < versions.len()
        invariant
            i <= versions@.len(),
            m.versions == versions@.map_values(|s: String| s@),
            lines@.len() == i + 2,
            lines@[0]@ == "Package: "@ + program_name@,
            lines@[1]@ == "Available versions: "@,
            forall|j: int| 0 <= j < i ==> #[trigger] lines@[j + 2]@ == "  - "@ + versions@[j]@,
        decreases versions@.len() - i,
    {
        lines.push(String::from_str("  - ").concat(versions[i].as_str()));
        i = i + 1;
    }
    lines.push(String::from_str("LTS Version: ").concat(parser.get_lts_version()));
    lines.push(String::from_str("Latest Version: ").concat(parser.get_latest_version()));
    proof {
        let want = info_lines(program_name@, m);
        assert(want.len() == lines@.len());
        assert forall|j: int| 0 <= j < lines@.len() implies #[trigger] lines@[j]@ == want[j] by {
            if 2 <= j < lines@.len() - 2 {
                assert(lines@[(j - 2) + 2]@ == "  - "@ + versions@[j - 2]@);
            }
        }
        assert(lines@.map_values(|s: String| s@) =~= want);
    }
    Ok(lines)
}

/// The package that a package document describes, with the lines that show
/// it when `print_out_info` is set (none otherwise).
pub fn specific_info(package_text: &str, print_out_info: bool) -> (r: Result<(Package, Vec<String>), SageError>)
    ensures
        match package_from_text(package_text@) {
            Err(e) => r == Err::<(Package, Vec<String>), SageError>(e),
            Ok(d) => match described(
                d.name,
                d.version,
                d.url,
                d.file_type,
                d.file,
                d.install_type,
                d.name + "-"@ + d.version,
            ) {
                Err(e) => r == Err::<(Package, Vec<String>), SageError>(e),
                Ok(p) => r is Ok && r->Ok_0.0@ == p && r->Ok_0.1@.map_values(|s: String| s@) == (
                if print_out_info {
                    detail_lines(d)
                } else {
                    Seq::<Seq<char>>::empty()
                }),
            },
        },
{
    let parser = PackageParser::new(package_text)?;
    let pkg = Package::from_parser(&parser)?;
    let mut lines: Vec<String> = Vec::new();
    if print_out_info {
        lines.push(String::from_str("Package: ").concat(parser.get_name()));
        lines.push(String::from_str("Version: ").concat(parser.get_version()));
        lines.push(String::from_str("Download Url: ").concat(parser.get_ulr()));
        lines.push(String::from_str("File Type: ").concat(parser.get_file_type()));
        lines.push(String::from_str("File Name: ").concat(parser.get_file_name()));
    }
    assert(lines@.map_values(|s: String| s@) =~= (if print_out_info {
        detail_lines(parser@)
    } else {
        Seq::<Seq<char>>::empty()
    }));
    Ok((pkg, lines))
}

} // verus!
