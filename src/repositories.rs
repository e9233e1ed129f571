//! The remote catalog: where its documents are and what a response means.
use vstd::prelude::*;
use vstd::string::*;

use crate::errors::SageError;
use crate::text::str_eq;

verus! {

/// The one catalog this tool reads.
pub open spec fn supported_catalog(name: Seq<char>) -> bool {
    name == "Arcanum"@
}

/// A catalog: its name, its base URL and the host system it serves.
pub struct Repo {
    name: String,
    base_url: String,
    host_os: String,
}

/// A catalog as plain values.
pub struct RepoView {
    pub name: Seq<char>,
    pub base_url: Seq<char>,
    pub host_os: Seq<char>,
}

impl View for Repo {
    type V = RepoView;

    closed spec fn view(&self) -> RepoView {
        RepoView { name: self.name@, base_url: self.base_url@, host_os: self.host_os@ }
    }
}

/// The URL of a program's metadata document.
pub open spec fn metadata_url_of(base: Seq<char>, os: Seq<char>, program: Seq<char>) -> Seq<char> {
    base + "/"@ + os + "/"@ + program + "/metadata.yml"@
}

/// The URL of the document of one version of a program.
pub open spec fn package_url_of(
    base: Seq<char>,
    os: Seq<char>,
    program: Seq<char>,
    version: Seq<char>,
) -> Seq<char> {
    base + "/"@ + os + "/"@ + program + "/"@ + program + "_"@ + version + ".yml"@
}

impl Repo {
    /// A catalog, if its name is one this tool supports (only `Arcanum`).
    pub fn new(name: &str, base_url: &str, host_os: &str) -> (r: Result<Repo, SageError>)
        ensures
            supported_catalog(name@) ==> r is Ok && r->Ok_0@ == (RepoView {
                name: name@,
                base_url: base_url@,
                host_os: host_os@,
            }),
            !supported_catalog(name@) ==> (r matches Err(SageError::UnsupportedCatalog(n)) && n@
                == name@),
    {
        if !str_eq(name, "Arcanum") {
            return Err(SageError::UnsupportedCatalog(String::from_str(name)));
        }
        Ok(
            Repo {
                name: String::from_str(name),
                base_url: String::from_str(base_url),
                host_os: String::from_str(host_os),
            },
        )
    }

    pub fn get_name(&self) -> (r: &str)
        ensures
            r@ == self@.name,
    {
        self.name.as_str()
    }

    pub fn get_base_url(&self) -> (r: &str)
        ensures
            r@ == self@.base_url,
    {
        self.base_url.as_str()
    }

    pub fn get_host_os(&self) -> (r: &str)
        ensures
            r@ == self@.host_os,
    {
        self.host_os.as_str()
    }

    /// `<base>/<os>/<program>/metadata.yml`
    pub fn metadata_url(&self, program_name: &str) -> (r: String)
        ensures
            r@ == metadata_url_of(self@.base_url, self@.host_os, program_name@),
    {
        self.base_url.clone().concat("/").concat(self.host_os.as_str()).concat("/").concat(
            program_name,
        ).concat("/metadata.yml")
    }

    /// `<base>/<os>/<program>/<program>_<version>.yml`
    pub fn package_url(&self, program_name: &str, program_version: &str) -> (r: String)
        ensures
            r@ == package_url_of(self@.base_url, self@.host_os, program_name@, program_version@),
    {
        self.base_url.clone().concat("/").concat(self.host_os.as_str()).concat("/").concat(
            program_name,
        ).concat("/").concat(program_name).concat("_").concat(program_version).concat(".yml")
    }
}

/// What the HTTP status of a response for a catalog document means:
/// success for 2xx, and a network error on the URL for anything else.
pub fn check_response(url: &str, status: u16) -> (r: Result<(), SageError>)
    ensures
        200 <= status < 300 ==> r is Ok,
        !(200 <= status < 300) ==> (r matches Err(SageError::Network(u)) && u@ == url@),
{
    if 200 <= status && status < 300 {
        Ok(())
    } else {
        Err(SageError::Network(String::from_str(url)))
    }
}

} // verus!
