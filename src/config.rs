//! The command line, read into a configuration.
use vstd::prelude::*;
use vstd::string::*;

use crate::text::{join_path, joined, str_eq};

verus! {

/// The commands this tool understands.
pub open spec fn is_command(s: Seq<char>) -> bool {
    s == "info"@ || s == "details"@ || s == "download"@
}

/// Checks that the command is one this tool understands.
pub fn parse_commands(command: String) -> (r: Result<String, &'static str>)
    ensures
        is_command(command@) ==> r is Ok && r->Ok_0@ == command@,
        !is_command(command@) ==> r is Err && r->Err_0@ == "The specified command is not valid"@,
{
    let known = str_eq(command.as_str(), "info") || str_eq(command.as_str(), "details") || str_eq(
        command.as_str(),
        "download",
    );
    if !known {
        Err("The specified command is not valid")
    } else {
        Ok(command)
    }
}

/// Splits `<name>@<version>` at its first `@`; without one the whole string
/// is the name and there is no version.
pub fn parse_desired_pkg(pkg: String) -> (r: (String, Option<String>))
    ensures
        !r.0@.contains('@'),
        match r.1 {
            None => r.0@ == pkg@,
            Some(v) => r.0@ + "@"@ + v@ == pkg@,
        },
{
    let n = pkg.as_str().unicode_len();
    let mut i: usize = 0;
    while i < n
        invariant
            n == pkg@.len(),
            i <= n,
            forall|j: int| 0 <= j < i ==> pkg@[j] != '@',
        decreases n - i,
    {
        if pkg.as_str().get_char(i) == '@' {
            let name = String::from_str(pkg.as_str().substring_char(0, i));
            let version = String::from_str(pkg.as_str().substring_char(i + 1, n));
            proof {
                reveal_strlit("@");
                assert(name@ + "@"@ + version@ =~= pkg@);
                assert(forall|j: int| 0 <= j < name@.len() ==> name@[j] != '@');
            }
            return (name, Some(version));
        }
        i = i + 1;
    }
    assert(forall|j: int| 0 <= j < pkg@.len() ==> pkg@[j] != '@');
    (pkg, None)
}

/// A command this tool understands.
#[derive(Debug, Clone, Copy, PartialEq, Eq, Structural)]
pub enum Command {
    /// Show the versions of a program.
    Info,
    /// Show the descriptor of one version.
    Details,
    /// Download one version.
    Download,
}

/// Everything a run of the tool needs: the directories under its home, the
/// command, and the package asked for with its version if one was given.
pub struct Config {
    download_dir: String,
    install_dir: String,
    home: String,
    command: String,
    desired_pkg: String,
    desired_pkg_version: Option<String>,
}

/// A configuration as plain values.
pub struct ConfigView {
    pub download_dir: Seq<char>,
    pub install_dir: Seq<char>,
    pub home: Seq<char>,
    pub command: Seq<char>,
    pub desired_pkg: Seq<char>,
    pub desired_pkg_version: Option<Seq<char>>,
}

impl View for Config {
    type V = ConfigView;

    closed spec fn view(&self) -> ConfigView {
        ConfigView {
            download_dir: self.download_dir@,
            install_dir: self.install_dir@,
            home: self.home@,
            command: self.command@,
            desired_pkg: self.desired_pkg@,
            desired_pkg_version: match self.desired_pkg_version {
                Some(v) => Some(v@),
                None => None,
            },
        }
    }
}

impl Config {
    #[verifier::type_invariant]
    spec fn known_command(self) -> bool {
        is_command(self.command@)
    }

    /// Which command the configuration holds.
    pub fn command_kind(&self) -> (r: Command)
        ensures
            self@.command == "info"@ ==> r == Command::Info,
            self@.command == "details"@ ==> r == Command::Details,
            self@.command == "download"@ ==> r == Command::Download,
    {
        proof {
            use_type_invariant(self);
            reveal_strlit("info");
            reveal_strlit("details");
            reveal_strlit("download");
            assert("info"@.len() == 4 && "details"@.len() == 7 && "download"@.len() == 8);
        }
        if str_eq(self.command.as_str(), "info") {
            Command::Info
        } else if str_eq(self.command.as_str(), "details") {
            Command::Details
        } else {
            Command::Download
        }
    }

    /// Reads the arguments of the command line (the first being the tool's
    /// own name) with the tool's home directory: downloads go to
    /// `<home>/downloads` and the install directory is `<home>/bin`.
    pub fn new(args: Vec<String>, sage_home: &str) -> (r: Result<Config, &'static str>)
        ensures
            args@.len() < 2 ==> r is Err && r->Err_0@ == "No command was specified"@,
            args@.len() >= 2 && !is_command(args@[1]@) ==> r is Err && r->Err_0@
                == "The specified command is not valid"@,
            args@.len() == 2 && is_command(args@[1]@) ==> r is Err && r->Err_0@
                == "No package was specified"@,
            args@.len() >= 3 && is_command(args@[1]@) ==> r is Ok && ({
                let c = r->Ok_0@;
                &&& c.command == args@[1]@
                &&& c.download_dir == joined(sage_home@, "downloads"@)
                &&& c.install_dir == joined(sage_home@, "bin"@)
                &&& c.home == sage_home@
                &&& !c.desired_pkg.contains('@')
                &&& match c.desired_pkg_version {
                    None => c.desired_pkg == args@[2]@,
                    Some(v) => c.desired_pkg + "@"@ + v == args@[2]@,
                }
            }),
    {
        if args.len() < 2 {
            return Err("No command was specified");
        }
        let command = parse_commands(args[1].clone())?;
        if args.len() < 3 {
            return Err("No package was specified");
        }
        let (desired_pkg, desired_pkg_version) = parse_desired_pkg(args[2].clone());
        let download_dir = join_path(sage_home, "downloads");
        let install_dir = join_path(sage_home, "bin");
        Ok(
            Config {
                download_dir,
                install_dir,
                home: String::from_str(sage_home),
                command,
                desired_pkg,
                desired_pkg_version,
            },
        )
    }

    pub fn get_download_dir(&self) -> (r: &str)
        ensures
            r@ == self@.download_dir,
    {
        self.download_dir.as_str()
    }

    pub fn get_install_dir(&self) -> (r: &str)
        ensures
            r@ == self@.install_dir,
    {
        self.install_dir.as_str()
    }

    pub fn get_home(&self) -> (r: &str)
        ensures
            r@ == self@.home,
    {
        self.home.as_str()
    }

    pub fn get_command(&self) -> (r: &str)
        ensures
            r@ == self@.command,
    {
        self.command.as_str()
    }

    pub fn get_desired_pkg(&self) -> (r: &str)
        ensures
            r@ == self@.desired_pkg,
    {
        self.desired_pkg.as_str()
    }

    pub fn get_desired_pkg_version(&self) -> (r: Option<&str>)
        ensures
            match r {
                Some(v) => self@.desired_pkg_version == Some(v@),
                None => self@.desired_pkg_version is None,
            },
    {
        match &self.desired_pkg_version {
            Some(v) => Some(v.as_str()),
            None => None,
        }
    }
}

} // verus!
