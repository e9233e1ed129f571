//! Archive formats, installation methods, and the work that installing
//! takes.
//!
//! Installed programs live in a per-program directory under the install
//! root: the archive of `<target>` unpacks into `<root>/downloads/<target>`,
//! and the program is installed into `<root>/programs/<target>`.
use vstd::prelude::*;
use vstd::string::*;

use crate::errors::{ProcessFailure, SageError};
use crate::text::{join_path, joined};

verus! {

/// Every supported installation method.
#[derive(Debug, Clone, Copy, PartialEq, Eq, Structural)]
pub enum InstallTypes {
    /// Configure, build and install from source with `make`.
    MakeInstall,
    /// Copy a prebuilt tree into place.
    Bin,
}

/// Every supported archive format.
#[derive(Debug, Clone, Copy, PartialEq, Eq, Structural)]
pub enum FileTypes {
    TarXz,
    TarGz,
}

/// A decoder for one archive format. The extraction itself is done by the
/// caller that holds the files; the library checks that a decoder fits.
pub trait Decoder: Sized {
    /// The archive format this decoder extracts.
    spec fn handles(&self) -> FileTypes;

    fn new() -> Self;

    /// The archive format this decoder extracts.
    fn file_type(&self) -> (r: FileTypes)
        ensures
            r == self.handles(),
    ;
}

/// A decoder for tar.xz files.
pub struct TarXzDecoder {}

/// A decoder for tar.gz files.
pub struct TarGzDecoder {}

impl Decoder for TarXzDecoder {
    open spec fn handles(&self) -> FileTypes {
        FileTypes::TarXz
    }

    fn new() -> TarXzDecoder {
        TarXzDecoder {  }
    }

    fn file_type(&self) -> (r: FileTypes) {
        FileTypes::TarXz
    }
}

impl Decoder for TarGzDecoder {
    open spec fn handles(&self) -> FileTypes {
        FileTypes::TarGz
    }

    fn new() -> TarGzDecoder {
        TarGzDecoder {  }
    }

    fn file_type(&self) -> (r: FileTypes) {
        FileTypes::TarGz
    }
}

/// One program to run: its name, its arguments and its working directory.
pub struct Invocation {
    pub program: String,
    pub args: Vec<String>,
    pub dir: String,
}

/// One unit of installation work.
pub enum Task {
    /// Run a program to completion.
    Run(Invocation),
    /// Copy the directory tree of the first path into the second, overwriting.
    CopyInto(String, String),
}

/// A task as plain values.
pub enum TaskSpec {
    Run(Seq<char>, Seq<Seq<char>>, Seq<char>),
    CopyInto(Seq<char>, Seq<char>),
}

impl View for Task {
    type V = TaskSpec;

    open spec fn view(&self) -> TaskSpec {
        match self {
            Task::Run(inv) => TaskSpec::Run(
                inv.program@,
                inv.args@.map_values(|s: String| s@),
                inv.dir@,
            ),
            Task::CopyInto(from, into) => TaskSpec::CopyInto(from@, into@),
        }
    }
}

/// The installation commands, each with the install target (the directory
/// the archive unpacks into) and the install root.
pub enum CommandRunner {
    Make(String, String),
    Bin(String, String),
}

/// Where the unpacked tree of `target` lies under `root`.
pub open spec fn source_dir(root: Seq<char>, target: Seq<char>) -> Seq<char> {
    joined(joined(root, "downloads"@), target)
}

/// The directory under `root` that installed programs go into.
pub open spec fn programs_dir(root: Seq<char>) -> Seq<char> {
    joined(root, "programs"@)
}

/// The work a command consists of, in the order it is done.
pub open spec fn runner_tasks(runner: CommandRunner) -> Seq<TaskSpec> {
    match runner {
        CommandRunner::Make(target, root) => {
            let dir = source_dir(root@, target@);
            let prefix = joined(programs_dir(root@), target@);
            seq![
                TaskSpec::Run(
                    "./configure"@,
                    seq!["--prefix="@ + prefix, "--exec-prefix="@ + prefix],
                    dir,
                ),
                TaskSpec::Run("make"@, seq![], dir),
                TaskSpec::Run("make"@, seq!["install"@], dir),
            ]
        },
        CommandRunner::Bin(target, root) => seq![
            TaskSpec::CopyInto(source_dir(root@, target@), programs_dir(root@)),
        ],
    }
}

impl CommandRunner {
    /// The tasks of the command, to be done in order, each only once the one
    /// before it has succeeded (see `after_task`): `./configure`, `make`, `make install` in the
    /// unpacked tree; or one copy of the unpacked tree into `programs`.
    pub fn tasks(&self) -> (r: Vec<Task>)
        ensures
            r@.map_values(|t: Task| t@) == runner_tasks(*self),
    {
        match self {
            CommandRunner::Make(target, root) => {
                let downloads = join_path(root.as_str(), "downloads");
                let dir = join_path(downloads.as_str(), target.as_str());
                let programs = join_path(root.as_str(), "programs");
                let prefix = join_path(programs.as_str(), target.as_str());
                let configure_args = vec![
                    String::from_str("--prefix=").concat(prefix.as_str()),
                    String::from_str("--exec-prefix=").concat(prefix.as_str()),
                ];
                let configure = Invocation {
                    program: String::from_str("./configure"),
                    args: configure_args,
                    dir: dir.clone(),
                };
                let make = Invocation {
                    program: String::from_str("make"),
                    args: Vec::new(),
                    dir: dir.clone(),
                };
                let make_install = Invocation {
                    program: String::from_str("make"),
                    args: vec![String::from_str("install")],
                    dir,
                };
                let r = vec![Task::Run(configure), Task::Run(make), Task::Run(make_install)];
                assert(r@[0]@ == runner_tasks(*self)[0]) by {
                    assert(configure_args@.map_values(|s: String| s@) =~= seq![
                        "--prefix="@ + prefix@,
                        "--exec-prefix="@ + prefix@,
                    ]);
                }
                assert(r@[1]@ == runner_tasks(*self)[1]) by {
                    assert(r@[1]->Run_0.args@.map_values(|s: String| s@) =~= Seq::<Seq<char>>::empty());
                }
                assert(r@[2]@ == runner_tasks(*self)[2]) by {
                    assert(r@[2]->Run_0.args@.map_values(|s: String| s@) =~= seq!["install"@]);
                }
                assert(r@.map_values(|t: Task| t@) =~= runner_tasks(*self));
                r
            },
            CommandRunner::Bin(target, root) => {
                let downloads = join_path(root.as_str(), "downloads");
                let from = join_path(downloads.as_str(), target.as_str());
                let into = join_path(root.as_str(), "programs");
                let r = vec![Task::CopyInto(from, into)];
                assert(r@.map_values(|t: Task| t@) =~= runner_tasks(*self));
                r
            },
        }
    }
}

/// How a task ended, as the caller that carried it out saw it.
pub enum TaskReport {
    /// The program could not be started.
    NotStarted,
    /// The program ran to its end: its exit code (none when a signal ended
    /// it) and what it printed.
    Exited(Option<i32>, String),
    /// The directory tree was copied.
    Copied,
    /// The directory tree could not be copied.
    CopyFailed,
}

/// Whether a report is one that the task can give.
pub open spec fn report_fits(task: &Task, report: &TaskReport) -> bool {
    match task {
        Task::Run(_) => report is NotStarted || report is Exited,
        Task::CopyInto(_, _) => report is Copied || report is CopyFailed,
    }
}

/// Whether a report is a success: a program that exited with code 0, or a
/// finished copy.
pub open spec fn report_succeeded(report: &TaskReport) -> bool {
    match report {
        TaskReport::Exited(code, _) => *code == Some(0i32),
        TaskReport::Copied => true,
        _ => false,
    }
}

/// Decides what follows the task at index `done`: the index of the next
/// task, `None` when it was the last, or the error that ends the command.
/// A task runs only once every task before it has succeeded.
pub fn after_task(tasks: &Vec<Task>, done: usize, report: TaskReport) -> (r: Result<Option<usize>, SageError>)
    requires
        done < tasks@.len(),
        report_fits(&tasks@[done as int], &report),
    ensures
        report_succeeded(&report) ==> r == Ok::<Option<usize>, SageError>(
            if done + 1 < tasks@.len() {
                Some((done + 1) as usize)
            } else {
                None
            },
        ),
        ({
            match (tasks@[done as int], report) {
                (Task::Run(inv), TaskReport::NotStarted) => r matches Err(
                    SageError::Process(ProcessFailure::NotStarted(p)),
                ) && p@ == inv.program@,
                (Task::Run(inv), TaskReport::Exited(code, out)) => code != Some(0i32) ==> (r matches Err(
                    SageError::Process(ProcessFailure::Exited(p, c, o)),
                ) && p@ == inv.program@ && c == code && o == out),
                (Task::CopyInto(from, _), TaskReport::CopyFailed) => r matches Err(
                    SageError::Process(ProcessFailure::CopyFailed(f)),
                ) && f@ == from@,
                _ => true,
            }
        }),
{
    let task = &tasks[done];
    let next: Option<usize> = if tasks.len() - done > 1 {
        Some(done + 1)
    } else {
        None
    };
    let failure = match (task, report) {
        (Task::Run(inv), TaskReport::NotStarted) => ProcessFailure::NotStarted(inv.program.clone()),
        (Task::Run(inv), TaskReport::Exited(code, out)) => {
            match code {
                Some(c) => if c == 0 {
                    return Ok(next);
                },
                None => {},
            }
            ProcessFailure::Exited(inv.program.clone(), code, out)
        },
        (Task::CopyInto(from, _), TaskReport::CopyFailed) => ProcessFailure::CopyFailed(from.clone()),
        (_, _) => {
            return Ok(next);
        },
    };
    Err(SageError::Process(failure))
}

} // verus!
