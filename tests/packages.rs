use sage::{
    after_task, ProcessFailure, TaskReport,
    specific_info, CommandRunner, DecodeFailure, Decoder, DecoderNotFoundError,
    FileTypeNotSupportedError, FileTypes, InstallTypeNotSupportedError, InstallTypes,
    Invocation, Package, PathNotFoundError, SageError, Stage, Step, Task, TarGzDecoder,
    TarXzDecoder,
};

fn python() -> Package {
    Package::new(
        "Python",
        "3.8",
        "https://www.python.org/ftp/python/3.8.0/Python-3.8.0.tar.xz",
        "tar.xz",
        "Python-3.8.0.tar.xz",
        "make",
        "Python-3.8.0",
    )
    .unwrap()
}

#[test]
fn package_created_correctly() {
    let pkg = python();

    assert_eq!(pkg.get_name(), String::from("Python"));
    assert_eq!(pkg.get_version(), String::from("3.8"));
    assert_eq!(
        pkg.get_url(),
        String::from("https://www.python.org/ftp/python/3.8.0/Python-3.8.0.tar.xz")
    );
    let mut f_type = None;
    if let FileTypes::TarXz = pkg.get_file_type() {
        f_type = Some("tar.xz");
    };
    assert_eq!(f_type.unwrap(), String::from("tar.xz"));
    assert_eq!(pkg.get_file(), String::from("Python-3.8.0.tar.xz"));
    assert_eq!(pkg.get_install_target(), String::from("Python-3.8.0"));
}

#[test]
fn new_package_is_described() {
    let pkg = python();
    assert_eq!(pkg.stage(), &Stage::Described);
    assert_eq!(pkg.get_install_type(), &InstallTypes::MakeInstall);
}

#[test]
fn tar_gz_and_bin_are_recognised() {
    let pkg = Package::new("p", "1", "u", "tar.gz", "p-1.tar.gz", "bin", "p-1").unwrap();
    assert_eq!(pkg.get_file_type(), &FileTypes::TarGz);
    assert_eq!(pkg.get_install_type(), &InstallTypes::Bin);
}

#[test]
fn unknown_format_is_refused() {
    let r = Package::new("p", "1", "u", "zip", "p-1.zip", "make", "p-1");
    assert_eq!(
        r.err(),
        Some(SageError::UnsupportedFormat(FileTypeNotSupportedError))
    );
}

#[test]
fn format_match_is_exact() {
    let r = Package::new("p", "1", "u", "TAR.XZ", "p-1.tar.xz", "make", "p-1");
    assert_eq!(
        r.err(),
        Some(SageError::UnsupportedFormat(FileTypeNotSupportedError))
    );
}

#[test]
fn unknown_install_type_is_refused() {
    let r = Package::new("p", "1", "u", "tar.xz", "p-1.tar.xz", "cmake", "p-1");
    assert_eq!(
        r.err(),
        Some(SageError::UnsupportedInstallType(InstallTypeNotSupportedError))
    );
}

#[test]
fn format_is_checked_before_install_type() {
    let r = Package::new("p", "1", "u", "rar", "p-1.rar", "cmake", "p-1");
    assert_eq!(
        r.err(),
        Some(SageError::UnsupportedFormat(FileTypeNotSupportedError))
    );
}

const PYTHON_DOC: &str = "name: Python
version: 3.8.0
url: https://www.python.org/ftp/python/3.8.0/Python-3.8.0.tar.xz
type: tar.xz
file: Python-3.8.0.tar.xz
installation:
  type: make
";

#[test]
fn descriptor_builds_package() {
    let (pkg, lines) = specific_info(PYTHON_DOC, false).unwrap();
    assert_eq!(pkg.get_name(), "Python");
    assert_eq!(pkg.get_version(), "3.8.0");
    assert_eq!(
        pkg.get_url(),
        "https://www.python.org/ftp/python/3.8.0/Python-3.8.0.tar.xz"
    );
    assert_eq!(pkg.get_file_type(), &FileTypes::TarXz);
    assert_eq!(pkg.get_file(), "Python-3.8.0.tar.xz");
    assert_eq!(pkg.get_install_type(), &InstallTypes::MakeInstall);
    assert_eq!(pkg.get_install_target(), "Python-3.8.0");
    assert!(lines.is_empty());
}

#[test]
fn descriptor_lines_when_printing() {
    let (_, lines) = specific_info(PYTHON_DOC, true).unwrap();
    assert_eq!(
        lines,
        vec![
            String::from("Package: Python"),
            String::from("Version: 3.8.0"),
            String::from("Download Url: https://www.python.org/ftp/python/3.8.0/Python-3.8.0.tar.xz"),
            String::from("File Type: tar.xz"),
            String::from("File Name: Python-3.8.0.tar.xz"),
        ]
    );
}

#[test]
fn descriptor_with_unknown_format() {
    let text = PYTHON_DOC.replace("type: tar.xz", "type: tar.bz2");
    let r = specific_info(&text, false);
    assert_eq!(
        r.err(),
        Some(SageError::UnsupportedFormat(FileTypeNotSupportedError))
    );
}

#[test]
fn descriptor_with_unknown_install_type() {
    let text = PYTHON_DOC.replace("  type: make", "  type: ninja");
    let r = specific_info(&text, false);
    assert_eq!(
        r.err(),
        Some(SageError::UnsupportedInstallType(InstallTypeNotSupportedError))
    );
}

fn downloaded() -> Package {
    let mut pkg = python();
    let dest = pkg.begin_download("/home/u/.sage/downloads");
    assert_eq!(dest, "/home/u/.sage/downloads/Python-3.8.0.tar.xz");
    assert_eq!(pkg.stage(), &Stage::Downloading);
    assert_eq!(pkg.end_download(Ok(())), Ok(()));
    assert_eq!(pkg.stage(), &Stage::Downloaded);
    pkg
}

#[test]
fn failed_download_is_recorded() {
    let mut pkg = python();
    pkg.begin_download("d/");
    let e = SageError::Network(String::from("https://example.org/a"));
    assert_eq!(pkg.end_download(Err(e.clone())), Err(e.clone()));
    assert_eq!(pkg.stage(), &Stage::Failed(Step::Downloading, e));
}

#[test]
fn download_path_joins_once() {
    let mut pkg = python();
    assert_eq!(pkg.begin_download("d/"), "d/Python-3.8.0.tar.xz");
}

#[test]
fn install_without_decoder_fails_at_decoding() {
    let mut pkg = downloaded();
    let r = pkg.begin_decode::<TarXzDecoder>(None, "/home/u/.sage/downloads");
    assert_eq!(
        r.err().unwrap(),
        SageError::DecoderNotFound(DecoderNotFoundError)
    );
    assert_eq!(
        pkg.stage(),
        &Stage::Failed(Step::Decoding, SageError::DecoderNotFound(DecoderNotFoundError))
    );
}

#[test]
fn decoder_for_other_format_is_refused() {
    let mut pkg = downloaded();
    let dec = TarGzDecoder::new();
    let r = pkg.begin_decode(Some(&dec), "/home/u/.sage/downloads");
    assert_eq!(r.err().unwrap(), SageError::DecoderMismatch);
    assert_eq!(
        pkg.stage(),
        &Stage::Failed(Step::Decoding, SageError::DecoderMismatch)
    );
}

#[test]
fn decoders_know_their_format() {
    assert_eq!(TarXzDecoder::new().file_type(), FileTypes::TarXz);
    assert_eq!(TarGzDecoder::new().file_type(), FileTypes::TarGz);
}

fn decoded() -> Package {
    let mut pkg = downloaded();
    let dec = TarXzDecoder::new();
    let job = pkg.begin_decode(Some(&dec), "/home/u/.sage/downloads").unwrap();
    assert_eq!(job.archive, "/home/u/.sage/downloads/Python-3.8.0.tar.xz");
    assert_eq!(job.unpack_dir, "/home/u/.sage/downloads");
    assert_eq!(job.file_type, FileTypes::TarXz);
    assert_eq!(pkg.stage(), &Stage::Decoding);
    assert_eq!(pkg.end_decode(Ok(())), Ok(()));
    assert_eq!(pkg.stage(), &Stage::Decoded);
    pkg
}

#[test]
fn failed_decode_is_recorded() {
    let mut pkg = downloaded();
    let dec = TarXzDecoder::new();
    pkg.begin_decode(Some(&dec), "dl").unwrap();
    let e = SageError::Decode(DecodeFailure::EntryEscapes);
    assert_eq!(pkg.end_decode(Err(e.clone())), Err(e.clone()));
    assert_eq!(pkg.stage(), &Stage::Failed(Step::Decoding, e));
}

#[test]
fn make_install_without_root_fails_before_running() {
    let mut pkg = decoded();
    let r = pkg.begin_install(None);
    assert_eq!(r.err().unwrap(), SageError::PathNotFound(PathNotFoundError));
    assert_eq!(
        pkg.stage(),
        &Stage::Failed(Step::Installing, SageError::PathNotFound(PathNotFoundError))
    );
}

#[test]
fn full_pipeline_reaches_installed() {
    let mut pkg = decoded();
    let runner = pkg.begin_install(Some("/home/u/.sage")).unwrap();
    match &runner {
        CommandRunner::Make(target, root) => {
            assert_eq!(target, "Python-3.8.0");
            assert_eq!(root, "/home/u/.sage");
        }
        CommandRunner::Bin(_, _) => panic!("expected a make installation"),
    }
    assert_eq!(pkg.stage(), &Stage::Installing);
    assert_eq!(pkg.end_install(Ok(())), Ok(()));
    assert_eq!(pkg.stage(), &Stage::Installed);
}

fn run_task(t: &Task) -> (String, Vec<String>, String) {
    match t {
        Task::Run(Invocation { program, args, dir }) => (program.clone(), args.clone(), dir.clone()),
        Task::CopyInto(_, _) => panic!("expected a program run"),
    }
}

#[test]
fn make_tasks() {
    let runner = CommandRunner::Make(String::from("Python-3.8.0"), String::from("/h"));
    let tasks = runner.tasks();
    assert_eq!(tasks.len(), 3);
    assert_eq!(
        run_task(&tasks[0]),
        (
            String::from("./configure"),
            vec![
                String::from("--prefix=/h/programs/Python-3.8.0"),
                String::from("--exec-prefix=/h/programs/Python-3.8.0"),
            ],
            String::from("/h/downloads/Python-3.8.0"),
        )
    );
    assert_eq!(
        run_task(&tasks[1]),
        (String::from("make"), vec![], String::from("/h/downloads/Python-3.8.0"))
    );
    assert_eq!(
        run_task(&tasks[2]),
        (
            String::from("make"),
            vec![String::from("install")],
            String::from("/h/downloads/Python-3.8.0"),
        )
    );
}

#[test]
fn bin_tasks() {
    let runner = CommandRunner::Bin(String::from("tool-1.0"), String::from("/h/"));
    let tasks = runner.tasks();
    assert_eq!(tasks.len(), 1);
    match &tasks[0] {
        Task::CopyInto(from, into) => {
            assert_eq!(from, "/h/downloads/tool-1.0");
            assert_eq!(into, "/h/programs");
        }
        Task::Run(_) => panic!("expected a copy"),
    }
}

#[test]
fn bin_install_gives_copy_runner() {
    let mut pkg = Package::new("t", "1", "u", "tar.gz", "t-1.tar.gz", "bin", "t-1").unwrap();
    pkg.begin_download("dl");
    pkg.end_download(Ok(())).unwrap();
    let dec = TarGzDecoder::new();
    pkg.begin_decode(Some(&dec), "dl").unwrap();
    pkg.end_decode(Ok(())).unwrap();
    match pkg.begin_install(Some("/root")).unwrap() {
        CommandRunner::Bin(target, root) => {
            assert_eq!(target, "t-1");
            assert_eq!(root, "/root");
        }
        CommandRunner::Make(_, _) => panic!("expected a binary copy"),
    }
}

#[test]
fn make_steps_run_in_order() {
    let tasks = CommandRunner::Make(String::from("p-1"), String::from("/h")).tasks();
    assert_eq!(after_task(&tasks, 0, TaskReport::Exited(Some(0), String::new())), Ok(Some(1)));
    assert_eq!(after_task(&tasks, 1, TaskReport::Exited(Some(0), String::new())), Ok(Some(2)));
    assert_eq!(after_task(&tasks, 2, TaskReport::Exited(Some(0), String::new())), Ok(None));
}

#[test]
fn nonzero_exit_stops_the_command() {
    let tasks = CommandRunner::Make(String::from("p-1"), String::from("/h")).tasks();
    assert_eq!(
        after_task(&tasks, 1, TaskReport::Exited(Some(2), String::from("no rule"))),
        Err(SageError::Process(ProcessFailure::Exited(
            String::from("make"),
            Some(2),
            String::from("no rule"),
        )))
    );
    assert_eq!(
        after_task(&tasks, 0, TaskReport::Exited(None, String::new())),
        Err(SageError::Process(ProcessFailure::Exited(
            String::from("./configure"),
            None,
            String::new(),
        )))
    );
}

#[test]
fn missing_program_stops_the_command() {
    let tasks = CommandRunner::Make(String::from("p-1"), String::from("/h")).tasks();
    assert_eq!(
        after_task(&tasks, 0, TaskReport::NotStarted),
        Err(SageError::Process(ProcessFailure::NotStarted(String::from("./configure"))))
    );
}

#[test]
fn copy_outcomes() {
    let tasks = CommandRunner::Bin(String::from("t-1"), String::from("/h")).tasks();
    assert_eq!(after_task(&tasks, 0, TaskReport::Copied), Ok(None));
    assert_eq!(
        after_task(&tasks, 0, TaskReport::CopyFailed),
        Err(SageError::Process(ProcessFailure::CopyFailed(String::from("/h/downloads/t-1"))))
    );
}
