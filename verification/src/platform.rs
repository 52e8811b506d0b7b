//! The platform the program runs on, the names the update service uses for
//! it, and the paths derived from the running executable.
use vstd::prelude::*;
use crate::error::Error;
use crate::text::{contains_str, has_substring, push_char};

verus! {

/// Operating systems that the program tells apart.
#[derive(Debug, Clone, Copy, PartialEq, Eq, Structural)]
pub enum TargetOs {
    Linux,
    Macos,
    Windows,
    Other,
}

/// Processor architectures that the program tells apart.
#[derive(Debug, Clone, Copy, PartialEq, Eq, Structural)]
pub enum TargetArch {
    X86,
    X86_64,
    Arm,
    Aarch64,
    Riscv64,
    Other,
}

/// The operating-system name that the update service expects.
pub open spec fn updater_target(os: TargetOs) -> Option<Seq<char>> {
    match os {
        TargetOs::Linux => Some("linux"@),
        TargetOs::Macos => Some("darwin"@),
        TargetOs::Windows => Some("windows"@),
        TargetOs::Other => None,
    }
}

/// The architecture name that the update service expects.
pub open spec fn updater_arch(arch: TargetArch) -> Option<Seq<char>> {
    match arch {
        TargetArch::X86 => Some("i686"@),
        TargetArch::X86_64 => Some("x86_64"@),
        TargetArch::Arm => Some("armv7"@),
        TargetArch::Aarch64 => Some("aarch64"@),
        TargetArch::Riscv64 => Some("riscv64"@),
        TargetArch::Other => None,
    }
}

/// The target string `<os>-<arch>` used by the update service.
pub open spec fn updater_target_string(os: TargetOs, arch: TargetArch) -> Option<Seq<char>> {
    match (updater_target(os), updater_arch(arch)) {
        (Some(t), Some(a)) => Some(t.push('-') + a),
        _ => None,
    }
}

/// Gets the operating-system name used by the updater, if the system is
/// one that it serves.
pub fn get_updater_target(os: TargetOs) -> (res: Option<String>)
    ensures
        match res {
            Some(s) => updater_target(os) == Some(s@),
            None => updater_target(os) is None,
        },
{
    match os {
        TargetOs::Linux => Some("linux".to_string()),
        TargetOs::Macos => Some("darwin".to_string()),
        TargetOs::Windows => Some("windows".to_string()),
        TargetOs::Other => None,
    }
}

/// Gets the architecture name used by the updater, if the architecture is
/// one that it serves.
pub fn get_updater_arch(arch: TargetArch) -> (res: Option<String>)
    ensures
        match res {
            Some(s) => updater_arch(arch) == Some(s@),
            None => updater_arch(arch) is None,
        },
{
    match arch {
        TargetArch::X86 => Some("i686".to_string()),
        TargetArch::X86_64 => Some("x86_64".to_string()),
        TargetArch::Arm => Some("armv7".to_string()),
        TargetArch::Aarch64 => Some("aarch64".to_string()),
        TargetArch::Riscv64 => Some("riscv64".to_string()),
        TargetArch::Other => None,
    }
}

/// Gets the target string used on the updater: `<os>-<arch>`, when both
/// the system and the architecture are served.
pub fn target(os: TargetOs, arch: TargetArch) -> (res: Option<String>)
    ensures
        match res {
            Some(s) => updater_target_string(os, arch) == Some(s@),
            None => updater_target_string(os, arch) is None,
        },
{
    match (get_updater_target(os), get_updater_arch(arch)) {
        (Some(t), Some(a)) => {
            let mut s = t;
            push_char(&mut s, '-');
            s.append(a.as_str());
            Some(s)
        },
        _ => None,
    }
}

/// The parent of a path, as `Path::parent` computes it; no parent for a
/// root or an empty path. Named, not stated: the rules of path components
/// are those of the platform the program was built for.
pub uninterp spec fn parent_path(path: Seq<char>) -> Option<Seq<char>>;

/// Whether `a` is a proper prefix of `b`.
pub open spec fn proper_prefix(a: Seq<char>, b: Seq<char>) -> bool {
    a.len() < b.len() && b.take(a.len() as int) == a
}

/// `Path::parent`, with the result taken as a string.
/// Trusted: the result is `parent_path` of the argument, and a parent is
/// the path without its final component, so a proper prefix of the path's
/// text.
#[verifier::external_body]
pub(crate) fn path_parent(path: &str) -> (res: Option<String>)
    ensures
        match res {
            Some(p) => parent_path(path@) == Some(p@) && proper_prefix(p@, path@),
            None => parent_path(path@) is None,
        },
{
    std::path::Path::new(path).parent().map(|p| p.to_string_lossy().into_owned())
}

/// The path that `PathBuf::push` makes of `base` and `part`.
/// Named, not stated: separators and absolute parts follow the rules of the
/// platform the program was built for.
pub uninterp spec fn pushed_path(base: Seq<char>, part: Seq<char>) -> Seq<char>;

/// `PathBuf::push`, with both paths taken as strings.
/// Trusted: the result is `pushed_path` of the arguments.
#[verifier::external_body]
pub(crate) fn path_push(base: &str, part: &str) -> (res: String)
    ensures
        res@ == pushed_path(base@, part@),
{
    let mut p = std::path::PathBuf::from(base);
    p.push(part);
    p.to_string_lossy().into_owned()
}

/// The final component of a path, as `Path::file_name` computes it.
pub uninterp spec fn file_name_of(path: Seq<char>) -> Option<Seq<char>>;

/// `Path::file_name`, with the result taken as a string.
/// Trusted: the result is `file_name_of` of the argument.
#[verifier::external_body]
pub(crate) fn path_file_name(path: &str) -> (res: Option<String>)
    ensures
        match res {
            Some(p) => file_name_of(path@) == Some(p@),
            None => file_name_of(path@) is None,
        },
{
    std::path::Path::new(path).file_name().map(|p| p.to_string_lossy().into_owned())
}

/// The directory that holds the bundled helpers: the directory of the
/// executable, except that inside a macOS application bundle
/// (`.../X.app/Contents/MacOS`) it is the bundle directory two levels up.
pub open spec fn extract_dir(executable_path: Seq<char>, os: TargetOs) -> Option<Seq<char>> {
    match parent_path(executable_path) {
        None => None,
        Some(dir) => if os == TargetOs::Macos && has_substring(dir, "Contents/MacOS"@) {
            match parent_path(dir) {
                None => None,
                Some(up) => parent_path(up),
            }
        } else {
            Some(dir)
        },
    }
}

/// Returns the directory that holds the bundled helpers, derived from the
/// path of the running executable; fails when a parent directory is
/// missing. The directory is an ancestor of the executable: its text is a
/// proper prefix of the executable path.
pub fn extract_path_from_executable(executable_path: &str, os: TargetOs) -> (res: Result<String, Error>)
    ensures
        match res {
            Ok(p) => extract_dir(executable_path@, os) == Some(p@)
                && proper_prefix(p@, executable_path@),
            Err(e) => extract_dir(executable_path@, os) is None
                && e == Error::FailedToDetermineExtractPath,
        },
{
    let extract = match path_parent(executable_path) {
        Some(p) => p,
        None => return Err(Error::FailedToDetermineExtractPath),
    };
    if os == TargetOs::Macos && contains_str(extract.as_str(), "Contents/MacOS") {
        let up = match path_parent(extract.as_str()) {
            Some(p) => p,
            None => return Err(Error::FailedToDetermineExtractPath),
        };
        return match path_parent(up.as_str()) {
            Some(p) => {
                proof { lemma_proper_prefix_trans(p@, up@, extract@); lemma_proper_prefix_trans(p@, extract@, executable_path@); }
                Ok(p)
            },
            None => Err(Error::FailedToDetermineExtractPath),
        };
    }
    Ok(extract)
}

/// A proper prefix of a proper prefix is a proper prefix.
pub proof fn lemma_proper_prefix_trans(a: Seq<char>, b: Seq<char>, c: Seq<char>)
    requires
        proper_prefix(a, b),
        proper_prefix(b, c),
    ensures
        proper_prefix(a, c),
{
    assert(c.take(a.len() as int) =~= b.take(a.len() as int));
}

/// Only a bundle is climbed out of: when the executable's directory does
/// not contain `Contents/MacOS` (or the system is not macOS), the helpers'
/// directory is the executable's directory itself.
pub proof fn law_extract_dir_outside_bundle(executable_path: Seq<char>, os: TargetOs, dir: Seq<char>)
    requires
        parent_path(executable_path) == Some(dir),
        os != TargetOs::Macos
            || forall|i: int| 0 <= i && i + 14 <= dir.len()
                ==> #[trigger] dir.subrange(i, i + 14) != "Contents/MacOS"@,
    ensures
        extract_dir(executable_path, os) == Some(dir),
{
    reveal_strlit("Contents/MacOS");
    if os == TargetOs::Macos && has_substring(dir, "Contents/MacOS"@) {
        let i = choose|i: int| crate::text::occurs_at(dir, "Contents/MacOS"@, i);
        assert(dir.subrange(i, i + 14) == "Contents/MacOS"@);
    }
}

} // verus!
