use crate::marker::{name_fits, spec_patch, PatchError, MAGIC_LEN};
use vstd::prelude::*;
use vstd::string::StringSliceAdditionalSpecFns;
use vstd::utf8::encode_utf8_decode_utf8;

verus! {

/// A platform for which a runner stub exists.
#[derive(Debug, Clone, Copy, PartialEq, Eq, Structural)]
pub enum Arch {
    LinuxX64,
    LinuxArm64,
    MacosX64,
    MacosArm64,
    WindowsX64,
}

/// The architecture that a key names, if any.
pub open spec fn spec_parse_arch(key: Seq<char>) -> Option<Arch> {
    if key == "linux-x64"@ {
        Some(Arch::LinuxX64)
    } else if key == "linux-arm64"@ {
        Some(Arch::LinuxArm64)
    } else if key == "macos-x64"@ {
        Some(Arch::MacosX64)
    } else if key == "macos-arm64"@ {
        Some(Arch::MacosArm64)
    } else if key == "windows-x64"@ {
        Some(Arch::WindowsX64)
    } else {
        None
    }
}

/// Whether two strings hold the same text.
fn same_text(a: &str, b: &str) -> (r: bool)
    ensures
        r == (a@ == b@),
{
    let x = a.as_bytes();
    let y = b.as_bytes();
    proof {
        encode_utf8_decode_utf8(a@);
        encode_utf8_decode_utf8(b@);
    }
    if x.len() != y.len() {
        return false;
    }
    let n: usize = x.len();
    let mut i: usize = 0;
    while i < n
        invariant
            x@ == a.spec_bytes(),
            y@ == b.spec_bytes(),
            n == x@.len(),
            n == y@.len(),
            i <= n,
            forall|q: int| 0 <= q < i ==> x@[q] == y@[q],
        decreases n - i,
    {
        if x[i] != y[i] {
            return false;
        }
        i = i + 1;
    }
    assert(x@ =~= y@);
    true
}

impl Arch {
    /// The key that names this architecture.
    pub open spec fn spec_key(self) -> Seq<char> {
        match self {
            Arch::LinuxX64 => "linux-x64"@,
            Arch::LinuxArm64 => "linux-arm64"@,
            Arch::MacosX64 => "macos-x64"@,
            Arch::MacosArm64 => "macos-arm64"@,
            Arch::WindowsX64 => "windows-x64"@,
        }
    }

    /// The key that names this architecture.
    pub fn key(&self) -> (r: &'static str)
        ensures
            r@ == self.spec_key(),
    {
        match self {
            Arch::LinuxX64 => "linux-x64",
            Arch::LinuxArm64 => "linux-arm64",
            Arch::MacosX64 => "macos-x64",
            Arch::MacosArm64 => "macos-arm64",
            Arch::WindowsX64 => "windows-x64",
        }
    }

    /// The architecture that `key` names, if it names a supported one.
    pub fn from_key(key: &str) -> (r: Option<Arch>)
        ensures
            r == spec_parse_arch(key@),
    {
        if same_text(key, "linux-x64") {
            Some(Arch::LinuxX64)
        } else if same_text(key, "linux-arm64") {
            Some(Arch::LinuxArm64)
        } else if same_text(key, "macos-x64") {
            Some(Arch::MacosX64)
        } else if same_text(key, "macos-arm64") {
            Some(Arch::MacosArm64)
        } else if same_text(key, "windows-x64") {
            Some(Arch::WindowsX64)
        } else {
            None
        }
    }

    /// Every supported architecture.
    pub fn supported() -> (r: Vec<Arch>)
        ensures
            r@ == seq![Arch::LinuxX64, Arch::LinuxArm64, Arch::MacosX64, Arch::MacosArm64, Arch::WindowsX64],
    {
        let r: Vec<Arch> = vec![Arch::LinuxX64, Arch::LinuxArm64, Arch::MacosX64, Arch::MacosArm64, Arch::WindowsX64];
        assert(r@ =~= seq![Arch::LinuxX64, Arch::LinuxArm64, Arch::MacosX64, Arch::MacosArm64, Arch::WindowsX64]);
        r
    }
}

/// What stands at the entry point's path inside the input directory.
#[derive(Debug, Clone, Copy, PartialEq, Eq, Structural)]
pub enum EntryKind {
    Missing,
    NotAFile,
    File,
}

/// Why a binary cannot be composed from the given inputs.
#[derive(Debug, Clone, Copy, PartialEq, Eq, Structural)]
pub enum ComposeError {
    /// The architecture key names no runner stub.
    UnsupportedArchitecture,
    /// The input directory cannot be accessed.
    InputDirNotFound,
    /// The entry-point name does not fit the configuration block.
    NameTooLong,
    /// Nothing stands at the entry point's path.
    EntryNotFound,
    /// The entry point's path is not a regular file.
    EntryNotAFile,
}

/// The outcome of checking the inputs of a composition, in this order: the
/// architecture, the input directory, the name's length, the entry point.
pub open spec fn spec_check_compose(
    arch_key: Seq<char>,
    input_dir_found: bool,
    exec_name: Seq<u8>,
    entry: EntryKind,
) -> Result<Arch, ComposeError> {
    if spec_parse_arch(arch_key) is None {
        Err(ComposeError::UnsupportedArchitecture)
    } else if !input_dir_found {
        Err(ComposeError::InputDirNotFound)
    } else if !name_fits(exec_name) {
        Err(ComposeError::NameTooLong)
    } else if entry is Missing {
        Err(ComposeError::EntryNotFound)
    } else if entry is NotAFile {
        Err(ComposeError::EntryNotAFile)
    } else {
        Ok(spec_parse_arch(arch_key)->Some_0)
    }
}

/// Checks the inputs of a composition before anything is written, and gives
/// the architecture whose runner stub is to be patched.
pub fn check_compose(arch_key: &str, input_dir_found: bool, exec_name: &str, entry: EntryKind) -> (r: Result<Arch, ComposeError>)
    ensures
        r == spec_check_compose(arch_key@, input_dir_found, exec_name.spec_bytes(), entry),
{
    let arch = match Arch::from_key(arch_key) {
        None => return Err(ComposeError::UnsupportedArchitecture),
        Some(a) => a,
    };
    if !input_dir_found {
        return Err(ComposeError::InputDirNotFound);
    }
    if exec_name.as_bytes().len() >= MAGIC_LEN - 1 {
        return Err(ComposeError::NameTooLong);
    }
    match entry {
        EntryKind::Missing => Err(ComposeError::EntryNotFound),
        EntryKind::NotAFile => Err(ComposeError::EntryNotAFile),
        EntryKind::File => Ok(arch),
    }
}

/// A name as long as the configuration block, or longer, never gives a binary:
/// checking the inputs fails, with `NameTooLong` once the architecture and the
/// input directory are good, and patching any runner image fails with
/// `NameTooLong`.
pub proof fn lemma_long_name_refused(
    arch_key: Seq<char>,
    input_dir_found: bool,
    exec_name: Seq<u8>,
    entry: EntryKind,
    runner: Seq<u8>,
    use_temp_dir: bool,
)
    requires
        exec_name.len() >= MAGIC_LEN,
    ensures
        spec_check_compose(arch_key, input_dir_found, exec_name, entry) is Err,
        spec_parse_arch(arch_key) is Some && input_dir_found ==> spec_check_compose(
            arch_key,
            input_dir_found,
            exec_name,
            entry,
        ) == Err::<Arch, ComposeError>(ComposeError::NameTooLong),
        spec_patch(runner, exec_name, use_temp_dir) == Err::<Seq<u8>, PatchError>(PatchError::NameTooLong),
{
}

} // verus!
