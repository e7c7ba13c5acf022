use crate::marker::{
    name_fits, spec_config_block, spec_patch, spec_runner_magic, splice, unique_marker_at, MAGIC_LEN,
};
use vstd::prelude::*;
use vstd::string::StringSliceAdditionalSpecFns;
use vstd::utf8::{decode_utf8, encode_utf8, encode_utf8_decode_utf8, encode_utf8_valid_utf8, valid_utf8};

verus! {

/// What a runner learns from its configuration block.
#[derive(Debug)]
pub struct RunnerOptions {
    /// Path of the entry point, relative to the extracted directory.
    pub exec_name: String,
    /// Extract into a fresh temporary directory on each run instead of the cache.
    pub use_temp_dir: bool,
}

/// Why a configuration block could not be read.
#[derive(Debug, Clone, Copy, PartialEq, Eq, Structural)]
pub enum OptionsError {
    /// No NUL byte ends the entry-point name.
    NoTerminator,
    /// The NUL byte is the last byte, so there is no mode byte after it.
    NoModeByte,
    /// The entry-point name is not well-formed UTF-8.
    NotUtf8,
}

/// No byte of `s` is NUL.
pub open spec fn nul_free(s: Seq<u8>) -> bool {
    forall|i: int| 0 <= i < s.len() ==> s[i] != 0
}

/// `p` is the offset of the first NUL byte of `s`.
pub open spec fn first_nul_at(s: Seq<u8>, p: int) -> bool {
    0 <= p < s.len() && s[p] == 0 && nul_free(s.subrange(0, p))
}

/// What reading the configuration block `block` gives: the entry-point name
/// (the bytes before the first NUL) and whether the byte after that NUL is 1.
pub open spec fn spec_read_options(block: Seq<u8>) -> Result<(Seq<char>, bool), OptionsError> {
    if nul_free(block) {
        Err(OptionsError::NoTerminator)
    } else {
        let p = choose|p: int| first_nul_at(block, p);
        if p + 1 >= block.len() {
            Err(OptionsError::NoModeByte)
        } else if !valid_utf8(block.subrange(0, p)) {
            Err(OptionsError::NotUtf8)
        } else {
            Ok((decode_utf8(block.subrange(0, p)), block[p + 1] == 1))
        }
    }
}

/// Relies on std::str::from_utf8: it succeeds exactly on well-formed UTF-8,
/// and the text it gives back is made of those bytes.
#[verifier::external_body]
fn utf8_text(b: &[u8]) -> (r: Option<String>)
    ensures
        r is Some <==> valid_utf8(b@),
        r matches Some(t) ==> encode_utf8(t@) == b@,
{
    match std::str::from_utf8(b) {
        Ok(t) => Some(t.to_owned()),
        Err(_) => None,
    }
}

/// Reads the entry-point name and the extraction mode out of a configuration
/// block, failing when the block is corrupt or was never patched.
pub fn runner_options(block: &[u8]) -> (r: Result<RunnerOptions, OptionsError>)
    ensures
        r matches Ok(o) ==> spec_read_options(block@) == Ok::<(Seq<char>, bool), OptionsError>(
            (o.exec_name@, o.use_temp_dir),
        ),
        r matches Err(e) ==> spec_read_options(block@) == Err::<(Seq<char>, bool), OptionsError>(e),
{
    let n: usize = block.len();
    let mut p: usize = 0;
    while p < n && block[p] != 0
        invariant
            n == block@.len(),
            p <= n,
            nul_free(block@.subrange(0, p as int)),
        decreases n - p,
    {
        assert(block@.subrange(0, p + 1) =~= block@.subrange(0, p as int).push(block@[p as int]));
        p = p + 1;
    }
    if p == n {
        assert(block@.subrange(0, p as int) =~= block@);
        return Err(OptionsError::NoTerminator);
    }
    proof {
        assert(first_nul_at(block@, p as int));
        assert(!nul_free(block@));
        let c = choose|c: int| first_nul_at(block@, c);
        if c < p {
            assert(block@.subrange(0, p as int)[c] == 0);
        } else if c > p {
            assert(block@.subrange(0, c)[p as int] == 0);
        }
        assert(c == p);
    }
    if p + 1 >= n {
        return Err(OptionsError::NoModeByte);
    }
    let name = vstd::slice::slice_subrange(block, 0, p);
    match utf8_text(name) {
        None => Err(OptionsError::NotUtf8),
        Some(exec_name) => {
            proof {
                encode_utf8_decode_utf8(exec_name@);
            }
            Ok(RunnerOptions { exec_name, use_temp_dir: block[p + 1] == 1 })
        },
    }
}

/// The configuration block written for a valid entry-point name reads back as
/// that name and that extraction mode.
pub proof fn lemma_config_block_read_back(name: &str, use_temp_dir: bool)
    requires
        name_fits(name.spec_bytes()),
        nul_free(name.spec_bytes()),
    ensures
        spec_read_options(spec_config_block(name.spec_bytes(), use_temp_dir)) == Ok::<
            (Seq<char>, bool),
            OptionsError,
        >((name@, use_temp_dir)),
{
    let b = name.spec_bytes();
    let block = spec_config_block(b, use_temp_dir);
    let p = b.len() as int;
    assert(block.subrange(0, p) =~= b);
    assert(first_nul_at(block, p));
    let c = choose|c: int| first_nul_at(block, c);
    if c < p {
        assert(block.subrange(0, p)[c] == 0);
    } else if c > p {
        assert(block.subrange(0, c)[p] == 0);
    }
    encode_utf8_valid_utf8(name@);
    encode_utf8_decode_utf8(name@);
}

/// Patching a runner whose marker stands once, at `off`, for a valid
/// entry-point name succeeds, and the block that then stands at `off` reads
/// back as that name and that extraction mode.
pub proof fn lemma_patch_read_back(runner: Seq<u8>, off: int, name: &str, use_temp_dir: bool)
    requires
        unique_marker_at(runner, spec_runner_magic(), off),
        name_fits(name.spec_bytes()),
        nul_free(name.spec_bytes()),
    ensures
        spec_patch(runner, name.spec_bytes(), use_temp_dir) is Ok,
        spec_read_options(
            spec_patch(runner, name.spec_bytes(), use_temp_dir)->Ok_0.subrange(off, off + MAGIC_LEN),
        ) == Ok::<(Seq<char>, bool), OptionsError>((name@, use_temp_dir)),
{
    let magic = spec_runner_magic();
    assert(magic.len() == MAGIC_LEN);
    lemma_unique_marker_facts(runner, off);
    let block = spec_config_block(name.spec_bytes(), use_temp_dir);
    let patched = splice(runner, off, block);
    assert(patched.subrange(off, off + MAGIC_LEN) =~= block);
    lemma_config_block_read_back(name, use_temp_dir);
}

/// A marker that stands once is neither absent nor ambiguous, and its offset
/// is the one that `spec_patch` picks.
proof fn lemma_unique_marker_facts(runner: Seq<u8>, off: int)
    requires
        unique_marker_at(runner, spec_runner_magic(), off),
    ensures
        !crate::marker::marker_absent(runner, spec_runner_magic()),
        !crate::marker::marker_ambiguous(runner, spec_runner_magic()),
        (choose|c: int| unique_marker_at(runner, spec_runner_magic(), c)) == off,
{
    let c = choose|c: int| unique_marker_at(runner, spec_runner_magic(), c);
    assert(unique_marker_at(runner, spec_runner_magic(), c));
}

} // verus!
