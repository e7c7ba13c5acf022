use vstd::prelude::*;
use vstd::string::StringSliceAdditionalSpecFns;
use vstd::slice::slice_to_vec;

verus! {

/// Length in bytes of the configuration block that every runner stub carries.
pub const MAGIC_LEN: usize = 129;

/// The bytes of the configuration block before it is patched: a pseudo-random
/// sequence that is not expected to occur anywhere else in a runner image.
pub open spec fn spec_runner_magic() -> Seq<u8> {
    seq![116u8, 86u8, 81u8, 104u8, 104u8, 115u8, 70u8, 70u8, 108u8, 71u8, 71u8, 68u8, 51u8, 111u8, 87u8, 86u8, 52u8, 108u8, 69u8, 80u8, 83u8, 84u8, 56u8, 73u8, 56u8, 70u8, 69u8, 80u8, 80u8, 53u8, 52u8, 73u8, 77u8, 48u8, 113u8, 55u8, 100u8, 97u8, 101u8, 115u8, 52u8, 69u8, 49u8, 121u8, 51u8, 112u8, 50u8, 85u8, 50u8, 119u8, 108u8, 74u8, 82u8, 89u8, 109u8, 87u8, 109u8, 106u8, 80u8, 89u8, 102u8, 107u8, 104u8, 90u8, 48u8, 80u8, 108u8, 84u8, 49u8, 52u8, 76u8, 115u8, 48u8, 106u8, 56u8, 102u8, 100u8, 68u8, 107u8, 111u8, 106u8, 51u8, 51u8, 102u8, 50u8, 66u8, 108u8, 82u8, 74u8, 97u8, 118u8, 76u8, 106u8, 51u8, 109u8, 87u8, 71u8, 105u8, 98u8, 74u8, 115u8, 71u8, 116u8, 53u8, 117u8, 76u8, 65u8, 116u8, 114u8, 67u8, 68u8, 116u8, 118u8, 120u8, 105u8, 107u8, 90u8, 56u8, 85u8, 88u8, 50u8, 109u8, 81u8, 68u8, 67u8, 114u8, 103u8, 69u8, 0u8]
}

/// The unpatched configuration block, as a runner stub carries it.
pub fn runner_magic() -> (r: Vec<u8>)
    ensures
        r@ == spec_runner_magic(),
        r@.len() == MAGIC_LEN,
{
    let r: Vec<u8> = vec![116u8, 86u8, 81u8, 104u8, 104u8, 115u8, 70u8, 70u8, 108u8, 71u8, 71u8, 68u8, 51u8, 111u8, 87u8, 86u8, 52u8, 108u8, 69u8, 80u8, 83u8, 84u8, 56u8, 73u8, 56u8, 70u8, 69u8, 80u8, 80u8, 53u8, 52u8, 73u8, 77u8, 48u8, 113u8, 55u8, 100u8, 97u8, 101u8, 115u8, 52u8, 69u8, 49u8, 121u8, 51u8, 112u8, 50u8, 85u8, 50u8, 119u8, 108u8, 74u8, 82u8, 89u8, 109u8, 87u8, 109u8, 106u8, 80u8, 89u8, 102u8, 107u8, 104u8, 90u8, 48u8, 80u8, 108u8, 84u8, 49u8, 52u8, 76u8, 115u8, 48u8, 106u8, 56u8, 102u8, 100u8, 68u8, 107u8, 111u8, 106u8, 51u8, 51u8, 102u8, 50u8, 66u8, 108u8, 82u8, 74u8, 97u8, 118u8, 76u8, 106u8, 51u8, 109u8, 87u8, 71u8, 105u8, 98u8, 74u8, 115u8, 71u8, 116u8, 53u8, 117u8, 76u8, 65u8, 116u8, 114u8, 67u8, 68u8, 116u8, 118u8, 120u8, 105u8, 107u8, 90u8, 56u8, 85u8, 88u8, 50u8, 109u8, 81u8, 68u8, 67u8, 114u8, 103u8, 69u8, 0u8];
    assert(r@ =~= spec_runner_magic());
    r
}

/// Why a runner image could not be patched.
#[derive(Debug, Clone, Copy, PartialEq, Eq, Structural)]
pub enum PatchError {
    /// The entry-point name leaves no room for its terminator and the mode byte.
    NameTooLong,
    /// The image holds no copy of the unpatched configuration block.
    MarkerNotFound,
    /// The image holds more than one copy of the unpatched configuration block.
    AmbiguousMarker,
}

/// What a scan of an image for the marker found.
#[derive(Debug, Clone, Copy, PartialEq, Eq, Structural)]
pub enum MarkerSearch {
    Absent,
    Unique(usize),
    Ambiguous,
}

/// `magic` occurs in `image` at offset `i`.
pub open spec fn marker_at(image: Seq<u8>, magic: Seq<u8>, i: int) -> bool {
    0 <= i && i + magic.len() <= image.len() && image.subrange(i, i + magic.len()) == magic
}

/// `magic` occurs in `image` at offset `i` and nowhere else.
pub open spec fn unique_marker_at(image: Seq<u8>, magic: Seq<u8>, i: int) -> bool {
    marker_at(image, magic, i) && forall|j: int| marker_at(image, magic, j) ==> j == i
}

/// `magic` occurs in `image` at two different offsets.
pub open spec fn marker_ambiguous(image: Seq<u8>, magic: Seq<u8>) -> bool {
    exists|i: int, j: int| i != j && marker_at(image, magic, i) && marker_at(image, magic, j)
}

/// `magic` does not occur in `image`.
pub open spec fn marker_absent(image: Seq<u8>, magic: Seq<u8>) -> bool {
    forall|i: int| !marker_at(image, magic, i)
}

/// Whether `magic` occurs in `image` at offset `at`.
fn window_matches(image: &[u8], magic: &[u8], at: usize) -> (r: bool)
    requires
        at + magic@.len() <= image@.len(),
    ensures
        r == marker_at(image@, magic@, at as int),
{
    let n: usize = image.len();
    let mut k: usize = 0;
    while k < magic.len()
        invariant
            n == image@.len(),
            k <= magic@.len(),
            at + magic@.len() <= image@.len(),
            forall|q: int| 0 <= q < k ==> image@[at + q] == magic@[q],
        decreases magic@.len() - k,
    {
        if image[at + k] != magic[k] {
            assert(image@.subrange(at as int, at + magic@.len())[k as int] != magic@[k as int]);
            return false;
        }
        k = k + 1;
    }
    assert(image@.subrange(at as int, at + magic@.len()) =~= magic@);
    true
}

/// Scans `image` for `magic`, telling apart no match, exactly one, and more than one.
pub fn find_marker(image: &[u8], magic: &[u8]) -> (r: MarkerSearch)
    requires
        magic@.len() > 0,
    ensures
        r == MarkerSearch::Absent <==> marker_absent(image@, magic@),
        r == MarkerSearch::Ambiguous <==> marker_ambiguous(image@, magic@),
        r matches MarkerSearch::Unique(off) ==> unique_marker_at(image@, magic@, off as int),
{
    if magic.len() > image.len() {
        return MarkerSearch::Absent;
    }
    let last: usize = image.len() - magic.len();
    let mut found: Option<usize> = None;
    let mut i: usize = 0;
    while i <= last
        invariant
            last + magic@.len() == image@.len(),
            last < usize::MAX,
            i <= last + 1,
            found matches Some(f) ==> f < i && marker_at(image@, magic@, f as int),
            forall|j: int|
                0 <= j < i && marker_at(image@, magic@, j) ==> found == Some(j as usize),
        decreases last + 1 - i,
    {
        if window_matches(image, magic, i) {
            if let Some(f) = found {
                assert(marker_at(image@, magic@, f as int) && marker_at(image@, magic@, i as int));
                return MarkerSearch::Ambiguous;
            }
            found = Some(i);
        }
        i = i + 1;
    }
    match found {
        None => MarkerSearch::Absent,
        Some(f) => MarkerSearch::Unique(f),
    }
}

/// The configuration block that names `name` as entry point: the name, its NUL
/// terminator, the extraction-mode byte (1 for a temporary directory per run,
/// 0 for the persistent cache), and zeros to the end.
pub open spec fn spec_config_block(name: Seq<u8>, use_temp_dir: bool) -> Seq<u8> {
    Seq::new(
        MAGIC_LEN as nat,
        |i: int|
            if i < name.len() {
                name[i]
            } else if i == name.len() + 1 && use_temp_dir {
                1u8
            } else {
                0u8
            },
    )
}

/// A name fits the configuration block when the name, its terminator and the
/// mode byte all stand inside it.
pub open spec fn name_fits(name: Seq<u8>) -> bool {
    name.len() + 2 <= MAGIC_LEN
}

/// Builds the configuration block for an entry-point name and extraction mode.
pub fn config_block(name: &[u8], use_temp_dir: bool) -> (r: Vec<u8>)
    requires
        name_fits(name@),
    ensures
        r@ == spec_config_block(name@, use_temp_dir),
{
    let mut r: Vec<u8> = Vec::new();
    let mut i: usize = 0;
    while i < MAGIC_LEN
        invariant
            i <= MAGIC_LEN,
            name_fits(name@),
            r@ =~= spec_config_block(name@, use_temp_dir).subrange(0, i as int),
        decreases MAGIC_LEN - i,
    {
        let b: u8 = if i < name.len() {
            name[i]
        } else if i == name.len() + 1 && use_temp_dir {
            1u8
        } else {
            0u8
        };
        r.push(b);
        i = i + 1;
    }
    r
}

/// `image` with the `block.len()` bytes from `off` on replaced by `block`.
pub open spec fn splice(image: Seq<u8>, off: int, block: Seq<u8>) -> Seq<u8> {
    image.subrange(0, off) + block + image.subrange(off + block.len(), image.len() as int)
}

/// What patching `runner` for entry point `name` gives: the image with its one
/// configuration block replaced.
pub open spec fn spec_patch(runner: Seq<u8>, name: Seq<u8>, use_temp_dir: bool) -> Result<Seq<u8>, PatchError> {
    if !name_fits(name) {
        Err(PatchError::NameTooLong)
    } else if marker_absent(runner, spec_runner_magic()) {
        Err(PatchError::MarkerNotFound)
    } else if marker_ambiguous(runner, spec_runner_magic()) {
        Err(PatchError::AmbiguousMarker)
    } else {
        let off = choose|off: int| unique_marker_at(runner, spec_runner_magic(), off);
        Ok(splice(runner, off, spec_config_block(name, use_temp_dir)))
    }
}

/// Patches a runner image in place of its configuration block, so that the
/// runner starts `exec_name` and uses a temporary directory when `use_temp_dir`
/// holds. Every other byte, and the length, stay as they were.
pub fn patch_runner(runner: &[u8], exec_name: &str, use_temp_dir: bool) -> (r: Result<Vec<u8>, PatchError>)
    ensures
        r matches Ok(out) ==> spec_patch(runner@, exec_name.spec_bytes(), use_temp_dir) == Ok::<Seq<u8>, PatchError>(out@),
        r matches Err(e) ==> spec_patch(runner@, exec_name.spec_bytes(), use_temp_dir) == Err::<Seq<u8>, PatchError>(e),
        r matches Ok(out) ==> out@.len() == runner@.len(),
{
    let name = exec_name.as_bytes();
    if name.len() >= MAGIC_LEN - 1 {
        return Err(PatchError::NameTooLong);
    }
    let magic = runner_magic();
    match find_marker(runner, magic.as_slice()) {
        MarkerSearch::Absent => Err(PatchError::MarkerNotFound),
        MarkerSearch::Ambiguous => Err(PatchError::AmbiguousMarker),
        MarkerSearch::Unique(off) => {
            let block = config_block(name, use_temp_dir);
            let mut buf: Vec<u8> = slice_to_vec(runner);
            let n: usize = runner.len();
            let mut k: usize = 0;
            while k < MAGIC_LEN
                invariant
                    n == runner@.len(),
                    k <= MAGIC_LEN,
                    off + MAGIC_LEN <= runner@.len(),
                    block@.len() == MAGIC_LEN,
                    buf@.len() == runner@.len(),
                    forall|q: int|
                        0 <= q < buf@.len() ==> buf@[q] == if off <= q < off + k {
                            block@[q - off]
                        } else {
                            runner@[q]
                        },
                decreases MAGIC_LEN - k,
            {
                buf.set(off + k, block[k]);
                k = k + 1;
            }
            proof {
                let spliced = splice(runner@, off as int, block@);
                assert(buf@ =~= spliced);
                assert(unique_marker_at(runner@, spec_runner_magic(), off as int));
                let c = choose|c: int| unique_marker_at(runner@, spec_runner_magic(), c);
                assert(c == off);
                assert(!marker_ambiguous(runner@, spec_runner_magic()));
            }
            Ok(buf)
        },
    }
}

/// Patching never changes the length of a runner image.
pub proof fn lemma_patch_keeps_length(runner: Seq<u8>, name: Seq<u8>, use_temp_dir: bool)
    ensures
        spec_patch(runner, name, use_temp_dir) matches Ok(out) ==> out.len() == runner.len(),
{
    if spec_patch(runner, name, use_temp_dir) is Ok {
        let magic = spec_runner_magic();
        assert(magic.len() == MAGIC_LEN);
        let i = choose|i: int| marker_at(runner, magic, i);
        if exists|j: int| j != i && marker_at(runner, magic, j) {
            assert(marker_ambiguous(runner, magic));
        }
        assert(unique_marker_at(runner, magic, i));
    }
}

} // verus!
