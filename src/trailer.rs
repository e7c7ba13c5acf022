use vstd::bytes::{
    lemma_auto_spec_u64_to_from_le_bytes, spec_u64_from_le_bytes, spec_u64_to_le_bytes,
    u64_from_le_bytes, u64_to_le_bytes,
};
use crate::marker::{
    lemma_patch_keeps_length, name_fits, spec_patch, spec_runner_magic, unique_marker_at, MAGIC_LEN,
};
use crate::options::{lemma_patch_read_back, nul_free, spec_read_options, OptionsError};
use vstd::prelude::*;
use vstd::string::StringSliceAdditionalSpecFns;

verus! {

/// Length in bytes of the record that closes every composed binary.
pub const TRAILER_LEN: usize = 8;

/// Why the payload of a composed binary could not be located.
#[derive(Debug, Clone, Copy, PartialEq, Eq, Structural)]
pub enum PayloadError {
    /// The file is shorter than a trailer, or its trailer names a runner stub
    /// longer than what precedes the trailer.
    TrailerCorrupt,
}

/// The trailer that records a runner stub of `stub_len` bytes: that length as
/// eight little-endian bytes.
pub open spec fn spec_trailer(stub_len: u64) -> Seq<u8> {
    spec_u64_to_le_bytes(stub_len)
}

/// A composed binary: the patched runner stub, then the payload, then the
/// trailer that records the stub's length.
pub open spec fn spec_compose(stub: Seq<u8>, payload: Seq<u8>) -> Seq<u8> {
    stub + payload + spec_trailer(stub.len() as u64)
}

/// Where the payload of a file of `file_len` bytes lies, read from `tail`, the
/// file's last bytes: from the end of the stub up to the trailer.
pub open spec fn spec_payload_bounds(file_len: int, tail: Seq<u8>) -> Result<(int, int), PayloadError> {
    if file_len < TRAILER_LEN || tail.len() != TRAILER_LEN {
        Err(PayloadError::TrailerCorrupt)
    } else if spec_u64_from_le_bytes(tail) > file_len - TRAILER_LEN {
        Err(PayloadError::TrailerCorrupt)
    } else {
        Ok((spec_u64_from_le_bytes(tail) as int, file_len - TRAILER_LEN))
    }
}

/// Encodes the trailer record that tells where the payload begins.
pub fn encode_trailer(stub_len: u64) -> (r: Vec<u8>)
    ensures
        r@ == spec_trailer(stub_len),
        r@.len() == TRAILER_LEN,
{
    u64_to_le_bytes(stub_len)
}

/// Appends `src` to `dst`.
fn append_bytes(dst: &mut Vec<u8>, src: &[u8])
    ensures
        final(dst)@ == old(dst)@ + src@,
{
    let n: usize = src.len();
    let mut i: usize = 0;
    while i < n
        invariant
            n == src@.len(),
            i <= n,
            dst@ == old(dst)@ + src@.subrange(0, i as int),
        decreases n - i,
    {
        dst.push(src[i]);
        i = i + 1;
        assert(dst@ =~= old(dst)@ + src@.subrange(0, i as int));
    }
    assert(src@.subrange(0, n as int) =~= src@);
}

/// Lays out a composed binary: the patched runner stub, the payload, and the
/// trailer that lets the running binary find the payload again.
pub fn compose_image(stub: &[u8], payload: &[u8]) -> (r: Vec<u8>)
    requires
        stub@.len() + payload@.len() + TRAILER_LEN <= u64::MAX,
    ensures
        r@ == spec_compose(stub@, payload@),
{
    let mut r: Vec<u8> = Vec::new();
    append_bytes(&mut r, stub);
    append_bytes(&mut r, payload);
    let t = encode_trailer(stub.len() as u64);
    append_bytes(&mut r, t.as_slice());
    assert(r@ =~= spec_compose(stub@, payload@));
    r
}

/// Locates the payload of a composed binary of `file_len` bytes from its last
/// bytes `tail`; gives the offsets where the payload begins and ends.
pub fn payload_bounds(file_len: u64, tail: &[u8]) -> (r: Result<(u64, u64), PayloadError>)
    ensures
        r matches Ok((start, end)) ==> spec_payload_bounds(file_len as int, tail@) == Ok::<
            (int, int),
            PayloadError,
        >((start as int, end as int)),
        r matches Err(e) ==> spec_payload_bounds(file_len as int, tail@) == Err::<(int, int), PayloadError>(e),
{
    if file_len < TRAILER_LEN as u64 || tail.len() != TRAILER_LEN {
        return Err(PayloadError::TrailerCorrupt);
    }
    let stub_len = u64_from_le_bytes(tail);
    let end = file_len - TRAILER_LEN as u64;
    if stub_len > end {
        Err(PayloadError::TrailerCorrupt)
    } else {
        Ok((stub_len, end))
    }
}

/// The payload of a composed binary is found again from the binary's length
/// and its last bytes, exactly where it was put.
pub proof fn lemma_payload_round_trip(stub: Seq<u8>, payload: Seq<u8>)
    requires
        stub.len() + payload.len() + TRAILER_LEN <= u64::MAX,
    ensures
        ({
            let image = spec_compose(stub, payload);
            let tail = image.subrange(image.len() - TRAILER_LEN, image.len() as int);
            &&& spec_payload_bounds(image.len() as int, tail) == Ok::<(int, int), PayloadError>(
                (stub.len() as int, (stub.len() + payload.len()) as int),
            )
            &&& image.subrange(stub.len() as int, (stub.len() + payload.len()) as int) == payload
        }),
{
    lemma_auto_spec_u64_to_from_le_bytes();
    let image = spec_compose(stub, payload);
    let t = spec_trailer(stub.len() as u64);
    assert(t.len() == TRAILER_LEN);
    assert(image.subrange(image.len() - TRAILER_LEN, image.len() as int) =~= t);
    assert(image.subrange(stub.len() as int, (stub.len() + payload.len()) as int) =~= payload);
}

/// A binary composed from a runner patched for a valid entry-point name holds
/// everything the runner needs: its configuration block, where the marker
/// stood, reads back as that name and mode, and its trailer locates exactly
/// the payload.
pub proof fn lemma_composed_binary(runner: Seq<u8>, off: int, name: &str, use_temp_dir: bool, payload: Seq<u8>)
    requires
        unique_marker_at(runner, spec_runner_magic(), off),
        name_fits(name.spec_bytes()),
        nul_free(name.spec_bytes()),
        runner.len() + payload.len() + TRAILER_LEN <= u64::MAX,
    ensures
        spec_patch(runner, name.spec_bytes(), use_temp_dir) is Ok,
        ({
            let stub = spec_patch(runner, name.spec_bytes(), use_temp_dir)->Ok_0;
            let image = spec_compose(stub, payload);
            let tail = image.subrange(image.len() - TRAILER_LEN, image.len() as int);
            &&& spec_read_options(image.subrange(off, off + MAGIC_LEN)) == Ok::<(Seq<char>, bool), OptionsError>(
                (name@, use_temp_dir),
            )
            &&& spec_payload_bounds(image.len() as int, tail) == Ok::<(int, int), PayloadError>(
                (runner.len() as int, (runner.len() + payload.len()) as int),
            )
            &&& image.subrange(runner.len() as int, (runner.len() + payload.len()) as int) == payload
        }),
{
    lemma_patch_read_back(runner, off, name, use_temp_dir);
    lemma_patch_keeps_length(runner, name.spec_bytes(), use_temp_dir);
    let stub = spec_patch(runner, name.spec_bytes(), use_temp_dir)->Ok_0;
    lemma_payload_round_trip(stub, payload);
    let image = spec_compose(stub, payload);
    assert(image.subrange(off, off + MAGIC_LEN) =~= stub.subrange(off, off + MAGIC_LEN));
}

} // verus!
