//! The shared segment that hands a cartridge path to a running instance.
//!
//! The segment is a fixed region of bytes.  Its first four bytes hold the
//! length of the path, least significant byte first; the path follows as
//! UTF-8, and what lies behind it is not defined.

use crate::config::RunnerConfig;
use vstd::prelude::*;
use vstd::string::StringSliceAdditionalSpecFns;
use vstd::utf8::encode_utf8;

verus! {

/// Size of the segment in bytes.
pub const SEGMENT_SIZE: usize = 4096;

/// Number of bytes of the length prefix.
pub const LENGTH_BYTES: usize = 4;

/// The length prefix of a path of `len` bytes.
pub open spec fn length_prefix(len: nat) -> Seq<u8> {
    seq![
        (len % 256) as u8,
        (len / 256 % 256) as u8,
        (len / 65536 % 256) as u8,
        (len / 16777216 % 256) as u8,
    ]
}

/// The length that the prefix of `segment` states.
pub open spec fn stated_length(segment: Seq<u8>) -> nat {
    (segment[0] + 256 * segment[1] + 65536 * segment[2] + 16777216 * segment[3]) as nat
}

/// The segment after `path` was posted to it: prefix and path from the
/// start, the rest as it was.
pub open spec fn posted(segment: Seq<u8>, path: Seq<u8>) -> Seq<u8> {
    length_prefix(path.len()) + path + segment.subrange(
        LENGTH_BYTES + path.len(),
        segment.len() as int,
    )
}

/// The path that `segment` holds, if its prefix states a length that the
/// segment has room for.
pub open spec fn posted_path(segment: Seq<u8>) -> Option<Seq<u8>> {
    if segment.len() >= LENGTH_BYTES && LENGTH_BYTES + stated_length(segment) <= segment.len() {
        Some(segment.subrange(LENGTH_BYTES as int, LENGTH_BYTES + stated_length(segment)))
    } else {
        None
    }
}

/// Whether a path of `len` bytes has room in a segment of `size` bytes.
pub open spec fn fits(size: nat, len: nat) -> bool {
    LENGTH_BYTES + len <= size && len <= u32::MAX
}

/// Posts `path` to `segment`.
pub fn post_path(segment: &mut Vec<u8>, path: &str)
    requires
        fits(old(segment)@.len(), path.spec_bytes().len()),
    ensures
        final(segment)@ == posted(old(segment)@, path.spec_bytes()),
{
    let bytes = path.as_bytes();
    let len = bytes.len();
    let size = segment.len();
    segment.set(0, (len % 256) as u8);
    segment.set(1, (len / 256 % 256) as u8);
    segment.set(2, (len / 65536 % 256) as u8);
    segment.set(3, (len / 16777216 % 256) as u8);
    let mut i: usize = 0;
    while i < len
        invariant
            i <= len,
            len == bytes@.len(),
            size == segment@.len(),
            bytes@ == path.spec_bytes(),
            fits(old(segment)@.len(), len as nat),
            segment@.len() == old(segment)@.len(),
            segment@.subrange(0, LENGTH_BYTES as int) == length_prefix(len as nat),
            segment@.subrange(LENGTH_BYTES as int, LENGTH_BYTES + i) == bytes@.subrange(0, i as int),
            segment@.subrange(LENGTH_BYTES + i, segment@.len() as int) == old(segment)@.subrange(
                LENGTH_BYTES + i,
                segment@.len() as int,
            ),
        decreases len - i,
    {
        let ghost before = segment@;
        segment.set(LENGTH_BYTES + i, bytes[i]);
        proof {
            let at = LENGTH_BYTES + i;
            assert(segment@.subrange(0, LENGTH_BYTES as int) =~= before.subrange(
                0,
                LENGTH_BYTES as int,
            ));
            assert(segment@.subrange(LENGTH_BYTES as int, at + 1) =~= before.subrange(
                LENGTH_BYTES as int,
                at as int,
            ).push(bytes@[i as int]));
            assert(bytes@.subrange(0, i + 1) =~= bytes@.subrange(0, i as int).push(bytes@[i as int]));
            assert(segment@.subrange(at + 1, segment@.len() as int) =~= before.subrange(
                at as int,
                segment@.len() as int,
            ).subrange(1, segment@.len() - at));
            assert(old(segment)@.subrange(at + 1, segment@.len() as int) =~= old(segment)@.subrange(
                at as int,
                segment@.len() as int,
            ).subrange(1, segment@.len() - at));
        }
        i = i + 1;
    }
    proof {
        assert(bytes@.subrange(0, len as int) =~= bytes@);
        assert(segment@ =~= segment@.subrange(0, LENGTH_BYTES as int) + segment@.subrange(
            LENGTH_BYTES as int,
            LENGTH_BYTES + len,
        ) + segment@.subrange(LENGTH_BYTES + len, segment@.len() as int));
    }
}

/// What a second instance leaves for the first: the cartridge path of
/// `config`, if it has one, is posted to `segment`; without a cartridge the
/// segment stays as it is.
pub fn post_cart_name_to_shared_mem(segment: &mut Vec<u8>, config: &RunnerConfig)
    requires
        config@.cartridge matches Some(path) ==> fits(
            old(segment)@.len(),
            encode_utf8(path@).len(),
        ),
    ensures
        final(segment)@ == (match config@.cartridge {
            Some(path) => posted(old(segment)@, encode_utf8(path@)),
            None => old(segment)@,
        }),
{
    match config.cartridge() {
        Some(path) => {
            post_path(segment, path.as_str());
        },
        None => {},
    }
}

/// Whether the cartridge path of `config` has room in a segment of `size`
/// bytes; a configuration without a cartridge always has.
pub fn cart_name_fits(size: usize, config: &RunnerConfig) -> (ok: bool)
    ensures
        ok == (config@.cartridge matches Some(path) ==> fits(
            size as nat,
            encode_utf8(path@).len(),
        )),
{
    match config.cartridge() {
        Some(path) => {
            let len = path.as_str().as_bytes().len();
            size >= LENGTH_BYTES && len <= size - LENGTH_BYTES && len <= 0xffff_ffff
        },
        None => true,
    }
}

/// Reads the path that `segment` holds.
pub fn read_path(segment: &[u8]) -> (path: Option<Vec<u8>>)
    ensures
        match path {
            Some(bytes) => posted_path(segment@) == Some(bytes@),
            None => posted_path(segment@) is None,
        },
{
    if segment.len() < LENGTH_BYTES {
        return None;
    }
    let stated: u64 = segment[0] as u64 + 256 * (segment[1] as u64) + 65536 * (segment[2] as u64)
        + 16777216 * (segment[3] as u64);
    let room: u64 = (segment.len() - LENGTH_BYTES) as u64;
    if stated > room {
        return None;
    }
    let len: usize = stated as usize;
    let size = segment.len();
    let mut bytes: Vec<u8> = Vec::new();
    let mut i: usize = 0;
    while i < len
        invariant
            i <= len,
            size == segment@.len(),
            LENGTH_BYTES + len <= segment@.len(),
            bytes@ == segment@.subrange(LENGTH_BYTES as int, LENGTH_BYTES + i),
        decreases len - i,
    {
        bytes.push(segment[LENGTH_BYTES + i]);
        proof {
            assert(segment@.subrange(LENGTH_BYTES as int, LENGTH_BYTES + i + 1)
                =~= segment@.subrange(LENGTH_BYTES as int, LENGTH_BYTES + i).push(
                segment@[LENGTH_BYTES + i],
            ));
        }
        i = i + 1;
    }
    Some(bytes)
}

/// The prefix states the length it was made from.
pub proof fn lemma_length_prefix(len: nat)
    requires
        len <= u32::MAX,
    ensures
        length_prefix(len).len() == LENGTH_BYTES,
        stated_length(length_prefix(len)) == len,
{
}

/// What was posted is what is read: a path that fits comes back from the
/// segment byte for byte, whatever the segment held before.
pub proof fn lemma_posted_path_round_trip(segment: Seq<u8>, path: Seq<u8>)
    requires
        fits(segment.len(), path.len()),
    ensures
        posted(segment, path).len() == segment.len(),
        posted_path(posted(segment, path)) == Some(path),
        posted(segment, path).subrange(LENGTH_BYTES + path.len(), segment.len() as int)
            == segment.subrange(LENGTH_BYTES + path.len(), segment.len() as int),
{
    let after = posted(segment, path);
    lemma_length_prefix(path.len());
    assert(after[0] == length_prefix(path.len())[0]);
    assert(after[1] == length_prefix(path.len())[1]);
    assert(after[2] == length_prefix(path.len())[2]);
    assert(after[3] == length_prefix(path.len())[3]);
    assert(stated_length(after) == path.len());
    assert(after.subrange(LENGTH_BYTES as int, LENGTH_BYTES + path.len()) =~= path);
    assert(after.subrange(LENGTH_BYTES + path.len(), segment.len() as int) =~= segment.subrange(
        LENGTH_BYTES + path.len(),
        segment.len() as int,
    ));
}

} // verus!
