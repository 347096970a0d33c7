//! The bytes in which posts travel: `bincode` lays the posts out, `lz4_flex`
//! packs the result.
//!
//! Each trusted function below makes the call and converts what goes in and
//! what comes out. What the two crates compute takes pages to state, so the
//! contracts name it where it depends on the bytes alone, and say what the
//! crates' documentation says of it: that what was written is read back.
//! How LZ4 packs depends on the machine as well, so of the packed bytes only
//! that is said.

use vstd::prelude::*;
use crate::post::CompactPost;

verus! {

/// The posts that `bincode` reads from `bytes`; `None` where it reads none.
pub uninterp spec fn bincode_read(bytes: Seq<u8>) -> Option<Seq<CompactPost>>;

/// The bytes that the LZ4 block `data` unpacks to, or the text of the error.
pub uninterp spec fn lz4_unpacked(data: Seq<u8>) -> Result<Seq<u8>, Seq<char>>;

/// Whether `bincode` reads `posts` from `bytes`.
pub open spec fn reads_as(bytes: Seq<u8>, posts: Seq<CompactPost>) -> bool {
    bincode_read(bytes) == Some(posts)
}

/// Whether the LZ4 block `data` unpacks to `bytes`.
pub open spec fn unpacks_to(data: Seq<u8>, bytes: Seq<u8>) -> bool {
    lz4_unpacked(data) == Ok::<Seq<u8>, Seq<char>>(bytes)
}

/// The number of bytes in which `bincode` lays out `count` posts.
pub open spec fn laid_out_size(count: nat) -> nat {
    8 + 28 * count
}

/// Whether LZ4 can size its buffer for `size` bytes: it reckons with a
/// tenth more than it is given.
pub open spec fn packable(size: nat) -> bool {
    size * 110 + 2400 <= usize::MAX
}

/// The number of bytes 0xFF at the end of `data`.
pub open spec fn run_at_end(data: Seq<u8>) -> nat
    decreases data.len(),
{
    if data.len() == 0 || data.last() != 0xFF {
        0
    } else {
        1 + run_at_end(data.drop_last())
    }
}

/// The length of the longest run of bytes 0xFF in `data`.
pub open spec fn longest_run(data: Seq<u8>) -> nat
    decreases data.len(),
{
    if data.len() == 0 {
        0
    } else if longest_run(data.drop_last()) >= run_at_end(data) {
        longest_run(data.drop_last())
    } else {
        run_at_end(data)
    }
}

/// The size that packed data declares for what it unpacks to: its first
/// four bytes, the lowest first.
pub open spec fn declared_size(data: Seq<u8>) -> nat {
    if data.len() < 4 {
        0
    } else {
        (data[0] + 256 * data[1] + 65536 * data[2] + 16777216 * data[3]) as nat
    }
}

/// Whether LZ4 can unpack `data` within the numbers it reckons in.
///
/// LZ4 writes a long length as a run of bytes 0xFF and adds them up, 255 for
/// each and up to 254 for the byte that ends the run, in 32 bits. It adds
/// that sum, and 19 more, to a place within the size that the data declares,
/// in the machine's word, and it asks for a buffer of the declared size,
/// which must fit half the machine's word. On a machine of 64 bits only the
/// first can fail, for a run of more than 16843008 bytes.
pub open spec fn unpackable(data: Seq<u8>) -> bool {
    &&& 255 * longest_run(data) + 254 <= u32::MAX
    &&& declared_size(data) <= usize::MAX / 2
    &&& declared_size(data) + 255 * longest_run(data) + 273 <= usize::MAX
}

/// `bincode::serialize` of the posts, each handed over as the tuple of its
/// fields in their order, which `bincode` lays out as it does a struct.
/// Without a size limit the call cannot fail. The length takes 8 bytes and
/// each post 28, and what `bincode` writes, it reads back as it was.
#[verifier::external_body]
pub(crate) fn write_posts(posts: &[CompactPost]) -> (bytes: Vec<u8>)
    ensures
        bytes@.len() == laid_out_size(posts@.len()),
        reads_as(bytes@, posts@),
{
    let rows: Vec<(u32, u32, u32, u32, u32, u16, u8, u8, u16, u16)> = posts.iter().map(
        |post| (
            post.id, post.creator_id, post.title_hash, post.description_hash, post.timestamp,
            post.likes_count, post.city_id, post.gender_id, post.type_flags, post.meta_flags,
        ),
    ).collect();
    bincode::serialize(&rows).unwrap_or_default()
}

/// `bincode::deserialize` of a list of posts, each read as the tuple of its
/// fields in their order. Whether posts are read depends on the bytes
/// alone; the text of an error does not, and nothing is said of it.
#[verifier::external_body]
pub(crate) fn read_posts(bytes: &[u8]) -> (result: Result<Vec<CompactPost>, String>)
    ensures
        match result {
            Ok(posts) => bincode_read(bytes@) == Some(posts@),
            Err(_) => bincode_read(bytes@) is None,
        },
{
    bincode::deserialize::<Vec<(u32, u32, u32, u32, u32, u16, u8, u8, u16, u16)>>(bytes).map(
        |rows| rows.into_iter().map(
            |row| CompactPost {
                id: row.0, creator_id: row.1, title_hash: row.2, description_hash: row.3,
                timestamp: row.4, likes_count: row.5, city_id: row.6, gender_id: row.7,
                type_flags: row.8, meta_flags: row.9,
            },
        ).collect(),
    ).map_err(|error| error.to_string())
}

/// `lz4_flex::compress_prepend_size`. The block stands behind the length of
/// the bytes, written in 32 bits; bytes whose length fits there unpack to
/// what they were. Bytes for which LZ4 cannot size its buffer are left out.
#[verifier::external_body]
pub(crate) fn pack(bytes: &[u8]) -> (data: Vec<u8>)
    requires
        packable(bytes@.len()),
    ensures
        bytes@.len() <= u32::MAX ==> unpacks_to(data@, bytes@),
{
    lz4_flex::compress_prepend_size(bytes)
}

/// `lz4_flex::decompress_size_prepended`. An error comes back as its text.
/// The call checks every read and write against the bounds of its buffers;
/// data that it cannot unpack within the numbers it reckons in is left out.
#[verifier::external_body]
pub(crate) fn unpack(data: &[u8]) -> (result: Result<Vec<u8>, String>)
    requires
        unpackable(data@),
    ensures
        match result {
            Ok(bytes) => lz4_unpacked(data@) == Ok::<Seq<u8>, Seq<char>>(bytes@),
            Err(text) => lz4_unpacked(data@) == Err::<Seq<u8>, Seq<char>>(text@),
        },
{
    lz4_flex::decompress_size_prepended(data).map_err(|error| error.to_string())
}

/// Whether LZ4 can unpack `data` within the numbers it reckons in.
pub fn can_unpack(data: &[u8]) -> (safe: bool)
    ensures
        safe == unpackable(data@),
{
    let mut longest: usize = 0;
    let mut current: usize = 0;
    let mut i: usize = 0;
    assert(data@.take(0) =~= Seq::<u8>::empty());
    while i < data.len()
        invariant
            i <= data.len(),
            current <= i,
            longest <= i,
            current == run_at_end(data@.take(i as int)),
            longest == longest_run(data@.take(i as int)),
        decreases data.len() - i,
    {
        proof {
            assert(data@.take(i + 1).drop_last() =~= data@.take(i as int));
            assert(data@.take(i + 1).last() == data@[i as int]);
        }
        if data[i] == 0xFF {
            current = current + 1;
        } else {
            current = 0;
        }
        if current > longest {
            longest = current;
        }
        i = i + 1;
    }
    assert(data@.take(i as int) =~= data@);
    if longest > 16843008 {
        return false;
    }
    let declared: u64 = if data.len() < 4 {
        0
    } else {
        data[0] as u64 + 256 * (data[1] as u64) + 65536 * (data[2] as u64) + 16777216 * (
        data[3] as u64)
    };
    let word: u64 = usize::MAX as u64;
    declared <= word / 2 && declared + 255 * (longest as u64) + 273 <= word
}

} // verus!
