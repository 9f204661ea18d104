//! Voice embedding files.
//!
//! A combined voices file starts with a little-endian `u32` count, followed by
//! that many 40-byte entries: a 32-byte voice id padded with NUL characters,
//! then the `u32` byte offset and `u32` byte size of the voice's data. The data
//! of a voice is a run of little-endian `f32` values. A single-voice file is
//! such a run alone. The values themselves are decoded by the caller.

use vstd::prelude::*;

use vstd::utf8::{decode_utf8, valid_utf8};

use crate::error::{VocalizeError, VocalizeResult};
use crate::inference::STYLE_DIM;
use crate::text::{decimal, decimal_string, same_text};

verus! {

/// Size of an entry of the index.
pub const ENTRY_SIZE: usize = 40;

/// Size of the id field of an entry.
pub const ID_SIZE: usize = 32;

/// Number of values in a full single-voice file (510 style rows of 256).
pub const FULL_EMBEDDING_LEN: usize = 130560;

/// Relies on `std::str::from_utf8`: the text of the bytes when they are
/// valid UTF-8, and nothing otherwise.
#[verifier::external_body]
fn utf8_text(bytes: &[u8]) -> (r: Option<String>)
    ensures
        r matches Some(s) ==> valid_utf8(bytes@) && s@ == decode_utf8(bytes@),
        r is None ==> !valid_utf8(bytes@),
{
    std::str::from_utf8(bytes).ok().map(|s| s.to_owned())
}

/// The little-endian `u32` at `at`.
pub open spec fn u32_le(data: Seq<u8>, at: int) -> nat {
    (data[at] + 256 * data[at + 1] + 65536 * data[at + 2] + 16777216 * data[at + 3]) as nat
}

/// `s` without its trailing NUL characters.
pub open spec fn strip_nuls(s: Seq<char>) -> Seq<char>
    decreases s.len(),
{
    if s.len() > 0 && s.last() == '\0' {
        strip_nuls(s.drop_last())
    } else {
        s
    }
}

/// The voice id held by an id field: its text without trailing NULs, or
/// the empty text when the field is not valid UTF-8.
pub open spec fn entry_name(field: Seq<u8>) -> Seq<char> {
    if valid_utf8(field) {
        strip_nuls(decode_utf8(field))
    } else {
        Seq::empty()
    }
}

/// Position of entry `i` in the file.
pub open spec fn entry_start(i: int) -> int {
    4 + 40 * i
}

/// The id field of entry `i`.
pub open spec fn entry_id(data: Seq<u8>, i: int) -> Seq<u8> {
    data.subrange(entry_start(i), entry_start(i) + 32)
}

/// Entry `i` is the first one naming `id`.
pub open spec fn first_entry_of(data: Seq<u8>, id: Seq<char>, i: int) -> bool {
    &&& 0 <= i < u32_le(data, 0)
    &&& entry_name(entry_id(data, i)) == id
    &&& forall|j: int| 0 <= j < i ==> entry_name(entry_id(data, j)) != id
}

/// The index holds an entry naming `id`.
pub open spec fn has_entry(data: Seq<u8>, id: Seq<char>) -> bool {
    exists|i: int| 0 <= i < u32_le(data, 0) && entry_name(entry_id(data, i)) == id
}

/// Message of an index larger than its file.
pub open spec fn short_index_text(count: nat) -> Seq<char> {
    "Combined voices file too small for "@ + decimal(count) + " voice entries"@
}

/// Message of voice data that does not fit the file.
pub open spec fn out_of_bounds_text(id: Seq<char>) -> Seq<char> {
    "Voice data for '"@ + id + "' extends beyond file bounds"@
}

/// Message of voice data that is not a whole number of values.
pub open spec fn ragged_data_text(size: nat) -> Seq<char> {
    "Voice data size "@ + decimal(size) + " not divisible by 4"@
}

/// Message of a voice missing from the index.
pub open spec fn missing_voice_text(id: Seq<char>) -> Seq<char> {
    "Voice '"@ + id + "' not found in combined voices file"@
}

fn read_u32_le(data: &Vec<u8>, at: usize) -> (r: u32)
    requires
        at + 4 <= data@.len(),
    ensures
        r == u32_le(data@, at as int),
{
    let n = data.len();
    let b0 = data[at] as u32;
    let b1 = data[at + 1] as u32;
    let b2 = data[at + 2] as u32;
    let b3 = data[at + 3] as u32;
    assert(b0 <= 255 && b1 <= 255 && b2 <= 255 && b3 <= 255);
    b0 + 256 * b1 + 65536 * b2 + 16777216 * b3
}

/// `s` without its trailing NUL characters.
fn strip_trailing_nuls(s: &String) -> (r: Vec<char>)
    ensures
        r@ == strip_nuls(s@),
{
    let chars = crate::text::chars_of(s.as_str());
    let mut end = chars.len();
    assert(chars@.subrange(0, end as int) =~= chars@);
    while end > 0 && chars[end - 1] == '\0'
        invariant
            chars@ == s@,
            end <= chars@.len(),
            strip_nuls(s@) == strip_nuls(chars@.subrange(0, end as int)),
        decreases end,
    {
        assert(chars@.subrange(0, end as int).drop_last() =~= chars@.subrange(0, end - 1));
        end = end - 1;
    }
    let mut r: Vec<char> = Vec::new();
    let mut i: usize = 0;
    while i < end
        invariant
            chars@ == s@,
            i <= end <= chars@.len(),
            r@ == chars@.subrange(0, i as int),
        decreases end - i,
    {
        r.push(chars[i]);
        i = i + 1;
        assert(r@ =~= chars@.subrange(0, i as int));
    }
    r
}

/// Whether the id field at `at` names `voice_id`.
fn entry_names(data: &Vec<u8>, at: usize, voice_id: &str) -> (r: bool)
    requires
        at + ID_SIZE <= data@.len(),
    ensures
        r == (entry_name(data@.subrange(at as int, at + 32)) == voice_id@),
{
    let n = data.len();
    let field = vstd::slice::slice_subrange(data.as_slice(), at, at + ID_SIZE);
    assert(field@ == data@.subrange(at as int, at + 32));
    match utf8_text(field) {
        Some(text) => {
            let name = strip_trailing_nuls(&text);
            let want = crate::text::chars_of(voice_id);
            assert(name@ == entry_name(data@.subrange(at as int, at + 32)));
            if name.len() != want.len() {
                assert(name@ != want@);
                return false;
            }
            let mut k: usize = 0;
            while k < name.len()
                invariant
                    name@ == entry_name(data@.subrange(at as int, at + 32)),
                    want@ == voice_id@,
                    name@.len() == want@.len(),
                    k <= name@.len(),
                    forall|j: int| 0 <= j < k ==> name@[j] == want@[j],
                decreases name@.len() - k,
            {
                if name[k] != want[k] {
                    assert(name@[k as int] != want@[k as int]);
                    return false;
                }
                k = k + 1;
            }
            assert(name@ =~= want@);
            true
        },
        None => {
            proof {
                reveal_strlit("");
            }
            assert(""@ =~= Seq::<char>::empty());
            same_text(voice_id, "")
        },
    }
}

/// Find the data of voice `voice_id` in a combined voices file: the byte
/// range `(start, end)` of its values.
pub fn locate_voice(data: &Vec<u8>, voice_id: &str) -> (r: VocalizeResult<(usize, usize)>)
    ensures
        r matches Ok((start, end)) ==> start <= end <= data@.len() && (end - start) % 4 == 0,
        data@.len() < 4 ==> (r matches Err(e) && e is SynthesisError && e.text()
            == "Combined voices file too small to contain header"@),
        data@.len() >= 4 && data@.len() < 4 + 40 * u32_le(data@, 0) ==> (r matches Err(e)
            && e is SynthesisError && e.text() == short_index_text(u32_le(data@, 0))),
        data@.len() >= 4 + 40 * u32_le(data@, 0) && !has_entry(data@, voice_id@) ==> (r matches Err(
            e,
        ) && e is SynthesisError && e.text() == missing_voice_text(voice_id@)),
        forall|i: int|
            data@.len() >= 4 + 40 * u32_le(data@, 0) && #[trigger] first_entry_of(
                data@,
                voice_id@,
                i,
            ) ==> {
                let offset = u32_le(data@, entry_start(i) + 32);
                let size = u32_le(data@, entry_start(i) + 36);
                if offset + size > data@.len() {
                    r matches Err(e) && e is SynthesisError && e.text() == out_of_bounds_text(
                        voice_id@,
                    )
                } else if size % 4 != 0 {
                    r matches Err(e) && e is SynthesisError && e.text() == ragged_data_text(size)
                } else {
                    r == Ok::<(usize, usize), VocalizeError>(
                        (offset as usize, (offset + size) as usize),
                    )
                }
            },
{
    if data.len() < 4 {
        return Err(VocalizeError::synthesis("Combined voices file too small to contain header"));
    }
    let count = read_u32_le(data, 0);
    if (data.len() as u64) < 4 + 40 * (count as u64) {
        let mut m = String::from_str("Combined voices file too small for ");
        m.append(decimal_string(count as usize).as_str());
        m.append(" voice entries");
        return Err(VocalizeError::synthesis(m.as_str()));
    }
    let n = data.len();
    let mut i: u32 = 0;
    while i < count
        invariant
            n == data@.len(),
            count == u32_le(data@, 0),
            data@.len() >= 4 + 40 * count,
            i <= count,
            forall|j: int| 0 <= j < i ==> entry_name(entry_id(data@, j)) != voice_id@,
        decreases count - i,
    {
        let at = 4 + ENTRY_SIZE * (i as usize);
        if entry_names(data, at, voice_id) {
            assert(first_entry_of(data@, voice_id@, i as int));
            let offset = read_u32_le(data, at + 32);
            let size = read_u32_le(data, at + 36);
            if (offset as u64) + (size as u64) > data.len() as u64 {
                let mut m = String::from_str("Voice data for '");
                m.append(voice_id);
                m.append("' extends beyond file bounds");
                return Err(VocalizeError::synthesis(m.as_str()));
            }
            if size % 4 != 0 {
                let mut m = String::from_str("Voice data size ");
                m.append(decimal_string(size as usize).as_str());
                m.append(" not divisible by 4");
                return Err(VocalizeError::synthesis(m.as_str()));
            }
            let start = offset as usize;
            let end = start + size as usize;
            proof {
                assert forall|k: int| #[trigger] first_entry_of(data@, voice_id@, k) implies k
                    == i by {
                    if k < i {
                    } else if k > i {
                        assert(entry_name(entry_id(data@, i as int)) == voice_id@);
                    }
                }
            }
            return Ok((start, end));
        }
        i = i + 1;
    }
    let mut m = String::from_str("Voice '");
    m.append(voice_id);
    m.append("' not found in combined voices file");
    Err(VocalizeError::synthesis(m.as_str()))
}

/// The number of values kept from a single-voice file of `byte_len` bytes:
/// a full embedding keeps its first style row, any other file all its
/// values. A file that is empty or not a whole number of values is refused.
pub fn individual_voice_values(byte_len: usize) -> (r: VocalizeResult<usize>)
    ensures
        r is Ok <==> byte_len % 4 == 0 && byte_len > 0,
        r matches Ok(n) ==> n == (if byte_len / 4 == FULL_EMBEDDING_LEN {
            STYLE_DIM as int
        } else {
            (byte_len / 4) as int
        }),
        byte_len % 4 != 0 ==> (r matches Err(e) && e is SynthesisError && e.text()
            == "Invalid voice file format: size "@ + decimal(byte_len as nat) + " not divisible by 4"@),
        byte_len == 0 ==> (r matches Err(e) && e is SynthesisError && e.text()
            == "Voice file is empty"@),
{
    if byte_len % 4 != 0 {
        let mut m = String::from_str("Invalid voice file format: size ");
        m.append(decimal_string(byte_len).as_str());
        m.append(" not divisible by 4");
        return Err(VocalizeError::synthesis(m.as_str()));
    }
    if byte_len == 0 {
        return Err(VocalizeError::synthesis("Voice file is empty"));
    }
    let n = byte_len / 4;
    if n == FULL_EMBEDDING_LEN {
        Ok(STYLE_DIM)
    } else {
        Ok(n)
    }
}

/// The number of values kept from the data of a voice in a combined file:
/// at most one style vector.
pub fn combined_voice_values(value_count: usize) -> (r: usize)
    ensures
        r == if value_count >= STYLE_DIM {
            STYLE_DIM
        } else {
            value_count
        },
{
    if value_count >= STYLE_DIM {
        STYLE_DIM
    } else {
        value_count
    }
}

} // verus!
