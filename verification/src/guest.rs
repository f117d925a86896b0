//! Guest-side hashing helpers: the sponge paddings of the Keccak-256 and
//! Poseidon2 front ends and the byte-to-field packing. The permutations
//! themselves run as machine instructions of the virtual machine; only the
//! padding and packing arithmetic lives here.
use vstd::prelude::*;

verus! {

/// The Keccak-256 rate in bytes.
pub const KECCAK_RATE_BYTES: usize = 136;

/// The number of field elements in the Poseidon2 state.
pub const POSEIDON2_WIDTH: usize = 16;

/// The number of field elements absorbed per permutation.
pub const POSEIDON2_RATE: usize = 8;

/// The number of field elements in the Poseidon2 output.
pub const POSEIDON2_OUT: usize = 8;

/// The number of bytes that can be packed safely into one field element.
pub const FIELD_SIZE: usize = 3;

/// The padded length of a Keccak-256 message: the message rounded up to the
/// next whole rate block, with at least one padding byte.
pub open spec fn spec_keccak_padded_len(len: int) -> int {
    len - (len % 136) + 136
}

/// The byte at position `i` of the padded Keccak-256 message: the message
/// itself, then the `1` marker, zeros, and the final `0x80` marker — merged
/// into one byte when the marker positions coincide.
pub open spec fn spec_keccak_pad_byte(data: Seq<u8>, i: int) -> u8 {
    let len = data.len() as int;
    let padded_len = spec_keccak_padded_len(len);
    if i < len {
        data[i]
    } else if len % 136 == 135 {
        0x81u8
    } else if i == len {
        1u8
    } else if i == padded_len - 1 {
        0x80u8
    } else {
        0u8
    }
}

/// Pads a Keccak-256 message with the `1 .. 0* .. 0x80` sponge padding up to
/// a whole number of rate blocks.
#[verifier::loop_isolation(false)]
pub fn keccak256_pad(data: &Vec<u8>) -> (padded: Vec<u8>)
    requires
        data@.len() + 136 <= usize::MAX,
    ensures
        padded@.len() == spec_keccak_padded_len(data@.len() as int),
        forall|i: int|
            0 <= i < padded@.len() ==> #[trigger] padded@[i] == spec_keccak_pad_byte(data@, i),
{
    let len = data.len();
    let final_block_len = len % 136;
    let padded_len = len - final_block_len + 136;

    let mut padded: Vec<u8> = Vec::new();
    let mut i: usize = 0;
    while i < len
        invariant
            0 <= i <= len,
            padded@.len() == i,
            forall|t: int| 0 <= t < i ==> #[trigger] padded@[t] == data@[t],
        decreases len - i,
    {
        padded.push(data[i]);
        i += 1;
    }
    while i < padded_len
        invariant
            len <= i <= padded_len,
            padded@.len() == i,
            forall|t: int| 0 <= t < len ==> #[trigger] padded@[t] == data@[t],
            forall|t: int| len <= t < i ==> #[trigger] padded@[t] == 0u8,
        decreases padded_len - i,
    {
        padded.push(0);
        i += 1;
    }

    if len % 136 == 135 {
        padded[padded_len - 1] = 0b1000_0001u8;
    } else {
        padded[len] = 1;
        padded[padded_len - 1] = 0b1000_0000u8;
    }
    padded
}

/// The big-endian word spelled by four bytes of a message.
pub open spec fn spec_be_word(bytes: Seq<u8>, w: int) -> u32 {
    ((bytes[4 * w] as u32) << 24) | ((bytes[4 * w + 1] as u32) << 16) | ((bytes[4 * w + 2] as u32)
        << 8) | (bytes[4 * w + 3] as u32)
}

/// Packs a whole number of byte quadruples into big-endian words, aligning
/// the padded message for the xor syscall.
#[verifier::loop_isolation(false)]
pub fn bytes_to_be_words(bytes: &Vec<u8>) -> (words: Vec<u32>)
    requires
        bytes@.len() % 4 == 0,
    ensures
        words@.len() == bytes@.len() / 4,
        forall|w: int|
            0 <= w < words@.len() ==> #[trigger] words@[w] == spec_be_word(bytes@, w),
{
    let n = bytes.len() / 4;
    let mut words: Vec<u32> = Vec::new();
    let mut w: usize = 0;
    while w < n
        invariant
            0 <= w <= n,
            words@.len() == w,
            forall|t: int| 0 <= t < w ==> #[trigger] words@[t] == spec_be_word(bytes@, t),
        decreases n - w,
    {
        let b0 = bytes[4 * w];
        let b1 = bytes[4 * w + 1];
        let b2 = bytes[4 * w + 2];
        let b3 = bytes[4 * w + 3];
        words.push(((b0 as u32) << 24u32) | ((b1 as u32) << 16u32) | ((b2 as u32) << 8u32) | (
        b3 as u32));
        w += 1;
    }
    words
}

/// The padded length of a Poseidon2 message: the message rounded up to a
/// whole number of field-element triples, with at least one padding byte.
pub open spec fn spec_poseidon2_padded_len(len: int) -> int {
    (len + 3) / 3 * 3
}

/// The byte at position `i` of the padded Poseidon2 message.
pub open spec fn spec_poseidon2_pad_byte(data: Seq<u8>, i: int) -> u8 {
    let len = data.len() as int;
    let new_size = spec_poseidon2_padded_len(len);
    if i < len {
        data[i]
    } else if len % 3 == 2 {
        if i == len {
            0x81u8
        } else {
            0u8
        }
    } else if i == len {
        1u8
    } else if i == new_size - 1 {
        0x80u8
    } else {
        0u8
    }
}

/// Pads a Poseidon2 message with the `1 .. 0* .. 0x80` padding up to a whole
/// number of field-element triples.
#[verifier::loop_isolation(false)]
pub fn poseidon2_pad(input: &Vec<u8>) -> (padded: Vec<u8>)
    requires
        input@.len() + 3 <= usize::MAX,
    ensures
        padded@.len() == spec_poseidon2_padded_len(input@.len() as int),
        forall|i: int|
            0 <= i < padded@.len() ==> #[trigger] padded@[i] == spec_poseidon2_pad_byte(input@, i),
{
    let l = input.len();
    let new_size = (l + 3) / 3 * 3;

    let mut padded: Vec<u8> = Vec::new();
    let mut i: usize = 0;
    while i < l
        invariant
            0 <= i <= l,
            padded@.len() == i,
            forall|t: int| 0 <= t < i ==> #[trigger] padded@[t] == input@[t],
        decreases l - i,
    {
        padded.push(input[i]);
        i += 1;
    }
    while i < new_size
        invariant
            l <= i <= new_size,
            padded@.len() == i,
            forall|t: int| 0 <= t < l ==> #[trigger] padded@[t] == input@[t],
            forall|t: int| l <= t < i ==> #[trigger] padded@[t] == 0u8,
        decreases new_size - i,
    {
        padded.push(0);
        i += 1;
    }

    if l % 3 == 2 {
        padded[l] = 0b1000_0001u8;
    } else {
        padded[l] = 1;
        padded[new_size - 1] = 0b1000_0000u8;
    }
    padded
}

/// The field element packed from up to three little-endian bytes of a
/// message, starting at byte `3 * c`.
pub open spec fn spec_field_element(bytes: Seq<u8>, c: int) -> u32 {
    let len = bytes.len() as int;
    let i = 3 * c;
    if i + 2 < len {
        ((bytes[i] as u32) | ((bytes[i + 1] as u32) << 8)) | ((bytes[i + 2] as u32) << 16)
    } else if i + 1 < len {
        (bytes[i] as u32) | ((bytes[i + 1] as u32) << 8)
    } else {
        bytes[i] as u32
    }
}

/// Packs each three bytes of the input into one field element, little
/// endian; a final chunk of fewer than three bytes packs the bytes it has.
#[verifier::loop_isolation(false)]
pub fn bytes_to_field_elements(bytes: &Vec<u8>) -> (r: Vec<u32>)
    requires
        bytes@.len() + 2 <= usize::MAX,
    ensures
        r@.len() == (bytes@.len() + 2) / 3,
        forall|c: int| 0 <= c < r@.len() ==> #[trigger] r@[c] == spec_field_element(bytes@, c),
{
    let len = bytes.len();
    let n = (len + 2) / 3;
    let mut r: Vec<u32> = Vec::new();
    let mut c: usize = 0;
    while c < n
        invariant
            0 <= c <= n,
            r@.len() == c,
            forall|t: int| 0 <= t < c ==> #[trigger] r@[t] == spec_field_element(bytes@, t),
        decreases n - c,
    {
        let i = 3 * c;
        let mut value: u32 = bytes[i] as u32;
        if i + 1 < len {
            value = value | ((bytes[i + 1] as u32) << 8u32);
        }
        if i + 2 < len {
            value = value | ((bytes[i + 2] as u32) << 16u32);
        }
        r.push(value);
        c += 1;
    }
    r
}

/// Copies an absorbed chunk over the rate prefix of the Poseidon2 state,
/// leaving the capacity suffix untouched.
#[verifier::loop_isolation(false)]
pub fn absorb_chunk(state: &mut Vec<u32>, chunk: &Vec<u32>)
    requires
        chunk@.len() <= POSEIDON2_RATE,
        old(state)@.len() == POSEIDON2_WIDTH,
    ensures
        final(state)@.len() == POSEIDON2_WIDTH,
        forall|i: int| 0 <= i < chunk@.len() ==> #[trigger] final(state)@[i] == chunk@[i],
        forall|i: int|
            chunk@.len() <= i < POSEIDON2_WIDTH ==> #[trigger] final(state)@[i] == old(state)@[i],
{
    let n = chunk.len();
    let mut i: usize = 0;
    while i < n
        invariant
            0 <= i <= n,
            state@.len() == POSEIDON2_WIDTH,
            forall|t: int| 0 <= t < i ==> #[trigger] state@[t] == chunk@[t],
            forall|t: int|
                i <= t < POSEIDON2_WIDTH ==> #[trigger] state@[t] == old(state)@[t],
        decreases n - i,
    {
        state[i] = chunk[i];
        i += 1;
    }
}

/// Byte `b` of the little-endian serialization of a word.
pub open spec fn spec_le_byte(x: u32, b: int) -> u8 {
    if b == 0 {
        (x & 0xFF) as u8
    } else if b == 1 {
        ((x >> 8) & 0xFF) as u8
    } else if b == 2 {
        ((x >> 16) & 0xFF) as u8
    } else {
        ((x >> 24) & 0xFF) as u8
    }
}

/// Serializes the output prefix of the Poseidon2 state into the 32-byte
/// digest, little endian word by word.
#[verifier::loop_isolation(false)]
pub fn poseidon2_output(state: &Vec<u32>) -> (r: Vec<u8>)
    requires
        state@.len() == POSEIDON2_WIDTH,
    ensures
        r@.len() == 32,
        forall|i: int, b: int|
            0 <= i < POSEIDON2_OUT && 0 <= b < 4 ==> #[trigger] r@[4 * i + b] == spec_le_byte(
                state@[i],
                b,
            ),
{
    let mut r: Vec<u8> = Vec::new();
    let mut i: usize = 0;
    while i < POSEIDON2_OUT
        invariant
            0 <= i <= POSEIDON2_OUT,
            r@.len() == 4 * i,
            forall|t: int, b: int|
                0 <= t < i && 0 <= b < 4 ==> #[trigger] r@[4 * t + b] == spec_le_byte(
                    state@[t],
                    b,
                ),
        decreases POSEIDON2_OUT - i,
    {
        let x = state[i];
        r.push((x & 0xFF) as u8);
        r.push(((x >> 8) & 0xFF) as u8);
        r.push(((x >> 16) & 0xFF) as u8);
        r.push(((x >> 24) & 0xFF) as u8);
        i += 1;
    }
    r
}

} // verus!
