use vstd::prelude::*;

verus! {

/// The stable memory that holds the heap state across upgrades.
pub const UPGRADES_MEMORY_ID: u8 = 0;

/// The stable memory that holds the wasm of the user canisters.
pub const INDIVIDUAL_USER_WASM_MEMORY_ID: u8 = 1;

/// The offset in the upgrades memory where the serialised heap state
/// starts, after its length.
pub const HEAP_DATA_OFFSET: u64 = 4;

/// The number that four bytes encode, least significant byte first.
pub open spec fn little_endian_u32(bytes: Seq<u8>) -> nat {
    bytes[0] as nat + 256 * (bytes[1] as nat) + 65536 * (bytes[2] as nat) + 16777216 * (bytes[3] as nat)
}

/// The length of the serialised heap state, read from the four bytes at the
/// start of the upgrades memory, least significant byte first.
pub fn heap_data_len(header: &[u8; 4]) -> (len: u32)
    ensures
        len == little_endian_u32(header@),
        len == header@[0] + 256 * header@[1] + 65536 * header@[2] + 16777216 * header@[3],
{
    let b0 = header[0] as u32;
    let b1 = header[1] as u32;
    let b2 = header[2] as u32;
    let b3 = header[3] as u32;
    b0 + 256 * b1 + 65536 * b2 + 16777216 * b3
}

/// The four bytes of `n`, least significant first, as `u32::to_le_bytes`
/// writes them.
pub open spec fn le_bytes_of(n: u32) -> Seq<u8> {
    seq![
        (n % 256) as u8,
        ((n / 256) % 256) as u8,
        ((n / 65536) % 256) as u8,
        (n / 16777216) as u8,
    ]
}

/// Reading a length back gives the length that was written: the four bytes
/// of any `u32`, least significant first, decode to that number.
pub proof fn lemma_length_round_trips(n: u32)
    ensures
        little_endian_u32(le_bytes_of(n)) == n,
{
    let b = le_bytes_of(n);
    assert(b[0] == n % 256);
    assert(b[1] == (n / 256) % 256);
    assert(b[2] == (n / 65536) % 256);
    assert(b[3] == n / 16777216);
}

/// Different headers give different lengths: every byte of the header
/// counts.
pub proof fn lemma_length_is_injective(a: Seq<u8>, b: Seq<u8>)
    requires
        a.len() == 4,
        b.len() == 4,
        little_endian_u32(a) == little_endian_u32(b),
    ensures
        a == b,
{
    assert(a[0] == b[0]);
    assert(a[1] == b[1]);
    assert(a[2] == b[2]);
    assert(a[3] == b[3]);
    assert(a =~= b);
}

} // verus!
