//! Framing of the persisted configuration blob: a 4-byte big-endian length
//! prefix followed by exactly that many payload bytes, stored inside a
//! fixed-size region of persistent storage.

use vstd::prelude::*;

verus! {

/// A big-endian 32-bit value read from four bytes.
pub open spec fn spec_be32(b0: u8, b1: u8, b2: u8, b3: u8) -> u32 {
    (b0 * 0x100_0000 + b1 * 0x1_0000 + b2 * 0x100 + b3) as u32
}

/// The payload a stored region frames, if its length prefix is sound: the
/// first four bytes give the payload length, and the payload must lie
/// entirely inside the region.  A region too short for the prefix, or whose
/// prefix points past its end, frames nothing.
pub open spec fn spec_decode_frame(region: Seq<u8>) -> Option<Seq<u8>> {
    if region.len() >= 4 {
        let n = spec_be32(region[0], region[1], region[2], region[3]) as int;
        if 4 + n <= region.len() {
            Option::Some(region.subrange(4, 4 + n))
        } else {
            Option::None
        }
    } else {
        Option::None
    }
}

/// Read the big-endian 32-bit value stored in four bytes.
pub fn read_be32(b0: u8, b1: u8, b2: u8, b3: u8) -> (n: u32)
    ensures
        n == spec_be32(b0, b1, b2, b3),
{
    (b0 as u32) * 0x100_0000 + (b1 as u32) * 0x1_0000 + (b2 as u32) * 0x100 + (b3 as u32)
}

/// Extract the framed configuration payload from a stored region, or
/// nothing when the region is too short for its own length prefix: a
/// corrupt prefix is reported, never read past.
pub fn decode_frame(region: &[u8]) -> (r: Option<Vec<u8>>)
    ensures
        match r {
            Option::Some(payload) => {
                &&& spec_decode_frame(region@) == Option::Some(payload@)
            },
            Option::None => spec_decode_frame(region@) is None,
        },
{
    if region.len() < 4 {
        return Option::None;
    }
    let n = read_be32(region[0], region[1], region[2], region[3]);
    let n = n as usize;
    if n > region.len() - 4 {
        return Option::None;
    }
    let mut payload: Vec<u8> = Vec::new();
    let mut i: usize = 0;
    while i < n
        invariant
            region@.len() >= 4,
            region@.len() <= usize::MAX,
            n + 4 <= region@.len(),
            i <= n,
            payload@.len() == i,
            forall|j: int| 0 <= j < i ==> payload@[j] == region@[4 + j],
        decreases n - i,
    {
        payload.push(region[4 + i]);
        i = i + 1;
    }
    proof {
        assert(payload@ =~= region@.subrange(4, 4 + n as int));
    }
    Option::Some(payload)
}

/// Frame a configuration payload for storage: its length as a 4-byte
/// big-endian prefix, then the payload itself.  The payload must fit the
/// 32-bit length field.
pub fn encode_frame(payload: &[u8]) -> (r: Vec<u8>)
    requires
        payload@.len() <= u32::MAX,
    ensures
        r@.len() == 4 + payload@.len(),
        spec_decode_frame(r@) == Option::Some(payload@),
{
    let n = payload.len() as u32;
    let b0 = (n / 0x100_0000) as u8;
    let b1 = ((n / 0x1_0000) % 0x100) as u8;
    let b2 = ((n / 0x100) % 0x100) as u8;
    let b3 = (n % 0x100) as u8;
    let mut r: Vec<u8> = Vec::new();
    r.push(b0);
    r.push(b1);
    r.push(b2);
    r.push(b3);
    proof {
        assert(spec_be32(b0, b1, b2, b3) == n) by (nonlinear_arith)
            requires
                b0 == n / 0x100_0000,
                b1 == (n / 0x1_0000) % 0x100,
                b2 == (n / 0x100) % 0x100,
                b3 == n % 0x100,
                n <= u32::MAX,
        ;
    }
    let mut i: usize = 0;
    while i < payload.len()
        invariant
            r@.len() == 4 + i,
            i <= payload@.len(),
            r@[0] == (payload@.len() as u32) / 0x100_0000,
            r@[1] == ((payload@.len() as u32) / 0x1_0000) % 0x100,
            r@[2] == ((payload@.len() as u32) / 0x100) % 0x100,
            r@[3] == (payload@.len() as u32) % 0x100,
            spec_be32(r@[0], r@[1], r@[2], r@[3]) == payload@.len(),
            forall|j: int| 0 <= j < i ==> r@[4 + j] == payload@[j],
        decreases payload@.len() - i,
    {
        r.push(payload[i]);
        i = i + 1;
    }
    proof {
        assert(spec_decode_frame(r@) matches Option::Some(p) && p =~= payload@);
    }
    r
}

/// Round trip: a payload framed for storage decodes back to itself, and it
/// still does after any padding is appended to fill the fixed-size region,
/// as long as the padded region still holds the full frame.
pub proof fn lemma_frame_round_trip(payload: Seq<u8>, padding: Seq<u8>)
    requires
        payload.len() <= u32::MAX,
    ensures
        ({
            let framed = seq![
                ((payload.len() as u32) / 0x100_0000) as u8,
                (((payload.len() as u32) / 0x1_0000) % 0x100) as u8,
                (((payload.len() as u32) / 0x100) % 0x100) as u8,
                ((payload.len() as u32) % 0x100) as u8,
            ] + payload + padding;
            spec_decode_frame(framed) == Option::Some(payload)
        }),
{
    let n = payload.len() as u32;
    let b0 = (n / 0x100_0000) as u8;
    let b1 = ((n / 0x1_0000) % 0x100) as u8;
    let b2 = ((n / 0x100) % 0x100) as u8;
    let b3 = (n % 0x100) as u8;
    let framed = seq![b0, b1, b2, b3] + payload + padding;
    assert(spec_be32(b0, b1, b2, b3) == n) by (nonlinear_arith)
        requires
            b0 == n / 0x100_0000,
            b1 == (n / 0x1_0000) % 0x100,
            b2 == (n / 0x100) % 0x100,
            b3 == n % 0x100,
            n <= u32::MAX,
    ;
    assert(framed.subrange(4, 4 + payload.len() as int) =~= payload);
}

} // verus!
