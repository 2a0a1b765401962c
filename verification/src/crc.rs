//! Frame checksum: CRC-16/MCRF4XX.

use vstd::prelude::*;

verus! {

/// The reversed polynomial `0x1021` of the checksum.
pub const CRC_POLYNOMIAL_REVERSED: u16 = 0x8408;

/// The register a checksum starts from.
pub const CRC_INITIAL: u16 = 0xFFFF;

/// The checksum register after one bit left it at the low end.
pub open spec fn crc_shift(register: u16) -> u16 {
    if register & 1 == 1 {
        (register >> 1) ^ CRC_POLYNOMIAL_REVERSED
    } else {
        register >> 1
    }
}

/// The checksum register after one byte went in: the byte is added to the low half and eight
/// bits leave.
pub open spec fn crc_byte(register: u16, byte: u8) -> u16 {
    let r0 = register ^ (byte as u16);
    let r1 = crc_shift(r0);
    let r2 = crc_shift(r1);
    let r3 = crc_shift(r2);
    let r4 = crc_shift(r3);
    let r5 = crc_shift(r4);
    let r6 = crc_shift(r5);
    let r7 = crc_shift(r6);
    crc_shift(r7)
}

/// The checksum register after the bytes of `data` went in, first byte first.
pub open spec fn crc_digest(register: u16, data: Seq<u8>) -> u16
    decreases data.len(),
{
    if data.len() == 0 {
        register
    } else {
        crc_digest(crc_byte(register, data[0]), data.skip(1))
    }
}

/// CRC-16/MCRF4XX of `data`: polynomial `0x1021`, register preset to `0xFFFF`, input and output
/// reflected, nothing added at the end.
pub open spec fn crc16_mcrf4xx(data: Seq<u8>) -> u16 {
    crc_digest(CRC_INITIAL, data)
}

/// Feeding two pieces of data one after the other leaves the register where feeding them as one
/// piece leaves it.
pub proof fn lemma_crc_digest_in_pieces(register: u16, first: Seq<u8>, second: Seq<u8>)
    ensures
        crc_digest(crc_digest(register, first), second) == crc_digest(register, first + second),
    decreases first.len(),
{
    if first.len() == 0 {
        assert(first + second =~= second);
    } else {
        let all = first + second;
        assert(all[0] == first[0]);
        assert(all.skip(1) =~= first.skip(1) + second);
        lemma_crc_digest_in_pieces(crc_byte(register, first[0]), first.skip(1), second);
    }
}

/// The checksum of data does not depend on where the data is cut into two pieces.
pub proof fn lemma_crc_of_parts(first: Seq<u8>, second: Seq<u8>)
    ensures
        crc16_mcrf4xx(first + second) == crc_digest(crc16_mcrf4xx(first), second),
{
    lemma_crc_digest_in_pieces(CRC_INITIAL, first, second);
}

/// The checksum register after the bytes of `bytes` went in, computed bit by bit as the
/// definition says. Feeding data in pieces is a chain of calls, each one starting from the
/// register that the one before left.
pub fn crc16_digest(register: u16, bytes: &[u8]) -> (crc: u16)
    ensures
        crc == crc_digest(register, bytes@),
{
    let mut crc: u16 = register;
    let mut i: usize = 0;
    proof {
        assert(bytes@.skip(0) =~= bytes@);
    }
    while i < bytes.len()
        invariant
            i <= bytes.len(),
            crc_digest(crc, bytes@.skip(i as int)) == crc_digest(register, bytes@),
        decreases bytes.len() - i,
    {
        proof {
            assert(bytes@.skip(i as int)[0] == bytes@[i as int]);
            assert(bytes@.skip(i as int).skip(1) =~= bytes@.skip(i + 1));
        }
        let mut shifted: u16 = crc ^ (bytes[i] as u16);
        let mut bit: usize = 0;
        let ghost start = shifted;
        while bit < 8
            invariant
                bit <= 8,
                shifted == shifts(start, bit as nat),
            decreases 8 - bit,
        {
            shifted = if shifted & 1 == 1 {
                (shifted >> 1) ^ CRC_POLYNOMIAL_REVERSED
            } else {
                shifted >> 1
            };
            bit = bit + 1;
        }
        proof {
            reveal_with_fuel(shifts, 9);
        }
        crc = shifted;
        i = i + 1;
    }
    crc
}

/// The register after `count` shifts.
pub open spec fn shifts(register: u16, count: nat) -> u16
    decreases count,
{
    if count == 0 {
        register
    } else {
        crc_shift(shifts(register, (count - 1) as nat))
    }
}

/// The checksum of `bytes`.
pub fn crc16(bytes: &[u8]) -> (crc: u16)
    ensures
        crc == crc16_mcrf4xx(bytes@),
{
    crc16_digest(CRC_INITIAL, bytes)
}

} // verus!
