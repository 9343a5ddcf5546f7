//! CRC-16/CCITT-FALSE: polynomial 0x1021, initial value 0xFFFF, no reflection, no final
//! XOR. The checksum is computed bit by bit, most significant bit first.
use vstd::prelude::*;

verus! {

/// Initial register value.
pub const CRC16_INIT: u16 = 0xffff;

/// One shift of the register: shift left and, if a one left the top, add the polynomial.
pub open spec fn crc_shift(c: u16) -> u16 {
    if c & 0x8000u16 != 0 {
        ((c << 1u16) ^ 0x1021u16) as u16
    } else {
        (c << 1u16) as u16
    }
}

/// The register after one byte: the byte enters the top of the register, then eight shifts.
pub open spec fn crc_byte(c: u16, b: u8) -> u16 {
    let x = (c ^ ((b as u16) << 8u16)) as u16;
    crc_shift(crc_shift(crc_shift(crc_shift(crc_shift(crc_shift(crc_shift(crc_shift(x))))))))
}

/// The register after the bytes of `s`, starting from `c`.
pub open spec fn crc_fold(c: u16, s: Seq<u8>) -> u16
    decreases s.len(),
{
    if s.len() == 0 {
        c
    } else {
        crc_byte(crc_fold(c, s.drop_last()), s.last())
    }
}

/// CRC-16/CCITT-FALSE of the bytes of `s`.
pub open spec fn crc16_ccitt_false(s: Seq<u8>) -> u16 {
    crc_fold(CRC16_INIT, s)
}

fn shift(c: u16) -> (r: u16)
    ensures
        r == crc_shift(c),
{
    if c & 0x8000 != 0 {
        (c << 1) ^ 0x1021
    } else {
        c << 1
    }
}

/// Feeds one byte into the register `c`.
pub fn update_byte(c: u16, b: u8) -> (r: u16)
    ensures
        r == crc_byte(c, b),
{
    let x: u16 = c ^ ((b as u16) << 8);
    shift(shift(shift(shift(shift(shift(shift(shift(x))))))))
}

/// Feeds the bytes of `data` into the register `c`.
pub fn update(c: u16, data: &[u8]) -> (r: u16)
    ensures
        r == crc_fold(c, data@),
{
    let mut acc: u16 = c;
    let mut i: usize = 0;
    while i < data.len()
        invariant
            i <= data@.len(),
            acc == crc_fold(c, data@.subrange(0, i as int)),
        decreases data@.len() - i,
    {
        assert(data@.subrange(0, i as int + 1).drop_last() =~= data@.subrange(0, i as int));
        acc = update_byte(acc, data[i]);
        i = i + 1;
    }
    assert(data@.subrange(0, data@.len() as int) =~= data@);
    acc
}

/// CRC-16/CCITT-FALSE of `data`.
pub fn crc16(data: &[u8]) -> (r: u16)
    ensures
        r == crc16_ccitt_false(data@),
{
    update(CRC16_INIT, data)
}

/// Feeding two spans one after the other is feeding their concatenation.
pub proof fn lemma_crc_fold_append(c: u16, a: Seq<u8>, b: Seq<u8>)
    ensures
        crc_fold(c, a + b) == crc_fold(crc_fold(c, a), b),
    decreases b.len(),
{
    if b.len() == 0 {
        assert(a + b =~= a);
    } else {
        assert((a + b).drop_last() =~= a + b.drop_last());
        lemma_crc_fold_append(c, a, b.drop_last());
    }
}

proof fn lemma_crc_shift_injective(x: u16, y: u16)
    requires
        crc_shift(x) == crc_shift(y),
    ensures
        x == y,
{
    assert(((if x & 0x8000u16 != 0 {
        ((x << 1u16) ^ 0x1021u16) as u16
    } else {
        (x << 1u16) as u16
    }) == (if y & 0x8000u16 != 0 {
        ((y << 1u16) ^ 0x1021u16) as u16
    } else {
        (y << 1u16) as u16
    })) ==> x == y) by (bit_vector);
}

proof fn lemma_crc_byte_injective(c1: u16, b1: u8, c2: u16, b2: u8)
    requires
        crc_byte(c1, b1) == crc_byte(c2, b2),
    ensures
        (c1 ^ ((b1 as u16) << 8u16)) as u16 == (c2 ^ ((b2 as u16) << 8u16)) as u16,
{
    let x1 = (c1 ^ ((b1 as u16) << 8u16)) as u16;
    let x2 = (c2 ^ ((b2 as u16) << 8u16)) as u16;
    lemma_crc_shift_injective(
        crc_shift(crc_shift(crc_shift(crc_shift(crc_shift(crc_shift(crc_shift(x1))))))),
        crc_shift(crc_shift(crc_shift(crc_shift(crc_shift(crc_shift(crc_shift(x2))))))),
    );
    lemma_crc_shift_injective(
        crc_shift(crc_shift(crc_shift(crc_shift(crc_shift(crc_shift(x1)))))),
        crc_shift(crc_shift(crc_shift(crc_shift(crc_shift(crc_shift(x2)))))),
    );
    lemma_crc_shift_injective(
        crc_shift(crc_shift(crc_shift(crc_shift(crc_shift(x1))))),
        crc_shift(crc_shift(crc_shift(crc_shift(crc_shift(x2))))),
    );
    lemma_crc_shift_injective(
        crc_shift(crc_shift(crc_shift(crc_shift(x1)))),
        crc_shift(crc_shift(crc_shift(crc_shift(x2)))),
    );
    lemma_crc_shift_injective(
        crc_shift(crc_shift(crc_shift(x1))),
        crc_shift(crc_shift(crc_shift(x2))),
    );
    lemma_crc_shift_injective(crc_shift(crc_shift(x1)), crc_shift(crc_shift(x2)));
    lemma_crc_shift_injective(crc_shift(x1), crc_shift(x2));
    lemma_crc_shift_injective(x1, x2);
}

/// Registers that differ stay different after the same bytes.
proof fn lemma_crc_fold_keeps_difference(c1: u16, c2: u16, s: Seq<u8>)
    requires
        c1 != c2,
    ensures
        crc_fold(c1, s) != crc_fold(c2, s),
    decreases s.len(),
{
    if s.len() > 0 {
        lemma_crc_fold_keeps_difference(c1, c2, s.drop_last());
        let d1 = crc_fold(c1, s.drop_last());
        let d2 = crc_fold(c2, s.drop_last());
        let b = s.last();
        if crc_byte(d1, b) == crc_byte(d2, b) {
            lemma_crc_byte_injective(d1, b, d2, b);
            assert(((d1 ^ ((b as u16) << 8u16)) as u16 == (d2 ^ ((b as u16) << 8u16)) as u16)
                ==> d1 == d2) by (bit_vector);
        }
    }
}

/// Two byte sequences of the same length that differ in exactly one position have
/// different checksums: every change of a single byte, and so every single-bit error,
/// is detected.
pub proof fn lemma_crc_detects_single_byte_change(s: Seq<u8>, t: Seq<u8>, k: int)
    requires
        s.len() == t.len(),
        0 <= k < s.len(),
        s[k] != t[k],
        forall|i: int| 0 <= i < s.len() && i != k ==> s[i] == t[i],
    ensures
        crc16_ccitt_false(s) != crc16_ccitt_false(t),
{
    let pre = s.subrange(0, k);
    let post = s.subrange(k + 1, s.len() as int);
    assert(s =~= pre.push(s[k]) + post);
    assert(t =~= pre.push(t[k]) + post);
    lemma_crc_fold_append(CRC16_INIT, pre.push(s[k]), post);
    lemma_crc_fold_append(CRC16_INIT, pre.push(t[k]), post);
    let c = crc_fold(CRC16_INIT, pre);
    assert(pre.push(s[k]).drop_last() =~= pre);
    assert(pre.push(t[k]).drop_last() =~= pre);
    let sk = s[k];
    let tk = t[k];
    if crc_byte(c, sk) == crc_byte(c, tk) {
        lemma_crc_byte_injective(c, sk, c, tk);
        assert(((c ^ ((sk as u16) << 8u16)) as u16 == (c ^ ((tk as u16) << 8u16)) as u16) ==> sk
            == tk) by (bit_vector);
    }
    lemma_crc_fold_keeps_difference(crc_byte(c, sk), crc_byte(c, tk), post);
}

} // verus!
