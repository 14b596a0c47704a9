//! The sensor read protocol: the measurement command, the CRC-8 checksum
//! (polynomial 0x31, initial register 0xFF, no reflection) that guards each
//! two-byte quantity of the six-byte response, and the big-endian decoding of
//! the raw temperature and humidity words.
//!
//! The bus transfer itself (select address, write command, wait for the
//! conversion, read six bytes) is done by the caller; this module checks and
//! decodes the bytes.

use vstd::prelude::*;

verus! {

/// Bus address of the sensor wired to the default address pin level.
pub const SHT_DEFAULT_ADDR: u16 = 0x44;

/// Bus address of the sensor wired to the alternate address pin level.
pub const SHT_ALTERNATE_ADDR: u16 = 0x45;

/// One round of the CRC-8 register: shift left once and fold in the
/// polynomial 0x31 when the bit shifted out was set.
pub open spec fn crc8_shift(r: u8) -> u8 {
    if r & 0x80 != 0 {
        (r << 1) ^ 0x31
    } else {
        r << 1
    }
}

/// The CRC-8 register after `n` shift rounds starting from `r`.
pub open spec fn crc8_shifts(r: u8, n: nat) -> u8
    decreases n,
{
    if n == 0 {
        r
    } else {
        crc8_shift(crc8_shifts(r, (n - 1) as nat))
    }
}

/// Folds one input byte into the CRC-8 register: xor it in, then shift eight
/// times.
pub open spec fn crc8_byte_step(r: u8, b: u8) -> u8 {
    crc8_shifts(r ^ b, 8)
}

/// The CRC-8 of a byte sequence: start the register at 0xFF and fold in each
/// byte in order.
pub open spec fn crc8_spec(data: Seq<u8>) -> u8
    decreases data.len(),
{
    if data.len() == 0 {
        0xFF
    } else {
        crc8_byte_step(crc8_spec(data.drop_last()), data.last())
    }
}

/// A checksum byte `c` validates against `data` exactly when it equals the
/// CRC-8 of `data`.
pub open spec fn crc8_valid(data: Seq<u8>, c: u8) -> bool {
    crc8_spec(data) == c
}

/// Computes the CRC-8 of `data`.
pub fn checksum(data: &[u8]) -> (r: u8)
    ensures
        r == crc8_spec(data@),
{
    let mut reg: u8 = 0xFF;
    let mut i: usize = 0;
    while i < data.len()
        invariant
            i <= data@.len(),
            reg == crc8_spec(data@.take(i as int)),
        decreases data@.len() - i,
    {
        let ghost reg_in = (reg ^ data@[i as int]) as u8;
        reg = reg ^ data[i];
        let mut j: usize = 0;
        while j < 8
            invariant
                j <= 8,
                reg == crc8_shifts(reg_in, j as nat),
            decreases 8 - j,
        {
            if reg & 0x80 != 0 {
                reg = (reg << 1) ^ 0x31;
            } else {
                reg = reg << 1;
            }
            j += 1;
        }
        proof {
            assert(data@.take(i + 1).drop_last() =~= data@.take(i as int));
            assert(reg == crc8_spec(data@.take(i + 1)));
        }
        i += 1;
    }
    proof {
        assert(data@.take(data@.len() as int) =~= data@);
    }
    reg
}

/// The raw content of one six-byte sensor response: the two big-endian data
/// words and whether each word's trailing checksum byte validated.
pub struct RawReading {
    pub temp_raw: u16,
    pub hum_raw: u16,
    pub temp_crc_ok: bool,
    pub hum_crc_ok: bool,
}

/// The big-endian 16-bit word formed by two bytes.
pub open spec fn be16(msb: u8, lsb: u8) -> u16 {
    (msb * 256 + lsb) as u16
}

/// Selects one of the two supported sensor bus addresses.
#[derive(Clone, Copy, Debug, PartialEq, Eq, Structural)]
pub enum SHTAddr {
    Default,
    Alternate,
}

impl SHTAddr {
    /// The bus address this selector stands for.
    pub open spec fn addr_spec(self) -> u16 {
        match self {
            SHTAddr::Default => SHT_DEFAULT_ADDR,
            SHTAddr::Alternate => SHT_ALTERNATE_ADDR,
        }
    }
}

/// One temperature/humidity sensor, identified by its bus address.
pub struct TempSensor {
    pub addr: u16,
}

impl TempSensor {
    /// Binds a sensor to one of the two supported bus addresses.
    pub fn new(addr: SHTAddr) -> (r: Self)
        ensures
            r.addr == addr.addr_spec(),
    {
        Self {
            addr: match addr {
                SHTAddr::Default => SHT_DEFAULT_ADDR,
                SHTAddr::Alternate => SHT_ALTERNATE_ADDR,
            },
        }
    }

    /// The two-byte command that starts a high-repeatability single-shot
    /// measurement with clock stretching disabled.
    pub fn measure_command() -> (r: Vec<u8>)
        ensures
            r@ =~= seq![0x24u8, 0x00u8],
    {
        let mut cmd: Vec<u8> = Vec::new();
        cmd.push(0x24);
        cmd.push(0x00);
        cmd
    }

    /// Checks a checksum byte against the CRC-8 of `data`.
    pub fn crc(data: &[u8], crc: u8) -> (r: bool)
        ensures
            r == crc8_valid(data@, crc),
    {
        let computed = checksum(data);
        computed == crc
    }

    /// Decodes one six-byte response, laid out as
    /// [tempMSB, tempLSB, tempCRC, humMSB, humLSB, humCRC]: extracts both
    /// big-endian words and validates each against its checksum byte.
    pub fn decode(buf: &[u8]) -> (r: RawReading)
        requires
            buf@.len() == 6,
        ensures
            r.temp_raw == be16(buf@[0], buf@[1]),
            r.hum_raw == be16(buf@[3], buf@[4]),
            r.temp_crc_ok == crc8_valid(seq![buf@[0], buf@[1]], buf@[2]),
            r.hum_crc_ok == crc8_valid(seq![buf@[3], buf@[4]], buf@[5]),
    {
        let mut temp_pair: Vec<u8> = Vec::new();
        temp_pair.push(buf[0]);
        temp_pair.push(buf[1]);
        let temp_crc_ok = Self::crc(temp_pair.as_slice(), buf[2]);

        let mut hum_pair: Vec<u8> = Vec::new();
        hum_pair.push(buf[3]);
        hum_pair.push(buf[4]);
        let hum_crc_ok = Self::crc(hum_pair.as_slice(), buf[5]);

        proof {
            assert(temp_pair@ =~= seq![buf@[0], buf@[1]]);
            assert(hum_pair@ =~= seq![buf@[3], buf@[4]]);
        }

        let temp_raw = buf[0] as u16 * 256 + buf[1] as u16;
        let hum_raw = buf[3] as u16 * 256 + buf[4] as u16;

        RawReading { temp_raw, hum_raw, temp_crc_ok, hum_crc_ok }
    }
}

/// The checksum of a byte sequence always validates against that sequence.
pub proof fn lemma_checksum_self_validates(data: Seq<u8>)
    ensures
        crc8_valid(data, crc8_spec(data)),
{
}

/// The CRC-8 register after the eight shift rounds of one byte, written out
/// round by round so that bit-level provers can unfold it.
pub open spec fn crc8_round8(r: u8) -> u8 {
    crc8_shift(
        crc8_shift(
            crc8_shift(crc8_shift(crc8_shift(crc8_shift(crc8_shift(crc8_shift(r)))))),
        ),
    )
}

/// The eight recursive shift rounds equal the written-out form.
pub proof fn lemma_shifts_as_round8(r: u8)
    ensures
        crc8_shifts(r, 8) == crc8_round8(r),
{
    assert(crc8_shifts(r, 0) == r);
    assert(crc8_shifts(r, 1) == crc8_shift(r));
    assert(crc8_shifts(r, 2) == crc8_shift(crc8_shifts(r, 1)));
    assert(crc8_shifts(r, 3) == crc8_shift(crc8_shifts(r, 2)));
    assert(crc8_shifts(r, 4) == crc8_shift(crc8_shifts(r, 3)));
    assert(crc8_shifts(r, 5) == crc8_shift(crc8_shifts(r, 4)));
    assert(crc8_shifts(r, 6) == crc8_shift(crc8_shifts(r, 5)));
    assert(crc8_shifts(r, 7) == crc8_shift(crc8_shifts(r, 6)));
    assert(crc8_shifts(r, 8) == crc8_shift(crc8_shifts(r, 7)));
}

/// One CRC-8 shift round never maps two registers to the same value: the bit
/// shifted out is re-encoded in the parity of the polynomial.
pub proof fn lemma_shift_injective(r: u8, s: u8)
    requires
        crc8_shift(r) == crc8_shift(s),
    ensures
        r == s,
{
    assert(r == s) by (bit_vector)
        requires
            crc8_shift(r) == crc8_shift(s),
    ;
}

/// Eight shift rounds are injective, being a composition of injective rounds.
pub proof fn lemma_round8_injective(r: u8, s: u8)
    requires
        crc8_round8(r) == crc8_round8(s),
    ensures
        r == s,
{
    let r1 = crc8_shift(r);
    let r2 = crc8_shift(r1);
    let r3 = crc8_shift(r2);
    let r4 = crc8_shift(r3);
    let r5 = crc8_shift(r4);
    let r6 = crc8_shift(r5);
    let r7 = crc8_shift(r6);
    let s1 = crc8_shift(s);
    let s2 = crc8_shift(s1);
    let s3 = crc8_shift(s2);
    let s4 = crc8_shift(s3);
    let s5 = crc8_shift(s4);
    let s6 = crc8_shift(s5);
    let s7 = crc8_shift(s6);
    lemma_shift_injective(r7, s7);
    lemma_shift_injective(r6, s6);
    lemma_shift_injective(r5, s5);
    lemma_shift_injective(r4, s4);
    lemma_shift_injective(r3, s3);
    lemma_shift_injective(r2, s2);
    lemma_shift_injective(r1, s1);
    lemma_shift_injective(r, s);
}

/// Folding the same byte into two different register values keeps them
/// different: the xor preserves the difference and the eight shift rounds are
/// injective.
pub proof fn lemma_byte_step_injective(r1: u8, r2: u8, b: u8)
    requires
        r1 != r2,
    ensures
        crc8_byte_step(r1, b) != crc8_byte_step(r2, b),
{
    lemma_shifts_as_round8(r1 ^ b);
    lemma_shifts_as_round8(r2 ^ b);
    assert(r1 ^ b != r2 ^ b) by (bit_vector)
        requires
            r1 != r2,
    ;
    if crc8_round8(r1 ^ b) == crc8_round8(r2 ^ b) {
        lemma_round8_injective(r1 ^ b, r2 ^ b);
        assert(false);
    }
}

/// Two byte sequences that differ in exactly one byte have different CRC-8s:
/// the difference enters the register at that byte and every later fold
/// preserves it.
pub proof fn lemma_crc8_differs(d1: Seq<u8>, d2: Seq<u8>, j: int)
    requires
        d1.len() == d2.len(),
        0 <= j < d1.len(),
        d1[j] != d2[j],
        forall|p: int| 0 <= p < d1.len() && p != j ==> d1[p] == d2[p],
    ensures
        crc8_spec(d1) != crc8_spec(d2),
    decreases d1.len(),
{
    if j == d1.len() - 1 {
        assert(d1.drop_last() =~= d2.drop_last());
        let r = crc8_spec(d1.drop_last());
        let b1 = d1.last();
        let b2 = d2.last();
        assert(r ^ b1 != r ^ b2) by (bit_vector)
            requires
                b1 != b2,
        ;
        lemma_shifts_as_round8(r ^ b1);
        lemma_shifts_as_round8(r ^ b2);
        if crc8_round8(r ^ b1) == crc8_round8(r ^ b2) {
            lemma_round8_injective(r ^ b1, r ^ b2);
            assert(false);
        }
    } else {
        lemma_crc8_differs(d1.drop_last(), d2.drop_last(), j);
        assert(d1.last() == d2.last());
        lemma_byte_step_injective(crc8_spec(d1.drop_last()), crc8_spec(d2.drop_last()), d1.last());
    }
}

/// Flipping any single bit of any byte of the data changes its CRC-8, so the
/// corrupted bytes no longer validate against the original checksum.
pub proof fn lemma_corrupt_data_detected(data: Seq<u8>, j: int, k: u8)
    requires
        0 <= j < data.len(),
        k < 8,
    ensures
        !crc8_valid(data.update(j, data[j] ^ (1u8 << k)), crc8_spec(data)),
{
    let b = data[j];
    assert(b ^ (1u8 << k) != b) by (bit_vector)
        requires
            k < 8,
    ;
    lemma_crc8_differs(data.update(j, data[j] ^ (1u8 << k)), data, j);
}

/// Flipping any single bit of the checksum byte makes validation fail.
pub proof fn lemma_corrupt_checksum_detected(data: Seq<u8>, k: u8)
    requires
        k < 8,
    ensures
        !crc8_valid(data, crc8_spec(data) ^ (1u8 << k)),
{
    let c = crc8_spec(data);
    assert((c ^ (1u8 << k)) != c) by (bit_vector)
        requires
            k < 8,
    ;
}

} // verus!
