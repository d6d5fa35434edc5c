//! The selection and its record in persistent memory.
//!
//! The record is eight bytes at a fixed offset near the top of flash:
//! bytes 0..4 hold the tone index as a little-endian `u32`, byte 4 holds the
//! enabled flag (0 is off, anything else on), bytes 5..8 are zero. Flash
//! can only clear bits: erasing sets every byte of a block to `0xFF`, and
//! programming a byte ANDs the new value into it.
use vstd::prelude::*;
use crate::tones::TONE_COUNT;

verus! {

/// Bytes in the configuration record.
pub const RECORD_LEN: usize = 8;

/// Total size of the flash, in bytes.
pub const FLASH_SIZE: usize = 2097152;

/// Size of an erase block, in bytes.
pub const ERASE_SIZE: usize = 4096;

/// Offset of the record: the start of the last erase block.
pub const CONFIG_OFFSET: u32 = 2093056;

/// The value of an erased byte.
pub const ERASED_BYTE: u8 = 0xFF;

/// The selected tone and whether the tone is played.
#[derive(Clone, Copy, Debug, PartialEq, Eq, Structural)]
pub struct Selection {
    pub frequency_index: usize,
    pub enabled: bool,
}

impl Selection {
    /// The index names a tone of the table.
    pub open spec fn valid(&self) -> bool {
        self.frequency_index < TONE_COUNT
    }
}

/// What a blank or corrupt record reads as: the first tone, enabled.
pub open spec fn default_selection() -> Selection {
    Selection { frequency_index: 0, enabled: true }
}

/// The little-endian value of the first four bytes of `b`.
pub open spec fn le_value(b: Seq<u8>) -> int {
    b[0] + 256 * b[1] + 65536 * b[2] + 16777216 * b[3]
}

/// The record that stores `s`.
pub open spec fn encode_record(s: Selection) -> Seq<u8> {
    let x = s.frequency_index as int;
    seq![
        (x % 256) as u8,
        (x / 256 % 256) as u8,
        (x / 65536 % 256) as u8,
        (x / 16777216 % 256) as u8,
        if s.enabled { 1u8 } else { 0u8 },
        0u8,
        0u8,
        0u8,
    ]
}

/// The selection that record `b` reads as.
pub open spec fn decode_record(b: Seq<u8>) -> Selection {
    if le_value(b) < TONE_COUNT {
        Selection { frequency_index: le_value(b) as usize, enabled: b[4] != 0 }
    } else {
        default_selection()
    }
}

/// What storing `cfg` over record `stored` writes: nothing when the record
/// already reads as `cfg`, else the new record, after an erase.
pub open spec fn write_plan(stored: Seq<u8>, cfg: Selection) -> Option<Seq<u8>> {
    if decode_record(stored) == cfg {
        None
    } else {
        Some(encode_record(cfg))
    }
}

/// Bytes `data` programmed over bytes `current`: each byte ANDed in.
pub open spec fn programmed(current: Seq<u8>, data: Seq<u8>) -> Seq<u8> {
    Seq::new(data.len(), |i: int| current[i] & data[i])
}

/// An erased record.
pub open spec fn erased_record() -> Seq<u8> {
    Seq::new(RECORD_LEN as nat, |i: int| ERASED_BYTE)
}

/// The record after carrying out `plan` on flash that holds `stored`.
pub open spec fn after_plan(stored: Seq<u8>, plan: Option<Seq<u8>>) -> Seq<u8> {
    match plan {
        None => stored,
        Some(data) => programmed(erased_record(), data),
    }
}

/// The selection stored in `bytes`, or the default one when the stored
/// index names no tone (blank or corrupt flash).
pub fn read_config(bytes: &[u8; 8]) -> (r: Selection)
    ensures
        r == decode_record(bytes@),
        r.valid(),
{
    let index: u32 = bytes[0] as u32 + 256 * bytes[1] as u32 + 65536 * bytes[2] as u32
        + 16777216 * bytes[3] as u32;
    if (index as usize) < TONE_COUNT {
        Selection { frequency_index: index as usize, enabled: bytes[4] != 0 }
    } else {
        Selection { frequency_index: 0, enabled: true }
    }
}

/// The record that stores `cfg`.
pub fn encode_config(cfg: Selection) -> (r: [u8; 8])
    requires
        cfg.valid(),
    ensures
        r@ == encode_record(cfg),
{
    let x: u32 = cfg.frequency_index as u32;
    let r: [u8; 8] = [
        (x % 256) as u8,
        (x / 256 % 256) as u8,
        (x / 65536 % 256) as u8,
        (x / 16777216 % 256) as u8,
        if cfg.enabled { 1u8 } else { 0u8 },
        0u8,
        0u8,
        0u8,
    ];
    assert(r@ =~= encode_record(cfg));
    r
}

/// What storing `cfg` takes, given the record that flash holds now:
/// `None` when that record already reads as `cfg`, so that flash is not worn
/// by a redundant save; else the record to program after erasing its block.
pub fn write_config(stored: &[u8; 8], cfg: Selection) -> (r: Option<[u8; 8]>)
    requires
        cfg.valid(),
    ensures
        match r {
            Some(data) => write_plan(stored@, cfg) == Some(data@),
            None => write_plan(stored@, cfg) is None,
        },
{
    if read_config(stored) == cfg {
        None
    } else {
        Some(encode_config(cfg))
    }
}

proof fn lemma_erase_then_program(data: Seq<u8>)
    requires
        data.len() == RECORD_LEN,
    ensures
        programmed(erased_record(), data) == data,
{
    assert forall|i: int| 0 <= i < data.len() implies #[trigger] (erased_record()[i] & data[i])
        == data[i] by {
        let d = data[i];
        assert(0xFFu8 & d == d) by (bit_vector);
    }
    assert(programmed(erased_record(), data) =~= data);
}

/// A valid selection survives its record.
pub proof fn lemma_record_round_trip(cfg: Selection)
    requires
        cfg.valid(),
    ensures
        decode_record(encode_record(cfg)) == cfg,
{
    let b = encode_record(cfg);
    assert(le_value(b) == cfg.frequency_index);
}

/// Storing a valid selection and reading it back gives that selection,
/// whatever the record held before.
pub proof fn lemma_write_then_read(stored: Seq<u8>, cfg: Selection)
    requires
        stored.len() == RECORD_LEN,
        cfg.valid(),
    ensures
        decode_record(after_plan(stored, write_plan(stored, cfg))) == cfg,
{
    lemma_record_round_trip(cfg);
    lemma_erase_then_program(encode_record(cfg));
}

/// Storing the same selection twice erases and programs flash at most once:
/// the second store finds the record already in place and writes nothing.
pub proof fn lemma_write_idempotent(stored: Seq<u8>, cfg: Selection)
    requires
        stored.len() == RECORD_LEN,
        cfg.valid(),
    ensures
        ({
            let once = after_plan(stored, write_plan(stored, cfg));
            &&& write_plan(once, cfg) is None
            &&& after_plan(once, write_plan(once, cfg)) == once
        }),
{
    lemma_write_then_read(stored, cfg);
}

} // verus!
