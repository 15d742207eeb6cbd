//! Parser for the INES cartridge-image container format: a 16-byte header,
//! an optional 512-byte trainer, a program-data region and an optional
//! graphics-data region.

use vstd::prelude::*;
use vstd::slice::slice_subrange;
use crate::bits::{bit_at, bit_set};

verus! {

pub const HEADER_SIZE: usize = 16;

pub const TRAINER_SIZE: usize = 512;

pub const PRG_ROM_CHUNK_SIZE: usize = 16384;

pub const CHR_ROM_CHUNK_SIZE: usize = 8192;

/// Declares `std::io::Error` so that `Error` can carry the cause of a failed
/// stream read; vstd gives the type no specification of its own.
#[verifier::external_type_specification]
#[verifier::external_body]
pub struct ExIoError(std::io::Error);

/// Failure of a parse: a stream error, a wrong signature (carrying the four
/// bytes actually read), or an input shorter than a computed offset requires.
pub enum Error {
    Io(std::io::Error),
    MagicBytesMismatch([u8; 4]),
    TruncatedInput,
}

/// How the cartridge arranges its video memory, decoded from header byte 6.
#[derive(Debug, PartialEq, Eq, Structural, Clone, Copy)]
pub enum VramLayout {
    HorizontalMirroring,
    VerticalMirroring,
    FourScreen,
}

/// The decoded header: region sizes in bytes, flags, and the mapper number.
pub struct Header {
    pub prg_rom_size: usize,
    pub chr_rom_size: usize,
    pub vram_layout: VramLayout,
    pub has_persistent_memory: bool,
    /// Whether a 512-byte trainer region follows the header (bit 2 of byte
    /// 6); the parser uses it only to compute region offsets.
    pub has_trainer: bool,
    pub mapper_number: u8,
}

/// The first four bytes are exactly the fixed signature: "NES" then 0x1A.
pub open spec fn signature_ok(data: Seq<u8>) -> bool {
    &&& data.len() >= 4
    &&& data[0] == 0x4Eu8
    &&& data[1] == 0x45u8
    &&& data[2] == 0x53u8
    &&& data[3] == 0x1Au8
}

/// Program-data size in bytes: chunk count (byte 4) times the chunk size.
pub open spec fn prg_size_of(data: Seq<u8>) -> int {
    data[4] * PRG_ROM_CHUNK_SIZE
}

/// Graphics-data size in bytes: chunk count (byte 5) times the chunk size.
pub open spec fn chr_size_of(data: Seq<u8>) -> int {
    data[5] * CHR_ROM_CHUNK_SIZE
}

/// Screen layout from byte 6: the four-screen bit (bit 3) takes priority over
/// the vertical-mirroring bit (bit 0).
pub open spec fn layout_of(byte6: u8) -> VramLayout {
    if bit_set(byte6, 3) {
        VramLayout::FourScreen
    } else if bit_set(byte6, 0) {
        VramLayout::VerticalMirroring
    } else {
        VramLayout::HorizontalMirroring
    }
}

/// Mapper number: the low four bits of byte 7 form the high nibble, the high
/// four bits of byte 6 the low nibble.
pub open spec fn mapper_of(byte6: u8, byte7: u8) -> u8 {
    ((byte7 & 0x0F) << 4) | (byte6 >> 4)
}

/// Every header field holds the value the header bytes of `data` encode.
pub open spec fn header_models(h: Header, data: Seq<u8>) -> bool {
    &&& h.prg_rom_size == prg_size_of(data)
    &&& h.chr_rom_size == chr_size_of(data)
    &&& h.vram_layout == layout_of(data[6])
    &&& h.has_persistent_memory == bit_set(data[6], 1)
    &&& h.has_trainer == bit_set(data[6], 2)
    &&& h.mapper_number == mapper_of(data[6], data[7])
}

/// A read-only byte region of the container: either a zero-copy view into
/// the caller's buffer, or an owned copy made when reading from a stream.
pub enum Region<'a> {
    Borrowed(&'a [u8]),
    Owned(Vec<u8>),
}

impl<'a> View for Region<'a> {
    type V = Seq<u8>;

    open spec fn view(&self) -> Seq<u8> {
        match self {
            Region::Borrowed(s) => s@,
            Region::Owned(v) => v@,
        }
    }
}

impl<'a> Region<'a> {
    /// Whether the region is a zero-copy view into a caller's buffer.
    pub open spec fn is_borrowed(&self) -> bool {
        self matches Region::Borrowed(_)
    }

    /// Whether the region owns its bytes.
    pub open spec fn is_owned(&self) -> bool {
        self matches Region::Owned(_)
    }

    /// The region's bytes, whichever variant holds them.
    pub fn as_slice(&self) -> (r: &[u8])
        ensures
            r@ == self@,
    {
        match self {
            Region::Borrowed(s) => s,
            Region::Owned(v) => v.as_slice(),
        }
    }
}

/// A parsed container: the decoded header and the trainer, program-data and
/// graphics-data regions it lays out.
pub struct Ines<'a> {
    /// Header
    pub header: Header,
    /// Trainer, present iff bit 2 of header byte 6 is set
    pub trainer: Option<Region<'a>>,
    /// Program data (PRG ROM), always present, possibly empty
    pub prg_rom: Region<'a>,
    /// Graphics data (CHR ROM), present iff its declared size is nonzero
    pub chr_rom: Option<Region<'a>>,
}

/// Byte length of the trainer region declared by header byte 6.
pub open spec fn trainer_len_of(byte6: u8) -> int {
    if bit_set(byte6, 2) {
        TRAINER_SIZE as int
    } else {
        0
    }
}

/// Offset of the program-data region: the header, then the trainer if any.
pub open spec fn prg_start_of(data: Seq<u8>) -> int {
    HEADER_SIZE + trainer_len_of(data[6])
}

/// Offset of the graphics-data region, right after the program data.
pub open spec fn chr_start_of(data: Seq<u8>) -> int {
    prg_start_of(data) + prg_size_of(data)
}

/// How many bytes the layout declared by the header bytes of `data` needs.
pub open spec fn required_len_of(data: Seq<u8>) -> int {
    chr_start_of(data) + chr_size_of(data)
}

/// The container `c` is exactly what parsing the byte content `data`
/// produces: the header fields decode the header bytes, and each region holds
/// the bytes of its declared slot of `data`.
pub open spec fn container_models(c: Ines, data: Seq<u8>) -> bool {
    &&& signature_ok(data)
    &&& data.len() >= required_len_of(data)
    &&& header_models(c.header, data)
    &&& match c.trainer {
        Some(t) => bit_set(data[6], 2) && t@ == data.subrange(
            HEADER_SIZE as int,
            HEADER_SIZE + TRAINER_SIZE,
        ),
        None => !bit_set(data[6], 2),
    }
    &&& c.prg_rom@ == data.subrange(prg_start_of(data), chr_start_of(data))
    &&& match c.chr_rom {
        Some(g) => chr_size_of(data) > 0 && g@ == data.subrange(
            chr_start_of(data),
            chr_start_of(data) + chr_size_of(data),
        ),
        None => chr_size_of(data) == 0,
    }
}

/// Law: decoded region sizes are exact multiples of their chunk sizes,
/// because they derive from a byte-count multiplier field.
pub proof fn lemma_sizes_are_chunk_multiples(h: Header, data: Seq<u8>)
    requires
        header_models(h, data),
    ensures
        h.prg_rom_size as int % (PRG_ROM_CHUNK_SIZE as int) == 0,
        h.chr_rom_size as int % (CHR_ROM_CHUNK_SIZE as int) == 0,
{
    assert(data[4] * (PRG_ROM_CHUNK_SIZE as int) % (PRG_ROM_CHUNK_SIZE as int) == 0)
        by (nonlinear_arith);
    assert(data[5] * (CHR_ROM_CHUNK_SIZE as int) % (CHR_ROM_CHUNK_SIZE as int) == 0)
        by (nonlinear_arith);
}

/// Law: the four-screen flag takes priority: whenever bit 3 of header byte 6
/// is set, the layout is four-screen, whatever bit 0 holds.
pub proof fn lemma_four_screen_overrides(byte6: u8)
    requires
        bit_set(byte6, 3),
    ensures
        layout_of(byte6) == VramLayout::FourScreen,
{
}

/// Law: two containers that model the same byte content — for instance one
/// from a buffer parse and one from a stream parse of the same bytes — agree
/// on every header field and, region by region, on presence and bytes.
pub proof fn lemma_parse_agreement(c1: Ines, c2: Ines, data: Seq<u8>)
    requires
        container_models(c1, data),
        container_models(c2, data),
    ensures
        c1.header == c2.header,
        c1.prg_rom@ == c2.prg_rom@,
        c1.trainer is Some <==> c2.trainer is Some,
        c1.trainer matches Some(t1) ==> (c2.trainer matches Some(t2) && t1@ == t2@),
        c1.chr_rom is Some <==> c2.chr_rom is Some,
        c1.chr_rom matches Some(g1) ==> (c2.chr_rom matches Some(g2) && g1@ == g2@),
{
}

/// Decodes the fixed-size header at the start of `header_data`.
///
/// Succeeds exactly when at least 16 bytes are present and the signature
/// matches; a wrong signature is reported ahead of a short input, so that any
/// input whose first four bytes are wrong fails with `MagicBytesMismatch`.
pub fn parse_header(header_data: &[u8]) -> (r: Result<Header, Error>)
    ensures
        match r {
            Ok(h) => {
                &&& header_data@.len() >= HEADER_SIZE
                &&& signature_ok(header_data@)
                &&& header_models(h, header_data@)
            },
            Err(e) => match e {
                Error::MagicBytesMismatch(m) => {
                    &&& header_data@.len() >= 4
                    &&& !signature_ok(header_data@)
                    &&& m@ == header_data@.subrange(0, 4)
                },
                Error::TruncatedInput => {
                    header_data@.len() < 4 || (signature_ok(header_data@) && header_data@.len()
                        < HEADER_SIZE)
                },
                Error::Io(_) => false,
            },
        },
{
    if header_data.len() < 4 {
        return Err(Error::TruncatedInput);
    }
    let b0 = *vstd::slice::slice_index_get(header_data, 0);
    let b1 = *vstd::slice::slice_index_get(header_data, 1);
    let b2 = *vstd::slice::slice_index_get(header_data, 2);
    let b3 = *vstd::slice::slice_index_get(header_data, 3);
    if !(b0 == 0x4E && b1 == 0x45 && b2 == 0x53 && b3 == 0x1A) {
        let magic_bytes: [u8; 4] = [b0, b1, b2, b3];
        proof {
            assert(magic_bytes@ =~= header_data@.subrange(0, 4));
        }
        return Err(Error::MagicBytesMismatch(magic_bytes));
    }
    if header_data.len() < HEADER_SIZE {
        return Err(Error::TruncatedInput);
    }

    let num_prg_rom_chunk = *vstd::slice::slice_index_get(header_data, 4);
    let num_chr_rom_chunk = *vstd::slice::slice_index_get(header_data, 5);
    let byte6 = *vstd::slice::slice_index_get(header_data, 6);
    let byte7 = *vstd::slice::slice_index_get(header_data, 7);

    let prg_rom_size = (num_prg_rom_chunk as usize) * PRG_ROM_CHUNK_SIZE;
    let chr_rom_size = (num_chr_rom_chunk as usize) * CHR_ROM_CHUNK_SIZE;

    let four_screen_vram = bit_at(byte6, 3);
    let vram_layout = if four_screen_vram {
        VramLayout::FourScreen
    } else if bit_at(byte6, 0) {
        VramLayout::VerticalMirroring
    } else {
        VramLayout::HorizontalMirroring
    };
    let has_persistent_memory = bit_at(byte6, 1);
    let has_trainer = bit_at(byte6, 2);

    let mapper_number = ((byte7 & 0x0F) << 4) | (byte6 >> 4);

    Ok(
        Header {
            prg_rom_size,
            chr_rom_size,
            vram_layout,
            has_persistent_memory,
            has_trainer,
            mapper_number,
        },
    )
}

impl<'a> Ines<'a> {
    /// Parses a container from a byte buffer, carving the trainer, program
    /// and graphics regions out of `data` as zero-copy views.
    ///
    /// Succeeds exactly when the signature matches and `data` holds at least
    /// as many bytes as the header-declared layout requires; a shorter buffer
    /// is reported as `TruncatedInput`, never sliced out of range.
    pub fn from_bytes(data: &'a [u8]) -> (r: Result<Ines<'a>, Error>)
        ensures
            match r {
                Ok(c) => {
                    &&& container_models(c, data@)
                    &&& c.prg_rom.is_borrowed()
                    &&& (c.trainer matches Some(t) ==> t.is_borrowed())
                    &&& (c.chr_rom matches Some(g) ==> g.is_borrowed())
                },
                Err(e) => match e {
                    Error::MagicBytesMismatch(m) => {
                        &&& data@.len() >= 4
                        &&& !signature_ok(data@)
                        &&& m@ == data@.subrange(0, 4)
                    },
                    Error::TruncatedInput => data@.len() < 4 || (signature_ok(data@)
                        && data@.len() < required_len_of(data@)),
                    Error::Io(_) => false,
                },
            },
    {
        let header = match parse_header(data) {
            Ok(h) => h,
            Err(e) => return Err(e),
        };

        let after_position = if header.has_trainer {
            HEADER_SIZE + TRAINER_SIZE
        } else {
            HEADER_SIZE
        };
        let prg_end = after_position + header.prg_rom_size;
        let required = prg_end + header.chr_rom_size;
        if data.len() < required {
            return Err(Error::TruncatedInput);
        }

        let trainer = if header.has_trainer {
            Some(Region::Borrowed(slice_subrange(data, HEADER_SIZE, HEADER_SIZE + TRAINER_SIZE)))
        } else {
            None
        };
        let prg_rom = Region::Borrowed(slice_subrange(data, after_position, prg_end));
        let chr_rom = if header.chr_rom_size > 0 {
            Some(Region::Borrowed(slice_subrange(data, prg_end, required)))
        } else {
            None
        };

        Ok(Ines { header, trainer, prg_rom, chr_rom })
    }

    /// Parses a container from a stream, reading each region into an owned
    /// buffer.
    ///
    /// On success the container models some byte content, exactly as a
    /// buffer parse of those bytes would; a failed or short read surfaces as
    /// `Io`, and a wrong signature as `MagicBytesMismatch` with the four
    /// bytes that were read.
    pub fn from_reader<T: std::io::Read>(input_stream: &mut T) -> (r: Result<Ines<'a>, Error>)
        ensures
            match r {
                Ok(c) => {
                    &&& exists|data: Seq<u8>| #[trigger] container_models(c, data)
                    &&& c.prg_rom.is_owned()
                    &&& (c.trainer matches Some(t) ==> t.is_owned())
                    &&& (c.chr_rom matches Some(g) ==> g.is_owned())
                },
                Err(e) => match e {
                    Error::Io(_) => true,
                    Error::MagicBytesMismatch(m) => m@.len() == 4 && !signature_ok(m@),
                    Error::TruncatedInput => false,
                },
            },
    {
        let header_bytes = match read_exact_vec(input_stream, HEADER_SIZE) {
            Ok(v) => v,
            Err(e) => return Err(e),
        };
        let header = match parse_header(header_bytes.as_slice()) {
            Ok(h) => h,
            Err(e) => {
                proof {
                    if let Error::MagicBytesMismatch(m) = e {
                        assert(!signature_ok(m@)) by {
                            assert(m@ == header_bytes@.subrange(0, 4));
                            assert(m@[0] == header_bytes@[0]);
                            assert(m@[1] == header_bytes@[1]);
                            assert(m@[2] == header_bytes@[2]);
                            assert(m@[3] == header_bytes@[3]);
                        }
                    }
                }
                return Err(e);
            },
        };

        let trainer_vec: Option<Vec<u8>> = if header.has_trainer {
            match read_exact_vec(input_stream, TRAINER_SIZE) {
                Ok(v) => Some(v),
                Err(e) => return Err(e),
            }
        } else {
            None
        };
        let prg_vec = match read_exact_vec(input_stream, header.prg_rom_size) {
            Ok(v) => v,
            Err(e) => return Err(e),
        };
        let chr_vec: Option<Vec<u8>> = if header.chr_rom_size > 0 {
            match read_exact_vec(input_stream, header.chr_rom_size) {
                Ok(v) => Some(v),
                Err(e) => return Err(e),
            }
        } else {
            None
        };

        let ghost hseq = header_bytes@;
        let ghost tseq: Seq<u8> = match trainer_vec {
            Some(ref v) => v@,
            None => Seq::empty(),
        };
        let ghost pseq = prg_vec@;
        let ghost cseq: Seq<u8> = match chr_vec {
            Some(ref v) => v@,
            None => Seq::empty(),
        };

        let trainer = match trainer_vec {
            Some(v) => Some(Region::Owned(v)),
            None => None,
        };
        let prg_rom = Region::Owned(prg_vec);
        let chr_rom = match chr_vec {
            Some(v) => Some(Region::Owned(v)),
            None => None,
        };
        let result = Ines { header, trainer, prg_rom, chr_rom };

        proof {
            let data = hseq + tseq + pseq + cseq;
            assert forall|i: int| 0 <= i < 16 implies data[i] == hseq[i] by {}
            assert(signature_ok(data));
            assert(header_models(result.header, data));
            assert(tseq.len() == trainer_len_of(data[6]));
            assert(data.len() == required_len_of(data));
            if result.trainer is Some {
                assert(data.subrange(HEADER_SIZE as int, HEADER_SIZE + TRAINER_SIZE) =~= tseq);
            }
            assert(data.subrange(prg_start_of(data), chr_start_of(data)) =~= pseq);
            if result.chr_rom is Some {
                assert(data.subrange(chr_start_of(data), chr_start_of(data) + chr_size_of(data))
                    =~= cseq);
            }
            assert(container_models(result, data));
        }
        Ok(result)
    }
}

/// Relies on `std::io::Read::read_exact`: on success the buffer was filled
/// with exactly the requested number of bytes; a short read or any other
/// failure of the source returns the error instead (never fewer bytes).
#[verifier::external_body]
fn read_exact_vec<T: std::io::Read>(input_stream: &mut T, n: usize) -> (r: Result<Vec<u8>, Error>)
    ensures
        match r {
            Ok(v) => v@.len() == n,
            Err(e) => e matches Error::Io(_),
        },
{
    let mut buf = vec![0u8; n];
    match input_stream.read_exact(&mut buf) {
        Ok(()) => Ok(buf),
        Err(e) => Err(Error::Io(e)),
    }
}

} // verus!
