//! Decoding of uncompressed, palette-based bitmap files.
use vstd::prelude::*;

use crate::error::GraphicsError;

verus! {

/// Size of the file header: magic, total size, reserved bytes, pixel offset.
pub const FILE_HEADER_SIZE: usize = 14;

/// Size of the info header fields this decoder reads.
pub const INFO_HEADER_SIZE: usize = 40;

/// First byte of the magic value ("B").
pub const MAGIC_0: u8 = 0x42;

/// Second byte of the magic value ("M").
pub const MAGIC_1: u8 = 0x4d;

/// Little-endian 16-bit value at `i`.
pub open spec fn le16(b: Seq<u8>, i: int) -> int {
    b[i] + 256 * b[i + 1]
}

/// Little-endian 32-bit value at `i`.
pub open spec fn le32(b: Seq<u8>, i: int) -> int {
    b[i] + 256 * b[i + 1] + 65536 * b[i + 2] + 16777216 * b[i + 3]
}

/// One colour of a palette; its index is its position in the palette.
#[derive(Clone, Copy, Debug, PartialEq, Eq, Structural)]
pub struct PaletteEntry {
    pub red: u8,
    pub green: u8,
    pub blue: u8,
}

impl PaletteEntry {
    pub fn red(&self) -> (r: u8)
        ensures
            r == self.red,
    {
        self.red
    }

    pub fn green(&self) -> (r: u8)
        ensures
            r == self.green,
    {
        self.green
    }

    pub fn blue(&self) -> (r: u8)
        ensures
            r == self.blue,
    {
        self.blue
    }
}

/// What a decoded image holds.
pub struct ImageView {
    pub width: u32,
    pub height: u32,
    pub bpp: u16,
    pub compression: u32,
    pub palette: Seq<PaletteEntry>,
    /// Pixel bytes as stored: rows from the bottom up, each padded to a
    /// multiple of four bytes.
    pub image_data: Seq<u8>,
}

/// The stream starts with the two magic bytes.
pub open spec fn has_magic(b: Seq<u8>) -> bool {
    b.len() >= 2 && b[0] == MAGIC_0 && b[1] == MAGIC_1
}

pub open spec fn bpp_of(b: Seq<u8>) -> int {
    le16(b, 28)
}

pub open spec fn compression_of(b: Seq<u8>) -> int {
    le32(b, 30)
}

/// Where the palette starts: after the file header and the info header
/// whose size the info header declares.
pub open spec fn palette_offset(b: Seq<u8>) -> int {
    FILE_HEADER_SIZE + le32(b, 14)
}

/// How many palette entries are read: the declared colour count for depths
/// up to 8 bits, none otherwise.
pub open spec fn palette_len(b: Seq<u8>) -> int {
    if bpp_of(b) <= 8 { le32(b, 46) } else { 0 }
}

pub open spec fn image_offset(b: Seq<u8>) -> int {
    le32(b, 10)
}

pub open spec fn image_size(b: Seq<u8>) -> int {
    le32(b, 34)
}

/// The palette entry stored as blue, green, red, reserved at `i`.
pub open spec fn entry_at(b: Seq<u8>, i: int) -> PaletteEntry {
    PaletteEntry { red: b[i + 2], green: b[i + 1], blue: b[i] }
}

/// The result of decoding the byte stream `b`.
pub open spec fn decode_outcome(b: Seq<u8>) -> Result<ImageView, GraphicsError> {
    if !has_magic(b) {
        Err(GraphicsError::InvalidFormat)
    } else if b.len() < FILE_HEADER_SIZE + INFO_HEADER_SIZE {
        Err(GraphicsError::IOError)
    } else if compression_of(b) != 0 {
        Err(GraphicsError::UnsupportedFormat)
    } else if palette_offset(b) + 4 * palette_len(b) > b.len() {
        Err(GraphicsError::IOError)
    } else if image_offset(b) + image_size(b) > b.len() {
        Err(GraphicsError::IOError)
    } else {
        Ok(
            ImageView {
                width: le32(b, 18) as u32,
                height: le32(b, 22) as u32,
                bpp: bpp_of(b) as u16,
                compression: compression_of(b) as u32,
                palette: Seq::new(
                    palette_len(b) as nat,
                    |i: int| entry_at(b, palette_offset(b) + 4 * i),
                ),
                image_data: b.subrange(image_offset(b), image_offset(b) + image_size(b)),
            },
        )
    }
}

fn read_u16_le(b: &[u8], i: usize) -> (r: u16)
    requires
        i + 2 <= b@.len(),
    ensures
        r == le16(b@, i as int),
{
    b[i] as u16 + (b[i + 1] as u16) * 256
}

fn read_u32_le(b: &[u8], i: usize) -> (r: u32)
    requires
        i + 4 <= b@.len(),
    ensures
        r == le32(b@, i as int),
{
    b[i] as u32 + (b[i + 1] as u32) * 256 + (b[i + 2] as u32) * 65536 + (b[i + 3] as u32) * 16777216
}

/// A decoded bitmap: its header fields, palette and stored pixel bytes.
pub struct Image {
    width: u32,
    height: u32,
    bpp: u16,
    compression: u32,
    palette: Vec<PaletteEntry>,
    image_data: Vec<u8>,
}

impl View for Image {
    type V = ImageView;

    closed spec fn view(&self) -> ImageView {
        ImageView {
            width: self.width,
            height: self.height,
            bpp: self.bpp,
            compression: self.compression,
            palette: self.palette@,
            image_data: self.image_data@,
        }
    }
}

impl Image {
    /// Decodes a bitmap file held in `bytes`: checks the magic, reads the
    /// headers, the palette (for depths up to 8 bits) and the pixel bytes.
    /// A stream that does not start with the magic is `InvalidFormat`; a
    /// field or block past the end of the stream is `IOError`; any
    /// compression is `UnsupportedFormat`.
    pub fn decode(bytes: &[u8]) -> (r: Result<Image, GraphicsError>)
        ensures
            r is Ok ==> decode_outcome(bytes@) == Ok::<ImageView, GraphicsError>(r->Ok_0@),
            r is Err ==> decode_outcome(bytes@) == Err::<ImageView, GraphicsError>(r->Err_0),
    {
        let len = bytes.len();
        if len < 2 || bytes[0] != MAGIC_0 || bytes[1] != MAGIC_1 {
            return Err(GraphicsError::InvalidFormat);
        }
        if len < FILE_HEADER_SIZE + INFO_HEADER_SIZE {
            return Err(GraphicsError::IOError);
        }
        let image_offset = read_u32_le(bytes, 10);
        let header_size = read_u32_le(bytes, 14);
        let width = read_u32_le(bytes, 18);
        let height = read_u32_le(bytes, 22);
        let bpp = read_u16_le(bytes, 28);
        let compression = read_u32_le(bytes, 30);
        let image_size = read_u32_le(bytes, 34);
        let colour_count = read_u32_le(bytes, 46);
        if compression != 0 {
            return Err(GraphicsError::UnsupportedFormat);
        }
        let count: u64 = if bpp <= 8 { colour_count as u64 } else { 0 };
        let palette_start: u64 = FILE_HEADER_SIZE as u64 + header_size as u64;
        if palette_start + 4 * count > len as u64 {
            return Err(GraphicsError::IOError);
        }
        if image_offset as u64 + image_size as u64 > len as u64 {
            return Err(GraphicsError::IOError);
        }
        let ghost b = bytes@;
        let mut palette: Vec<PaletteEntry> = Vec::new();
        let mut i: u64 = 0;
        while i < count
            invariant
                b == bytes@,
                len == b.len(),
                count == palette_len(b),
                palette_start == palette_offset(b),
                palette_start + 4 * count <= len,
                i <= count,
                palette@ == Seq::new(i as nat, |k: int| entry_at(b, palette_offset(b) + 4 * k)),
            decreases count - i,
        {
            let at = (palette_start + 4 * i) as usize;
            palette.push(PaletteEntry { red: bytes[at + 2], green: bytes[at + 1], blue: bytes[at] });
            i = i + 1;
            assert(palette@ =~= Seq::new(i as nat, |k: int| entry_at(b, palette_offset(b) + 4 * k)));
        }
        let start = image_offset as usize;
        let end = start + image_size as usize;
        let mut image_data: Vec<u8> = Vec::new();
        let mut k: usize = start;
        while k < end
            invariant
                b == bytes@,
                end <= b.len(),
                start <= k <= end,
                image_data@ == b.subrange(start as int, k as int),
            decreases end - k,
        {
            image_data.push(bytes[k]);
            k = k + 1;
            assert(image_data@ =~= b.subrange(start as int, k as int));
        }
        let image = Image { width, height, bpp, compression, palette, image_data };
        proof {
            assert(decode_outcome(b) == Ok::<ImageView, GraphicsError>(image@));
        }
        Ok(image)
    }

    pub fn width(&self) -> (r: u32)
        ensures
            r == self@.width,
    {
        self.width
    }

    pub fn height(&self) -> (r: u32)
        ensures
            r == self@.height,
    {
        self.height
    }

    pub fn bpp(&self) -> (r: u16)
        ensures
            r == self@.bpp,
    {
        self.bpp
    }

    pub fn compression(&self) -> (r: u32)
        ensures
            r == self@.compression,
    {
        self.compression
    }

    pub fn palette(&self) -> (r: &[PaletteEntry])
        ensures
            r@ == self@.palette,
    {
        self.palette.as_slice()
    }

    pub fn image_data(&self) -> (r: &[u8])
        ensures
            r@ == self@.image_data,
    {
        self.image_data.as_slice()
    }
}

/// A stream that does not begin with the magic bytes is rejected as
/// `InvalidFormat`, and no image comes out of it.
pub proof fn lemma_bad_magic_rejected(b: Seq<u8>)
    requires
        !has_magic(b),
    ensures
        decode_outcome(b) == Err::<ImageView, GraphicsError>(GraphicsError::InvalidFormat),
{
}

} // verus!
