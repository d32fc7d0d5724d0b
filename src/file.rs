//! Values exchanged with the DOS file calls: access modes, seek requests,
//! attributes, handles and disk parameters.
use vstd::prelude::*;

use vstd::string::StringSliceAdditionalSpecFns;

use crate::error_code::ErrorCode;

verus! {

/// A position to seek to, relative to the start, the end or the current
/// position of a file.
#[derive(Clone, Copy, Debug, PartialEq, Eq, Structural)]
pub enum SeekFrom {
    Start(u32),
    End(u32),
    Current(u32),
}

impl SeekFrom {
    /// The origin code passed to DOS in AL: 0 start, 1 current, 2 end.
    pub fn to_dos_seek_code(&self) -> (r: u8)
        ensures
            r == (match *self {
                SeekFrom::Start(_) => 0u8,
                SeekFrom::End(_) => 2u8,
                SeekFrom::Current(_) => 1u8,
            }),
    {
        match self {
            SeekFrom::Start(_) => 0,
            SeekFrom::End(_) => 2,
            SeekFrom::Current(_) => 1,
        }
    }

    /// The distance from the origin.
    pub fn to_seek_offset(&self) -> (r: u32)
        ensures
            r == (match *self {
                SeekFrom::Start(o) => o,
                SeekFrom::End(o) => o,
                SeekFrom::Current(o) => o,
            }),
    {
        match self {
            SeekFrom::Start(offset) => *offset,
            SeekFrom::End(offset) => *offset,
            SeekFrom::Current(offset) => *offset,
        }
    }

    /// The offset as the (CX, DX) pair DOS takes: high word, low word.
    pub fn offset_words(&self) -> (r: (u16, u16))
        ensures
            r.0 * 65536 + r.1 == self.spec_offset(),
    {
        let offset = self.to_seek_offset();
        ((offset / 65536) as u16, (offset % 65536) as u16)
    }

    pub open spec fn spec_offset(self) -> u32 {
        match self {
            SeekFrom::Start(o) => o,
            SeekFrom::End(o) => o,
            SeekFrom::Current(o) => o,
        }
    }
}

/// The position DOS reports after a seek, from its (DX, AX) pair.
pub fn seek_position(high: u16, low: u16) -> (r: u32)
    ensures
        r == high * 65536 + low,
{
    (high as u32) * 65536 + low as u32
}

/// How a file is shared with other processes.
#[derive(Clone, Copy, Debug, PartialEq, Eq, Structural)]
pub enum SharingMode {
    Compatibility,
    DenyBoth,
    DenyWrite,
    DenyRead,
    DenyNone,
}

impl SharingMode {
    pub open spec fn spec_code(self) -> u8 {
        match self {
            SharingMode::Compatibility => 0,
            SharingMode::DenyBoth => 1,
            SharingMode::DenyWrite => 2,
            SharingMode::DenyRead => 3,
            SharingMode::DenyNone => 4,
        }
    }

    pub fn code(&self) -> (r: u8)
        ensures
            r == self.spec_code(),
    {
        match self {
            SharingMode::Compatibility => 0,
            SharingMode::DenyBoth => 1,
            SharingMode::DenyWrite => 2,
            SharingMode::DenyRead => 3,
            SharingMode::DenyNone => 4,
        }
    }
}

impl Default for SharingMode {
    fn default() -> (r: Self)
        ensures
            r == SharingMode::Compatibility,
    {
        SharingMode::Compatibility
    }
}

/// Whether a file is opened for reading, writing or both.
#[derive(Clone, Copy, Debug, PartialEq, Eq, Structural)]
pub enum AccessCode {
    Read,
    Write,
    Both,
}

impl AccessCode {
    pub open spec fn spec_code(self) -> u8 {
        match self {
            AccessCode::Read => 0,
            AccessCode::Write => 1,
            AccessCode::Both => 2,
        }
    }

    pub fn code(&self) -> (r: u8)
        ensures
            r == self.spec_code(),
    {
        match self {
            AccessCode::Read => 0,
            AccessCode::Write => 1,
            AccessCode::Both => 2,
        }
    }
}

/// The access byte of the DOS open call: bit 7 inherited, bits 4-6 the
/// sharing mode, bits 0-2 the access code.
#[derive(Clone, Copy, Debug, PartialEq, Eq, Structural)]
pub struct AccessMode {
    mode: u8,
}

impl View for AccessMode {
    type V = u8;

    closed spec fn view(&self) -> u8 {
        self.mode
    }
}

impl Default for AccessMode {
    fn default() -> (r: Self)
        ensures
            r@ == 0,
    {
        AccessMode { mode: 0 }
    }
}

impl AccessMode {
    pub fn new(access: AccessCode, sharing: SharingMode, inherited: bool) -> (r: AccessMode)
        ensures
            r@ == (if inherited { 0x80int } else { 0 }) + 16 * sharing.spec_code() + access.spec_code(),
    {
        let mut mode: u8 = 0;
        if inherited {
            mode = mode + 0x80;
        }
        mode = mode + sharing.code() * 16;
        mode = mode + access.code();
        AccessMode { mode }
    }

    pub fn bits(&self) -> (r: u8)
        ensures
            r == self@,
    {
        self.mode
    }
}

/// File attribute bits.
#[derive(Clone, Copy, Debug, PartialEq, Eq, Structural)]
pub struct FileAttributes {
    bits: u16,
}

/// Every attribute bit this library knows: sharable, reserved, archive,
/// directory, volume label, system, hidden, read-only.
pub const FILE_ATTRIBUTE_BITS: u16 = 0x00FF;

impl View for FileAttributes {
    type V = u16;

    closed spec fn view(&self) -> u16 {
        self.bits
    }
}

impl FileAttributes {
    /// The known attribute bits of `bits`; others are dropped.
    pub fn from_bits_truncate(bits: u16) -> (r: FileAttributes)
        ensures
            r@ == bits & FILE_ATTRIBUTE_BITS,
    {
        FileAttributes { bits: bits & FILE_ATTRIBUTE_BITS }
    }

    pub fn bits(&self) -> (r: u16)
        ensures
            r == self@,
    {
        self.bits
    }
}

/// An open DOS file, known by its handle.
pub struct File {
    handle: u16,
}

impl View for File {
    type V = u16;

    closed spec fn view(&self) -> u16 {
        self.handle
    }
}

impl File {
    /// The file behind a handle that DOS returned.
    pub fn from_handle(handle: u16) -> (r: File)
        ensures
            r@ == handle,
    {
        File { handle }
    }

    pub fn handle(&self) -> (r: u16)
        ensures
            r == self@,
    {
        self.handle
    }
}

/// Largest transfer, exclusive, that fits the buffer's memory segment.
pub const MAX_TRANSFER: usize = 0xFFF0;

/// Checks that a read or write of `len` bytes stays within one memory
/// segment; `InsufficientMemory` otherwise.
pub fn check_transfer_len(len: usize) -> (r: Result<(), ErrorCode>)
    ensures
        r is Ok <==> len < MAX_TRANSFER,
        r is Err ==> r->Err_0 == ErrorCode::InsufficientMemory,
{
    if len >= MAX_TRANSFER {
        return Err(ErrorCode::InsufficientMemory);
    }
    Ok(())
}

/// A date as DOS stores it for files.
#[derive(Clone, Copy, Debug, Default, PartialEq, Eq, Structural)]
pub struct DosDate {
    pub year: u16,
    pub month: u8,
    pub day: u8,
}

/// A time of day as DOS stores it for files (to two seconds).
#[derive(Clone, Copy, Debug, Default, PartialEq, Eq, Structural)]
pub struct DosTime {
    pub hour: u8,
    pub minute: u8,
    pub second: u8,
}

/// The date packed as bits 9-15 years since 1980, bits 5-8 month,
/// bits 0-4 day.
pub fn decode_date(value: u16) -> (r: DosDate)
    ensures
        r.year == value / 512 + 1980,
        r.month == (value / 32) % 16,
        r.day == value % 32,
{
    DosDate { year: value / 512 + 1980, month: ((value / 32) % 16) as u8, day: (value % 32) as u8 }
}

/// The time packed as bits 11-15 hours, bits 5-10 minutes, bits 0-4
/// seconds halved.
pub fn decode_time(value: u16) -> (r: DosTime)
    ensures
        r.hour == value / 2048,
        r.minute == (value / 32) % 64,
        r.second == (value % 32) * 2,
{
    DosTime { hour: (value / 2048) as u8, minute: ((value / 32) % 64) as u8, second: ((value % 32) * 2) as u8 }
}

/// Directory calls; a namespace without state.
pub struct Directory {}

/// Checks that a path given to DOS ends in a NUL byte, as DOS requires;
/// `InvalidParameter` otherwise.
pub fn check_path(path: &str) -> (r: Result<(), ErrorCode>)
    ensures
        r is Ok <==> (path.spec_bytes().len() > 0 && path.spec_bytes().last() == 0),
        r is Err ==> r->Err_0 == ErrorCode::InvalidParameter,
{
    let bytes = path.as_bytes();
    let n = bytes.len();
    if n == 0 || bytes[n - 1] != 0 {
        return Err(ErrorCode::InvalidParameter);
    }
    Ok(())
}

/// Disk geometry as the free-space call reports it.
#[derive(Clone, Copy, Debug, Default, PartialEq, Eq, Structural)]
pub struct StorageParameters {
    pub total_clusters: u16,
    pub bytes_per_sector: u16,
    pub available_clusters: u16,
    pub sectors_per_cluster: u16,
}

impl StorageParameters {
    /// The parameters from the registers the call returned (AX sectors per
    /// cluster, BX free clusters, CX bytes per sector, DX total clusters);
    /// AX = 0xFFFF means the drive does not exist.
    pub fn from_registers(ax: u16, bx: u16, cx: u16, dx: u16) -> (r: Result<StorageParameters, ErrorCode>)
        ensures
            ax == 0xffff ==> r == Err::<StorageParameters, ErrorCode>(ErrorCode::InvalidDrive),
            ax != 0xffff ==> r == Ok::<StorageParameters, ErrorCode>(StorageParameters {
                total_clusters: dx,
                bytes_per_sector: cx,
                available_clusters: bx,
                sectors_per_cluster: ax,
            }),
    {
        if ax == 0xffff {
            return Err(ErrorCode::InvalidDrive);
        }
        Ok(StorageParameters {
            total_clusters: dx,
            bytes_per_sector: cx,
            available_clusters: bx,
            sectors_per_cluster: ax,
        })
    }

    /// Free space in bytes.
    pub fn free_space(&self) -> (r: u64)
        ensures
            r == self.available_clusters * self.sectors_per_cluster * self.bytes_per_sector,
    {
        let (a, s, b) = (self.available_clusters as u64, self.sectors_per_cluster as u64, self.bytes_per_sector as u64);
        proof {
            lemma_three_words_fit(a as int, s as int, b as int);
        }
        a * s * b
    }

    /// Total space in bytes.
    pub fn total_space(&self) -> (r: u64)
        ensures
            r == self.total_clusters * self.sectors_per_cluster * self.bytes_per_sector,
    {
        let (t, s, b) = (self.total_clusters as u64, self.sectors_per_cluster as u64, self.bytes_per_sector as u64);
        proof {
            lemma_three_words_fit(t as int, s as int, b as int);
        }
        t * s * b
    }
}

proof fn lemma_three_words_fit(a: int, b: int, c: int)
    requires
        0 <= a < 65536,
        0 <= b < 65536,
        0 <= c < 65536,
    ensures
        0 <= a * b < 65536 * 65536,
        0 <= a * b * c < 65536 * 65536 * 65536,
{
    assert(0 <= a * b < 65536 * 65536) by (nonlinear_arith)
        requires
            0 <= a < 65536,
            0 <= b < 65536,
    ;
    assert(0 <= a * b * c < 65536 * 65536 * 65536) by (nonlinear_arith)
        requires
            0 <= a * b < 65536 * 65536,
            0 <= c < 65536,
    ;
}

} // verus!
