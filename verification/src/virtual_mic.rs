//! The control protocol of the ClearLine virtual-microphone driver: I/O control codes, the
//! replies the driver sends, and the checks made on them.
use vstd::prelude::*;
use vstd::string::*;
use crate::error::ClearLineError;
use crate::text::{decimal, push_char, push_decimal};

verus! {

broadcast use vstd::string::group_string_axioms;

/// Path of the driver's control device.
pub const CLEARLINE_CONTROL_PATH: &'static str = "\\\\.\\ClearLineControl";

/// `"ClrC"`, the magic number in a ping reply.
pub const CLEARLINE_PING_MAGIC: u32 = 0x436C_7243;

/// The protocol version this library speaks.
pub const CLEARLINE_PING_VERSION: u32 = 1;

pub const FILE_DEVICE_UNKNOWN: u32 = 0x0000_0022;

pub const METHOD_BUFFERED: u32 = 0;

pub const FILE_ANY_ACCESS: u32 = 0;

pub const CLEARLINE_IOCTL_PING_INDEX: u32 = 0x801;

pub const CLEARLINE_IOCTL_WRITE_PCM_INDEX: u32 = 0x802;

pub const CLEARLINE_IOCTL_GET_BUFFER_STATUS_INDEX: u32 = 0x803;

/// The Windows `CTL_CODE` layout of an I/O control code.
pub open spec fn ctl_code_spec(device_type: u32, function: u32, method: u32, access: u32) -> u32 {
    (device_type << 16u32) | (access << 14u32) | (function << 2u32) | method
}

/// Builds an I/O control code from its fields.
pub fn ctl_code(device_type: u32, function: u32, method: u32, access: u32) -> (r: u32)
    ensures
        r == ctl_code_spec(device_type, function, method, access),
{
    (device_type << 16u32) | (access << 14u32) | (function << 2u32) | method
}

pub const IOCTL_CLEARLINE_PING: u32 = 0x0022_2004;

pub const IOCTL_CLEARLINE_WRITE_PCM: u32 = 0x0022_2008;

pub const IOCTL_CLEARLINE_GET_BUFFER_STATUS: u32 = 0x0022_200c;

/// The three control codes are the `CTL_CODE`s of the driver's functions.
pub proof fn lemma_ioctl_codes()
    ensures
        IOCTL_CLEARLINE_PING == ctl_code_spec(
            FILE_DEVICE_UNKNOWN,
            CLEARLINE_IOCTL_PING_INDEX,
            METHOD_BUFFERED,
            FILE_ANY_ACCESS,
        ),
        IOCTL_CLEARLINE_WRITE_PCM == ctl_code_spec(
            FILE_DEVICE_UNKNOWN,
            CLEARLINE_IOCTL_WRITE_PCM_INDEX,
            METHOD_BUFFERED,
            FILE_ANY_ACCESS,
        ),
        IOCTL_CLEARLINE_GET_BUFFER_STATUS == ctl_code_spec(
            FILE_DEVICE_UNKNOWN,
            CLEARLINE_IOCTL_GET_BUFFER_STATUS_INDEX,
            METHOD_BUFFERED,
            FILE_ANY_ACCESS,
        ),
{
    assert(0x0022_2004u32 == (0x22u32 << 16u32) | (0u32 << 14u32) | (0x801u32 << 2u32) | 0u32)
        by (bit_vector);
    assert(0x0022_2008u32 == (0x22u32 << 16u32) | (0u32 << 14u32) | (0x802u32 << 2u32) | 0u32)
        by (bit_vector);
    assert(0x0022_200cu32 == (0x22u32 << 16u32) | (0u32 << 14u32) | (0x803u32 << 2u32) | 0u32)
        by (bit_vector);
}

// ---------------------------------------------------------------------------------------------
// Hexadecimal text
// ---------------------------------------------------------------------------------------------

pub open spec fn hex_digit(d: nat) -> char {
    if d < 10 {
        (d + 48) as char
    } else {
        (d + 87) as char
    }
}

/// The last `width` lower-case hexadecimal digits of `v`, zero-padded.
pub open spec fn hex_padded(v: nat, width: nat) -> Seq<char>
    decreases width,
{
    if width == 0 {
        Seq::empty()
    } else {
        hex_padded(v / 16, (width - 1) as nat).push(hex_digit(v % 16))
    }
}

fn hex_digit_char(d: u32) -> (c: char)
    requires
        d < 16,
    ensures
        c == hex_digit(d as nat),
{
    if d < 10 {
        let b: u8 = (d as u8) + 48;
        assert(b as char == hex_digit(d as nat));
        b as char
    } else {
        let b: u8 = (d as u8) + 87;
        assert(b as char == hex_digit(d as nat));
        b as char
    }
}

fn hex_chars(v: u32, width: u32) -> (r: Vec<char>)
    ensures
        r@ == hex_padded(v as nat, width as nat),
    decreases width,
{
    if width == 0 {
        Vec::new()
    } else {
        let mut r = hex_chars(v / 16, width - 1);
        r.push(hex_digit_char(v % 16));
        r
    }
}

// ---------------------------------------------------------------------------------------------
// Replies
// ---------------------------------------------------------------------------------------------

/// The driver's reply to a ping.
#[derive(Debug, Clone, Copy, PartialEq, Eq, Structural)]
pub struct ClearLinePingResponse {
    pub magic: u32,
    pub version: u32,
    pub sample_rate_hz: u32,
    pub channels: u32,
}

impl ClearLinePingResponse {
    pub fn magic(self) -> (r: u32)
        ensures
            r == self.magic,
    {
        self.magic
    }

    pub fn version(self) -> (r: u32)
        ensures
            r == self.version,
    {
        self.version
    }

    pub fn sample_rate_hz(self) -> (r: u32)
        ensures
            r == self.sample_rate_hz,
    {
        self.sample_rate_hz
    }

    pub fn channels(self) -> (r: u32)
        ensures
            r == self.channels,
    {
        self.channels
    }

    /// Accepts a reply with the ClearLine magic number and protocol version.
    pub fn validate(self) -> (r: Result<Self, ClearLineError>)
        ensures
            self.magic != CLEARLINE_PING_MAGIC ==> (r matches Err(ClearLineError::VirtualMicControl(m))
                && m@ == "unexpected ping magic 0x"@ + hex_padded(self.magic as nat, 8)),
            self.magic == CLEARLINE_PING_MAGIC && self.version != CLEARLINE_PING_VERSION ==> (r matches Err(
                ClearLineError::VirtualMicControl(m),
            ) && m@ == "unsupported ping version "@ + decimal(self.version as nat)),
            self.magic == CLEARLINE_PING_MAGIC && self.version == CLEARLINE_PING_VERSION ==> r == Ok::<
                Self,
                ClearLineError,
            >(self),
    {
        if self.magic != CLEARLINE_PING_MAGIC {
            let mut m = String::from_str("unexpected ping magic 0x");
            let digits = hex_chars(self.magic, 8);
            let mut i: usize = 0;
            let ghost m0 = m@;
            while i < digits.len()
                invariant
                    i <= digits.len(),
                    m@ == m0 + digits@.take(i as int),
                decreases digits.len() - i,
            {
                push_char(&mut m, digits[i]);
                assert(digits@.take(i + 1) == digits@.take(i as int).push(digits@[i as int]));
                i += 1;
            }
            assert(digits@.take(digits.len() as int) == digits@);
            return Err(ClearLineError::VirtualMicControl(m));
        }
        if self.version != CLEARLINE_PING_VERSION {
            let mut m = String::from_str("unsupported ping version ");
            push_decimal(&mut m, self.version as u64);
            return Err(ClearLineError::VirtualMicControl(m));
        }
        Ok(self)
    }
}

/// The driver's ring-buffer counters.
#[derive(Debug, Clone, Copy, PartialEq, Eq, Structural)]
pub struct ClearLineBufferStatus {
    pub capacity_bytes: u32,
    pub readable_bytes: u32,
    pub writable_bytes: u32,
    pub total_written_bytes: u64,
    pub total_dropped_bytes: u64,
    pub overflow_count: u64,
    pub total_read_bytes: u64,
    pub total_underrun_bytes: u64,
    pub underrun_count: u64,
}

impl ClearLineBufferStatus {
    pub fn capacity_bytes(self) -> (r: u32)
        ensures
            r == self.capacity_bytes,
    {
        self.capacity_bytes
    }

    pub fn readable_bytes(self) -> (r: u32)
        ensures
            r == self.readable_bytes,
    {
        self.readable_bytes
    }

    pub fn writable_bytes(self) -> (r: u32)
        ensures
            r == self.writable_bytes,
    {
        self.writable_bytes
    }

    pub fn total_written_bytes(self) -> (r: u64)
        ensures
            r == self.total_written_bytes,
    {
        self.total_written_bytes
    }

    pub fn total_dropped_bytes(self) -> (r: u64)
        ensures
            r == self.total_dropped_bytes,
    {
        self.total_dropped_bytes
    }

    pub fn overflow_count(self) -> (r: u64)
        ensures
            r == self.overflow_count,
    {
        self.overflow_count
    }

    pub fn total_read_bytes(self) -> (r: u64)
        ensures
            r == self.total_read_bytes,
    {
        self.total_read_bytes
    }

    pub fn total_underrun_bytes(self) -> (r: u64)
        ensures
            r == self.total_underrun_bytes,
    {
        self.total_underrun_bytes
    }

    pub fn underrun_count(self) -> (r: u64)
        ensures
            r == self.underrun_count,
    {
        self.underrun_count
    }
}

/// Handle on the driver's control device by its path.
#[derive(Debug, Clone)]
pub struct VirtualMicControl {
    path: String,
}

impl VirtualMicControl {
    pub closed spec fn spec_path(&self) -> Seq<char> {
        self.path@
    }

    /// The control device at its standard path.
    pub fn new() -> (r: Self)
        ensures
            r.spec_path() == CLEARLINE_CONTROL_PATH@,
    {
        Self::with_path(CLEARLINE_CONTROL_PATH)
    }

    pub fn with_path(path: &str) -> (r: Self)
        ensures
            r.spec_path() == path@,
    {
        VirtualMicControl { path: String::from_str(path) }
    }

    pub fn path(&self) -> (r: &str)
        ensures
            r@ == self.spec_path(),
    {
        self.path.as_str()
    }

    /// The error that every request gets where the driver does not exist (off Windows).
    pub fn unavailable_error(&self) -> (r: ClearLineError)
        ensures
            r matches ClearLineError::VirtualMicControl(m) && m@ == "ClearLine virtual microphone control path "@
                + self.spec_path() + " is only available on Windows"@,
    {
        let mut m = String::from_str("ClearLine virtual microphone control path ");
        m.append(self.path.as_str());
        m.append(" is only available on Windows");
        ClearLineError::VirtualMicControl(m)
    }
}

/// Bytes of a mono 16-bit PCM payload of `sample_count` samples, refused above `u32::MAX`.
pub fn pcm_payload_byte_len(sample_count: usize) -> (r: Result<u32, ClearLineError>)
    ensures
        2 * sample_count <= u32::MAX ==> r == Ok::<u32, ClearLineError>((2 * sample_count) as u32),
        2 * sample_count > u32::MAX && 2 * sample_count <= usize::MAX ==> (r matches Err(
            ClearLineError::VirtualMicControl(m),
        ) && m@ == "PCM payload has "@ + decimal((2 * sample_count) as nat)
            + " bytes, larger than u32::MAX"@),
        2 * sample_count > usize::MAX ==> (r matches Err(ClearLineError::VirtualMicControl(m))
            && m@ == "PCM payload is too large"@),
{
    let byte_len = match sample_count.checked_mul(2) {
        Some(n) => n,
        None => return Err(ClearLineError::VirtualMicControl(String::from_str("PCM payload is too large"))),
    };
    if byte_len > 0xffff_ffffusize {
        let mut m = String::from_str("PCM payload has ");
        push_decimal(&mut m, byte_len as u64);
        m.append(" bytes, larger than u32::MAX");
        return Err(ClearLineError::VirtualMicControl(m));
    }
    Ok(byte_len as u32)
}

/// Checks the size of a driver reply: `what` returned `returned` bytes and `expected` were due.
pub fn check_reply_size(what: &str, returned: u32, expected: u32) -> (r: Result<(), ClearLineError>)
    ensures
        returned == expected ==> r is Ok,
        returned != expected ==> (r matches Err(ClearLineError::VirtualMicControl(m)) && m@ == what@
            + " returned "@ + decimal(returned as nat) + " bytes, expected "@ + decimal(
            expected as nat,
        )),
{
    if returned == expected {
        return Ok(());
    }
    let mut m = String::from_str(what);
    m.append(" returned ");
    push_decimal(&mut m, returned as u64);
    m.append(" bytes, expected ");
    push_decimal(&mut m, expected as u64);
    Err(ClearLineError::VirtualMicControl(m))
}

} // verus!
