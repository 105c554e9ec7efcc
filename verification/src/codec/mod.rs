//! Codec level types: codec tags, encoder flags, codec errors and the
//! meaning of the native codecs' status codes.
pub mod audio;
pub mod bsf;
pub mod filter;
pub mod subtitle;
pub mod video;

use crate::error::Error;
use vstd::prelude::*;
use vstd::std_specs::convert::FromSpecImpl;

verus! {

/// A type of a decoding or an encoding error.
#[derive(Debug, Copy, Clone, PartialEq, Eq, Structural)]
pub enum ErrorKind {
    /// An error.
    Error,
    /// An error indicating that another operation needs to be done before
    /// continuing with the current operation.
    Again,
}

/// What a codec error carries.
#[derive(Clone)]
pub enum CodecErrorVariant {
    /// An error.
    Error(Error),
    /// An error indicating that another operation needs to be done before
    /// continuing with the current operation.
    Again(String),
}

/// A decoding or encoding error.
#[derive(Clone)]
pub struct CodecError {
    variant: CodecErrorVariant,
}

impl CodecError {
    /// The error is of the "again" kind (model).
    pub closed spec fn spec_is_again(self) -> bool {
        self.variant is Again
    }

    /// The inner error of an error of the "error" kind (model).
    pub closed spec fn spec_inner(self) -> Option<Error> {
        match self.variant {
            CodecErrorVariant::Error(err) => Some(err),
            CodecErrorVariant::Again(_) => None,
        }
    }

    /// The message of an error of the "again" kind (model).
    pub closed spec fn spec_again_message(self) -> Option<Seq<char>> {
        match self.variant {
            CodecErrorVariant::Error(_) => None,
            CodecErrorVariant::Again(msg) => Some(msg@),
        }
    }

    /// Create a new error with a given message.
    pub fn error(msg: String) -> (r: CodecError)
        ensures
            !r.spec_is_again(),
            r.spec_inner() matches Some(e) && e.spec_message() == Some(msg@) && e.spec_code() is None,
    {
        CodecError { variant: CodecErrorVariant::Error(Error::new(msg)) }
    }

    /// Create a new FFmpeg error from a given FFmpeg error code.
    pub fn from_raw_error_code(code: i32) -> (r: CodecError)
        ensures
            !r.spec_is_again(),
            r.spec_inner() matches Some(e) && e.spec_code() == Some(code) && e.spec_message() is None,
    {
        CodecError { variant: CodecErrorVariant::Error(Error::from_raw_error_code(code)) }
    }

    /// Create a new error indicating that another operation needs to be done.
    pub fn again(msg: String) -> (r: CodecError)
        ensures
            r.spec_is_again(),
            r.spec_inner() is None,
            r.spec_again_message() == Some(msg@),
    {
        CodecError { variant: CodecErrorVariant::Again(msg) }
    }

    /// Create a new error of a given kind.
    pub fn new(kind: ErrorKind, msg: String) -> (r: CodecError)
        ensures
            r.spec_is_again() <==> kind == ErrorKind::Again,
            kind == ErrorKind::Again ==> r.spec_again_message() == Some(msg@),
            kind == ErrorKind::Error ==> (r.spec_inner() matches Some(e) && e.spec_message() == Some(
                msg@,
            )),
    {
        match kind {
            ErrorKind::Error => CodecError::error(msg),
            ErrorKind::Again => CodecError::again(msg),
        }
    }

    /// Get error kind.
    pub fn kind(&self) -> (r: ErrorKind)
        ensures
            r == ErrorKind::Again <==> self.spec_is_again(),
    {
        match &self.variant {
            CodecErrorVariant::Error(_) => ErrorKind::Error,
            CodecErrorVariant::Again(_) => ErrorKind::Again,
        }
    }

    /// Check if another operation needs to be done.
    pub fn is_again(&self) -> (r: bool)
        ensures
            r == self.spec_is_again(),
    {
        match &self.variant {
            CodecErrorVariant::Error(_) => false,
            CodecErrorVariant::Again(_) => true,
        }
    }

    /// Get the inner error (if any).
    pub fn into_inner(self) -> (r: Option<Error>)
        ensures
            r == self.spec_inner(),
    {
        match self.variant {
            CodecErrorVariant::Error(err) => Some(err),
            CodecErrorVariant::Again(_) => None,
        }
    }

    /// Get the inner error; the error must not be of the "again" kind.
    pub fn unwrap_inner(self) -> (r: Error)
        requires
            !self.spec_is_again(),
        ensures
            self.spec_inner() == Some(r),
    {
        match self.variant {
            CodecErrorVariant::Error(err) => err,
            CodecErrorVariant::Again(_) => {
                proof {
                    assert(false);
                }
                Error::from_raw_error_code(0)
            },
        }
    }

    /// The message of an error of the "again" kind.
    pub fn again_message(&self) -> (r: Option<&str>)
        ensures
            r matches Some(m) ==> self.spec_again_message() == Some(m@),
            r is None <==> !self.spec_is_again(),
    {
        match &self.variant {
            CodecErrorVariant::Error(_) => None,
            CodecErrorVariant::Again(msg) => Some(msg.as_str()),
        }
    }
}

/// A codec error has an inner error exactly when it is not of the "again"
/// kind, and an "again" error has its message exactly when it is of that
/// kind: `into_inner` gives `Some` exactly when `is_again` is false, and
/// `unwrap_inner` succeeds exactly then, giving that inner error.
pub proof fn lemma_inner_iff_not_again(e: CodecError)
    ensures
        e.spec_inner() is Some <==> !e.spec_is_again(),
        e.spec_again_message() is Some <==> e.spec_is_again(),
{
}

impl From<Error> for CodecError {
    fn from(err: Error) -> (r: CodecError)
        ensures
            !r.spec_is_again(),
            r.spec_inner() == Some(err),
    {
        CodecError { variant: CodecErrorVariant::Error(err) }
    }
}

impl FromSpecImpl<Error> for CodecError {
    open spec fn obeys_from_spec() -> bool {
        true
    }

    closed spec fn from_spec(err: Error) -> CodecError {
        CodecError { variant: CodecErrorVariant::Error(err) }
    }
}


/// The result of pushing into (or flushing) a native decoder, encoder or
/// filter, given its status: 1 accepted, 0 the pending output must be taken
/// first (an "again" error with the given message), anything else the
/// FFmpeg error with that code.
pub fn push_status(status: i32, again_message: String) -> (r: Result<(), CodecError>)
    ensures
        status == 1 ==> r is Ok,
        status == 0 ==> (r matches Err(e) && e.spec_is_again() && e.spec_again_message() == Some(
            again_message@,
        )),
        status != 0 && status != 1 ==> (r matches Err(e) && !e.spec_is_again() && (e.spec_inner()
            matches Some(inner) && inner.spec_code() == Some(status))),
{
    if status == 1 {
        Ok(())
    } else if status == 0 {
        Err(CodecError::again(again_message))
    } else {
        Err(CodecError::from_raw_error_code(status))
    }
}

/// The result of taking output from a native decoder, encoder or filter,
/// given its status: 1 output is available (`Ok(true)`), 0 none is
/// (`Ok(false)`), anything else the FFmpeg error with that code.
pub fn take_status(status: i32) -> (r: Result<bool, Error>)
    ensures
        status == 1 ==> r == Ok::<bool, Error>(true),
        status == 0 ==> r == Ok::<bool, Error>(false),
        status != 0 && status != 1 ==> (r matches Err(e) && e.spec_code() == Some(status)),
{
    if status == 1 {
        Ok(true)
    } else if status == 0 {
        Ok(false)
    } else {
        Err(Error::from_raw_error_code(status))
    }
}

/// The value of four bytes read as a little-endian `u32`.
pub open spec fn le_u32(b0: u8, b1: u8, b2: u8, b3: u8) -> int {
    b0 + 0x100 * b1 + 0x1_0000 * b2 + 0x100_0000 * b3
}

/// A codec tag.
#[derive(Copy, Clone, PartialEq, Eq, Structural)]
pub struct CodecTag(u32);

impl CodecTag {
    /// The raw value (model).
    pub closed spec fn spec_value(self) -> u32 {
        self.0
    }

    /// The raw value of the tag.
    pub fn value(self) -> (r: u32)
        ensures
            r == self.spec_value(),
    {
        self.0
    }
}

impl From<u32> for CodecTag {
    fn from(value: u32) -> (r: CodecTag)
        ensures
            r.spec_value() == value,
    {
        CodecTag(value)
    }
}

impl FromSpecImpl<u32> for CodecTag {
    open spec fn obeys_from_spec() -> bool {
        true
    }

    closed spec fn from_spec(value: u32) -> CodecTag {
        CodecTag(value)
    }
}

impl From<CodecTag> for u32 {
    fn from(value: CodecTag) -> (r: u32)
        ensures
            r == value.spec_value(),
    {
        value.0
    }
}

impl FromSpecImpl<CodecTag> for u32 {
    open spec fn obeys_from_spec() -> bool {
        true
    }

    open spec fn from_spec(value: CodecTag) -> u32 {
        value.spec_value()
    }
}

impl From<&[u8; 4]> for CodecTag {
    /// The tag whose value is the four bytes read as a little-endian number.
    fn from(value: &[u8; 4]) -> (r: CodecTag)
        ensures
            r.spec_value() == le_u32(value[0], value[1], value[2], value[3]),
    {
        let b0 = value[0] as u32;
        let b1 = value[1] as u32;
        let b2 = value[2] as u32;
        let b3 = value[3] as u32;
        CodecTag(b0 + 0x100 * b1 + 0x1_0000 * b2 + 0x100_0000 * b3)
    }
}

impl FromSpecImpl<&[u8; 4]> for CodecTag {
    open spec fn obeys_from_spec() -> bool {
        true
    }

    closed spec fn from_spec(value: &[u8; 4]) -> CodecTag {
        CodecTag(le_u32(value[0], value[1], value[2], value[3]) as u32)
    }
}

/// Codec flags used to control encoder behavior when passed to AVCodecContext
#[derive(Copy, Clone, PartialEq, Eq, Structural)]
pub enum CodecFlag {
    Unaligned,
    QScale,
    FourMV,
    OutputCorrupt,
    QPEL,
    DropChanged,
    ReconFrame,
    CopyOpaque,
    FrameDuration,
    Pass1,
    Pass2,
    LoopFilter,
    Gray,
    PSNR,
    Truncated,
    InterlacedDCT,
    LowDelay,
    GlobalHeader,
    BitExact,
    ACPred,
    InterlacedME,
    ClosedGOP,
}

/// `2^n`
pub open spec fn bit(n: nat) -> int
    decreases n,
{
    if n == 0 {
        1
    } else {
        2 * bit((n - 1) as nat)
    }
}

/// A single bit of a C `int` flag word: bit 31 is the sign bit.
pub open spec fn int_flag(n: nat) -> int {
    if n == 31 {
        -0x8000_0000
    } else {
        bit(n)
    }
}

impl CodecFlag {
    /// The bit that the flag sets in `AVCodecContext::flags`.
    pub open spec fn spec_bit(self) -> nat {
        match self {
            CodecFlag::Unaligned => 0,
            CodecFlag::QScale => 1,
            CodecFlag::FourMV => 2,
            CodecFlag::OutputCorrupt => 3,
            CodecFlag::QPEL => 4,
            CodecFlag::DropChanged => 5,
            CodecFlag::ReconFrame => 6,
            CodecFlag::CopyOpaque => 7,
            CodecFlag::FrameDuration => 8,
            CodecFlag::Pass1 => 9,
            CodecFlag::Pass2 => 10,
            CodecFlag::LoopFilter => 11,
            CodecFlag::Gray => 13,
            CodecFlag::PSNR => 15,
            CodecFlag::Truncated => 16,
            CodecFlag::InterlacedDCT => 18,
            CodecFlag::LowDelay => 19,
            CodecFlag::GlobalHeader => 22,
            CodecFlag::BitExact => 23,
            CodecFlag::ACPred => 24,
            CodecFlag::InterlacedME => 29,
            CodecFlag::ClosedGOP => 31,
        }
    }

    /// The raw flag value: the flag's single bit.
    pub fn into_raw(self) -> (r: i32)
        ensures
            r == int_flag(self.spec_bit()),
    {
        proof {
            reveal_with_fuel(bit, 31);
        }
        match self {
            CodecFlag::Unaligned => 0x1,
            CodecFlag::QScale => 0x2,
            CodecFlag::FourMV => 0x4,
            CodecFlag::OutputCorrupt => 0x8,
            CodecFlag::QPEL => 0x10,
            CodecFlag::DropChanged => 0x20,
            CodecFlag::ReconFrame => 0x40,
            CodecFlag::CopyOpaque => 0x80,
            CodecFlag::FrameDuration => 0x100,
            CodecFlag::Pass1 => 0x200,
            CodecFlag::Pass2 => 0x400,
            CodecFlag::LoopFilter => 0x800,
            CodecFlag::Gray => 0x2000,
            CodecFlag::PSNR => 0x8000,
            CodecFlag::Truncated => 0x10000,
            CodecFlag::InterlacedDCT => 0x40000,
            CodecFlag::LowDelay => 0x80000,
            CodecFlag::GlobalHeader => 0x400000,
            CodecFlag::BitExact => 0x800000,
            CodecFlag::ACPred => 0x1000000,
            CodecFlag::InterlacedME => 0x20000000,
            CodecFlag::ClosedGOP => i32::MIN,
        }
    }
}

/// More codec flags used to control encoder behavior when passed to AVCodecContext
#[derive(Copy, Clone, PartialEq, Eq, Structural)]
pub enum CodecFlag2 {
    Fast,
    NoOutput,
    LocalHeader,
    DropFrameTimecode,
    Chunks,
    IgnoreCrop,
    ShowAll,
    ExportMVS,
    SkipManual,
    ROFlushNoOp,
    ICCProfiles,
}

impl CodecFlag2 {
    /// The bit that the flag sets in `AVCodecContext::flags2`.
    pub open spec fn spec_bit(self) -> nat {
        match self {
            CodecFlag2::Fast => 0,
            CodecFlag2::NoOutput => 2,
            CodecFlag2::LocalHeader => 3,
            CodecFlag2::DropFrameTimecode => 13,
            CodecFlag2::Chunks => 15,
            CodecFlag2::IgnoreCrop => 16,
            CodecFlag2::ShowAll => 22,
            CodecFlag2::ExportMVS => 28,
            CodecFlag2::SkipManual => 29,
            CodecFlag2::ROFlushNoOp => 30,
            CodecFlag2::ICCProfiles => 31,
        }
    }

    /// The raw flag value: the flag's single bit.
    pub fn into_raw(self) -> (r: i32)
        ensures
            r == int_flag(self.spec_bit()),
    {
        proof {
            reveal_with_fuel(bit, 31);
        }
        match self {
            CodecFlag2::Fast => 0x1,
            CodecFlag2::NoOutput => 0x4,
            CodecFlag2::LocalHeader => 0x8,
            CodecFlag2::DropFrameTimecode => 0x2000,
            CodecFlag2::Chunks => 0x8000,
            CodecFlag2::IgnoreCrop => 0x10000,
            CodecFlag2::ShowAll => 0x400000,
            CodecFlag2::ExportMVS => 0x10000000,
            CodecFlag2::SkipManual => 0x20000000,
            CodecFlag2::ROFlushNoOp => 0x40000000,
            CodecFlag2::ICCProfiles => i32::MIN,
        }
    }
}

/// Different flags set different bits, so flags can be combined with `|`
/// without interfering with each other.
pub proof fn lemma_flags_distinct(a: CodecFlag, b: CodecFlag, c: CodecFlag2, d: CodecFlag2)
    ensures
        a != b ==> a.spec_bit() != b.spec_bit(),
        c != d ==> c.spec_bit() != d.spec_bit(),
        a.spec_bit() < 32,
        c.spec_bit() < 32,
{
}

/// The bit pattern of a flag word with only bit `n` set.
pub open spec fn flag_word(n: u32) -> u32 {
    1u32 << n
}

proof fn lemma_shift_words()
    by (bit_vector)
    ensures
        forall|x: u32, y: u32|
            #![trigger (1u32 << x), (1u32 << y)]
            x < 32 && y < 32 && x != y ==> ((1u32 << x) & (1u32 << y)) == 0,
        forall|x: u32|
            #![trigger (1u32 << x)]
            x < 32 ==> (1u32 << x) != 0 && ((1u32 << x) & (((1u32 << x) - 1) as u32)) == 0,
        forall|x: u32| #![trigger (1u32 << x)] x < 31 ==> (1u32 << x) <= 0x4000_0000,
        forall|x: u32| #![trigger (1u32 << x)] 0 < x < 32 ==> (1u32 << x) == 2 * (1u32 << ((x - 1) as u32)),
        (1u32 << 0u32) == 1u32,
        (1u32 << 31u32) == 0x8000_0000u32,
{
}

proof fn lemma_flag_word_is_bit(n: u32)
    requires
        n < 32,
    ensures
        flag_word(n) == bit(n as nat),
    decreases n,
{
    lemma_shift_words();
    if n > 0 {
        lemma_flag_word_is_bit((n - 1) as u32);
        assert(flag_word(n) == 2 * flag_word((n - 1) as u32));
    }
}

/// The value of a flag word as a C `int`: bit 31 is the sign bit.
pub open spec fn word_as_c_int(w: u32) -> int {
    if w <= 0x7fff_ffff {
        w as int
    } else {
        w as int - 0x1_0000_0000
    }
}

proof fn lemma_int_flag_word(n: u32)
    requires
        n < 32,
    ensures
        int_flag(n as nat) == word_as_c_int(flag_word(n)),
{
    lemma_shift_words();
    lemma_flag_word_is_bit(n);
}

/// Each flag's raw value is a C `int` whose bit pattern has exactly one bit
/// set (it is not 0 and clearing its lowest set bit leaves 0), and two
/// different flags of the same kind share no bit, so flags combined with `|`
/// can be told apart.
pub proof fn lemma_flag_bits_disjoint(a: CodecFlag, b: CodecFlag, c: CodecFlag2, d: CodecFlag2)
    ensures
        int_flag(a.spec_bit()) == word_as_c_int(flag_word(a.spec_bit() as u32)),
        int_flag(c.spec_bit()) == word_as_c_int(flag_word(c.spec_bit() as u32)),
        flag_word(a.spec_bit() as u32) != 0,
        flag_word(a.spec_bit() as u32) & ((flag_word(a.spec_bit() as u32) - 1) as u32) == 0,
        flag_word(c.spec_bit() as u32) != 0,
        flag_word(c.spec_bit() as u32) & ((flag_word(c.spec_bit() as u32) - 1) as u32) == 0,
        a != b ==> flag_word(a.spec_bit() as u32) & flag_word(b.spec_bit() as u32) == 0,
        c != d ==> flag_word(c.spec_bit() as u32) & flag_word(d.spec_bit() as u32) == 0,
{
    lemma_shift_words();
    lemma_flags_distinct(a, b, c, d);
    lemma_flags_distinct(b, a, d, c);
    lemma_int_flag_word(a.spec_bit() as u32);
    lemma_int_flag_word(c.spec_bit() as u32);
}

/// Each flag's raw value is FFmpeg's value of that flag: the
/// `AV_CODEC_FLAG_*` bits for `CodecFlag` (for example the low delay flag is
/// bit 19) and the `AV_CODEC_FLAG2_*` bits for `CodecFlag2`; bit 31 is the
/// sign bit of the C `int`.
pub proof fn lemma_native_flag_values()
    ensures
        int_flag(CodecFlag::Unaligned.spec_bit()) == 0x1,
        int_flag(CodecFlag::QScale.spec_bit()) == 0x2,
        int_flag(CodecFlag::FourMV.spec_bit()) == 0x4,
        int_flag(CodecFlag::OutputCorrupt.spec_bit()) == 0x8,
        int_flag(CodecFlag::QPEL.spec_bit()) == 0x10,
        int_flag(CodecFlag::DropChanged.spec_bit()) == 0x20,
        int_flag(CodecFlag::ReconFrame.spec_bit()) == 0x40,
        int_flag(CodecFlag::CopyOpaque.spec_bit()) == 0x80,
        int_flag(CodecFlag::FrameDuration.spec_bit()) == 0x100,
        int_flag(CodecFlag::Pass1.spec_bit()) == 0x200,
        int_flag(CodecFlag::Pass2.spec_bit()) == 0x400,
        int_flag(CodecFlag::LoopFilter.spec_bit()) == 0x800,
        int_flag(CodecFlag::Gray.spec_bit()) == 0x2000,
        int_flag(CodecFlag::PSNR.spec_bit()) == 0x8000,
        int_flag(CodecFlag::Truncated.spec_bit()) == 0x10000,
        int_flag(CodecFlag::InterlacedDCT.spec_bit()) == 0x40000,
        int_flag(CodecFlag::LowDelay.spec_bit()) == 0x80000,
        int_flag(CodecFlag::GlobalHeader.spec_bit()) == 0x400000,
        int_flag(CodecFlag::BitExact.spec_bit()) == 0x800000,
        int_flag(CodecFlag::ACPred.spec_bit()) == 0x1000000,
        int_flag(CodecFlag::InterlacedME.spec_bit()) == 0x20000000,
        int_flag(CodecFlag::ClosedGOP.spec_bit()) == -0x8000_0000,
        int_flag(CodecFlag2::Fast.spec_bit()) == 0x1,
        int_flag(CodecFlag2::NoOutput.spec_bit()) == 0x4,
        int_flag(CodecFlag2::LocalHeader.spec_bit()) == 0x8,
        int_flag(CodecFlag2::DropFrameTimecode.spec_bit()) == 0x2000,
        int_flag(CodecFlag2::Chunks.spec_bit()) == 0x8000,
        int_flag(CodecFlag2::IgnoreCrop.spec_bit()) == 0x10000,
        int_flag(CodecFlag2::ShowAll.spec_bit()) == 0x400000,
        int_flag(CodecFlag2::ExportMVS.spec_bit()) == 0x10000000,
        int_flag(CodecFlag2::SkipManual.spec_bit()) == 0x20000000,
        int_flag(CodecFlag2::ROFlushNoOp.spec_bit()) == 0x40000000,
        int_flag(CodecFlag2::ICCProfiles.spec_bit()) == -0x8000_0000,
{
    reveal_with_fuel(bit, 32);
}

} // verus!
