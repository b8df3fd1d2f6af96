//! The byte-oriented platform family: native strings are null-terminated
//! byte buffers and locking talks to the byte-range-lock primitive.

use vstd::prelude::*;
use vstd::string::StringSliceAdditionalSpecFns;

verus! {

/// A file descriptor of the byte-oriented platform family.
pub type FileDesc = i32;

/// No zero byte stands strictly before the final position. A zero unit in
/// the middle of a path is a caller defect, never a recoverable outcome.
pub open spec fn no_interior_nul(s: Seq<u8>) -> bool {
    forall|i: int| 0 <= i < s.len() - 1 ==> s[i] != 0
}

/// The image of a native string: nonempty, exactly one trailing zero byte,
/// no zero byte before it.
pub open spec fn is_native(s: Seq<u8>) -> bool {
    &&& s.len() >= 1
    &&& s[s.len() - 1] == 0
    &&& no_interior_nul(s)
}

/// The native image of a path: the bytes themselves when they already end in
/// a terminator, otherwise the bytes with one terminator appended.
pub open spec fn native_of(s: Seq<u8>) -> Seq<u8> {
    if s.len() >= 1 && s[s.len() - 1] == 0 {
        s
    } else {
        s.push(0)
    }
}

/// A path with no interior terminator always has a well-formed native image,
/// at most one byte longer than the path itself.
pub proof fn lemma_native_of_is_native(s: Seq<u8>)
    requires
        no_interior_nul(s),
    ensures
        is_native(native_of(s)),
        s.len() <= native_of(s).len() <= s.len() + 1,
        is_native(s) ==> native_of(s) == s,
{
}

/// An interior terminator is a defect on every call: no sequence holding a
/// zero byte strictly before its final position satisfies the conversion
/// precondition, so such input is deterministically rejected and never
/// silently truncated, repaired, or mutated.
pub proof fn lemma_interior_nul_is_defect(s: Seq<u8>)
    requires
        exists|i: int| 0 <= i < s.len() - 1 && s[i] == 0,
    ensures
        !no_interior_nul(s),
        !is_native(s),
{
}

/// An IO error: a raw OS status code with a lazily rendered message.
#[derive(Debug)]
pub struct Error {
    code: i32,
}

impl Error {
    /// The raw OS status code held by this error.
    pub closed spec fn spec_code(&self) -> i32 {
        self.code
    }

    /// Creates an error from a raw OS error code.
    pub fn from_raw_os_error(code: i32) -> (r: Self)
        ensures
            r.spec_code() == code,
    {
        Self { code }
    }

    /// Creates an error from the last OS error code recorded for the calling
    /// thread. The code depends on the environment, so nothing further is
    /// promised about it.
    pub fn last_os_error() -> Error {
        Self::from_raw_os_error(crate::host::last_error_code())
    }

    /// Raw OS error code. Returns option for compatibility with the host
    /// runtime's error type.
    pub fn raw_os_error(&self) -> (r: Option<i32>)
        ensures
            r == Some(self.spec_code()),
    {
        Some(self.code)
    }

    /// A human-readable message for the status code, queried from the OS;
    /// never empty.
    pub fn message(&self) -> (r: String)
        ensures
            r@.len() > 0,
    {
        render_message(crate::host::os_error_message(self.code))
    }
}

/// Turns the text the OS associated with a status code into the rendered
/// message: the text itself when there is one, a fixed marker when the
/// query came back empty; never empty either way.
pub fn render_message(text: String) -> (r: String)
    ensures
        text@.len() > 0 ==> r@ == text@,
        text@.len() == 0 ==> r@ == "error getting error message"@,
        r@.len() > 0,
{
    proof {
        reveal_strlit("error getting error message");
    }
    if !text.as_str().is_empty() {
        text
    } else {
        "error getting error message".to_owned()
    }
}

/// Borrowed view of an OS-native string: a zero-copy window over
/// externally-owned memory that already carries the termination invariant.
#[derive(Debug, Clone, Copy)]
pub struct OsStr<'a> {
    bytes: &'a [u8],
}

impl<'a> View for OsStr<'a> {
    type V = Seq<u8>;

    closed spec fn view(&self) -> Seq<u8> {
        self.bytes@
    }
}

impl<'a> OsStr<'a> {
    /// The termination invariant over the viewed bytes.
    pub open spec fn wf(&self) -> bool {
        is_native(self@)
    }

    /// Wraps bytes that already satisfy the termination invariant. No copy
    /// is made; handing over bytes that break the invariant is a caller
    /// defect, which this precondition excludes.
    pub fn from_bytes(bytes: &'a [u8]) -> (r: Self)
        requires
            is_native(bytes@),
        ensures
            r@ == bytes@,
            r.wf(),
    {
        OsStr { bytes }
    }

    /// The viewed bytes, terminator included.
    pub fn as_bytes(&self) -> (r: &'a [u8])
        ensures
            r@ == self@,
    {
        self.bytes
    }

    /// The human-readable decoding of the bytes before the terminator,
    /// greedy UTF-8 with byte-exact resynchronization.
    pub fn display(&self) -> (r: String)
        requires
            self.wf(),
        ensures
            r@ == decode_lossy(self@.take(self@.len() - 1)),
    {
        let n = self.bytes.len();
        let content = vstd::slice::slice_subrange(self.bytes, 0, n - 1);
        proof {
            assert(content@ =~= self@.take(self@.len() - 1));
        }
        decode_lossy_str(content)
    }
}

/// Checks the termination invariant at run time: exactly one trailing zero
/// byte and none before it.
pub fn bytes_are_native(b: &[u8]) -> (r: bool)
    ensures
        r == is_native(b@),
{
    let n = b.len();
    if n == 0 {
        return false;
    }
    if b[n - 1] != 0 {
        return false;
    }
    let mut i: usize = 0;
    while i < n - 1
        invariant
            n == b@.len(),
            n >= 1,
            b@[n - 1] == 0,
            i <= n - 1,
            forall|j: int| 0 <= j < i ==> b@[j] != 0,
        decreases n - 1 - i,
    {
        if b[i] == 0 {
            assert(!no_interior_nul(b@));
            return false;
        }
        i = i + 1;
    }
    true
}

/// Greedy UTF-8 decoding with byte-exact resynchronization: each
/// well-formed scalar encoding yields its character; at an ill-formed
/// position one replacement marker is emitted and decoding resumes at the
/// very next byte.
pub open spec fn decode_lossy(bytes: Seq<u8>) -> Seq<char>
    decreases bytes.len(),
{
    if bytes.len() == 0 {
        Seq::empty()
    } else if vstd::utf8::valid_first_scalar(bytes) {
        seq![vstd::utf8::decode_first_scalar(bytes) as char] + decode_lossy(
            vstd::utf8::pop_first_scalar(bytes),
        )
    } else {
        seq!['\u{FFFD}'] + decode_lossy(bytes.skip(1))
    }
}

/// On valid UTF-8 the greedy lossy decoding emits no replacement marker:
/// it agrees with exact UTF-8 decoding.
pub proof fn lemma_decode_lossy_exact(bytes: Seq<u8>)
    requires
        vstd::utf8::valid_utf8(bytes),
    ensures
        decode_lossy(bytes) == vstd::utf8::decode_utf8(bytes),
    decreases bytes.len(),
{
    if bytes.len() != 0 {
        assert(vstd::utf8::pop_first_scalar(bytes).len() < bytes.len());
        lemma_decode_lossy_exact(vstd::utf8::pop_first_scalar(bytes));
    }
}

/// Encoding characters as UTF-8 and decoding them greedily gives the
/// original characters back.
pub proof fn lemma_decode_lossy_roundtrip(chars: Seq<char>)
    ensures
        decode_lossy(vstd::utf8::encode_utf8(chars)) == chars,
{
    broadcast use vstd::utf8::encode_utf8_valid_utf8;
    broadcast use vstd::utf8::encode_utf8_decode_utf8;

    lemma_decode_lossy_exact(vstd::utf8::encode_utf8(chars));
}

/// Reads the first scalar encoding at position `i`: its value and width
/// when well-formed, nothing otherwise.
fn classify_first(bytes: &[u8], i: usize) -> (r: Option<(u32, usize)>)
    requires
        i < bytes@.len(),
    ensures
        ({
            let tail = bytes@.skip(i as int);
            &&& (r is Some <==> vstd::utf8::valid_first_scalar(tail))
            &&& (r matches Some(p) ==> {
                &&& p.0 == vstd::utf8::decode_first_scalar(tail)
                &&& p.1 == vstd::utf8::length_of_first_scalar(tail)
                &&& 1 <= p.1 <= bytes@.len() - i
                &&& vstd::utf8::is_scalar(p.0)
            })
        }),
{
    let ghost tail = bytes@.skip(i as int);
    let n = bytes.len();
    let b0 = bytes[i];
    assert(tail[0] == bytes@[i as int]);
    if b0 <= 0x7f {
        assert(b0 & 0x7f == b0) by (bit_vector)
            requires
                b0 <= 0x7f,
        ;
        Some((b0 as u32, 1))
    } else if 0xc0 <= b0 && b0 <= 0xdf {
        if n - i >= 2 {
            let b1 = bytes[i + 1];
            assert(tail[1] == bytes@[i + 1]);
            if 0x80 <= b1 && b1 <= 0xbf {
                let cp = (((b0 & 0x1f) as u32) << 6) | ((b1 & 0x3f) as u32);
                assert(cp <= 0x7ff) by (bit_vector)
                    requires
                        cp == (((b0 & 0x1f) as u32) << 6) | ((b1 & 0x3f) as u32),
                ;
                if cp >= 0x80 {
                    Some((cp, 2))
                } else {
                    None
                }
            } else {
                None
            }
        } else {
            None
        }
    } else if 0xe0 <= b0 && b0 <= 0xef {
        if n - i >= 3 {
            let b1 = bytes[i + 1];
            let b2 = bytes[i + 2];
            assert(tail[1] == bytes@[i + 1] && tail[2] == bytes@[i + 2]);
            if 0x80 <= b1 && b1 <= 0xbf && 0x80 <= b2 && b2 <= 0xbf {
                let cp = (((b0 & 0x0f) as u32) << 12) | (((b1 & 0x3f) as u32) << 6) | ((b2
                    & 0x3f) as u32);
                assert(cp <= 0xffff) by (bit_vector)
                    requires
                        cp == (((b0 & 0x0f) as u32) << 12) | (((b1 & 0x3f) as u32) << 6) | ((b2
                            & 0x3f) as u32),
                ;
                if cp >= 0x800 && !(0xd800 <= cp && cp <= 0xdfff) {
                    Some((cp, 3))
                } else {
                    None
                }
            } else {
                None
            }
        } else {
            None
        }
    } else if 0xf0 <= b0 && b0 <= 0xf7 {
        if n - i >= 4 {
            let b1 = bytes[i + 1];
            let b2 = bytes[i + 2];
            let b3 = bytes[i + 3];
            assert(tail[1] == bytes@[i + 1] && tail[2] == bytes@[i + 2] && tail[3] == bytes@[i
                + 3]);
            if 0x80 <= b1 && b1 <= 0xbf && 0x80 <= b2 && b2 <= 0xbf && 0x80 <= b3 && b3 <= 0xbf {
                let cp = (((b0 & 0x07) as u32) << 18) | (((b1 & 0x3f) as u32) << 12) | (((b2
                    & 0x3f) as u32) << 6) | ((b3 & 0x3f) as u32);
                if 0x10000 <= cp && cp <= 0x10ffff {
                    Some((cp, 4))
                } else {
                    None
                }
            } else {
                None
            }
        } else {
            None
        }
    } else {
        None
    }
}

/// Decodes bytes as UTF-8, greedily and with byte-exact resynchronization:
/// on a decode failure the longest valid prefix is kept, one replacement
/// marker is emitted, and decoding continues from the next byte.
pub fn decode_lossy_str(bytes: &[u8]) -> (r: String)
    ensures
        r@ == decode_lossy(bytes@),
{
    let mut out = String::new();
    let mut i: usize = 0;
    proof {
        assert(bytes@.skip(0) =~= bytes@);
    }
    while i < bytes.len()
        invariant
            i <= bytes@.len(),
            out@ + decode_lossy(bytes@.skip(i as int)) == decode_lossy(bytes@),
        decreases bytes@.len() - i,
    {
        let ghost tail = bytes@.skip(i as int);
        match classify_first(bytes, i) {
            Some(pair) => {
                let (cp, w) = pair;
                let c = char::from_u32(cp).unwrap();
                out.push(c);
                proof {
                    vstd::utf8::char_u32_cast(c, cp);
                    assert(tail.subrange(w as int, tail.len() as int) =~= bytes@.skip(
                        (i + w) as int,
                    ));
                    assert(decode_lossy(tail) == seq![c] + decode_lossy(bytes@.skip((i + w) as int)));
                    assert(out@ + decode_lossy(bytes@.skip((i + w) as int)) =~= decode_lossy(
                        bytes@,
                    ));
                }
                i = i + w;
            },
            None => {
                out.push('\u{FFFD}');
                proof {
                    assert(tail.skip(1) =~= bytes@.skip(i + 1));
                    assert(decode_lossy(tail) == seq!['\u{FFFD}'] + decode_lossy(
                        bytes@.skip(i + 1),
                    ));
                    assert(out@ + decode_lossy(bytes@.skip(i + 1)) =~= decode_lossy(bytes@));
                }
                i = i + 1;
            },
        }
    }
    proof {
        assert(bytes@.skip(i as int) =~= Seq::<u8>::empty());
        assert(out@ =~= decode_lossy(bytes@));
    }
    out
}

/// Owned allocation of an OS-native string. The buffer is released exactly
/// once, deterministically, when its owner drops the value.
#[derive(Debug)]
pub struct OsString {
    bytes: Vec<u8>,
}

impl View for OsString {
    type V = Seq<u8>;

    closed spec fn view(&self) -> Seq<u8> {
        self.bytes@
    }
}

impl OsString {
    /// The termination invariant over the owned bytes.
    pub open spec fn wf(&self) -> bool {
        is_native(self@)
    }

    /// A borrowed view of the owned buffer.
    pub fn as_os_str(&self) -> (r: OsStr<'_>)
        ensures
            r@ == self@,
    {
        OsStr { bytes: self.bytes.as_slice() }
    }

    /// The owned bytes, terminator included.
    pub fn as_bytes(&self) -> (r: &[u8])
        ensures
            r@ == self@,
    {
        self.bytes.as_slice()
    }

    /// The human-readable decoding of the bytes before the terminator,
    /// greedy UTF-8 with byte-exact resynchronization.
    pub fn display(&self) -> (r: String)
        requires
            self.wf(),
        ensures
            r@ == decode_lossy(self@.take(self@.len() - 1)),
    {
        self.as_os_str().display()
    }
}

/// Either borrowed or owned allocation of an OS-native string.
#[derive(Debug)]
pub enum EitherOsStr<'a> {
    /// Borrowed allocation.
    Borrowed(OsStr<'a>),
    /// Owned allocation.
    Owned(OsString),
}

impl<'a> View for EitherOsStr<'a> {
    type V = Seq<u8>;

    open spec fn view(&self) -> Seq<u8> {
        match self {
            EitherOsStr::Borrowed(s) => s@,
            EitherOsStr::Owned(s) => s@,
        }
    }
}

impl<'a> EitherOsStr<'a> {
    /// The termination invariant over the viewed bytes.
    pub open spec fn wf(&self) -> bool {
        is_native(self@)
    }
}

/// Converts path bytes into a native string. When the input already ends
/// with the terminator the existing memory is borrowed and no allocation is
/// made; otherwise a new buffer of exactly one more byte is filled with the
/// input plus one terminator. An interior terminator is a caller defect and
/// is excluded, never repaired.
pub fn make_os_str<'a>(slice: &'a [u8]) -> (r: Result<EitherOsStr<'a>, Error>)
    requires
        no_interior_nul(slice@),
    ensures
        r matches Ok(e) && e.wf() && e@ == native_of(slice@),
        r matches Ok(e) && ((e is Borrowed) <==> is_native(slice@)),
        r matches Ok(e) && ((e is Owned) ==> e@ == slice@.push(0) && e@.len() == slice@.len() + 1),
{
    let n = slice.len();
    if n >= 1 && slice[n - 1] == 0 {
        Ok(EitherOsStr::Borrowed(OsStr::from_bytes(slice)))
    } else {
        let mut bytes: Vec<u8> = Vec::new();
        let mut i: usize = 0;
        while i < n
            invariant
                n == slice@.len(),
                i <= n,
                bytes@ == slice@.take(i as int),
            decreases n - i,
        {
            bytes.push(slice[i]);
            assert(bytes@ =~= slice@.take(i + 1));
            i = i + 1;
        }
        assert(bytes@ =~= slice@);
        bytes.push(0);
        let owned = OsString { bytes };
        assert(owned@ =~= slice@.push(0));
        Ok(EitherOsStr::Owned(owned))
    }
}

/// Relies on `libc::EACCES`, the access-denied status, as the Linux build
/// target defines it: 13. Other members of the byte-oriented family number
/// these statuses differently, so porting this crate means re-checking both
/// constants.
#[verifier::external_body]
fn errno_eacces() -> (r: i32)
    ensures
        r == 13,
{
    libc::EACCES
}

/// Relies on `libc::EAGAIN`, the resource-unavailable status, as the Linux
/// build target defines it: 11.
#[verifier::external_body]
fn errno_eagain() -> (r: i32)
    ensures
        r == 11,
{
    libc::EAGAIN
}

/// The platform-specific contention signal of the byte-range-lock family: an
/// access-denied or resource-unavailable status.
pub open spec fn is_contention_code(errno: i32) -> bool {
    errno == 13 || errno == 11
}

/// Maps the raw result of the open call onto the portable shape: a
/// non-negative descriptor is success, anything else carries the recorded
/// status code.
pub fn open_outcome(fd: i32, errno: i32) -> (r: Result<FileDesc, Error>)
    ensures
        fd >= 0 ==> r == Result::<FileDesc, Error>::Ok(fd),
        fd < 0 ==> (r matches Err(e) && e.spec_code() == errno),
{
    if fd >= 0 {
        Ok(fd)
    } else {
        Err(Error::from_raw_os_error(errno))
    }
}

/// Maps the raw result of the blocking lock call onto the portable shape:
/// zero is success, anything else carries the recorded status code. The
/// would-block class cannot occur for the blocking form, so it is not
/// special-cased.
pub fn lock_outcome(res: i32, errno: i32) -> (r: Result<(), Error>)
    ensures
        res == 0 ==> r is Ok,
        res != 0 ==> (r matches Err(e) && e.spec_code() == errno),
{
    if res == 0 {
        Ok(())
    } else {
        Err(Error::from_raw_os_error(errno))
    }
}

/// Maps the raw result of the non-blocking lock attempt onto the portable
/// shape: zero is acquisition, the contention signal is the explicit `false`
/// outcome and never an error, and any other status is surfaced as an error
/// carrying that code.
pub fn try_lock_outcome(res: i32, errno: i32) -> (r: Result<bool, Error>)
    ensures
        res == 0 ==> r == Result::<bool, Error>::Ok(true),
        res != 0 && is_contention_code(errno) ==> r == Result::<bool, Error>::Ok(false),
        res != 0 && !is_contention_code(errno) ==> (r matches Err(e) && e.spec_code() == errno),
{
    if res == 0 {
        Ok(true)
    } else if errno == errno_eacces() || errno == errno_eagain() {
        Ok(false)
    } else {
        Err(Error::from_raw_os_error(errno))
    }
}

/// Maps the raw result of the unlock call onto the portable shape: zero is
/// success, anything else carries the recorded status code. Unlocking when
/// no lock is held is passed through unmodified.
pub fn unlock_outcome(res: i32, errno: i32) -> (r: Result<(), Error>)
    ensures
        res == 0 ==> r is Ok,
        res != 0 ==> (r matches Err(e) && e.spec_code() == errno),
{
    if res == 0 {
        Ok(())
    } else {
        Err(Error::from_raw_os_error(errno))
    }
}

/// Maps the raw result of the file-removal call onto the portable shape:
/// zero is success, anything else carries the recorded status code.
pub fn remove_outcome(res: i32, errno: i32) -> (r: Result<(), Error>)
    ensures
        res == 0 ==> r is Ok,
        res != 0 ==> (r matches Err(e) && e.spec_code() == errno),
{
    if res == 0 {
        Ok(())
    } else {
        Err(Error::from_raw_os_error(errno))
    }
}

/// Conversion of anything into an owned OS-native string.
pub trait IntoOsString: Sized {
    /// The native image the conversion is owed to produce.
    spec fn native_view(&self) -> Seq<u8>;

    /// What the conversion requires of the source.
    spec fn valid_native(&self) -> bool;

    /// Converts into an owned native string holding exactly the native
    /// image of the source.
    fn into_os_string(self) -> (r: Result<OsString, Error>)
        requires
            self.valid_native(),
        ensures
            r matches Ok(s) && s.wf() && s@ == self.native_view(),
    ;
}

impl IntoOsString for OsString {
    open spec fn native_view(&self) -> Seq<u8> {
        self@
    }

    open spec fn valid_native(&self) -> bool {
        self.wf()
    }

    fn into_os_string(self) -> (r: Result<OsString, Error>) {
        Ok(self)
    }
}

impl<'a> IntoOsString for OsStr<'a> {
    open spec fn native_view(&self) -> Seq<u8> {
        self@
    }

    open spec fn valid_native(&self) -> bool {
        self.wf()
    }

    fn into_os_string(self) -> (r: Result<OsString, Error>) {
        let n = self.bytes.len();
        let mut bytes: Vec<u8> = Vec::new();
        let mut i: usize = 0;
        while i < n
            invariant
                n == self.bytes@.len(),
                i <= n,
                bytes@ == self.bytes@.take(i as int),
            decreases n - i,
        {
            bytes.push(self.bytes[i]);
            assert(bytes@ =~= self.bytes@.take(i + 1));
            i = i + 1;
        }
        assert(bytes@ =~= self.bytes@);
        Ok(OsString { bytes })
    }
}

impl<'a> IntoOsString for EitherOsStr<'a> {
    open spec fn native_view(&self) -> Seq<u8> {
        self@
    }

    open spec fn valid_native(&self) -> bool {
        self.wf()
    }

    fn into_os_string(self) -> (r: Result<OsString, Error>) {
        match self {
            EitherOsStr::Borrowed(s) => s.into_os_string(),
            EitherOsStr::Owned(string) => Ok(string),
        }
    }
}

impl<'a> IntoOsString for &'a str {
    open spec fn native_view(&self) -> Seq<u8> {
        native_of(self.spec_bytes())
    }

    open spec fn valid_native(&self) -> bool {
        no_interior_nul(self.spec_bytes())
    }

    fn into_os_string(self) -> (r: Result<OsString, Error>) {
        match self.to_os_str() {
            Ok(either) => either.into_os_string(),
            Err(e) => Err(e),
        }
    }
}

/// Conversion of anything to an either borrowed or owned OS-native string,
/// borrowing the source memory whenever it already carries the termination
/// invariant.
pub trait ToOsStr {
    /// The native image the conversion is owed to produce.
    spec fn native_view(&self) -> Seq<u8>;

    /// What the conversion requires of the source.
    spec fn valid_native(&self) -> bool;

    /// Whether the conversion borrows the source memory instead of
    /// allocating: exactly when the source is already a native image.
    spec fn borrows(&self) -> bool;

    /// Converts, borrowing when the source is already terminated.
    fn to_os_str<'a>(&'a self) -> (r: Result<EitherOsStr<'a>, Error>)
        requires
            self.valid_native(),
        ensures
            r matches Ok(e) && e.wf() && e@ == self.native_view(),
            r matches Ok(e) && ((e is Borrowed) <==> self.borrows()),
    ;
}

impl<'x> ToOsStr for OsStr<'x> {
    open spec fn native_view(&self) -> Seq<u8> {
        self@
    }

    open spec fn valid_native(&self) -> bool {
        self.wf()
    }

    open spec fn borrows(&self) -> bool {
        true
    }

    fn to_os_str<'a>(&'a self) -> (r: Result<EitherOsStr<'a>, Error>) {
        Ok(EitherOsStr::Borrowed(OsStr { bytes: self.bytes }))
    }
}

impl ToOsStr for OsString {
    open spec fn native_view(&self) -> Seq<u8> {
        self@
    }

    open spec fn valid_native(&self) -> bool {
        self.wf()
    }

    open spec fn borrows(&self) -> bool {
        true
    }

    fn to_os_str<'a>(&'a self) -> (r: Result<EitherOsStr<'a>, Error>) {
        Ok(EitherOsStr::Borrowed(self.as_os_str()))
    }
}

impl ToOsStr for str {
    open spec fn native_view(&self) -> Seq<u8> {
        native_of(self.spec_bytes())
    }

    open spec fn valid_native(&self) -> bool {
        no_interior_nul(self.spec_bytes())
    }

    open spec fn borrows(&self) -> bool {
        is_native(self.spec_bytes())
    }

    fn to_os_str<'a>(&'a self) -> (r: Result<EitherOsStr<'a>, Error>) {
        make_os_str(self.as_bytes())
    }
}

} // verus!
