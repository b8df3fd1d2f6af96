//! The 16-bit-code-unit platform family: native text is UTF-16 with
//! surrogate pairs and locking talks to the range-lock primitive.

use vstd::prelude::*;

verus! {

/// A file handle of the range-lock platform family, carried as a plain
/// machine word.
pub type FileDesc = usize;

/// An IO error: a raw OS status code with a lazily rendered message.
#[derive(Debug)]
pub struct Error {
    code: i32,
}

impl Error {
    /// The raw OS status code held by this error.
    pub closed spec fn spec_code(&self) -> i32 {
        self.code
    }

    /// Creates an error from a raw OS error code.
    pub fn from_raw_os_error(code: i32) -> (r: Self)
        ensures
            r.spec_code() == code,
    {
        Self { code }
    }

    /// Creates an error from the last OS error code recorded for the calling
    /// thread. The code depends on the environment, so nothing further is
    /// promised about it.
    pub fn last_os_error() -> Error {
        Self::from_raw_os_error(crate::host::last_error_code())
    }

    /// Raw OS error code. Returns option for compatibility with the host
    /// runtime's error type.
    pub fn raw_os_error(&self) -> (r: Option<i32>)
        ensures
            r == Some(self.spec_code()),
    {
        Some(self.code)
    }

    /// A human-readable message for the status code, queried from the OS;
    /// never empty.
    pub fn message(&self) -> (r: String)
        ensures
            r@.len() > 0,
    {
        render_message(crate::host::os_error_message(self.code))
    }
}

/// Turns the text the OS associated with a status code into the rendered
/// message: the text itself when there is one, a fixed marker when the
/// query came back empty; never empty either way.
pub fn render_message(text: String) -> (r: String)
    ensures
        text@.len() > 0 ==> r@ == text@,
        text@.len() == 0 ==> r@ == "error getting error message"@,
        r@.len() > 0,
{
    proof {
        reveal_strlit("error getting error message");
    }
    if !text.as_str().is_empty() {
        text
    } else {
        "error getting error message".to_owned()
    }
}

/// A 16-bit unit in the high-surrogate range.
pub open spec fn is_high_surrogate(unit: u16) -> bool {
    0xd800 <= unit <= 0xdbff
}

/// A 16-bit unit in the low-surrogate range.
pub open spec fn is_low_surrogate(unit: u16) -> bool {
    0xdc00 <= unit <= 0xdfff
}

/// Well-formed wide text: every unit in the high-surrogate range is
/// immediately followed by one in the low-surrogate range, and no low
/// surrogate stands on its own. A lone surrogate is a defect in the
/// assumed-well-formed native encoding.
pub open spec fn wide_wf(s: Seq<u16>) -> bool
    decreases s.len(),
{
    if s.len() == 0 {
        true
    } else if is_high_surrogate(s[0]) {
        &&& s.len() >= 2
        &&& is_low_surrogate(s[1])
        &&& wide_wf(s.skip(2))
    } else {
        &&& !is_low_surrogate(s[0])
        &&& wide_wf(s.skip(1))
    }
}

/// The scalar value jointly encoded by a surrogate pair.
pub open spec fn combine_surrogates(high: u16, low: u16) -> u32
    recommends
        is_high_surrogate(high),
        is_low_surrogate(low),
{
    (((((high as u32) - 0xd800) as u32) << 10 | (((low as u32) - 0xdc00) as u32)) + 0x10000) as u32
}

/// Decoding of well-formed wide text: a surrogate pair becomes the scalar
/// it jointly encodes, any other unit decodes directly to the scalar of the
/// same value.
pub open spec fn decode_wide(s: Seq<u16>) -> Seq<char>
    decreases s.len(),
{
    if s.len() == 0 {
        Seq::empty()
    } else if is_high_surrogate(s[0]) && s.len() >= 2 {
        seq![(combine_surrogates(s[0], s[1]) as u32) as char] + decode_wide(s.skip(2))
    } else {
        seq![(s[0] as u32) as char] + decode_wide(s.skip(1))
    }
}

/// Checks the well-formedness of wide text at run time: every high
/// surrogate is paired, no low surrogate stands alone.
pub fn wide_is_wf(units: &[u16]) -> (r: bool)
    ensures
        r == wide_wf(units@),
{
    let n = units.len();
    let mut i: usize = 0;
    proof {
        assert(units@.skip(0) =~= units@);
    }
    while i < n
        invariant
            i <= n,
            n == units@.len(),
            wide_wf(units@) == wide_wf(units@.skip(i as int)),
        decreases n - i,
    {
        let ghost tail = units@.skip(i as int);
        let code = units[i];
        assert(tail[0] == units@[i as int]);
        if 0xd800 <= code && code <= 0xdbff {
            if i + 1 >= n {
                return false;
            }
            let low = units[i + 1];
            assert(tail[1] == units@[i + 1]);
            if !(0xdc00 <= low && low <= 0xdfff) {
                return false;
            }
            proof {
                assert(tail.skip(2) =~= units@.skip(i + 2));
            }
            i = i + 2;
        } else if 0xdc00 <= code && code <= 0xdfff {
            return false;
        } else {
            proof {
                assert(tail.skip(1) =~= units@.skip(i + 1));
            }
            i = i + 1;
        }
    }
    proof {
        assert(units@.skip(i as int) =~= Seq::<u16>::empty());
    }
    true
}

/// Decodes well-formed wide text into its character sequence, combining
/// each surrogate pair into one scalar value.
pub fn write_wide_str(string: &[u16]) -> (r: String)
    requires
        wide_wf(string@),
    ensures
        r@ == decode_wide(string@),
{
    let mut out = String::new();
    let mut i: usize = 0;
    proof {
        assert(string@.skip(0) =~= string@);
    }
    while i < string.len()
        invariant
            i <= string@.len(),
            wide_wf(string@.skip(i as int)),
            out@ + decode_wide(string@.skip(i as int)) == decode_wide(string@),
        decreases string@.len() - i,
    {
        let ghost tail = string@.skip(i as int);
        let code = string[i];
        assert(tail[0] == string@[i as int]);
        if 0xd800 <= code && code <= 0xdbff {
            let low = string[i + 1];
            assert(tail[1] == string@[i + 1]);
            let high_bits: u32 = (code - 0xd800) as u32;
            let low_bits: u32 = (low - 0xdc00) as u32;
            assert((high_bits << 10 | low_bits) <= 0xfffff) by (bit_vector)
                requires
                    high_bits <= 0x3ff && low_bits <= 0x3ff,
            ;
            let cp = (high_bits << 10 | low_bits) + 0x10000;
            let c = char::from_u32(cp).unwrap();
            out.push(c);
            proof {
                vstd::utf8::char_u32_cast(c, cp);
                assert(cp == combine_surrogates(tail[0], tail[1]));
                assert(tail.skip(2) =~= string@.skip(i + 2));
                assert(out@ + decode_wide(string@.skip(i + 2)) =~= decode_wide(string@));
            }
            i = i + 2;
        } else {
            let c = char::from_u32(code as u32).unwrap();
            out.push(c);
            proof {
                vstd::utf8::char_u32_cast(c, code as u32);
                assert(tail.skip(1) =~= string@.skip(i + 1));
                assert(out@ + decode_wide(string@.skip(i + 1)) =~= decode_wide(string@));
            }
            i = i + 1;
        }
    }
    proof {
        assert(string@.skip(i as int) =~= Seq::<u16>::empty());
        assert(out@ =~= decode_wide(string@));
    }
    out
}

/// The `BOOL` value the range-lock calls report on success.
pub const CALL_SUCCEEDED: i32 = 1;

/// The status the event wait reports when it fails.
pub const WAIT_FAILED_STATUS: u32 = 0xffff_ffff;

/// The status signalling that another holder currently owns the lock.
pub const LOCK_VIOLATION: i32 = 33;

/// The handle value the open call reports on failure.
pub const INVALID_HANDLE: usize = usize::MAX;

/// Maps the raw result of the open call onto the portable shape: any handle
/// but the invalid one is success, the invalid one carries the recorded
/// status code.
pub fn open_outcome(handle: FileDesc, errno: i32) -> (r: Result<FileDesc, Error>)
    ensures
        handle != INVALID_HANDLE ==> r == Result::<FileDesc, Error>::Ok(handle),
        handle == INVALID_HANDLE ==> (r matches Err(e) && e.spec_code() == errno),
{
    if handle != INVALID_HANDLE {
        Ok(handle)
    } else {
        Err(Error::from_raw_os_error(errno))
    }
}

/// Maps the raw result of the file-removal call onto the portable shape: a
/// nonzero result is success, zero carries the recorded status code.
pub fn remove_outcome(res: i32, errno: i32) -> (r: Result<(), Error>)
    ensures
        res != 0 ==> r is Ok,
        res == 0 ==> (r matches Err(e) && e.spec_code() == errno),
{
    if res != 0 {
        Ok(())
    } else {
        Err(Error::from_raw_os_error(errno))
    }
}

/// Maps the raw results of the blocking lock call and the following event
/// wait onto the portable shape: success of both is success, anything else
/// carries the recorded status code.
pub fn lock_outcome(res: i32, wait_res: u32, errno: i32) -> (r: Result<(), Error>)
    ensures
        res == CALL_SUCCEEDED && wait_res != WAIT_FAILED_STATUS ==> r is Ok,
        !(res == CALL_SUCCEEDED && wait_res != WAIT_FAILED_STATUS) ==> (r matches Err(e)
            && e.spec_code() == errno),
{
    if res == CALL_SUCCEEDED {
        if wait_res != WAIT_FAILED_STATUS {
            Ok(())
        } else {
            Err(Error::from_raw_os_error(errno))
        }
    } else {
        Err(Error::from_raw_os_error(errno))
    }
}

/// Maps the raw results of the non-blocking lock attempt onto the portable
/// shape: success of call and wait is acquisition, the lock-violation status
/// is the explicit `false` outcome and never an error, and any other status
/// is surfaced as an error carrying that code.
pub fn try_lock_outcome(res: i32, wait_res: u32, errno: i32) -> (r: Result<bool, Error>)
    ensures
        res == CALL_SUCCEEDED && wait_res != WAIT_FAILED_STATUS ==> r == Result::<
            bool,
            Error,
        >::Ok(true),
        res == CALL_SUCCEEDED && wait_res == WAIT_FAILED_STATUS ==> (r matches Err(e)
            && e.spec_code() == errno),
        res != CALL_SUCCEEDED && errno == LOCK_VIOLATION ==> r == Result::<bool, Error>::Ok(false),
        res != CALL_SUCCEEDED && errno != LOCK_VIOLATION ==> (r matches Err(e) && e.spec_code()
            == errno),
{
    if res == CALL_SUCCEEDED {
        if wait_res != WAIT_FAILED_STATUS {
            Ok(true)
        } else {
            Err(Error::from_raw_os_error(errno))
        }
    } else if errno == LOCK_VIOLATION {
        Ok(false)
    } else {
        Err(Error::from_raw_os_error(errno))
    }
}

/// Maps the raw results of the unlock call and the following event wait
/// onto the portable shape: success of both is success, anything else
/// carries the recorded status code.
pub fn unlock_outcome(res: i32, wait_res: u32, errno: i32) -> (r: Result<(), Error>)
    ensures
        res == CALL_SUCCEEDED && wait_res != WAIT_FAILED_STATUS ==> r is Ok,
        !(res == CALL_SUCCEEDED && wait_res != WAIT_FAILED_STATUS) ==> (r matches Err(e)
            && e.spec_code() == errno),
{
    if res == CALL_SUCCEEDED {
        if wait_res != WAIT_FAILED_STATUS {
            Ok(())
        } else {
            Err(Error::from_raw_os_error(errno))
        }
    } else {
        Err(Error::from_raw_os_error(errno))
    }
}

} // verus!
