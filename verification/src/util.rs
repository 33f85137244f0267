//! Error/string bridge for the native boundary.
//!
//! The native backend reports failure through a process-wide error code and
//! through null results; strings it hands out are NUL-terminated byte
//! buffers.  This module holds the verified classification and conversion
//! logic: the three-way reading of a fallible native call (value / absent /
//! error, with allocation failure singled out as unrecoverable), the mapping
//! of a write call's return value, and the scan that turns a NUL-terminated
//! buffer into the exact byte range before its terminator.

use vstd::prelude::*;

verus! {

/// Error number the backend uses for a failed allocation.
pub const ENOMEM: i32 = 12;

/// Error number for an invalid argument; the backend produces it only on
/// misuse, so seeing it indicates a defect rather than a runtime condition.
pub const EINVAL: i32 = 22;

/// File-status flag that keeps a descriptor in non-blocking mode.
pub const O_NONBLOCK: i32 = 2048;

/// An input/output failure surfaced to the caller: an element that was
/// expected to exist is absent, or the backend reported an error number.
#[derive(Debug, PartialEq, Eq)]
pub enum IoError {
    NotFound,
    Errno(i32),
}

/// Compares a string slice with an owned string by contents.
pub fn str_eq(a: &str, b: &String) -> (r: bool)
    ensures
        r == (a@ == b@),
{
    let oa: String = a.to_owned();
    oa == *b
}

/// Compares two string slices by contents.
pub fn str_is(a: &str, b: &str) -> (r: bool)
    ensures
        r == (a@ == b@),
{
    let oa: String = a.to_owned();
    let ob: String = b.to_owned();
    oa == ob
}

/// Clones a list of strings, preserving it exactly.
pub fn clone_strings(v: &Vec<String>) -> (r: Vec<String>)
    ensures
        r@ == v@,
{
    let mut out: Vec<String> = Vec::new();
    let mut i: usize = 0;
    while i < v.len()
        invariant
            i <= v@.len(),
            out@ == v@.take(i as int),
        decreases v@.len() - i,
    {
        out.push(v[i].clone());
        i = i + 1;
        proof {
            assert(out@ =~= v@.take(i as int));
        }
    }
    proof {
        assert(v@.take(v@.len() as int) =~= v@);
    }
    out
}

/// The three-way reading of a native call that may return a handle:
/// a handle was produced, a benign "no result", an unrecoverable allocation
/// failure, or a real error with its code preserved.
pub enum CallStatus<T> {
    Found(T),
    Absent,
    OutOfMemory,
    Error(i32),
}

/// Classifies the outcome of a native call whose null return is ambiguous.
///
/// The caller resets the process-wide error code to zero, makes the call,
/// reads the code back, and hands both in.  A non-null result is a value
/// regardless of the error code; a null result is split by the code into
/// allocation failure (unrecoverable), benign absence, and a real error.
pub fn check_errno<T>(result: Option<T>, errno: i32) -> (r: CallStatus<T>)
    ensures
        result matches Some(v) ==> r == CallStatus::Found(v),
        result is None && errno == ENOMEM ==> r is OutOfMemory,
        result is None && errno == 0 ==> r is Absent,
        result is None && errno != 0 && errno != ENOMEM ==> r == CallStatus::<T>::Error(errno),
{
    match result {
        Some(v) => CallStatus::Found(v),
        None => {
            if errno == ENOMEM {
                CallStatus::OutOfMemory
            } else if errno == 0 {
                CallStatus::Absent
            } else {
                CallStatus::Error(errno)
            }
        },
    }
}

/// How the caller of a void native call must proceed: carry on, abort for an
/// allocation failure, or halt loudly on a return outside the native
/// contract.
pub enum ReturnClass {
    Success,
    OutOfMemory,
    Bug,
}

/// Classifies the integer return of a native call that only signals errors.
///
/// Zero is success; the negated allocation-failure code is unrecoverable;
/// every other value is outside the native contract and marks a defect.
pub fn handle_error(err: i32) -> (r: ReturnClass)
    ensures
        err == 0 ==> r is Success,
        err == -ENOMEM ==> r is OutOfMemory,
        err != 0 && err != -ENOMEM ==> r is Bug,
{
    if err == 0 {
        ReturnClass::Success
    } else if err == -ENOMEM {
        ReturnClass::OutOfMemory
    } else {
        ReturnClass::Bug
    }
}

/// Outcome of writing a device attribute: written, failed with the error
/// code the backend reported, or a return value outside the native contract.
pub enum WriteStatus {
    Written,
    Failed(i32),
    Bug,
}

/// Maps the return value of the native attribute-write call.
///
/// The native contract promises zero on success and a negated error number
/// on failure; anything positive marks a defect.
pub fn classify_sysattr_write(ret: i32) -> (r: WriteStatus)
    requires
        ret > i32::MIN,
    ensures
        ret == 0 ==> r is Written,
        ret < 0 ==> (r matches WriteStatus::Failed(e) && e == -ret),
        ret > 0 ==> r is Bug,
{
    if ret == 0 {
        WriteStatus::Written
    } else if ret < 0 {
        WriteStatus::Failed(-ret)
    } else {
        WriteStatus::Bug
    }
}

/// Clears the non-blocking flag from a descriptor's file-status flags,
/// leaving every other flag in place.
pub fn clear_nonblock(flags: i32) -> (r: i32)
    ensures
        r == flags & !O_NONBLOCK,
{
    flags & !O_NONBLOCK
}

/// `p` is the exact text of the NUL-terminated buffer `b`: the maximal
/// prefix holding no zero byte, delimited by a zero byte in `b`.
pub open spec fn is_c_str_view(b: Seq<u8>, p: Seq<u8>) -> bool {
    &&& p.len() < b.len()
    &&& p == b.take(p.len() as int)
    &&& forall|j: int| 0 <= j < p.len() ==> p[j] != 0
    &&& b[p.len() as int] == 0
}

/// Reads the text of a possibly-null NUL-terminated native buffer.
///
/// A null pointer is modelled as `None` and yields `None`; otherwise the
/// result is the exact byte range before the first zero byte.  The backend
/// guarantees its strings are terminated, so a present buffer must hold a
/// zero byte.
pub fn c_to_str(mem: Option<&[u8]>) -> (r: Option<Vec<u8>>)
    requires
        mem matches Some(b) ==> exists|k: int| 0 <= k < b@.len() && b@[k] == 0,
    ensures
        mem is None ==> r is None,
        mem matches Some(b) ==> (r matches Some(p) && is_c_str_view(b@, p@)),
{
    let buf = match mem {
        None => {
            return None;
        },
        Some(b) => b,
    };
    let mut out: Vec<u8> = Vec::new();
    let mut i: usize = 0;
    loop
        invariant
            mem == Some(buf),
            i <= buf@.len(),
            out@ == buf@.take(i as int),
            forall|j: int| 0 <= j < i ==> buf@[j] != 0,
            exists|k: int| i <= k < buf@.len() && buf@[k] == 0,
        decreases buf@.len() - i,
    {
        let b = buf[i];
        if b == 0 {
            return Some(out);
        }
        out.push(b);
        i = i + 1;
        proof {
            assert(out@ =~= buf@.take(i as int));
        }
    }
}

/// `c` is a decimal digit.
pub open spec fn is_digit(c: char) -> bool {
    '0' <= c && c <= '9'
}

/// Numeric value of a decimal digit.
pub open spec fn digit_val(c: char) -> int {
    c as int - 48
}

/// Every character of `s` is a decimal digit.
pub open spec fn all_digits(s: Seq<char>) -> bool {
    forall|i: int| 0 <= i < s.len() ==> is_digit(s[i])
}

/// The integer a sequence of decimal digits denotes.
pub open spec fn dec_val(s: Seq<char>) -> int
    decreases s.len(),
{
    if s.len() == 0 {
        0
    } else {
        dec_val(s.drop_last()) * 10 + digit_val(s.last())
    }
}

proof fn lemma_dec_val_nonneg(s: Seq<char>)
    requires
        all_digits(s),
    ensures
        dec_val(s) >= 0,
    decreases s.len(),
{
    if s.len() > 0 {
        assert(all_digits(s.drop_last()));
        lemma_dec_val_nonneg(s.drop_last());
    }
}

proof fn lemma_all_digits_take(s: Seq<char>, k: int)
    requires
        all_digits(s),
        0 <= k <= s.len(),
    ensures
        all_digits(s.take(k)),
{
    assert forall|i: int| 0 <= i < s.take(k).len() implies is_digit(s.take(k)[i]) by {
        assert(s.take(k)[i] == s[i]);
    };
}

proof fn lemma_dec_val_prefix_le(s: Seq<char>, k: int)
    requires
        all_digits(s),
        0 <= k <= s.len(),
    ensures
        dec_val(s.take(k)) <= dec_val(s),
    decreases s.len() - k,
{
    if k == s.len() {
        assert(s.take(k) =~= s);
    } else {
        let t = s.take(k + 1);
        assert(t.drop_last() =~= s.take(k));
        assert(t.last() == s[k]);
        assert(dec_val(t) == dec_val(s.take(k)) * 10 + digit_val(s[k]));
        lemma_all_digits_take(s, k);
        lemma_dec_val_nonneg(s.take(k));
        assert(is_digit(s[k]));
        assert(dec_val(s.take(k)) <= dec_val(t));
        lemma_dec_val_prefix_le(s, k + 1);
    }
}

/// Parses a string of decimal digits, the way the backend's numeric
/// identifiers are written: at least one digit, no sign, no other
/// characters, and a value that fits in 64 bits.
pub fn parse_decimal(s: &str) -> (r: Option<u64>)
    ensures
        r matches Some(v) ==> s@.len() > 0 && all_digits(s@) && v == dec_val(s@),
        r is None ==> s@.len() == 0 || !all_digits(s@) || dec_val(s@) > u64::MAX,
{
    let n = s.unicode_len();
    if n == 0 {
        return None;
    }
    let mut acc: u64 = 0;
    let mut i: usize = 0;
    while i < n
        invariant
            0 < n == s@.len(),
            i <= n,
            all_digits(s@.take(i as int)),
            acc == dec_val(s@.take(i as int)),
        decreases n - i,
    {
        let c = s.get_char(i);
        if !(c >= '0' && c <= '9') {
            return None;
        }
        let d: u64 = (c as u32 as u64) - 48;
        let next = match acc.checked_mul(10) {
            Some(m) => m.checked_add(d),
            None => None,
        };
        proof {
            assert(s@.take(i + 1).drop_last() =~= s@.take(i as int));
            assert(s@.take(i + 1).last() == s@[i as int]);
        }
        match next {
            Some(v) => {
                acc = v;
            },
            None => {
                proof {
                    assert(dec_val(s@.take(i + 1)) == acc * 10 + digit_val(s@[i as int]));
                    assert(dec_val(s@.take(i + 1)) > u64::MAX);
                    if all_digits(s@) {
                        lemma_dec_val_prefix_le(s@, i + 1);
                    }
                }
                return None;
            },
        }
        i = i + 1;
    }
    proof {
        assert(s@.take(n as int) =~= s@);
    }
    Some(acc)
}

} // verus!
