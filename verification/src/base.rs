//! Basic shared pieces: the crate-wide error kind and the C-style string
//! values that kernel calls are given and hand back.

use vstd::prelude::*;
use vstd::string::StrSliceExecFns;
use vstd::string::StringSliceAdditionalSpecFns;

verus! {

/// Stands in for the kernel's untyped `void`; carried around handles in
/// unverified glue, never inspected.
#[allow(dead_code)]
pub enum CVoid {
    __Variant1,
    __Variant2,
}

/// Every error this crate reports.
#[derive(Debug, Copy, Clone, Eq, PartialEq, Structural)]
pub enum RTTError {
    ThreadStartupErr,
    MutexTakeTimeout,
    SemaphoreTakeTimeout,
    QueueSendTimeout,
    QueueReceiveTimeout,
    OutOfMemory,

    DeviceNotFound,
    DeviceOpenFailed,
    DeviceCloseFailed,
    DeviceReadFailed,
    DeviceWriteFailed,
    DeviceTransFailed,
    DeviceConfigFailed,
    DeviceSetRxCallBackFailed,
    DeviceSetTxCallBackFailed,

    FileOpenFailed,
    FileWriteFailed,
    FileCloseFailed,
    FileReadFailed,
    FileExist,
    FileNotExist,
    FileReNameFailed,

    FuncUnDefine,
}

/// An owned, NUL-terminated byte string in the form the kernel's C calls
/// expect: the text's bytes followed by exactly one terminating zero.
#[derive(Clone)]
pub struct CString {
    pub bytes: Vec<u8>,
}

impl CString {
    /// Appends the terminating zero to the text's bytes.
    pub fn new(s: &str) -> (r: CString)
        ensures
            r.bytes@ == s.spec_bytes().push(0u8),
    {
        let mut temp: Vec<u8> = s.as_bytes_vec();
        temp.push(0);
        CString { bytes: temp }
    }
}

/// A borrowed view of a C string that arrived from the kernel: a byte
/// buffer whose text runs up to the first zero byte.
#[derive(Clone)]
pub struct CStr {
    pub bytes: Vec<u8>,
}

/// How many bytes of a foreign string are trusted before giving up on
/// finding its terminator.
pub const STR_MAX_LEN: usize = 128;

/// The bytes of a buffer before its first zero byte.
pub open spec fn c_text(bytes: Seq<u8>) -> Seq<u8>
    decreases bytes.len(),
{
    if bytes.len() == 0 || bytes[0] == 0 {
        Seq::empty()
    } else {
        seq![bytes[0]] + c_text(bytes.skip(1))
    }
}

/// The text of a C string: its bytes before the first zero, looking at no
/// more than `STR_MAX_LEN` bytes.
pub open spec fn c_text_capped(bytes: Seq<u8>) -> Seq<u8> {
    if bytes.len() <= STR_MAX_LEN {
        c_text(bytes)
    } else {
        c_text(bytes.take(STR_MAX_LEN as int))
    }
}

impl CStr {
    /// Wraps a raw byte buffer as received from the kernel.
    pub fn new(raw: Vec<u8>) -> (r: CStr)
        ensures
            r.bytes@ == raw@,
    {
        CStr { bytes: raw }
    }

    /// The bytes before the terminator, trusting at most `STR_MAX_LEN`
    /// bytes of a foreign buffer.
    pub fn content(&self) -> (r: Vec<u8>)
        ensures
            r@ == c_text_capped(self.bytes@),
    {
        let ghost capped: Seq<u8> = if self.bytes@.len() <= STR_MAX_LEN {
            self.bytes@
        } else {
            self.bytes@.take(STR_MAX_LEN as int)
        };
        let mut out: Vec<u8> = Vec::new();
        let mut i: usize = 0;
        let end = if self.bytes.len() < STR_MAX_LEN {
            self.bytes.len()
        } else {
            STR_MAX_LEN
        };
        proof {
            assert(capped.len() == end);
            assert(forall|j: int| 0 <= j < end ==> capped[j] == self.bytes@[j]);
        }
        while i < end
            invariant
                0 <= i <= end,
                end == capped.len(),
                capped == (if self.bytes@.len() <= STR_MAX_LEN {
                    self.bytes@
                } else {
                    self.bytes@.take(STR_MAX_LEN as int)
                }),
                forall|j: int| 0 <= j < end ==> capped[j] == self.bytes@[j],
                end <= self.bytes@.len(),
                forall|j: int| 0 <= j < i ==> self.bytes@[j] != 0,
                out@ == self.bytes@.take(i as int),
            decreases end - i,
        {
            let a = self.bytes[i];
            if a == 0 {
                proof {
                    lemma_c_text_stops(capped, i as int);
                    assert(capped.take(i as int) =~= self.bytes@.take(i as int));
                }
                return out;
            }
            out.push(a);
            proof {
                assert(out@ =~= self.bytes@.take(i + 1));
            }
            i += 1;
        }
        proof {
            lemma_c_text_all(capped);
            assert(capped =~= self.bytes@.take(end as int));
        }
        out
    }
}

/// If position `k` holds the first zero of `bytes`, the text is what stands
/// before it.
proof fn lemma_c_text_stops(bytes: Seq<u8>, k: int)
    requires
        0 <= k < bytes.len(),
        bytes[k] == 0,
        forall|j: int| 0 <= j < k ==> bytes[j] != 0,
    ensures
        c_text(bytes) == bytes.take(k),
    decreases k,
{
    if k == 0 {
        assert(c_text(bytes) =~= bytes.take(0));
    } else {
        lemma_c_text_stops(bytes.skip(1), k - 1);
        assert(c_text(bytes) =~= bytes.take(k));
    }
}

/// A buffer without any zero byte is all text.
proof fn lemma_c_text_all(bytes: Seq<u8>)
    requires
        forall|j: int| 0 <= j < bytes.len() ==> bytes[j] != 0,
    ensures
        c_text(bytes) == bytes,
    decreases bytes.len(),
{
    if bytes.len() > 0 {
        lemma_c_text_all(bytes.skip(1));
        assert(c_text(bytes) =~= bytes);
    } else {
        assert(c_text(bytes) =~= bytes);
    }
}

} // verus!
