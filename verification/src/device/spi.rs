//! An SPI device: transfer messages built from send and receive buffers,
//! the wire plan a message turns into — one part per segment, with its
//! length and its chip-select flags — and the verdicts on what the
//! kernel's transfer call returns.

use vstd::prelude::*;

use crate::base::RTTError;
use crate::device::common::RtDevice;
use crate::device::common::device_find;

verus! {

/// The length a transfer part starts from before any buffer bounds it.
pub const SPI_DEFAULT_LENGTH: usize = 4096;

/// One segment of a transfer message: an outgoing buffer, an incoming
/// buffer, or both.
pub struct SpiSeg {
    pub send: Option<Vec<u8>>,
    pub rec: Option<Vec<u8>>,
}

/// A transfer message: a non-empty chain of segments, transferred in one
/// chip-select window.
pub struct SpiMsg {
    pub segs: Vec<SpiSeg>,
}

/// One entry of the wire plan: which buffers the segment carries, how many
/// bytes travel, and its chip-select flags.
#[derive(Copy, Clone, PartialEq, Eq, Structural, Debug)]
pub struct SpiPart {
    pub has_send: bool,
    pub has_rec: bool,
    pub length: usize,
    pub flag: u32,
}

/// How a segment bounds the running transfer length: an outgoing buffer
/// resets it to its own length, an incoming buffer caps it at its own —
/// and a segment with neither lets the previous length stand.
pub open spec fn spec_step_length(prev: int, seg: SpiSeg) -> int {
    let a = if seg.send is Some {
        seg.send->0@.len() as int
    } else {
        prev
    };
    if seg.rec is Some {
        vstd::math::min(a, seg.rec->0@.len() as int)
    } else {
        a
    }
}

/// The transfer length of segment `k`, carried over from the segments
/// before it.
pub open spec fn spec_length_at(segs: Seq<SpiSeg>, k: int) -> int
    decreases k,
{
    if k <= 0 {
        spec_step_length(SPI_DEFAULT_LENGTH as int, segs[0])
    } else {
        spec_step_length(spec_length_at(segs, k - 1), segs[k])
    }
}

/// The chip-select flags of part `k` of `n`: the first part takes the
/// select line, the last releases it.
pub open spec fn spec_flag_at(k: int, n: int) -> u32 {
    (if k == 0 {
        1u32
    } else {
        0u32
    }) | (if k == n - 1 {
        3u32
    } else {
        0u32
    })
}

/// An opened SPI device.
pub struct SPI {
    pub handle: RtDevice,
}

impl SPI {
    /// Interprets the handle the device-find call returned.
    pub fn new_open(found: usize) -> (r: Result<SPI, RTTError>)
        ensures
            found == 0 ==> r is Err && r->Err_0 == RTTError::DeviceNotFound,
            found != 0 ==> match r {
                Ok(d) => d.handle.id() == found,
                Err(_) => false,
            },
    {
        Ok(SPI { handle: device_find(found)? })
    }

    /// The wire plan of a message: one part per segment.  Each part's
    /// length carries over the running bound of the parts before it, the
    /// first part takes the chip-select line, and the last releases it.
    pub fn plan(&self, msg: &SpiMsg) -> (parts: Vec<SpiPart>)
        requires
            msg.segs@.len() > 0,
        ensures
            parts@.len() == msg.segs@.len(),
            forall|k: int|
                0 <= k < parts@.len() ==> (#[trigger] parts@[k]) == (SpiPart {
                    has_send: msg.segs@[k].send is Some,
                    has_rec: msg.segs@[k].rec is Some,
                    length: spec_length_at(msg.segs@, k) as usize,
                    flag: spec_flag_at(k, msg.segs@.len() as int),
                }),
    {
        let n = msg.segs.len();
        let mut parts: Vec<SpiPart> = Vec::new();
        let mut length_temp: usize = SPI_DEFAULT_LENGTH;
        let mut k: usize = 0;
        while k < n
            invariant
                0 <= k <= n,
                n == msg.segs@.len(),
                parts@.len() == k,
                k == 0 ==> length_temp == SPI_DEFAULT_LENGTH,
                k > 0 ==> length_temp == spec_length_at(msg.segs@, k - 1),
                forall|j: int|
                    0 <= j < k ==> (#[trigger] parts@[j]) == (SpiPart {
                        has_send: msg.segs@[j].send is Some,
                        has_rec: msg.segs@[j].rec is Some,
                        length: spec_length_at(msg.segs@, j) as usize,
                        flag: spec_flag_at(j, n as int),
                    }),
            decreases n - k,
        {
            let seg = &msg.segs[k];
            let has_send: bool;
            match &seg.send {
                Some(s) => {
                    length_temp = s.len();
                    has_send = true;
                },
                None => {
                    has_send = false;
                },
            }
            let has_rec: bool;
            match &seg.rec {
                Some(r) => {
                    if r.len() < length_temp {
                        length_temp = r.len();
                    }
                    has_rec = true;
                },
                None => {
                    has_rec = false;
                },
            }
            let mut flag: u32 = if k == 0 {
                1
            } else {
                0
            };
            flag = flag | (if k == n - 1 {
                3u32
            } else {
                0u32
            });
            parts.push(SpiPart { has_send, has_rec, length: length_temp, flag });
            k += 1;
        }
        parts
    }

    /// Interprets the code the kernel's transfer call returned.
    pub fn transfer_result(&self, code: usize) -> (r: Result<(), RTTError>)
        ensures
            r == (if code == 0 {
                Ok::<(), RTTError>(())
            } else {
                Err::<(), RTTError>(RTTError::DeviceTransFailed)
            }),
    {
        if code != 0 {
            return Err(RTTError::DeviceTransFailed);
        }
        Ok(())
    }

    /// The message that sends `buf` in one segment.
    pub fn send_bytes(&self, buf: Vec<u8>) -> (m: SpiMsg)
        ensures
            m.segs@.len() == 1,
            m.segs@[0].send == Some(buf),
            m.segs@[0].rec is None,
    {
        SpiMsg::new_send(buf)
    }

    /// The message that sends the single byte `b`.
    pub fn send_byte(&self, b: u8) -> (m: SpiMsg)
        ensures
            m.segs@.len() == 1,
            m.segs@[0].send is Some && m.segs@[0].send->0@ == seq![b],
            m.segs@[0].rec is None,
    {
        let mut s_buf: Vec<u8> = Vec::new();
        s_buf.push(b);
        proof {
            assert(s_buf@ =~= seq![b]);
        }
        SpiMsg::new_send(s_buf)
    }

    /// The message that receives `len` bytes into a zeroed buffer.
    pub fn receive_bytes(&self, len: usize) -> (m: SpiMsg)
        ensures
            m.segs@.len() == 1,
            m.segs@[0].send is None,
            m.segs@[0].rec is Some && m.segs@[0].rec->0@ == Seq::new(len as nat, |i: int| 0u8),
    {
        let mut rec: Vec<u8> = Vec::new();
        rec.resize(len, 0u8);
        proof {
            assert(rec@ =~= Seq::new(len as nat, |i: int| 0u8));
        }
        SpiMsg::new_rec(rec)
    }

    /// The message that receives a single byte.
    pub fn receive_byte(&self) -> (m: SpiMsg)
        ensures
            m.segs@.len() == 1,
            m.segs@[0].send is None,
            m.segs@[0].rec is Some && m.segs@[0].rec->0@ == seq![0u8],
    {
        let m = self.receive_bytes(1);
        proof {
            assert(Seq::new(1nat, |i: int| 0u8) =~= seq![0u8]);
        }
        m
    }

    /// The message that exchanges one byte: sends `b`, receives one byte.
    pub fn trans_byte(&self, b: u8) -> (m: SpiMsg)
        ensures
            m.segs@.len() == 1,
            m.segs@[0].send is Some && m.segs@[0].send->0@ == seq![b],
            m.segs@[0].rec is Some && m.segs@[0].rec->0@ == seq![0u8],
    {
        let mut s_buf: Vec<u8> = Vec::new();
        s_buf.push(b);
        let mut r_buf: Vec<u8> = Vec::new();
        r_buf.push(0u8);
        proof {
            assert(s_buf@ =~= seq![b]);
            assert(r_buf@ =~= seq![0u8]);
        }
        SpiMsg::new(s_buf, r_buf)
    }

    /// Interprets a transfer's outcome for a receive message: on success
    /// `rec` is the buffer the kernel filled.
    pub fn receive_result(&self, code: usize, rec: Vec<u8>) -> (r: Result<Vec<u8>, RTTError>)
        ensures
            code != 0 ==> r is Err && r->Err_0 == RTTError::DeviceTransFailed,
            code == 0 ==> match r {
                Ok(v) => v == rec,
                Err(_) => false,
            },
    {
        self.transfer_result(code)?;
        Ok(rec)
    }

    /// Interprets a transfer's outcome for a single-byte receive: on
    /// success, the first byte of the filled buffer.
    pub fn byte_result(&self, code: usize, rec: &Vec<u8>) -> (r: Result<u8, RTTError>)
        requires
            rec@.len() > 0,
        ensures
            code != 0 ==> r is Err && r->Err_0 == RTTError::DeviceTransFailed,
            code == 0 ==> match r {
                Ok(b) => b == rec@[0],
                Err(_) => false,
            },
    {
        self.transfer_result(code)?;
        Ok(rec[0])
    }

    /// The raw device handle, for the embedding's transfer calls.
    pub fn raw(&self) -> (h: usize)
        ensures
            h == self.handle.id(),
    {
        self.handle.raw()
    }
}

impl SpiMsg {
    /// A fresh buffer of eight zeroed bytes, the handiest message size.
    pub fn make_vec() -> (v: Vec<u8>)
        ensures
            v@ == Seq::new(8nat, |i: int| 0u8),
    {
        let mut ret: Vec<u8> = Vec::new();
        ret.resize(8, 0u8);
        proof {
            assert(ret@ =~= Seq::new(8nat, |i: int| 0u8));
        }
        ret
    }

    /// Two fresh buffers of eight zeroed bytes each.
    pub fn make_vec_pair() -> (p: (Vec<u8>, Vec<u8>))
        ensures
            p.0@ == Seq::new(8nat, |i: int| 0u8),
            p.1@ == Seq::new(8nat, |i: int| 0u8),
    {
        (Self::make_vec(), Self::make_vec())
    }

    /// A message with a send buffer and a receive buffer.  A receive
    /// buffer shorter than the send buffer is grown with zeroes to the
    /// send buffer's length, so the full exchange has somewhere to land.
    pub fn new(s: Vec<u8>, r: Vec<u8>) -> (m: SpiMsg)
        ensures
            m.segs@.len() == 1,
            m.segs@[0].send == Some(s),
            m.segs@[0].rec is Some,
            m.segs@[0].rec->0@ == (if s@.len() > r@.len() {
                r@ + Seq::new((s@.len() - r@.len()) as nat, |i: int| 0u8)
            } else {
                r@
            }),
    {
        let mut r = r;
        if s.len() > r.len() {
            let ghost r0 = r@;
            let target = s.len();
            r.resize(target, 0u8);
            proof {
                assert(r@ =~= r0 + Seq::new((s@.len() - r0.len()) as nat, |i: int| 0u8));
            }
        }
        Self::inner_new(Some(s), Some(r))
    }

    /// A message that only sends.
    pub fn new_send(s: Vec<u8>) -> (m: SpiMsg)
        ensures
            m.segs@.len() == 1,
            m.segs@[0].send == Some(s),
            m.segs@[0].rec is None,
    {
        Self::inner_new(Some(s), None)
    }

    /// A message that only receives.
    pub fn new_rec(r: Vec<u8>) -> (m: SpiMsg)
        ensures
            m.segs@.len() == 1,
            m.segs@[0].send is None,
            m.segs@[0].rec == Some(r),
    {
        Self::inner_new(None, Some(r))
    }

    fn inner_new(s: Option<Vec<u8>>, r: Option<Vec<u8>>) -> (m: SpiMsg)
        ensures
            m.segs@.len() == 1,
            m.segs@[0].send == s,
            m.segs@[0].rec == r,
    {
        let mut segs: Vec<SpiSeg> = Vec::new();
        segs.push(SpiSeg { send: s, rec: r });
        SpiMsg { segs }
    }

    /// Adds a segment with a send and a receive buffer at the message's
    /// end.
    pub fn append(&mut self, s: Vec<u8>, r: Vec<u8>)
        ensures
            final(self).segs@.len() == old(self).segs@.len() + 1,
            final(self).segs@.last().send == Some(s),
            final(self).segs@.last().rec == Some(r),
            forall|j: int|
                0 <= j < old(self).segs@.len() ==> final(self).segs@[j] == old(self).segs@[j],
    {
        self.inner_append(Some(s), Some(r));
    }

    /// Adds a send-only segment at the message's end.
    pub fn append_send(&mut self, s: Vec<u8>)
        ensures
            final(self).segs@.len() == old(self).segs@.len() + 1,
            final(self).segs@.last().send == Some(s),
            final(self).segs@.last().rec is None,
            forall|j: int|
                0 <= j < old(self).segs@.len() ==> final(self).segs@[j] == old(self).segs@[j],
    {
        self.inner_append(Some(s), None);
    }

    /// Adds a receive-only segment at the message's end.
    pub fn append_rec(&mut self, r: Vec<u8>)
        ensures
            final(self).segs@.len() == old(self).segs@.len() + 1,
            final(self).segs@.last().send is None,
            final(self).segs@.last().rec == Some(r),
            forall|j: int|
                0 <= j < old(self).segs@.len() ==> final(self).segs@[j] == old(self).segs@[j],
    {
        self.inner_append(None, Some(r));
    }

    fn inner_append(&mut self, s: Option<Vec<u8>>, r: Option<Vec<u8>>)
        ensures
            final(self).segs@.len() == old(self).segs@.len() + 1,
            final(self).segs@.last().send == s,
            final(self).segs@.last().rec == r,
            forall|j: int|
                0 <= j < old(self).segs@.len() ==> final(self).segs@[j] == old(self).segs@[j],
    {
        self.segs.push(SpiSeg { send: s, rec: r });
    }
}

} // verus!
