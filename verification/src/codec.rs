//! The host's codec conversation with a module, as a state machine: each
//! answer of the module (or failure of a request) leads to the next request,
//! until the session finishes with the image's metadata or its pixels.
//!
//! A probe allocates room for the input, writes it, allocates room for an
//! `ImageInfo`, calls `codec_probe`, reads the `ImageInfo`, and frees both
//! regions. A decode does the same with `codec_decode` and a `DecodeOutput`,
//! copies the pixels that the descriptor points at, and also frees them.
//! The first failing request ends the session with its error; regions that
//! were allocated before it are not freed.
use crate::host::{codec_status, HostError};
use crate::types::{
    decode_output_at, image_info_at, DecodeOutput, ImageInfo, DECODE_OUTPUT_SIZE, FN_CODEC_DECODE,
    FN_CODEC_PROBE, IMAGE_INFO_SIZE,
};
use vstd::prelude::*;

verus! {

/// Which codec function a session calls.
#[derive(Clone, Copy, Debug, PartialEq, Eq, Structural)]
pub enum CodecOp {
    /// `codec_probe`: read the image's metadata.
    Probe,
    /// `codec_decode`: decode the image's pixels.
    Decode,
}

/// The size of the descriptor that the codec function writes.
pub open spec fn descriptor_size(op: CodecOp) -> u32 {
    match op {
        CodecOp::Probe => IMAGE_INFO_SIZE,
        CodecOp::Decode => DECODE_OUTPUT_SIZE,
    }
}

impl CodecOp {
    /// The name of the module's export that this operation calls.
    pub fn function_name(self) -> (name: &'static str)
        ensures
            self == CodecOp::Probe ==> name@ == FN_CODEC_PROBE@,
            self == CodecOp::Decode ==> name@ == FN_CODEC_DECODE@,
    {
        match self {
            CodecOp::Probe => FN_CODEC_PROBE,
            CodecOp::Decode => FN_CODEC_DECODE,
        }
    }
}

/// What a finished session hands back.
pub enum CodecOutput {
    /// The metadata that a probe read.
    Info(ImageInfo),
    /// The pixels that a decode copied out, and the image's dimensions.
    Image { pixels: Vec<u8>, width: u32, height: u32, channels: u32 },
}

/// The next thing the host is asked to do on the module.
pub enum Request {
    /// Allocate `size` bytes in the module (answer: [`Reply::Offset`]).
    Alloc { size: u32 },
    /// Write the input data at `offset` (answer: [`Reply::Written`]).
    WriteInput { offset: u32 },
    /// Call the codec function with `args`, for one result (answer:
    /// [`Reply::Results`]).
    Call { op: CodecOp, args: Vec<i64> },
    /// Copy `len` bytes at `offset` out of the module (answer: [`Reply::Bytes`]).
    Read { offset: u32, len: u32 },
    /// Free the region at `offset` (answer: [`Reply::Freed`]).
    Dealloc { offset: u32, size: u32 },
    /// The session is over, with this outcome.
    Finish(Result<CodecOutput, HostError>),
}

/// The module's answer to a request that succeeded.
pub enum Reply {
    Offset(u32),
    Written,
    Results(Vec<i64>),
    Bytes(Vec<u8>),
    Freed,
}

/// What a session holds once the descriptor has been read.
pub enum Held {
    Info(ImageInfo),
    Image { pixels: Vec<u8>, desc: DecodeOutput },
}

/// Where a session stands: which answer it awaits, and what it knows.
pub enum Stage {
    AwaitInputAlloc,
    AwaitWrite { data_off: u32 },
    AwaitDescAlloc { data_off: u32 },
    AwaitCall { data_off: u32, desc_off: u32 },
    AwaitDesc { data_off: u32, desc_off: u32 },
    AwaitPixels { data_off: u32, desc_off: u32, desc: DecodeOutput },
    AwaitFreeInput { desc_off: u32, held: Held },
    AwaitFreePixels { desc_off: u32, held: Held },
    AwaitFreeDesc { held: Held },
    Finished,
}

/// A codec session on input data of `data_len` bytes. Beside where it
/// stands, it keeps (as ghost state) the regions it has allocated in the
/// module and the regions it has asked to free, in order.
pub struct CodecSession {
    op: CodecOp,
    data_len: usize,
    stage: Stage,
    allocated: Ghost<Seq<(u32, u32)>>,
    freed: Ghost<Seq<(u32, u32)>>,
}

/// The regions allocated after `reply` came to a session at `stage` that had
/// allocated `a`: an offset answered to an allocation adds its region.
pub open spec fn allocated_after(
    op: CodecOp,
    data_len: usize,
    stage: Stage,
    reply: Result<Reply, HostError>,
    a: Seq<(u32, u32)>,
) -> Seq<(u32, u32)> {
    match reply {
        Ok(Reply::Offset(x)) => match stage {
            Stage::AwaitInputAlloc => a.push((x, data_len as u32)),
            Stage::AwaitDescAlloc { .. } => a.push((x, descriptor_size(op))),
            _ => a,
        },
        _ => a,
    }
}

/// The regions asked to be freed once `req` is issued, after `f`.
pub open spec fn freed_after(req: Request, f: Seq<(u32, u32)>) -> Seq<(u32, u32)> {
    match req {
        Request::Dealloc { offset, size } => f.push((offset, size)),
        _ => f,
    }
}

/// Whether `reply` is an answer that a session at `stage` can take: any
/// failure, or the kind of answer its last request asked for; a finished
/// session takes none.
pub open spec fn accepts(stage: Stage, reply: Result<Reply, HostError>) -> bool {
    match stage {
        Stage::Finished => false,
        _ => match reply {
            Err(_) => true,
            Ok(r) => match stage {
                Stage::AwaitInputAlloc => r is Offset,
                Stage::AwaitWrite { .. } => r is Written,
                Stage::AwaitDescAlloc { .. } => r is Offset,
                Stage::AwaitCall { .. } => r is Results,
                Stage::AwaitDesc { .. } => r is Bytes,
                Stage::AwaitPixels { .. } => r is Bytes,
                _ => r is Freed,
            },
        },
    }
}

/// The status that the codec function's results report: the first one as an
/// `i32` (low 32 bits), or -1 when there is none.
pub open spec fn status_of(results: Seq<i64>) -> i32 {
    if results.len() == 0 {
        -1i32
    } else {
        results[0] as i32
    }
}

/// The arguments of the codec call: the input's offset and length, and the
/// descriptor's offset.
pub open spec fn codec_call_args(data_off: u32, data_len: usize, desc_off: u32) -> Seq<i64> {
    seq![data_off as i64, data_len as i64, desc_off as i64]
}

/// Whether `out` is what a session hands back for what it holds.
pub open spec fn output_of(held: Held, out: CodecOutput) -> bool {
    match held {
        Held::Info(info) => out == CodecOutput::Info(info),
        Held::Image { pixels, desc } => out matches CodecOutput::Image {
            pixels: p,
            width,
            height,
            channels,
        } && p@ == pixels@ && width == desc.width && height == desc.height && channels
            == desc.channels,
    }
}

/// Whether `req` ends the session with the error `e`.
pub open spec fn finishes_with_error(req: Request, e: HostError) -> bool {
    req matches Request::Finish(Err(f)) && f == e
}

/// The session's way from `stage` on the answer `reply` of a session of
/// `op` on `data_len` bytes: its next stage and request.
pub open spec fn transition(
    op: CodecOp,
    data_len: usize,
    stage: Stage,
    reply: Result<Reply, HostError>,
    next: Stage,
    req: Request,
) -> bool {
    match reply {
        Err(e) => next is Finished && finishes_with_error(req, e),
        Ok(r) => match stage {
            Stage::AwaitInputAlloc => r matches Reply::Offset(d) && next == (Stage::AwaitWrite {
                data_off: d,
            }) && req == (Request::WriteInput { offset: d }),
            Stage::AwaitWrite { data_off } => next == (Stage::AwaitDescAlloc { data_off })
                && req == (Request::Alloc { size: descriptor_size(op) }),
            Stage::AwaitDescAlloc { data_off } => match r {
                Reply::Offset(o) => next == (Stage::AwaitCall { data_off, desc_off: o }) && match req {
                    Request::Call { op: cop, args } => cop == op && args@ == codec_call_args(
                        data_off,
                        data_len,
                        o,
                    ),
                    _ => false,
                },
                _ => false,
            },
            Stage::AwaitCall { data_off, desc_off } => r matches Reply::Results(rs) && (if status_of(
                rs@,
            ) != 0 {
                next is Finished && finishes_with_error(
                    req,
                    HostError::CallFailed(status_of(rs@)),
                )
            } else {
                next == (Stage::AwaitDesc { data_off, desc_off }) && req == (Request::Read {
                    offset: desc_off,
                    len: descriptor_size(op),
                })
            }),
            Stage::AwaitDesc { data_off, desc_off } => r matches Reply::Bytes(b) && (if b@.len()
                != descriptor_size(op) {
                next is Finished && finishes_with_error(req, HostError::MemoryAccess)
            } else if op == CodecOp::Probe {
                next matches Stage::AwaitFreeInput { desc_off: o, held: Held::Info(info) } && o
                    == desc_off && info == image_info_at(b@) && req == (Request::Dealloc {
                    offset: data_off,
                    size: data_len as u32,
                })
            } else {
                let desc = decode_output_at(b@);
                next == (Stage::AwaitPixels { data_off, desc_off, desc }) && req == (
                Request::Read { offset: desc.pixels.offset, len: desc.pixels.len })
            }),
            Stage::AwaitPixels { data_off, desc_off, desc } => r matches Reply::Bytes(p) && (if p@.len()
                != desc.pixels.len {
                next is Finished && finishes_with_error(req, HostError::MemoryAccess)
            } else {
                next matches Stage::AwaitFreeInput {
                    desc_off: o,
                    held: Held::Image { pixels, desc: d },
                } && o == desc_off && pixels@ == p@ && d == desc && req == (Request::Dealloc {
                    offset: data_off,
                    size: data_len as u32,
                })
            }),
            Stage::AwaitFreeInput { desc_off, held } => match held {
                Held::Info(info) => next == (Stage::AwaitFreeDesc { held: Held::Info(info) })
                    && req == (Request::Dealloc { offset: desc_off, size: descriptor_size(op) }),
                Held::Image { pixels, desc } => next matches Stage::AwaitFreePixels {
                    desc_off: o,
                    held: Held::Image { pixels: p, desc: d },
                } && o == desc_off && p@ == pixels@ && d == desc && req == (Request::Dealloc {
                    offset: desc.pixels.offset,
                    size: desc.pixels.len,
                }),
            },
            Stage::AwaitFreePixels { desc_off, held } => next matches Stage::AwaitFreeDesc {
                held: h,
            } && same_held(h, held) && req == (Request::Dealloc {
                offset: desc_off,
                size: descriptor_size(op),
            }),
            Stage::AwaitFreeDesc { held } => next is Finished && match req {
                Request::Finish(Ok(out)) => output_of(held, out),
                _ => false,
            },
            Stage::Finished => false,
        },
    }
}

/// Whether two holdings hold the same thing (pixels compared by contents).
pub open spec fn same_held(a: Held, b: Held) -> bool {
    match (a, b) {
        (Held::Info(x), Held::Info(y)) => x == y,
        (Held::Image { pixels: p, desc: d }, Held::Image { pixels: q, desc: e }) => p@ == q@ && d
            == e,
        _ => false,
    }
}

/// How many more answers a session at `stage` awaits at most before it
/// finishes.
pub open spec fn answers_left(op: CodecOp, stage: Stage) -> nat {
    let tail: nat = if op == CodecOp::Probe {
        0
    } else {
        1
    };
    match stage {
        Stage::AwaitInputAlloc => 7 + tail * 2,
        Stage::AwaitWrite { .. } => 6 + tail * 2,
        Stage::AwaitDescAlloc { .. } => 5 + tail * 2,
        Stage::AwaitCall { .. } => 4 + tail * 2,
        Stage::AwaitDesc { .. } => 3 + tail * 2,
        Stage::AwaitPixels { .. } => 4,
        Stage::AwaitFreeInput { held, .. } => if held is Image {
            3
        } else {
            2
        },
        Stage::AwaitFreePixels { .. } => 2,
        Stage::AwaitFreeDesc { .. } => 1,
        Stage::Finished => 0,
    }
}

/// Every session finishes: a probe after at most seven answers, a decode
/// after at most nine, since each step takes the session closer to the end
/// (see [`CodecSession::step`]).
pub proof fn sessions_finish(op: CodecOp)
    ensures
        op == CodecOp::Probe ==> answers_left(op, Stage::AwaitInputAlloc) == 7,
        op == CodecOp::Decode ==> answers_left(op, Stage::AwaitInputAlloc) == 9,
        answers_left(op, Stage::Finished) == 0,
        forall|s: Stage| answers_left(op, s) == 0 ==> s is Finished,
{
}

impl CodecSession {
    /// The codec operation of the session.
    pub closed spec fn op(self) -> CodecOp {
        self.op
    }

    /// The length of the input data.
    pub closed spec fn data_len(self) -> usize {
        self.data_len
    }

    /// Where the session stands.
    pub closed spec fn stage(self) -> Stage {
        self.stage
    }

    /// The regions the session has allocated in the module, in order.
    pub closed spec fn allocated(self) -> Seq<(u32, u32)> {
        self.allocated@
    }

    /// The regions the session has asked to free, in order.
    pub closed spec fn freed(self) -> Seq<(u32, u32)> {
        self.freed@
    }

    /// What the session's ghost record holds at each stage.
    #[verifier::type_invariant]
    closed spec fn records_match_stage(self) -> bool {
        let a = self.allocated@;
        let f = self.freed@;
        let input = self.data_len as u32;
        let sz = descriptor_size(self.op);
        match self.stage {
            Stage::AwaitInputAlloc => a.len() == 0 && f.len() == 0,
            Stage::AwaitWrite { data_off } => a == seq![(data_off, input)] && f.len() == 0,
            Stage::AwaitDescAlloc { data_off } => a == seq![(data_off, input)] && f.len() == 0,
            Stage::AwaitCall { data_off, desc_off } => a == seq![(data_off, input), (desc_off, sz)]
                && f.len() == 0,
            Stage::AwaitDesc { data_off, desc_off } => a == seq![(data_off, input), (desc_off, sz)]
                && f.len() == 0,
            Stage::AwaitPixels { data_off, desc_off, .. } => a == seq![
                (data_off, input),
                (desc_off, sz),
            ] && f.len() == 0,
            Stage::AwaitFreeInput { desc_off, .. } => a.len() == 2 && a[1] == (desc_off, sz) && f
                == seq![a[0]],
            Stage::AwaitFreePixels { desc_off, .. } => a.len() == 2 && a[1] == (desc_off, sz)
                && f.len() == 2 && f[0] == a[0],
            Stage::AwaitFreeDesc { .. } => a.len() == 2 && f.contains(a[0]) && f.contains(a[1]),
            Stage::Finished => true,
        }
    }

    /// Starts a session of `op` on `data_len` bytes of input: the first
    /// request allocates room for them (the size cut to 32 bits).
    pub fn start(op: CodecOp, data_len: usize) -> (r: (CodecSession, Request))
        ensures
            r.0.op() == op,
            r.0.data_len() == data_len,
            r.0.stage() is AwaitInputAlloc,
            r.0.allocated() == Seq::<(u32, u32)>::empty(),
            r.0.freed() == Seq::<(u32, u32)>::empty(),
            r.1 == (Request::Alloc { size: data_len as u32 }),
    {
        (
            CodecSession {
                op,
                data_len,
                stage: Stage::AwaitInputAlloc,
                allocated: Ghost(Seq::empty()),
                freed: Ghost(Seq::empty()),
            },
            Request::Alloc { size: #[verifier::truncate] (data_len as u32) },
        )
    }

    /// Whether the session can take `reply` now (see [`accepts`]).
    pub fn accepts(&self, reply: &Result<Reply, HostError>) -> (b: bool)
        ensures
            b == accepts(self.stage(), *reply),
    {
        match self.stage {
            Stage::Finished => false,
            _ => match reply {
                Err(_) => true,
                Ok(r) => match self.stage {
                    Stage::AwaitInputAlloc => matches!(r, Reply::Offset(_)),
                    Stage::AwaitWrite { .. } => matches!(r, Reply::Written),
                    Stage::AwaitDescAlloc { .. } => matches!(r, Reply::Offset(_)),
                    Stage::AwaitCall { .. } => matches!(r, Reply::Results(_)),
                    Stage::AwaitDesc { .. } => matches!(r, Reply::Bytes(_)),
                    Stage::AwaitPixels { .. } => matches!(r, Reply::Bytes(_)),
                    _ => matches!(r, Reply::Freed),
                },
            },
        }
    }

    /// Takes the answer to the last request and yields the next request.
    pub fn step(self, reply: Result<Reply, HostError>) -> (r: (CodecSession, Request))
        requires
            accepts(self.stage(), reply),
        ensures
            r.0.op() == self.op(),
            r.0.data_len() == self.data_len(),
            transition(self.op(), self.data_len(), self.stage(), reply, r.0.stage(), r.1),
            answers_left(self.op(), r.0.stage()) < answers_left(self.op(), self.stage()),
            r.0.stage() is Finished <==> r.1 is Finish,
            r.0.allocated() == allocated_after(
                self.op(),
                self.data_len(),
                self.stage(),
                reply,
                self.allocated(),
            ),
            r.0.freed() == freed_after(r.1, self.freed()),
            r.1 matches Request::Finish(Ok(_)) ==> forall|i: int|
                0 <= i < r.0.allocated().len() ==> r.0.freed().contains(#[trigger] r.0.allocated()[i]),
    {
        proof {
            use_type_invariant(&self);
        }
        let op = self.op;
        let data_len = self.data_len;
        let ghost old_stage = self.stage;
        let ghost old_reply = reply;
        let ghost allocated = allocated_after(op, data_len, self.stage, reply, self.allocated@);
        let r = match reply {
            Err(e) => (Stage::Finished, Request::Finish(Err(e))),
            Ok(rep) => match self.stage {
                Stage::AwaitInputAlloc => match rep {
                    Reply::Offset(d) => (
                        Stage::AwaitWrite { data_off: d },
                        Request::WriteInput { offset: d },
                    ),
                    _ => (Stage::Finished, Request::Finish(Err(HostError::MemoryAccess))),
                },
                Stage::AwaitWrite { data_off } => (
                    Stage::AwaitDescAlloc { data_off },
                    Request::Alloc { size: descriptor_size_of(op) },
                ),
                Stage::AwaitDescAlloc { data_off } => match rep {
                    Reply::Offset(o) => {
                        let args = vec![data_off as i64, #[verifier::truncate] (data_len as i64), o as i64];
                        proof {
                            assert(args@ =~= codec_call_args(data_off, data_len, o));
                        }
                        (Stage::AwaitCall { data_off, desc_off: o }, Request::Call { op, args })
                    },
                    _ => (Stage::Finished, Request::Finish(Err(HostError::MemoryAccess))),
                },
                Stage::AwaitCall { data_off, desc_off } => match rep {
                    Reply::Results(rs) => {
                        let rc: i32 = codec_status(rs.as_slice());
                        if rc != 0 {
                            (Stage::Finished, Request::Finish(Err(HostError::CallFailed(rc))))
                        } else {
                            (
                                Stage::AwaitDesc { data_off, desc_off },
                                Request::Read { offset: desc_off, len: descriptor_size_of(op) },
                            )
                        }
                    },
                    _ => (Stage::Finished, Request::Finish(Err(HostError::MemoryAccess))),
                },
                Stage::AwaitDesc { data_off, desc_off } => match rep {
                    Reply::Bytes(b) => match op {
                        CodecOp::Probe => match ImageInfo::from_bytes(b.as_slice()) {
                            Some(info) => (
                                Stage::AwaitFreeInput { desc_off, held: Held::Info(info) },
                                Request::Dealloc { offset: data_off, size: #[verifier::truncate] (data_len as u32) },
                            ),
                            None => (Stage::Finished, Request::Finish(Err(HostError::MemoryAccess))),
                        },
                        CodecOp::Decode => match DecodeOutput::from_bytes(b.as_slice()) {
                            Some(desc) => (
                                Stage::AwaitPixels { data_off, desc_off, desc },
                                Request::Read { offset: desc.pixels.offset, len: desc.pixels.len },
                            ),
                            None => (Stage::Finished, Request::Finish(Err(HostError::MemoryAccess))),
                        },
                    },
                    _ => (Stage::Finished, Request::Finish(Err(HostError::MemoryAccess))),
                },
                Stage::AwaitPixels { data_off, desc_off, desc } => match rep {
                    Reply::Bytes(p) => {
                        if p.len() as u64 != desc.pixels.len as u64 {
                            (Stage::Finished, Request::Finish(Err(HostError::MemoryAccess)))
                        } else {
                            (
                                Stage::AwaitFreeInput {
                                    desc_off,
                                    held: Held::Image { pixels: p, desc },
                                },
                                Request::Dealloc { offset: data_off, size: #[verifier::truncate] (data_len as u32) },
                            )
                        }
                    },
                    _ => (Stage::Finished, Request::Finish(Err(HostError::MemoryAccess))),
                },
                Stage::AwaitFreeInput { desc_off, held } => match held {
                    Held::Info(info) => (
                        Stage::AwaitFreeDesc { held: Held::Info(info) },
                        Request::Dealloc { offset: desc_off, size: descriptor_size_of(op) },
                    ),
                    Held::Image { pixels, desc } => (
                        Stage::AwaitFreePixels { desc_off, held: Held::Image { pixels, desc } },
                        Request::Dealloc { offset: desc.pixels.offset, size: desc.pixels.len },
                    ),
                },
                Stage::AwaitFreePixels { desc_off, held } => (
                    Stage::AwaitFreeDesc { held },
                    Request::Dealloc { offset: desc_off, size: descriptor_size_of(op) },
                ),
                Stage::AwaitFreeDesc { held } => {
                    let out = match held {
                        Held::Info(info) => CodecOutput::Info(info),
                        Held::Image { pixels, desc } => CodecOutput::Image {
                            pixels,
                            width: desc.width,
                            height: desc.height,
                            channels: desc.channels,
                        },
                    };
                    (Stage::Finished, Request::Finish(Ok(out)))
                },
                Stage::Finished => (Stage::Finished, Request::Finish(Err(HostError::MemoryAccess))),
            },
        };
        let ghost freed = freed_after(r.1, self.freed@);
        proof {
            match r.0 {
                Stage::AwaitWrite { data_off } => {
                    assert(allocated =~= seq![(data_off, data_len as u32)]);
                },
                Stage::AwaitCall { data_off, desc_off } => {
                    assert(allocated =~= seq![(data_off, data_len as u32), (desc_off, descriptor_size(op))]);
                },
                Stage::AwaitFreeInput { .. } => {
                    assert(freed =~= seq![allocated[0]]);
                },
                Stage::AwaitFreeDesc { .. } => {
                    assert(freed[0] == allocated[0]);
                    assert(freed[freed.len() - 1] == allocated[1]);
                },
                _ => {},
            }
        }
        (
            CodecSession { op, data_len, stage: r.0, allocated: Ghost(allocated), freed: Ghost(freed) },
            r.1,
        )
    }
}

fn descriptor_size_of(op: CodecOp) -> (size: u32)
    ensures
        size == descriptor_size(op),
{
    match op {
        CodecOp::Probe => IMAGE_INFO_SIZE,
        CodecOp::Decode => DECODE_OUTPUT_SIZE,
    }
}

} // verus!
