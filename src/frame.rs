//! The wire frame: eight bytes, a big-endian task id followed by a fixed
//! marker that receivers do not check.
use vstd::prelude::*;

verus! {

/// Number of bytes in every frame.
pub const FRAME_LEN: usize = 8;

/// The big-endian bytes of `v`, most significant first.
pub open spec fn be_bytes(v: u32) -> Seq<u8> {
    seq![
        ((v as int / 0x1000000) % 256) as u8,
        ((v as int / 0x10000) % 256) as u8,
        ((v as int / 0x100) % 256) as u8,
        (v as int % 256) as u8,
    ]
}

/// The marker that fills the last four bytes of each frame.
pub open spec fn marker() -> Seq<u8> {
    seq![0x0Bu8, 0x0Au8, 0x09u8, 0x08u8]
}

/// The frame that carries `task`.
pub open spec fn frame_of(task: u32) -> Seq<u8> {
    be_bytes(task) + marker()
}

/// The number that the first four bytes of `b` spell in big-endian order.
pub open spec fn be_value(b: Seq<u8>) -> int
    recommends
        b.len() >= 4,
{
    b[0] as int * 0x1000000 + b[1] as int * 0x10000 + b[2] as int * 0x100 + b[3] as int
}

/// Why a frame could not be read.
#[derive(Debug, Clone, Copy, PartialEq, Eq, Structural)]
pub enum FrameError {
    /// Fewer than eight bytes were available.
    Short,
}

/// Builds the frame that carries `task`.
pub fn encode(task: u32) -> (r: [u8; 8])
    ensures
        r@ == frame_of(task),
{
    let r: [u8; 8] = [
        ((task / 0x1000000) % 256) as u8,
        ((task / 0x10000) % 256) as u8,
        ((task / 0x100) % 256) as u8,
        (task % 256) as u8,
        0x0B,
        0x0A,
        0x09,
        0x08,
    ];
    assert(r@ =~= frame_of(task));
    r
}

/// Reads the task id out of a frame; only the first four bytes are looked at.
pub fn decode(buf: &[u8]) -> (r: Result<u32, FrameError>)
    ensures
        buf@.len() < FRAME_LEN ==> r == Err::<u32, FrameError>(FrameError::Short),
        buf@.len() >= FRAME_LEN ==> (r matches Ok(v) && v as int == be_value(buf@)),
{
    if buf.len() < FRAME_LEN {
        return Err(FrameError::Short);
    }
    let v: u32 = (buf[0] as u32) * 0x1000000 + (buf[1] as u32) * 0x10000 + (buf[2] as u32) * 0x100
        + (buf[3] as u32);
    Ok(v)
}

/// Decoding a frame gives back the task id it was built from.
pub proof fn lemma_decode_frame(task: u32)
    ensures
        frame_of(task).len() == FRAME_LEN,
        be_value(frame_of(task)) == task as int,
{
    let v = task as int;
    let f = frame_of(task);
    assert(f[0] == ((v / 0x1000000) % 256) as u8);
    assert(f[1] == ((v / 0x10000) % 256) as u8);
    assert(f[2] == ((v / 0x100) % 256) as u8);
    assert(f[3] == (v % 256) as u8);
    assert(0 <= v < 0x100000000);
    assert(((v / 0x1000000) % 256) * 0x1000000 + ((v / 0x10000) % 256) * 0x10000 + ((v / 0x100)
        % 256) * 0x100 + v % 256 == v) by (nonlinear_arith)
        requires
            0 <= v < 0x100000000,
    ;
}

} // verus!
