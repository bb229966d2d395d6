//! Fixed-size reports and their correlation keys.

use vstd::prelude::*;

verus! {

/// Length in bytes of every report exchanged with the device.
pub const FRAME_LEN: usize = 20;

/// Length in bytes of the correlation key at the front of a report.
pub const HEADER_LEN: usize = 4;

/// Why a request did not yield a usable response.
#[derive(Clone, Copy, Debug, PartialEq, Eq, Structural)]
pub enum RequestError {
    /// The request is longer than one report.
    InvalidRequest,
    /// Writing the report to the device failed.
    TransportWrite,
    /// Reading from the device failed; the listener has stopped.
    TransportRead,
    /// The delivery endpoint was closed before a response arrived.
    TransportClosed,
    /// The response does not echo what the request sent.
    ResponseMismatch { expected: u8, actual: u8 },
}

/// A request zero-padded to a full report.
pub open spec fn padded(request: Seq<u8>) -> Seq<u8> {
    Seq::new(
        20,
        |i: int|
            if i < request.len() {
                request[i]
            } else {
                0u8
            },
    )
}

/// The first four bytes of a report, read as one big-endian number.
pub open spec fn header_key(frame: Seq<u8>) -> u32
    recommends
        frame.len() >= 4,
{
    (frame[0] as int * 0x100_0000 + frame[1] as int * 0x1_0000 + frame[2] as int * 0x100
        + frame[3] as int) as u32
}

/// The four header bytes that a key stands for.
pub open spec fn key_bytes(key: u32) -> Seq<u8> {
    seq![
        (key as int / 0x100_0000) as u8,
        (key as int / 0x1_0000 % 0x100) as u8,
        (key as int / 0x100 % 0x100) as u8,
        (key as int % 0x100) as u8,
    ]
}

/// Builds the report for a request: the request bytes followed by zeros.
/// A request longer than a report is refused.
pub fn build_frame(request: &[u8]) -> (out: Result<[u8; 20], RequestError>)
    ensures
        request@.len() <= 20 ==> out is Ok && out->Ok_0@ == padded(request@),
        request@.len() > 20 ==> out == Err::<[u8; 20], RequestError>(RequestError::InvalidRequest),
{
    if request.len() > FRAME_LEN {
        return Err(RequestError::InvalidRequest);
    }
    let mut data = [0u8;20];
    let mut i: usize = 0;
    while i < request.len()
        invariant
            request@.len() <= 20,
            i <= request@.len(),
            forall|j: int| 0 <= j < i ==> data@[j] == request@[j],
            forall|j: int| i <= j < 20 ==> data@[j] == 0u8,
        decreases request@.len() - i,
    {
        data[i] = request[i];
        i += 1;
    }
    assert(data@ =~= padded(request@));
    Ok(data)
}

/// The correlation key of a report.
pub fn header_of(frame: &[u8; 20]) -> (key: u32)
    ensures
        key == header_key(frame@),
{
    let b0: u32 = frame[0] as u32;
    let b1: u32 = frame[1] as u32;
    let b2: u32 = frame[2] as u32;
    let b3: u32 = frame[3] as u32;
    b0 * 0x100_0000 + b1 * 0x1_0000 + b2 * 0x100 + b3
}

/// The four header bytes of a key, most significant first.
pub fn header_bytes(key: u32) -> (out: [u8; 4])
    ensures
        out@ == key_bytes(key),
        header_key(out@) == key,
{
    let out = [
        (key / 0x100_0000) as u8,
        (key / 0x1_0000 % 0x100) as u8,
        (key / 0x100 % 0x100) as u8,
        (key % 0x100) as u8,
    ];
    assert(out@ =~= key_bytes(key));
    out
}

/// Two reports share a key exactly when their first four bytes agree.
pub proof fn lemma_header_key_injective(a: Seq<u8>, b: Seq<u8>)
    requires
        a.len() >= 4,
        b.len() >= 4,
    ensures
        header_key(a) == header_key(b) <==> a.subrange(0, 4) == b.subrange(0, 4),
{
    if header_key(a) == header_key(b) {
        assert(a.subrange(0, 4) =~= b.subrange(0, 4));
    } else {
        if a.subrange(0, 4) == b.subrange(0, 4) {
            assert(a[0] == a.subrange(0, 4)[0]);
            assert(a[1] == a.subrange(0, 4)[1]);
            assert(a[2] == a.subrange(0, 4)[2]);
            assert(a[3] == a.subrange(0, 4)[3]);
            assert(b[0] == b.subrange(0, 4)[0]);
            assert(b[1] == b.subrange(0, 4)[1]);
            assert(b[2] == b.subrange(0, 4)[2]);
            assert(b[3] == b.subrange(0, 4)[3]);
        }
    }
}

} // verus!
