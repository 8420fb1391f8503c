//! The binary framing of the status protocol: the fixed request frame and
//! the walk of a framed response.

use vstd::prelude::*;

use crate::error::ResponseError;

verus! {

/// The fixed 29-byte status request: a `00 83` header, a big-endian length
/// of `0x0019`, five padding bytes, the ASCII text `?status&format=json`,
/// and a zero footer.
pub open spec fn request_frame() -> Seq<u8> {
    seq![
        0x00u8, 0x83u8, 0x00u8, 0x19u8, 0x00u8, 0x00u8, 0x00u8, 0x00u8, 0x00u8, 0x3Fu8,
        0x73u8, 0x74u8, 0x61u8, 0x74u8, 0x75u8, 0x73u8, 0x26u8, 0x66u8, 0x6Fu8, 0x72u8,
        0x6Du8, 0x61u8, 0x74u8, 0x3Du8, 0x6Au8, 0x73u8, 0x6Fu8, 0x6Eu8, 0x00u8,
    ]
}

/// Builds the fixed status request frame sent to every server.
pub fn encode_request() -> (out: Vec<u8>)
    ensures
        out@ == request_frame(),
{
    let mut out: Vec<u8> = Vec::new();
    out.push(0x00);
    out.push(0x83);
    out.push(0x00);
    out.push(0x19);
    out.push(0x00);
    out.push(0x00);
    out.push(0x00);
    out.push(0x00);
    out.push(0x00);
    out.push(0x3F);
    out.push(0x73);
    out.push(0x74);
    out.push(0x61);
    out.push(0x74);
    out.push(0x75);
    out.push(0x73);
    out.push(0x26);
    out.push(0x66);
    out.push(0x6F);
    out.push(0x72);
    out.push(0x6D);
    out.push(0x61);
    out.push(0x74);
    out.push(0x3D);
    out.push(0x6A);
    out.push(0x73);
    out.push(0x6F);
    out.push(0x6E);
    out.push(0x00);
    proof {
        assert(out@ =~= request_frame());
    }
    out
}

/// The frame a server answers with: a `00 83` header, a big-endian length
/// that counts the payload plus its own two bytes, the type byte `06`, the
/// payload, and a zero footer.
pub open spec fn frame_of(payload: Seq<u8>) -> Seq<u8>
    recommends
        payload.len() + 2 <= 0xFFFF,
{
    seq![
        0x00u8,
        0x83u8,
        (((payload.len() + 2) as int / 256) as u8),
        (((payload.len() + 2) as int % 256) as u8),
        0x06u8,
    ] + payload + seq![0x00u8]
}

/// Deframing of a response byte stream, read strictly front to back: the
/// header is judged on the first two bytes alone, then the length, type
/// byte, payload, and footer.  Bytes past the footer are never read, as a
/// connection is consumed only as far as the frame requires.
pub open spec fn parse_frame(data: Seq<u8>) -> Result<Seq<u8>, ResponseError> {
    if data.len() < 2 {
        Err(ResponseError::Truncated)
    } else if data[0] != 0x00 || data[1] != 0x83 {
        Err(ResponseError::InvalidHeader)
    } else if data.len() < 4 {
        Err(ResponseError::Truncated)
    } else {
        let l = data[2] * 256 + data[3];
        if data.len() < 5 {
            Err(ResponseError::Truncated)
        } else if data[4] != 0x06 {
            Err(ResponseError::InvalidType)
        } else if l < 2 {
            Err(ResponseError::InvalidLength)
        } else if data.len() < l + 4 {
            Err(ResponseError::Truncated)
        } else if data[l + 3] != 0x00 {
            Err(ResponseError::InvalidFooter)
        } else {
            Ok(data.subrange(5, l + 3))
        }
    }
}

/// Walks a response byte stream and extracts the payload between the framing
/// markers, reporting the first structural fault in read order.
pub fn parse_response_frame(data: &Vec<u8>) -> (r: Result<Vec<u8>, ResponseError>)
    ensures
        match r {
            Ok(payload) => parse_frame(data@) == Ok::<Seq<u8>, ResponseError>(payload@),
            Err(e) => parse_frame(data@) == Err::<Seq<u8>, ResponseError>(e),
        },
{
    if data.len() < 2 {
        return Err(ResponseError::Truncated);
    }
    if data[0] != 0x00 || data[1] != 0x83 {
        return Err(ResponseError::InvalidHeader);
    }
    if data.len() < 4 {
        return Err(ResponseError::Truncated);
    }
    let l: usize = (data[2] as usize) * 256 + (data[3] as usize);
    if data.len() < 5 {
        return Err(ResponseError::Truncated);
    }
    if data[4] != 0x06 {
        return Err(ResponseError::InvalidType);
    }
    if l < 2 {
        return Err(ResponseError::InvalidLength);
    }
    if data.len() < l + 4 {
        return Err(ResponseError::Truncated);
    }
    if data[l + 3] != 0x00 {
        return Err(ResponseError::InvalidFooter);
    }
    let mut payload: Vec<u8> = Vec::new();
    let mut i: usize = 5;
    while i < l + 3
        invariant
            l <= 0xFFFF,
            5 <= i <= l + 3,
            l + 4 <= data@.len(),
            payload@ == data@.subrange(5, i as int),
        decreases l + 3 - i,
    {
        payload.push(data[i]);
        proof {
            assert(payload@ =~= data@.subrange(5, i + 1));
        }
        i += 1;
    }
    Ok(payload)
}

/// Wraps a payload in the response framing: header, big-endian length,
/// type byte, payload, footer.
pub fn build_response_frame(payload: &Vec<u8>) -> (out: Vec<u8>)
    requires
        payload@.len() + 2 <= 0xFFFF,
    ensures
        out@ == frame_of(payload@),
{
    let mut out: Vec<u8> = Vec::new();
    out.push(0x00);
    out.push(0x83);
    let l: usize = payload.len() + 2;
    out.push((l / 256) as u8);
    out.push((l % 256) as u8);
    out.push(0x06);
    let mut i: usize = 0;
    while i < payload.len()
        invariant
            0 <= i <= payload@.len(),
            payload@.len() + 2 <= 0xFFFF,
            l == payload@.len() + 2,
            out@.len() == 5 + i,
            out@ == seq![
                0x00u8,
                0x83u8,
                ((l as int / 256) as u8),
                ((l as int % 256) as u8),
                0x06u8,
            ] + payload@.subrange(0, i as int),
        decreases payload@.len() - i,
    {
        out.push(payload[i]);
        proof {
            assert(out@ =~= seq![
                0x00u8,
                0x83u8,
                ((l as int / 256) as u8),
                ((l as int % 256) as u8),
                0x06u8,
            ] + payload@.subrange(0, i + 1));
        }
        i += 1;
    }
    out.push(0x00);
    proof {
        assert(payload@.subrange(0, payload@.len() as int) =~= payload@);
        assert(out@ =~= frame_of(payload@));
    }
    out
}

/// Framing and deframing are inverse: a payload wrapped by [`frame_of`] is
/// recovered exactly by [`parse_frame`], for every payload the two-byte
/// length field can describe.
pub proof fn lemma_frame_round_trip(payload: Seq<u8>)
    requires
        payload.len() + 2 <= 0xFFFF,
    ensures
        parse_frame(frame_of(payload)) == Ok::<Seq<u8>, ResponseError>(payload),
{
    let data = frame_of(payload);
    let n = payload.len() as int;
    assert(data.len() == n + 6);
    assert(data[2] == ((n + 2) / 256) as u8);
    assert(data[3] == ((n + 2) % 256) as u8);
    assert(data[2] * 256 + data[3] == n + 2);
    assert(data[n + 5] == 0x00);
    assert(data.subrange(5, n + 5) =~= payload);
}

/// A response whose first two bytes are not `00 83` always fails as a
/// protocol mismatch on the header, whatever the remaining bytes hold: the
/// verdict is reached before any later byte is consulted.
pub proof fn lemma_header_mismatch(data: Seq<u8>)
    requires
        data.len() >= 2,
        data[0] != 0x00 || data[1] != 0x83,
    ensures
        parse_frame(data) == Err::<Seq<u8>, ResponseError>(ResponseError::InvalidHeader),
        ResponseError::InvalidHeader.class_spec() == crate::error::ErrorClass::ProtocolMismatch,
{
}

} // verus!
