use vstd::prelude::*;

use crate::error::ResponseError;
use crate::json::{render_payload, spec_parse_payload};
use crate::record::{ServerInfo, ServerInfoView};
use crate::schema::{build_members, extract_record, record_members, spec_extract};
use crate::text::{chars_of_str, string_from_chars, string_from_utf8};
use crate::wire::{build_response_frame, frame_of, parse_frame, parse_response_frame};
use vstd::utf8::{decode_utf8, encode_utf8, valid_utf8};

verus! {

/// What decoding a payload text yields: its parsed members read through
/// the record schema.
pub open spec fn spec_decode_payload(s: Seq<char>) -> Result<ServerInfoView, ResponseError> {
    match spec_parse_payload(s) {
        Some(ms) => spec_extract(ms),
        None => Err(ResponseError::MalformedPayload),
    }
}

/// The canonical payload text of a record.
pub open spec fn spec_encode_payload(r: ServerInfoView) -> Seq<char> {
    render_payload(record_members(r))
}

/// What decoding a whole response byte stream yields: the deframed payload
/// read as UTF-8 text, parsed, and extracted; the first fault in that
/// order decides the error.
pub open spec fn spec_decode_response(data: Seq<u8>) -> Result<ServerInfoView, ResponseError> {
    match parse_frame(data) {
        Err(e) => Err(e),
        Ok(payload) => if !valid_utf8(payload) {
            Err(ResponseError::InvalidUtf8)
        } else {
            spec_decode_payload(decode_utf8(payload))
        },
    }
}

/// The canonical response byte stream of a record: its payload text,
/// UTF-8 encoded and framed.
pub open spec fn spec_encode_response(r: ServerInfoView) -> Seq<u8> {
    frame_of(encode_utf8(spec_encode_payload(r)))
}

/// What decoding yields on success is always well-formed: the record can
/// be rendered again, and the wire round trip applies to it.
pub proof fn lemma_decoded_payload_wf(s: Seq<char>)
    ensures
        spec_decode_payload(s) is Ok ==> spec_decode_payload(s).unwrap().wf(),
{
    if spec_decode_payload(s) is Ok {
        crate::roundtrip::lemma_parse_payload_wf(s);
        crate::schema_laws::lemma_extract_wf(spec_parse_payload(s).unwrap());
    }
}

/// Decodes a payload text into a record.
pub fn decode_payload_chars(s: &Vec<char>) -> (r: Result<ServerInfo, ResponseError>)
    ensures
        match r {
            Ok(info) => spec_decode_payload(s@) == Ok::<ServerInfoView, ResponseError>(info@)
                && info@.wf(),
            Err(e) => spec_decode_payload(s@) == Err::<ServerInfoView, ResponseError>(e),
        },
{
    proof {
        lemma_decoded_payload_wf(s@);
    }
    match crate::json::parse_payload_chars(s) {
        Ok(ms) => extract_record(&ms),
        Err(e) => Err(e),
    }
}

/// Renders the canonical payload text of a record.
pub fn encode_payload_chars(info: &ServerInfo) -> (out: Vec<char>)
    ensures
        out@ == spec_encode_payload(info@),
{
    let ms = build_members(info);
    crate::json::render_payload_chars(&ms)
}

/// Decodes a whole response byte stream into a record, reporting the first
/// fault of the frame walk, the UTF-8 reading, or the payload decode.
pub fn decode_response(data: &Vec<u8>) -> (r: Result<ServerInfo, ResponseError>)
    ensures
        match r {
            Ok(info) => spec_decode_response(data@) == Ok::<ServerInfoView, ResponseError>(info@)
                && info@.wf(),
            Err(e) => spec_decode_response(data@) == Err::<ServerInfoView, ResponseError>(e),
        },
{
    let payload = match parse_response_frame(data) {
        Ok(p) => p,
        Err(e) => {
            return Err(e);
        },
    };
    let text = match string_from_utf8(payload) {
        Some(t) => t,
        None => {
            return Err(ResponseError::InvalidUtf8);
        },
    };
    proof {
        vstd::utf8::encode_utf8_decode_utf8(text@);
    }
    let chars = chars_of_str(text.as_str());
    decode_payload_chars(&chars)
}

/// Builds the canonical response byte stream carrying a record, unless its
/// payload outgrows the two-byte length field.
pub fn encode_response(info: &ServerInfo) -> (r: Option<Vec<u8>>)
    ensures
        match r {
            Some(data) => data@ == spec_encode_response(info@) && encode_utf8(
                spec_encode_payload(info@),
            ).len() + 2 <= 0xFFFF,
            None => encode_utf8(spec_encode_payload(info@)).len() + 2 > 0xFFFF,
        },
{
    let chars = encode_payload_chars(info);
    let text = string_from_chars(&chars);
    let bytes = text.as_str().as_bytes_vec();
    if bytes.len() > 0xFFFF - 2 {
        return None;
    }
    Some(build_response_frame(&bytes))
}

/// Wire round trip: decoding the canonical response stream of any
/// well-formed record reproduces every field exactly, boolean-coded
/// fields included.
pub proof fn lemma_response_round_trip(r: ServerInfoView)
    requires
        r.wf(),
        encode_utf8(spec_encode_payload(r)).len() + 2 <= 0xFFFF,
    ensures
        spec_decode_response(spec_encode_response(r)) == Ok::<ServerInfoView, ResponseError>(r),
{
    let chars = spec_encode_payload(r);
    let bytes = encode_utf8(chars);
    crate::wire::lemma_frame_round_trip(bytes);
    vstd::utf8::encode_utf8_valid_utf8(chars);
    vstd::utf8::encode_utf8_decode_utf8(chars);
    crate::schema_laws::lemma_record_members_wf(r);
    crate::roundtrip::lemma_parse_render_payload(record_members(r));
    crate::schema_laws::lemma_extract_round(r);
}

} // verus!
