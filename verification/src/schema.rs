//! The record schema over parsed payload members: field lookup, the seven
//! wire shapes a field can take, extraction of a whole record, and the
//! canonical member list a record is rendered from.

use vstd::prelude::*;

use crate::error::ResponseError;
use crate::json::{all_digits, dec_of, dec_val, push_u32_dec, parse_u32_digits, is_digit_c};
use crate::json::{JsonMember, JsonScalar, MemberView, ScalarView, view_members};
use crate::record::{ServerInfo, ServerInfoView};
use crate::text::{chars_eq_str, chars_of_str, string_from_chars};

verus! {

// ---------------------------------------------------------------------------
// The field names of the record schema
// ---------------------------------------------------------------------------

pub open spec fn k_version() -> Seq<char> {
    "version"@
}

pub open spec fn k_respawn() -> Seq<char> {
    "respawn"@
}

pub open spec fn k_enter() -> Seq<char> {
    "enter"@
}

pub open spec fn k_ai() -> Seq<char> {
    "ai"@
}

pub open spec fn k_host() -> Seq<char> {
    "host"@
}

pub open spec fn k_round_id() -> Seq<char> {
    "round_id"@
}

pub open spec fn k_players() -> Seq<char> {
    "players"@
}

pub open spec fn k_revision() -> Seq<char> {
    "revision"@
}

pub open spec fn k_revision_date() -> Seq<char> {
    "revision_date"@
}

pub open spec fn k_hub() -> Seq<char> {
    "hub"@
}

pub open spec fn k_identifier() -> Seq<char> {
    "identifier"@
}

pub open spec fn k_admins() -> Seq<char> {
    "admins"@
}

pub open spec fn k_gamestate() -> Seq<char> {
    "gamestate"@
}

pub open spec fn k_map_name() -> Seq<char> {
    "map_name"@
}

pub open spec fn k_security_level() -> Seq<char> {
    "security_level"@
}

pub open spec fn k_round_duration() -> Seq<char> {
    "round_duration"@
}

pub open spec fn k_time_dilation_current() -> Seq<char> {
    "time_dilation_current"@
}

pub open spec fn k_time_dilation_avg() -> Seq<char> {
    "time_dilation_avg"@
}

pub open spec fn k_time_dilation_avg_slow() -> Seq<char> {
    "time_dilation_avg_slow"@
}

pub open spec fn k_time_dilation_avg_fast() -> Seq<char> {
    "time_dilation_avg_fast"@
}

pub open spec fn k_soft_popcap() -> Seq<char> {
    "soft_popcap"@
}

pub open spec fn k_hard_popcap() -> Seq<char> {
    "hard_popcap"@
}

pub open spec fn k_extreme_popcap() -> Seq<char> {
    "extreme_popcap"@
}

pub open spec fn k_popcap() -> Seq<char> {
    "popcap"@
}

pub open spec fn k_bunkered() -> Seq<char> {
    "bunkered"@
}

pub open spec fn k_interviews() -> Seq<char> {
    "interviews"@
}

pub open spec fn k_shuttle_mode() -> Seq<char> {
    "shuttle_mode"@
}

pub open spec fn k_shuttle_timer() -> Seq<char> {
    "shuttle_timer"@
}

pub open spec fn k_active_players() -> Seq<char> {
    "active_players"@
}

pub open spec fn k_public_address() -> Seq<char> {
    "public_address"@
}

// ---------------------------------------------------------------------------
// Looking a field up among the parsed members
// ---------------------------------------------------------------------------

/// What the members hold under one name: nothing, exactly one value, or
/// several occurrences.
#[verifier::ext_equal]
pub enum FieldGet {
    Missing,
    One(ScalarView),
    Many,
}

/// How many members carry the given name, at or after position `i`.
pub open spec fn count_name_from(ms: Seq<MemberView>, i: int, name: Seq<char>) -> nat
    decreases ms.len() - i,
{
    if 0 <= i && i < ms.len() {
        (if ms[i].name == name {
            1nat
        } else {
            0nat
        }) + count_name_from(ms, i + 1, name)
    } else {
        0
    }
}

/// The value of the first member carrying the given name at or after `i`.
pub open spec fn first_val_from(ms: Seq<MemberView>, i: int, name: Seq<char>) -> ScalarView
    decreases ms.len() - i,
{
    if 0 <= i && i < ms.len() {
        if ms[i].name == name {
            ms[i].value
        } else {
            first_val_from(ms, i + 1, name)
        }
    } else {
        ScalarView::Null
    }
}

/// The single lookup the schema is read through: a missing name, a unique
/// value, or a duplicate.
pub open spec fn spec_get(ms: Seq<MemberView>, name: Seq<char>) -> FieldGet {
    if count_name_from(ms, 0, name) == 0 {
        FieldGet::Missing
    } else if count_name_from(ms, 0, name) == 1 {
        FieldGet::One(first_val_from(ms, 0, name))
    } else {
        FieldGet::Many
    }
}

// ---------------------------------------------------------------------------
// Reading one field of each wire shape
// ---------------------------------------------------------------------------

/// A required string field.
pub open spec fn req_str(g: FieldGet) -> Result<Seq<char>, ResponseError> {
    match g {
        FieldGet::Missing => Err(ResponseError::MissingField),
        FieldGet::Many => Err(ResponseError::DuplicateField),
        FieldGet::One(v) => match v {
            ScalarView::Str(t) => Ok(t),
            _ => Err(ResponseError::WrongType),
        },
    }
}

/// An optional string field: absent and null both mean nothing.
pub open spec fn opt_str(g: FieldGet) -> Result<Option<Seq<char>>, ResponseError> {
    match g {
        FieldGet::Missing => Ok(None),
        FieldGet::Many => Err(ResponseError::DuplicateField),
        FieldGet::One(v) => match v {
            ScalarView::Null => Ok(None),
            ScalarView::Str(t) => Ok(Some(t)),
            _ => Err(ResponseError::WrongType),
        },
    }
}

/// A required unsigned 32-bit field: a pure digit token within range.
pub open spec fn req_u32(g: FieldGet) -> Result<u32, ResponseError> {
    match g {
        FieldGet::Missing => Err(ResponseError::MissingField),
        FieldGet::Many => Err(ResponseError::DuplicateField),
        FieldGet::One(v) => match v {
            ScalarView::Num(t) => if !all_digits(t) {
                Err(ResponseError::WrongType)
            } else if dec_val(t) > u32::MAX {
                Err(ResponseError::NumberOutOfRange)
            } else {
                Ok(dec_val(t) as u32)
            },
            _ => Err(ResponseError::WrongType),
        },
    }
}

/// An optional unsigned 32-bit field.
pub open spec fn opt_u32(g: FieldGet) -> Result<Option<u32>, ResponseError> {
    match g {
        FieldGet::Missing => Ok(None),
        FieldGet::Many => Err(ResponseError::DuplicateField),
        FieldGet::One(v) => match v {
            ScalarView::Null => Ok(None),
            ScalarView::Num(t) => if !all_digits(t) {
                Err(ResponseError::WrongType)
            } else if dec_val(t) > u32::MAX {
                Err(ResponseError::NumberOutOfRange)
            } else {
                Ok(Some(dec_val(t) as u32))
            },
            _ => Err(ResponseError::WrongType),
        },
    }
}

/// A boolean coded as the integer zero or one; any other number is a
/// decode failure, never a silent default.
pub open spec fn req_b01(g: FieldGet) -> Result<bool, ResponseError> {
    match g {
        FieldGet::Missing => Err(ResponseError::MissingField),
        FieldGet::Many => Err(ResponseError::DuplicateField),
        FieldGet::One(v) => match v {
            ScalarView::Num(t) => if t == seq!['0'] {
                Ok(false)
            } else if t == seq!['1'] {
                Ok(true)
            } else {
                Err(ResponseError::InvalidBool)
            },
            _ => Err(ResponseError::WrongType),
        },
    }
}

/// An optional boolean coded as zero or one, with null for nothing.
pub open spec fn opt_b01(g: FieldGet) -> Result<Option<bool>, ResponseError> {
    match g {
        FieldGet::Missing => Ok(None),
        FieldGet::Many => Err(ResponseError::DuplicateField),
        FieldGet::One(v) => match v {
            ScalarView::Null => Ok(None),
            ScalarView::Num(t) => if t == seq!['0'] {
                Ok(Some(false))
            } else if t == seq!['1'] {
                Ok(Some(true))
            } else {
                Err(ResponseError::InvalidBool)
            },
            _ => Err(ResponseError::WrongType),
        },
    }
}

/// A fractional metric: its exact number token is kept.
pub open spec fn req_numtext(g: FieldGet) -> Result<Seq<char>, ResponseError> {
    match g {
        FieldGet::Missing => Err(ResponseError::MissingField),
        FieldGet::Many => Err(ResponseError::DuplicateField),
        FieldGet::One(v) => match v {
            ScalarView::Num(t) => Ok(t),
            _ => Err(ResponseError::WrongType),
        },
    }
}

// ---------------------------------------------------------------------------
// Extracting the whole record
// ---------------------------------------------------------------------------

/// The error of a failed field read; meaningful only when one failed.
pub open spec fn err_of<T>(r: Result<T, ResponseError>) -> ResponseError {
    match r {
        Err(e) => e,
        Ok(_) => ResponseError::WrongType,
    }
}

/// The first failing field read of the schema, in the fixed field order of
/// the record, if any read fails.
pub open spec fn extract_err(ms: Seq<MemberView>) -> Option<ResponseError> {
    if req_str(spec_get(ms, k_version())) is Err {
        Some(err_of(req_str(spec_get(ms, k_version()))))
    } else if req_b01(spec_get(ms, k_respawn())) is Err {
        Some(err_of(req_b01(spec_get(ms, k_respawn()))))
    } else if req_b01(spec_get(ms, k_enter())) is Err {
        Some(err_of(req_b01(spec_get(ms, k_enter()))))
    } else if req_b01(spec_get(ms, k_ai())) is Err {
        Some(err_of(req_b01(spec_get(ms, k_ai()))))
    } else if opt_str(spec_get(ms, k_host())) is Err {
        Some(err_of(opt_str(spec_get(ms, k_host()))))
    } else if opt_str(spec_get(ms, k_round_id())) is Err {
        Some(err_of(opt_str(spec_get(ms, k_round_id()))))
    } else if req_u32(spec_get(ms, k_players())) is Err {
        Some(err_of(req_u32(spec_get(ms, k_players()))))
    } else if req_str(spec_get(ms, k_revision())) is Err {
        Some(err_of(req_str(spec_get(ms, k_revision()))))
    } else if req_str(spec_get(ms, k_revision_date())) is Err {
        Some(err_of(req_str(spec_get(ms, k_revision_date()))))
    } else if req_b01(spec_get(ms, k_hub())) is Err {
        Some(err_of(req_b01(spec_get(ms, k_hub()))))
    } else if req_str(spec_get(ms, k_identifier())) is Err {
        Some(err_of(req_str(spec_get(ms, k_identifier()))))
    } else if req_u32(spec_get(ms, k_admins())) is Err {
        Some(err_of(req_u32(spec_get(ms, k_admins()))))
    } else if req_u32(spec_get(ms, k_gamestate())) is Err {
        Some(err_of(req_u32(spec_get(ms, k_gamestate()))))
    } else if req_str(spec_get(ms, k_map_name())) is Err {
        Some(err_of(req_str(spec_get(ms, k_map_name()))))
    } else if req_str(spec_get(ms, k_security_level())) is Err {
        Some(err_of(req_str(spec_get(ms, k_security_level()))))
    } else if req_numtext(spec_get(ms, k_round_duration())) is Err {
        Some(err_of(req_numtext(spec_get(ms, k_round_duration()))))
    } else if req_numtext(spec_get(ms, k_time_dilation_current())) is Err {
        Some(err_of(req_numtext(spec_get(ms, k_time_dilation_current()))))
    } else if req_numtext(spec_get(ms, k_time_dilation_avg())) is Err {
        Some(err_of(req_numtext(spec_get(ms, k_time_dilation_avg()))))
    } else if req_numtext(spec_get(ms, k_time_dilation_avg_slow())) is Err {
        Some(err_of(req_numtext(spec_get(ms, k_time_dilation_avg_slow()))))
    } else if req_numtext(spec_get(ms, k_time_dilation_avg_fast())) is Err {
        Some(err_of(req_numtext(spec_get(ms, k_time_dilation_avg_fast()))))
    } else if req_u32(spec_get(ms, k_soft_popcap())) is Err {
        Some(err_of(req_u32(spec_get(ms, k_soft_popcap()))))
    } else if req_u32(spec_get(ms, k_hard_popcap())) is Err {
        Some(err_of(req_u32(spec_get(ms, k_hard_popcap()))))
    } else if req_u32(spec_get(ms, k_extreme_popcap())) is Err {
        Some(err_of(req_u32(spec_get(ms, k_extreme_popcap()))))
    } else if opt_u32(spec_get(ms, k_popcap())) is Err {
        Some(err_of(opt_u32(spec_get(ms, k_popcap()))))
    } else if opt_b01(spec_get(ms, k_bunkered())) is Err {
        Some(err_of(opt_b01(spec_get(ms, k_bunkered()))))
    } else if opt_b01(spec_get(ms, k_interviews())) is Err {
        Some(err_of(opt_b01(spec_get(ms, k_interviews()))))
    } else if opt_str(spec_get(ms, k_shuttle_mode())) is Err {
        Some(err_of(opt_str(spec_get(ms, k_shuttle_mode()))))
    } else if opt_u32(spec_get(ms, k_shuttle_timer())) is Err {
        Some(err_of(opt_u32(spec_get(ms, k_shuttle_timer()))))
    } else if opt_u32(spec_get(ms, k_active_players())) is Err {
        Some(err_of(opt_u32(spec_get(ms, k_active_players()))))
    } else if opt_str(spec_get(ms, k_public_address())) is Err {
        Some(err_of(opt_str(spec_get(ms, k_public_address()))))
    } else {
        None
    }
}

/// The record assembled from the thirty field reads; meaningful only when
/// none of them fails.
pub open spec fn extract_view(ms: Seq<MemberView>) -> ServerInfoView {
    ServerInfoView {
        version: req_str(spec_get(ms, k_version())).unwrap(),
        respawn: req_b01(spec_get(ms, k_respawn())).unwrap(),
        enter: req_b01(spec_get(ms, k_enter())).unwrap(),
        ai: req_b01(spec_get(ms, k_ai())).unwrap(),
        host: opt_str(spec_get(ms, k_host())).unwrap(),
        round_id: opt_str(spec_get(ms, k_round_id())).unwrap(),
        players: req_u32(spec_get(ms, k_players())).unwrap(),
        revision: req_str(spec_get(ms, k_revision())).unwrap(),
        revision_date: req_str(spec_get(ms, k_revision_date())).unwrap(),
        hub: req_b01(spec_get(ms, k_hub())).unwrap(),
        identifier: req_str(spec_get(ms, k_identifier())).unwrap(),
        admins: req_u32(spec_get(ms, k_admins())).unwrap(),
        gamestate: req_u32(spec_get(ms, k_gamestate())).unwrap(),
        map_name: req_str(spec_get(ms, k_map_name())).unwrap(),
        security_level: req_str(spec_get(ms, k_security_level())).unwrap(),
        round_duration: req_numtext(spec_get(ms, k_round_duration())).unwrap(),
        time_dilation_current: req_numtext(spec_get(ms, k_time_dilation_current())).unwrap(),
        time_dilation_avg: req_numtext(spec_get(ms, k_time_dilation_avg())).unwrap(),
        time_dilation_avg_slow: req_numtext(spec_get(ms, k_time_dilation_avg_slow())).unwrap(),
        time_dilation_avg_fast: req_numtext(spec_get(ms, k_time_dilation_avg_fast())).unwrap(),
        soft_popcap: req_u32(spec_get(ms, k_soft_popcap())).unwrap(),
        hard_popcap: req_u32(spec_get(ms, k_hard_popcap())).unwrap(),
        extreme_popcap: req_u32(spec_get(ms, k_extreme_popcap())).unwrap(),
        popcap: opt_u32(spec_get(ms, k_popcap())).unwrap(),
        bunkered: opt_b01(spec_get(ms, k_bunkered())).unwrap(),
        interviews: opt_b01(spec_get(ms, k_interviews())).unwrap(),
        shuttle_mode: opt_str(spec_get(ms, k_shuttle_mode())).unwrap(),
        shuttle_timer: opt_u32(spec_get(ms, k_shuttle_timer())).unwrap(),
        active_players: opt_u32(spec_get(ms, k_active_players())).unwrap(),
        public_address: opt_str(spec_get(ms, k_public_address())).unwrap(),
    }
}

/// Reads every field of the schema out of the parsed members, in the fixed
/// field order of the record; the first failing field decides the error.
pub open spec fn spec_extract(ms: Seq<MemberView>) -> Result<ServerInfoView, ResponseError> {
    match extract_err(ms) {
        Some(e) => Err(e),
        None => Ok(extract_view(ms)),
    }
}

// ---------------------------------------------------------------------------
// Executable lookup
// ---------------------------------------------------------------------------

fn count_name_c(ms: &Vec<JsonMember>, i: usize, name: &str) -> (c: usize)
    requires
        i <= ms@.len(),
    ensures
        c == count_name_from(view_members(ms@), i as int, name@),
        c <= ms@.len() - i,
    decreases ms@.len() - i,
{
    if i >= ms.len() {
        return 0;
    }
    let hit = chars_eq_str(&ms[i].name, name);
    let rest = count_name_c(ms, i + 1, name);
    if hit {
        rest + 1
    } else {
        rest
    }
}

fn first_idx_c(ms: &Vec<JsonMember>, i: usize, name: &str) -> (r: usize)
    requires
        i <= ms@.len(),
        count_name_from(view_members(ms@), i as int, name@) > 0,
    ensures
        i <= r < ms@.len(),
        first_val_from(view_members(ms@), i as int, name@) == ms@[r as int].value@,
    decreases ms@.len() - i,
{
    let n = ms.len();
    proof {
        if i as int >= view_members(ms@).len() {
            assert(count_name_from(view_members(ms@), i as int, name@) == 0);
            assert(false);
        }
        assert(i < n);
    }
    if chars_eq_str(&ms[i].name, name) {
        i
    } else {
        first_idx_c(ms, i + 1, name)
    }
}

fn all_digits_c(t: &Vec<char>) -> (r: bool)
    ensures
        r == all_digits(t@),
{
    let mut k: usize = 0;
    while k < t.len()
        invariant
            0 <= k <= t@.len(),
            forall|j: int| 0 <= j < k ==> crate::json::is_digit(#[trigger] t@[j]),
        decreases t@.len() - k,
    {
        if !is_digit_c(t[k]) {
            return false;
        }
        k += 1;
    }
    true
}

// ---------------------------------------------------------------------------
// Executable field readers
// ---------------------------------------------------------------------------

fn get_req_str(ms: &Vec<JsonMember>, name: &str) -> (r: Result<String, ResponseError>)
    ensures
        match r {
            Ok(s) => req_str(spec_get(view_members(ms@), name@)) == Ok::<Seq<char>,
                ResponseError,
            >(s@),
            Err(e) => req_str(spec_get(view_members(ms@), name@)) == Err::<Seq<char>,
                ResponseError,
            >(e),
        },
{
    let c = count_name_c(ms, 0, name);
    if c == 0 {
        return Err(ResponseError::MissingField);
    }
    if c >= 2 {
        return Err(ResponseError::DuplicateField);
    }
    let idx = first_idx_c(ms, 0, name);
    match &ms[idx].value {
        JsonScalar::Str(t) => Ok(string_from_chars(t)),
        _ => Err(ResponseError::WrongType),
    }
}

fn get_opt_str(ms: &Vec<JsonMember>, name: &str) -> (r: Result<Option<String>, ResponseError>)
    ensures
        match r {
            Ok(o) => opt_str(spec_get(view_members(ms@), name@)) == Ok::<Option<Seq<char>>,
                ResponseError,
            >(crate::record::view_opt_string(o)),
            Err(e) => opt_str(spec_get(view_members(ms@), name@)) == Err::<Option<Seq<char>>,
                ResponseError,
            >(e),
        },
{
    let c = count_name_c(ms, 0, name);
    if c == 0 {
        return Ok(None);
    }
    if c >= 2 {
        return Err(ResponseError::DuplicateField);
    }
    let idx = first_idx_c(ms, 0, name);
    match &ms[idx].value {
        JsonScalar::Null => Ok(None),
        JsonScalar::Str(t) => Ok(Some(string_from_chars(t))),
        _ => Err(ResponseError::WrongType),
    }
}

fn num_to_u32(t: &Vec<char>) -> (r: Result<u32, ResponseError>)
    ensures
        match r {
            Ok(n) => all_digits(t@) && dec_val(t@) <= u32::MAX && n == dec_val(t@) as u32,
            Err(e) => (e == ResponseError::WrongType && !all_digits(t@)) || (e
                == ResponseError::NumberOutOfRange && all_digits(t@) && dec_val(t@) > u32::MAX),
        },
{
    if !all_digits_c(t) {
        return Err(ResponseError::WrongType);
    }
    match parse_u32_digits(t) {
        Some(n) => Ok(n),
        None => Err(ResponseError::NumberOutOfRange),
    }
}

fn get_req_u32(ms: &Vec<JsonMember>, name: &str) -> (r: Result<u32, ResponseError>)
    ensures
        match r {
            Ok(n) => req_u32(spec_get(view_members(ms@), name@)) == Ok::<u32, ResponseError>(n),
            Err(e) => req_u32(spec_get(view_members(ms@), name@)) == Err::<u32, ResponseError>(e),
        },
{
    let c = count_name_c(ms, 0, name);
    if c == 0 {
        return Err(ResponseError::MissingField);
    }
    if c >= 2 {
        return Err(ResponseError::DuplicateField);
    }
    let idx = first_idx_c(ms, 0, name);
    match &ms[idx].value {
        JsonScalar::Num(t) => num_to_u32(t),
        _ => Err(ResponseError::WrongType),
    }
}

fn get_opt_u32(ms: &Vec<JsonMember>, name: &str) -> (r: Result<Option<u32>, ResponseError>)
    ensures
        match r {
            Ok(o) => opt_u32(spec_get(view_members(ms@), name@)) == Ok::<Option<u32>,
                ResponseError,
            >(o),
            Err(e) => opt_u32(spec_get(view_members(ms@), name@)) == Err::<Option<u32>,
                ResponseError,
            >(e),
        },
{
    let c = count_name_c(ms, 0, name);
    if c == 0 {
        return Ok(None);
    }
    if c >= 2 {
        return Err(ResponseError::DuplicateField);
    }
    let idx = first_idx_c(ms, 0, name);
    match &ms[idx].value {
        JsonScalar::Null => Ok(None),
        JsonScalar::Num(t) => match num_to_u32(t) {
            Ok(n) => Ok(Some(n)),
            Err(e) => Err(e),
        },
        _ => Err(ResponseError::WrongType),
    }
}

fn chars_b01(t: &Vec<char>) -> (r: Result<bool, ResponseError>)
    ensures
        match r {
            Ok(b) => (b == false && t@ == seq!['0']) || (b == true && t@ == seq!['1'] && t@
                != seq!['0']),
            Err(e) => e == ResponseError::InvalidBool && t@ != seq!['0'] && t@ != seq!['1'],
        },
{
    if t.len() == 1 && t[0] == '0' {
        proof {
            assert(t@ =~= seq!['0']);
        }
        Ok(false)
    } else if t.len() == 1 && t[0] == '1' {
        proof {
            assert(t@ =~= seq!['1']);
            assert(t@[0] == '1' && seq!['0'][0] == '0');
            assert(t@ != seq!['0']);
        }
        Ok(true)
    } else {
        proof {
            if t@.len() == 1 {
                assert(t@ != seq!['0'] && t@ != seq!['1']) by {
                    assert(seq!['0'][0] == '0' && seq!['1'][0] == '1');
                }
            }
        }
        Err(ResponseError::InvalidBool)
    }
}

fn get_req_b01(ms: &Vec<JsonMember>, name: &str) -> (r: Result<bool, ResponseError>)
    ensures
        match r {
            Ok(b) => req_b01(spec_get(view_members(ms@), name@)) == Ok::<bool, ResponseError>(b),
            Err(e) => req_b01(spec_get(view_members(ms@), name@)) == Err::<bool, ResponseError>(e),
        },
{
    let c = count_name_c(ms, 0, name);
    if c == 0 {
        return Err(ResponseError::MissingField);
    }
    if c >= 2 {
        return Err(ResponseError::DuplicateField);
    }
    let idx = first_idx_c(ms, 0, name);
    match &ms[idx].value {
        JsonScalar::Num(t) => chars_b01(t),
        _ => Err(ResponseError::WrongType),
    }
}

fn get_opt_b01(ms: &Vec<JsonMember>, name: &str) -> (r: Result<Option<bool>, ResponseError>)
    ensures
        match r {
            Ok(o) => opt_b01(spec_get(view_members(ms@), name@)) == Ok::<Option<bool>,
                ResponseError,
            >(o),
            Err(e) => opt_b01(spec_get(view_members(ms@), name@)) == Err::<Option<bool>,
                ResponseError,
            >(e),
        },
{
    let c = count_name_c(ms, 0, name);
    if c == 0 {
        return Ok(None);
    }
    if c >= 2 {
        return Err(ResponseError::DuplicateField);
    }
    let idx = first_idx_c(ms, 0, name);
    match &ms[idx].value {
        JsonScalar::Null => Ok(None),
        JsonScalar::Num(t) => match chars_b01(t) {
            Ok(b) => Ok(Some(b)),
            Err(e) => Err(e),
        },
        _ => Err(ResponseError::WrongType),
    }
}

fn get_req_numtext(ms: &Vec<JsonMember>, name: &str) -> (r: Result<String, ResponseError>)
    ensures
        match r {
            Ok(s) => req_numtext(spec_get(view_members(ms@), name@)) == Ok::<Seq<char>,
                ResponseError,
            >(s@),
            Err(e) => req_numtext(spec_get(view_members(ms@), name@)) == Err::<Seq<char>,
                ResponseError,
            >(e),
        },
{
    let c = count_name_c(ms, 0, name);
    if c == 0 {
        return Err(ResponseError::MissingField);
    }
    if c >= 2 {
        return Err(ResponseError::DuplicateField);
    }
    let idx = first_idx_c(ms, 0, name);
    match &ms[idx].value {
        JsonScalar::Num(t) => Ok(string_from_chars(t)),
        _ => Err(ResponseError::WrongType),
    }
}

/// Reads every field of the schema out of the parsed members.
#[verifier::rlimit(100)]
pub fn extract_record(ms: &Vec<JsonMember>) -> (r: Result<ServerInfo, ResponseError>)
    ensures
        match r {
            Ok(info) => spec_extract(view_members(ms@)) == Ok::<ServerInfoView, ResponseError>(
                info@,
            ),
            Err(e) => spec_extract(view_members(ms@)) == Err::<ServerInfoView, ResponseError>(e),
        },
{
    let version = match get_req_str(ms, "version") {
        Ok(v) => v,
        Err(e) => {
            return Err(e);
        },
    };
    let respawn = match get_req_b01(ms, "respawn") {
        Ok(v) => v,
        Err(e) => {
            return Err(e);
        },
    };
    let enter = match get_req_b01(ms, "enter") {
        Ok(v) => v,
        Err(e) => {
            return Err(e);
        },
    };
    let ai = match get_req_b01(ms, "ai") {
        Ok(v) => v,
        Err(e) => {
            return Err(e);
        },
    };
    let host = match get_opt_str(ms, "host") {
        Ok(v) => v,
        Err(e) => {
            return Err(e);
        },
    };
    let round_id = match get_opt_str(ms, "round_id") {
        Ok(v) => v,
        Err(e) => {
            return Err(e);
        },
    };
    let players = match get_req_u32(ms, "players") {
        Ok(v) => v,
        Err(e) => {
            return Err(e);
        },
    };
    let revision = match get_req_str(ms, "revision") {
        Ok(v) => v,
        Err(e) => {
            return Err(e);
        },
    };
    let revision_date = match get_req_str(ms, "revision_date") {
        Ok(v) => v,
        Err(e) => {
            return Err(e);
        },
    };
    let hub = match get_req_b01(ms, "hub") {
        Ok(v) => v,
        Err(e) => {
            return Err(e);
        },
    };
    let identifier = match get_req_str(ms, "identifier") {
        Ok(v) => v,
        Err(e) => {
            return Err(e);
        },
    };
    let admins = match get_req_u32(ms, "admins") {
        Ok(v) => v,
        Err(e) => {
            return Err(e);
        },
    };
    let gamestate = match get_req_u32(ms, "gamestate") {
        Ok(v) => v,
        Err(e) => {
            return Err(e);
        },
    };
    let map_name = match get_req_str(ms, "map_name") {
        Ok(v) => v,
        Err(e) => {
            return Err(e);
        },
    };
    let security_level = match get_req_str(ms, "security_level") {
        Ok(v) => v,
        Err(e) => {
            return Err(e);
        },
    };
    let round_duration = match get_req_numtext(ms, "round_duration") {
        Ok(v) => v,
        Err(e) => {
            return Err(e);
        },
    };
    let time_dilation_current = match get_req_numtext(ms, "time_dilation_current") {
        Ok(v) => v,
        Err(e) => {
            return Err(e);
        },
    };
    let time_dilation_avg = match get_req_numtext(ms, "time_dilation_avg") {
        Ok(v) => v,
        Err(e) => {
            return Err(e);
        },
    };
    let time_dilation_avg_slow = match get_req_numtext(ms, "time_dilation_avg_slow") {
        Ok(v) => v,
        Err(e) => {
            return Err(e);
        },
    };
    let time_dilation_avg_fast = match get_req_numtext(ms, "time_dilation_avg_fast") {
        Ok(v) => v,
        Err(e) => {
            return Err(e);
        },
    };
    let soft_popcap = match get_req_u32(ms, "soft_popcap") {
        Ok(v) => v,
        Err(e) => {
            return Err(e);
        },
    };
    let hard_popcap = match get_req_u32(ms, "hard_popcap") {
        Ok(v) => v,
        Err(e) => {
            return Err(e);
        },
    };
    let extreme_popcap = match get_req_u32(ms, "extreme_popcap") {
        Ok(v) => v,
        Err(e) => {
            return Err(e);
        },
    };
    let popcap = match get_opt_u32(ms, "popcap") {
        Ok(v) => v,
        Err(e) => {
            return Err(e);
        },
    };
    let bunkered = match get_opt_b01(ms, "bunkered") {
        Ok(v) => v,
        Err(e) => {
            return Err(e);
        },
    };
    let interviews = match get_opt_b01(ms, "interviews") {
        Ok(v) => v,
        Err(e) => {
            return Err(e);
        },
    };
    let shuttle_mode = match get_opt_str(ms, "shuttle_mode") {
        Ok(v) => v,
        Err(e) => {
            return Err(e);
        },
    };
    let shuttle_timer = match get_opt_u32(ms, "shuttle_timer") {
        Ok(v) => v,
        Err(e) => {
            return Err(e);
        },
    };
    let active_players = match get_opt_u32(ms, "active_players") {
        Ok(v) => v,
        Err(e) => {
            return Err(e);
        },
    };
    let public_address = match get_opt_str(ms, "public_address") {
        Ok(v) => v,
        Err(e) => {
            return Err(e);
        },
    };
    let info = ServerInfo {
        version,
        respawn,
        enter,
        ai,
        host,
        round_id,
        players,
        revision,
        revision_date,
        hub,
        identifier,
        admins,
        gamestate,
        map_name,
        security_level,
        round_duration,
        time_dilation_current,
        time_dilation_avg,
        time_dilation_avg_slow,
        time_dilation_avg_fast,
        soft_popcap,
        hard_popcap,
        extreme_popcap,
        popcap,
        bunkered,
        interviews,
        shuttle_mode,
        shuttle_timer,
        active_players,
        public_address,
    };
    Ok(info)
}

// ---------------------------------------------------------------------------
// The canonical member list of a record
// ---------------------------------------------------------------------------

/// A boolean as it is carried on the wire: the digit one or zero.
pub open spec fn b01_scalar(b: bool) -> ScalarView {
    ScalarView::Num(
        if b {
            seq!['1']
        } else {
            seq!['0']
        },
    )
}

pub open spec fn u32_scalar(n: u32) -> ScalarView {
    ScalarView::Num(dec_of(n as nat))
}

pub open spec fn opt_b01_scalar(o: Option<bool>) -> ScalarView {
    match o {
        Some(b) => b01_scalar(b),
        None => ScalarView::Null,
    }
}

pub open spec fn opt_u32_scalar(o: Option<u32>) -> ScalarView {
    match o {
        Some(n) => u32_scalar(n),
        None => ScalarView::Null,
    }
}

pub open spec fn opt_str_scalar(o: Option<Seq<char>>) -> ScalarView {
    match o {
        Some(t) => ScalarView::Str(t),
        None => ScalarView::Null,
    }
}

/// The members a record is rendered with, one per schema field, in the
/// fixed field order, with null for every absent optional field.
pub open spec fn record_members(r: ServerInfoView) -> Seq<MemberView> {
    seq![
        MemberView { name: k_version(), value: ScalarView::Str(r.version) },
        MemberView { name: k_respawn(), value: b01_scalar(r.respawn) },
        MemberView { name: k_enter(), value: b01_scalar(r.enter) },
        MemberView { name: k_ai(), value: b01_scalar(r.ai) },
        MemberView { name: k_host(), value: opt_str_scalar(r.host) },
        MemberView { name: k_round_id(), value: opt_str_scalar(r.round_id) },
        MemberView { name: k_players(), value: u32_scalar(r.players) },
        MemberView { name: k_revision(), value: ScalarView::Str(r.revision) },
        MemberView { name: k_revision_date(), value: ScalarView::Str(r.revision_date) },
        MemberView { name: k_hub(), value: b01_scalar(r.hub) },
        MemberView { name: k_identifier(), value: ScalarView::Str(r.identifier) },
        MemberView { name: k_admins(), value: u32_scalar(r.admins) },
        MemberView { name: k_gamestate(), value: u32_scalar(r.gamestate) },
        MemberView { name: k_map_name(), value: ScalarView::Str(r.map_name) },
        MemberView { name: k_security_level(), value: ScalarView::Str(r.security_level) },
        MemberView { name: k_round_duration(), value: ScalarView::Num(r.round_duration) },
        MemberView { name: k_time_dilation_current(), value: ScalarView::Num(r.time_dilation_current) },
        MemberView { name: k_time_dilation_avg(), value: ScalarView::Num(r.time_dilation_avg) },
        MemberView { name: k_time_dilation_avg_slow(), value: ScalarView::Num(r.time_dilation_avg_slow) },
        MemberView { name: k_time_dilation_avg_fast(), value: ScalarView::Num(r.time_dilation_avg_fast) },
        MemberView { name: k_soft_popcap(), value: u32_scalar(r.soft_popcap) },
        MemberView { name: k_hard_popcap(), value: u32_scalar(r.hard_popcap) },
        MemberView { name: k_extreme_popcap(), value: u32_scalar(r.extreme_popcap) },
        MemberView { name: k_popcap(), value: opt_u32_scalar(r.popcap) },
        MemberView { name: k_bunkered(), value: opt_b01_scalar(r.bunkered) },
        MemberView { name: k_interviews(), value: opt_b01_scalar(r.interviews) },
        MemberView { name: k_shuttle_mode(), value: opt_str_scalar(r.shuttle_mode) },
        MemberView { name: k_shuttle_timer(), value: opt_u32_scalar(r.shuttle_timer) },
        MemberView { name: k_active_players(), value: opt_u32_scalar(r.active_players) },
        MemberView { name: k_public_address(), value: opt_str_scalar(r.public_address) },
    ]
}

fn b01_c(b: bool) -> (v: JsonScalar)
    ensures
        v@ == b01_scalar(b),
{
    let mut t: Vec<char> = Vec::new();
    if b {
        t.push('1');
        proof {
            assert(t@ =~= seq!['1']);
        }
    } else {
        t.push('0');
        proof {
            assert(t@ =~= seq!['0']);
        }
    }
    JsonScalar::Num(t)
}

fn u32_c(n: u32) -> (v: JsonScalar)
    ensures
        v@ == u32_scalar(n),
{
    let mut t: Vec<char> = Vec::new();
    push_u32_dec(&mut t, n);
    JsonScalar::Num(t)
}

fn opt_b01_c(o: &Option<bool>) -> (v: JsonScalar)
    ensures
        v@ == opt_b01_scalar(*o),
{
    match o {
        Some(b) => b01_c(*b),
        None => JsonScalar::Null,
    }
}

fn opt_u32_c(o: &Option<u32>) -> (v: JsonScalar)
    ensures
        v@ == opt_u32_scalar(*o),
{
    match o {
        Some(n) => u32_c(*n),
        None => JsonScalar::Null,
    }
}

fn str_c(s: &String) -> (v: JsonScalar)
    ensures
        v@ == ScalarView::Str(s@),
{
    JsonScalar::Str(chars_of_str(s.as_str()))
}

fn numtext_c(s: &String) -> (v: JsonScalar)
    ensures
        v@ == ScalarView::Num(s@),
{
    JsonScalar::Num(chars_of_str(s.as_str()))
}

fn opt_str_c(o: &Option<String>) -> (v: JsonScalar)
    ensures
        v@ == opt_str_scalar(crate::record::view_opt_string(*o)),
{
    match o {
        Some(s) => str_c(s),
        None => JsonScalar::Null,
    }
}

/// Builds the canonical member list of a record.
pub fn build_members(info: &ServerInfo) -> (ms: Vec<JsonMember>)
    ensures
        view_members(ms@) == record_members(info@),
{
    let mut ms: Vec<JsonMember> = Vec::new();
    ms.push(JsonMember { name: chars_of_str("version"), value: str_c(&info.version) });
    ms.push(JsonMember { name: chars_of_str("respawn"), value: b01_c(info.respawn) });
    ms.push(JsonMember { name: chars_of_str("enter"), value: b01_c(info.enter) });
    ms.push(JsonMember { name: chars_of_str("ai"), value: b01_c(info.ai) });
    ms.push(JsonMember { name: chars_of_str("host"), value: opt_str_c(&info.host) });
    ms.push(JsonMember { name: chars_of_str("round_id"), value: opt_str_c(&info.round_id) });
    ms.push(JsonMember { name: chars_of_str("players"), value: u32_c(info.players) });
    ms.push(JsonMember { name: chars_of_str("revision"), value: str_c(&info.revision) });
    ms.push(JsonMember { name: chars_of_str("revision_date"), value: str_c(&info.revision_date) });
    ms.push(JsonMember { name: chars_of_str("hub"), value: b01_c(info.hub) });
    ms.push(JsonMember { name: chars_of_str("identifier"), value: str_c(&info.identifier) });
    ms.push(JsonMember { name: chars_of_str("admins"), value: u32_c(info.admins) });
    ms.push(JsonMember { name: chars_of_str("gamestate"), value: u32_c(info.gamestate) });
    ms.push(JsonMember { name: chars_of_str("map_name"), value: str_c(&info.map_name) });
    ms.push(JsonMember { name: chars_of_str("security_level"), value: str_c(&info.security_level) });
    ms.push(JsonMember { name: chars_of_str("round_duration"), value: numtext_c(&info.round_duration) });
    ms.push(JsonMember { name: chars_of_str("time_dilation_current"), value: numtext_c(&info.time_dilation_current) });
    ms.push(JsonMember { name: chars_of_str("time_dilation_avg"), value: numtext_c(&info.time_dilation_avg) });
    ms.push(JsonMember { name: chars_of_str("time_dilation_avg_slow"), value: numtext_c(&info.time_dilation_avg_slow) });
    ms.push(JsonMember { name: chars_of_str("time_dilation_avg_fast"), value: numtext_c(&info.time_dilation_avg_fast) });
    ms.push(JsonMember { name: chars_of_str("soft_popcap"), value: u32_c(info.soft_popcap) });
    ms.push(JsonMember { name: chars_of_str("hard_popcap"), value: u32_c(info.hard_popcap) });
    ms.push(JsonMember { name: chars_of_str("extreme_popcap"), value: u32_c(info.extreme_popcap) });
    ms.push(JsonMember { name: chars_of_str("popcap"), value: opt_u32_c(&info.popcap) });
    ms.push(JsonMember { name: chars_of_str("bunkered"), value: opt_b01_c(&info.bunkered) });
    ms.push(JsonMember { name: chars_of_str("interviews"), value: opt_b01_c(&info.interviews) });
    ms.push(JsonMember { name: chars_of_str("shuttle_mode"), value: opt_str_c(&info.shuttle_mode) });
    ms.push(JsonMember { name: chars_of_str("shuttle_timer"), value: opt_u32_c(&info.shuttle_timer) });
    ms.push(JsonMember { name: chars_of_str("active_players"), value: opt_u32_c(&info.active_players) });
    ms.push(JsonMember { name: chars_of_str("public_address"), value: opt_str_c(&info.public_address) });
    proof {
        assert(view_members(ms@) =~= record_members(info@));
    }
    ms
}

} // verus!
