//! Field-lookup laws of the record schema: each field name finds exactly
//! its own member in the canonical member list, the list is well-formed,
//! and reading it back through the schema reproduces the record.  One
//! lookup lemma per schema field carries the pairwise evidence that its
//! name differs from every other field name.

use vstd::prelude::*;

use crate::json::{MemberView, ScalarView};
use crate::record::ServerInfoView;
use crate::schema::{
    b01_scalar, count_name_from, extract_err, extract_view, first_val_from, opt_b01_scalar,
    opt_str_scalar, opt_u32_scalar, record_members, spec_extract, spec_get, u32_scalar, FieldGet,
    k_version, k_respawn, k_enter, k_ai, k_host, k_round_id, k_players, k_revision, k_revision_date, k_hub, k_identifier, k_admins, k_gamestate, k_map_name, k_security_level, k_round_duration, k_time_dilation_current, k_time_dilation_avg, k_time_dilation_avg_slow, k_time_dilation_avg_fast, k_soft_popcap, k_hard_popcap, k_extreme_popcap, k_popcap, k_bunkered, k_interviews, k_shuttle_mode, k_shuttle_timer, k_active_players, k_public_address,
};

verus! {

#[verifier::rlimit(100)]
proof fn lemma_get_version(r: ServerInfoView)
    ensures
        spec_get(record_members(r), k_version()) == FieldGet::One(ScalarView::Str(r.version)),
{
    let ms = record_members(r);
    reveal_strlit("version");
    reveal_strlit("respawn");
    reveal_strlit("enter");
    reveal_strlit("ai");
    reveal_strlit("host");
    reveal_strlit("round_id");
    reveal_strlit("players");
    reveal_strlit("revision");
    reveal_strlit("revision_date");
    reveal_strlit("hub");
    reveal_strlit("identifier");
    reveal_strlit("admins");
    reveal_strlit("gamestate");
    reveal_strlit("map_name");
    reveal_strlit("security_level");
    reveal_strlit("round_duration");
    reveal_strlit("time_dilation_current");
    reveal_strlit("time_dilation_avg");
    reveal_strlit("time_dilation_avg_slow");
    reveal_strlit("time_dilation_avg_fast");
    reveal_strlit("soft_popcap");
    reveal_strlit("hard_popcap");
    reveal_strlit("extreme_popcap");
    reveal_strlit("popcap");
    reveal_strlit("bunkered");
    reveal_strlit("interviews");
    reveal_strlit("shuttle_mode");
    reveal_strlit("shuttle_timer");
    reveal_strlit("active_players");
    reveal_strlit("public_address");
    assert(k_respawn()[0] != k_version()[0]);
    assert(k_respawn() != k_version());
    assert(k_enter().len() != k_version().len());
    assert(k_enter() != k_version());
    assert(k_ai().len() != k_version().len());
    assert(k_ai() != k_version());
    assert(k_host().len() != k_version().len());
    assert(k_host() != k_version());
    assert(k_round_id().len() != k_version().len());
    assert(k_round_id() != k_version());
    assert(k_players()[0] != k_version()[0]);
    assert(k_players() != k_version());
    assert(k_revision().len() != k_version().len());
    assert(k_revision() != k_version());
    assert(k_revision_date().len() != k_version().len());
    assert(k_revision_date() != k_version());
    assert(k_hub().len() != k_version().len());
    assert(k_hub() != k_version());
    assert(k_identifier().len() != k_version().len());
    assert(k_identifier() != k_version());
    assert(k_admins().len() != k_version().len());
    assert(k_admins() != k_version());
    assert(k_gamestate().len() != k_version().len());
    assert(k_gamestate() != k_version());
    assert(k_map_name().len() != k_version().len());
    assert(k_map_name() != k_version());
    assert(k_security_level().len() != k_version().len());
    assert(k_security_level() != k_version());
    assert(k_round_duration().len() != k_version().len());
    assert(k_round_duration() != k_version());
    assert(k_time_dilation_current().len() != k_version().len());
    assert(k_time_dilation_current() != k_version());
    assert(k_time_dilation_avg().len() != k_version().len());
    assert(k_time_dilation_avg() != k_version());
    assert(k_time_dilation_avg_slow().len() != k_version().len());
    assert(k_time_dilation_avg_slow() != k_version());
    assert(k_time_dilation_avg_fast().len() != k_version().len());
    assert(k_time_dilation_avg_fast() != k_version());
    assert(k_soft_popcap().len() != k_version().len());
    assert(k_soft_popcap() != k_version());
    assert(k_hard_popcap().len() != k_version().len());
    assert(k_hard_popcap() != k_version());
    assert(k_extreme_popcap().len() != k_version().len());
    assert(k_extreme_popcap() != k_version());
    assert(k_popcap().len() != k_version().len());
    assert(k_popcap() != k_version());
    assert(k_bunkered().len() != k_version().len());
    assert(k_bunkered() != k_version());
    assert(k_interviews().len() != k_version().len());
    assert(k_interviews() != k_version());
    assert(k_shuttle_mode().len() != k_version().len());
    assert(k_shuttle_mode() != k_version());
    assert(k_shuttle_timer().len() != k_version().len());
    assert(k_shuttle_timer() != k_version());
    assert(k_active_players().len() != k_version().len());
    assert(k_active_players() != k_version());
    assert(k_public_address().len() != k_version().len());
    assert(k_public_address() != k_version());
    assert(count_name_from(ms, 0, k_version()) == 1) by {
        reveal_with_fuel(count_name_from, 32);
    }
    assert(first_val_from(ms, 0, k_version()) == ScalarView::Str(r.version)) by {
        reveal_with_fuel(first_val_from, 32);
    }
}

#[verifier::rlimit(100)]
proof fn lemma_get_respawn(r: ServerInfoView)
    ensures
        spec_get(record_members(r), k_respawn()) == FieldGet::One(b01_scalar(r.respawn)),
{
    let ms = record_members(r);
    reveal_strlit("version");
    reveal_strlit("respawn");
    reveal_strlit("enter");
    reveal_strlit("ai");
    reveal_strlit("host");
    reveal_strlit("round_id");
    reveal_strlit("players");
    reveal_strlit("revision");
    reveal_strlit("revision_date");
    reveal_strlit("hub");
    reveal_strlit("identifier");
    reveal_strlit("admins");
    reveal_strlit("gamestate");
    reveal_strlit("map_name");
    reveal_strlit("security_level");
    reveal_strlit("round_duration");
    reveal_strlit("time_dilation_current");
    reveal_strlit("time_dilation_avg");
    reveal_strlit("time_dilation_avg_slow");
    reveal_strlit("time_dilation_avg_fast");
    reveal_strlit("soft_popcap");
    reveal_strlit("hard_popcap");
    reveal_strlit("extreme_popcap");
    reveal_strlit("popcap");
    reveal_strlit("bunkered");
    reveal_strlit("interviews");
    reveal_strlit("shuttle_mode");
    reveal_strlit("shuttle_timer");
    reveal_strlit("active_players");
    reveal_strlit("public_address");
    assert(k_version()[0] != k_respawn()[0]);
    assert(k_version() != k_respawn());
    assert(k_enter().len() != k_respawn().len());
    assert(k_enter() != k_respawn());
    assert(k_ai().len() != k_respawn().len());
    assert(k_ai() != k_respawn());
    assert(k_host().len() != k_respawn().len());
    assert(k_host() != k_respawn());
    assert(k_round_id().len() != k_respawn().len());
    assert(k_round_id() != k_respawn());
    assert(k_players()[0] != k_respawn()[0]);
    assert(k_players() != k_respawn());
    assert(k_revision().len() != k_respawn().len());
    assert(k_revision() != k_respawn());
    assert(k_revision_date().len() != k_respawn().len());
    assert(k_revision_date() != k_respawn());
    assert(k_hub().len() != k_respawn().len());
    assert(k_hub() != k_respawn());
    assert(k_identifier().len() != k_respawn().len());
    assert(k_identifier() != k_respawn());
    assert(k_admins().len() != k_respawn().len());
    assert(k_admins() != k_respawn());
    assert(k_gamestate().len() != k_respawn().len());
    assert(k_gamestate() != k_respawn());
    assert(k_map_name().len() != k_respawn().len());
    assert(k_map_name() != k_respawn());
    assert(k_security_level().len() != k_respawn().len());
    assert(k_security_level() != k_respawn());
    assert(k_round_duration().len() != k_respawn().len());
    assert(k_round_duration() != k_respawn());
    assert(k_time_dilation_current().len() != k_respawn().len());
    assert(k_time_dilation_current() != k_respawn());
    assert(k_time_dilation_avg().len() != k_respawn().len());
    assert(k_time_dilation_avg() != k_respawn());
    assert(k_time_dilation_avg_slow().len() != k_respawn().len());
    assert(k_time_dilation_avg_slow() != k_respawn());
    assert(k_time_dilation_avg_fast().len() != k_respawn().len());
    assert(k_time_dilation_avg_fast() != k_respawn());
    assert(k_soft_popcap().len() != k_respawn().len());
    assert(k_soft_popcap() != k_respawn());
    assert(k_hard_popcap().len() != k_respawn().len());
    assert(k_hard_popcap() != k_respawn());
    assert(k_extreme_popcap().len() != k_respawn().len());
    assert(k_extreme_popcap() != k_respawn());
    assert(k_popcap().len() != k_respawn().len());
    assert(k_popcap() != k_respawn());
    assert(k_bunkered().len() != k_respawn().len());
    assert(k_bunkered() != k_respawn());
    assert(k_interviews().len() != k_respawn().len());
    assert(k_interviews() != k_respawn());
    assert(k_shuttle_mode().len() != k_respawn().len());
    assert(k_shuttle_mode() != k_respawn());
    assert(k_shuttle_timer().len() != k_respawn().len());
    assert(k_shuttle_timer() != k_respawn());
    assert(k_active_players().len() != k_respawn().len());
    assert(k_active_players() != k_respawn());
    assert(k_public_address().len() != k_respawn().len());
    assert(k_public_address() != k_respawn());
    assert(count_name_from(ms, 0, k_respawn()) == 1) by {
        reveal_with_fuel(count_name_from, 32);
    }
    assert(first_val_from(ms, 0, k_respawn()) == b01_scalar(r.respawn)) by {
        reveal_with_fuel(first_val_from, 32);
    }
}

#[verifier::rlimit(100)]
proof fn lemma_get_enter(r: ServerInfoView)
    ensures
        spec_get(record_members(r), k_enter()) == FieldGet::One(b01_scalar(r.enter)),
{
    let ms = record_members(r);
    reveal_strlit("version");
    reveal_strlit("respawn");
    reveal_strlit("enter");
    reveal_strlit("ai");
    reveal_strlit("host");
    reveal_strlit("round_id");
    reveal_strlit("players");
    reveal_strlit("revision");
    reveal_strlit("revision_date");
    reveal_strlit("hub");
    reveal_strlit("identifier");
    reveal_strlit("admins");
    reveal_strlit("gamestate");
    reveal_strlit("map_name");
    reveal_strlit("security_level");
    reveal_strlit("round_duration");
    reveal_strlit("time_dilation_current");
    reveal_strlit("time_dilation_avg");
    reveal_strlit("time_dilation_avg_slow");
    reveal_strlit("time_dilation_avg_fast");
    reveal_strlit("soft_popcap");
    reveal_strlit("hard_popcap");
    reveal_strlit("extreme_popcap");
    reveal_strlit("popcap");
    reveal_strlit("bunkered");
    reveal_strlit("interviews");
    reveal_strlit("shuttle_mode");
    reveal_strlit("shuttle_timer");
    reveal_strlit("active_players");
    reveal_strlit("public_address");
    assert(k_version().len() != k_enter().len());
    assert(k_version() != k_enter());
    assert(k_respawn().len() != k_enter().len());
    assert(k_respawn() != k_enter());
    assert(k_ai().len() != k_enter().len());
    assert(k_ai() != k_enter());
    assert(k_host().len() != k_enter().len());
    assert(k_host() != k_enter());
    assert(k_round_id().len() != k_enter().len());
    assert(k_round_id() != k_enter());
    assert(k_players().len() != k_enter().len());
    assert(k_players() != k_enter());
    assert(k_revision().len() != k_enter().len());
    assert(k_revision() != k_enter());
    assert(k_revision_date().len() != k_enter().len());
    assert(k_revision_date() != k_enter());
    assert(k_hub().len() != k_enter().len());
    assert(k_hub() != k_enter());
    assert(k_identifier().len() != k_enter().len());
    assert(k_identifier() != k_enter());
    assert(k_admins().len() != k_enter().len());
    assert(k_admins() != k_enter());
    assert(k_gamestate().len() != k_enter().len());
    assert(k_gamestate() != k_enter());
    assert(k_map_name().len() != k_enter().len());
    assert(k_map_name() != k_enter());
    assert(k_security_level().len() != k_enter().len());
    assert(k_security_level() != k_enter());
    assert(k_round_duration().len() != k_enter().len());
    assert(k_round_duration() != k_enter());
    assert(k_time_dilation_current().len() != k_enter().len());
    assert(k_time_dilation_current() != k_enter());
    assert(k_time_dilation_avg().len() != k_enter().len());
    assert(k_time_dilation_avg() != k_enter());
    assert(k_time_dilation_avg_slow().len() != k_enter().len());
    assert(k_time_dilation_avg_slow() != k_enter());
    assert(k_time_dilation_avg_fast().len() != k_enter().len());
    assert(k_time_dilation_avg_fast() != k_enter());
    assert(k_soft_popcap().len() != k_enter().len());
    assert(k_soft_popcap() != k_enter());
    assert(k_hard_popcap().len() != k_enter().len());
    assert(k_hard_popcap() != k_enter());
    assert(k_extreme_popcap().len() != k_enter().len());
    assert(k_extreme_popcap() != k_enter());
    assert(k_popcap().len() != k_enter().len());
    assert(k_popcap() != k_enter());
    assert(k_bunkered().len() != k_enter().len());
    assert(k_bunkered() != k_enter());
    assert(k_interviews().len() != k_enter().len());
    assert(k_interviews() != k_enter());
    assert(k_shuttle_mode().len() != k_enter().len());
    assert(k_shuttle_mode() != k_enter());
    assert(k_shuttle_timer().len() != k_enter().len());
    assert(k_shuttle_timer() != k_enter());
    assert(k_active_players().len() != k_enter().len());
    assert(k_active_players() != k_enter());
    assert(k_public_address().len() != k_enter().len());
    assert(k_public_address() != k_enter());
    assert(count_name_from(ms, 0, k_enter()) == 1) by {
        reveal_with_fuel(count_name_from, 32);
    }
    assert(first_val_from(ms, 0, k_enter()) == b01_scalar(r.enter)) by {
        reveal_with_fuel(first_val_from, 32);
    }
}

#[verifier::rlimit(100)]
proof fn lemma_get_ai(r: ServerInfoView)
    ensures
        spec_get(record_members(r), k_ai()) == FieldGet::One(b01_scalar(r.ai)),
{
    let ms = record_members(r);
    reveal_strlit("version");
    reveal_strlit("respawn");
    reveal_strlit("enter");
    reveal_strlit("ai");
    reveal_strlit("host");
    reveal_strlit("round_id");
    reveal_strlit("players");
    reveal_strlit("revision");
    reveal_strlit("revision_date");
    reveal_strlit("hub");
    reveal_strlit("identifier");
    reveal_strlit("admins");
    reveal_strlit("gamestate");
    reveal_strlit("map_name");
    reveal_strlit("security_level");
    reveal_strlit("round_duration");
    reveal_strlit("time_dilation_current");
    reveal_strlit("time_dilation_avg");
    reveal_strlit("time_dilation_avg_slow");
    reveal_strlit("time_dilation_avg_fast");
    reveal_strlit("soft_popcap");
    reveal_strlit("hard_popcap");
    reveal_strlit("extreme_popcap");
    reveal_strlit("popcap");
    reveal_strlit("bunkered");
    reveal_strlit("interviews");
    reveal_strlit("shuttle_mode");
    reveal_strlit("shuttle_timer");
    reveal_strlit("active_players");
    reveal_strlit("public_address");
    assert(k_version().len() != k_ai().len());
    assert(k_version() != k_ai());
    assert(k_respawn().len() != k_ai().len());
    assert(k_respawn() != k_ai());
    assert(k_enter().len() != k_ai().len());
    assert(k_enter() != k_ai());
    assert(k_host().len() != k_ai().len());
    assert(k_host() != k_ai());
    assert(k_round_id().len() != k_ai().len());
    assert(k_round_id() != k_ai());
    assert(k_players().len() != k_ai().len());
    assert(k_players() != k_ai());
    assert(k_revision().len() != k_ai().len());
    assert(k_revision() != k_ai());
    assert(k_revision_date().len() != k_ai().len());
    assert(k_revision_date() != k_ai());
    assert(k_hub().len() != k_ai().len());
    assert(k_hub() != k_ai());
    assert(k_identifier().len() != k_ai().len());
    assert(k_identifier() != k_ai());
    assert(k_admins().len() != k_ai().len());
    assert(k_admins() != k_ai());
    assert(k_gamestate().len() != k_ai().len());
    assert(k_gamestate() != k_ai());
    assert(k_map_name().len() != k_ai().len());
    assert(k_map_name() != k_ai());
    assert(k_security_level().len() != k_ai().len());
    assert(k_security_level() != k_ai());
    assert(k_round_duration().len() != k_ai().len());
    assert(k_round_duration() != k_ai());
    assert(k_time_dilation_current().len() != k_ai().len());
    assert(k_time_dilation_current() != k_ai());
    assert(k_time_dilation_avg().len() != k_ai().len());
    assert(k_time_dilation_avg() != k_ai());
    assert(k_time_dilation_avg_slow().len() != k_ai().len());
    assert(k_time_dilation_avg_slow() != k_ai());
    assert(k_time_dilation_avg_fast().len() != k_ai().len());
    assert(k_time_dilation_avg_fast() != k_ai());
    assert(k_soft_popcap().len() != k_ai().len());
    assert(k_soft_popcap() != k_ai());
    assert(k_hard_popcap().len() != k_ai().len());
    assert(k_hard_popcap() != k_ai());
    assert(k_extreme_popcap().len() != k_ai().len());
    assert(k_extreme_popcap() != k_ai());
    assert(k_popcap().len() != k_ai().len());
    assert(k_popcap() != k_ai());
    assert(k_bunkered().len() != k_ai().len());
    assert(k_bunkered() != k_ai());
    assert(k_interviews().len() != k_ai().len());
    assert(k_interviews() != k_ai());
    assert(k_shuttle_mode().len() != k_ai().len());
    assert(k_shuttle_mode() != k_ai());
    assert(k_shuttle_timer().len() != k_ai().len());
    assert(k_shuttle_timer() != k_ai());
    assert(k_active_players().len() != k_ai().len());
    assert(k_active_players() != k_ai());
    assert(k_public_address().len() != k_ai().len());
    assert(k_public_address() != k_ai());
    assert(count_name_from(ms, 0, k_ai()) == 1) by {
        reveal_with_fuel(count_name_from, 32);
    }
    assert(first_val_from(ms, 0, k_ai()) == b01_scalar(r.ai)) by {
        reveal_with_fuel(first_val_from, 32);
    }
}

#[verifier::rlimit(100)]
proof fn lemma_get_host(r: ServerInfoView)
    ensures
        spec_get(record_members(r), k_host()) == FieldGet::One(opt_str_scalar(r.host)),
{
    let ms = record_members(r);
    reveal_strlit("version");
    reveal_strlit("respawn");
    reveal_strlit("enter");
    reveal_strlit("ai");
    reveal_strlit("host");
    reveal_strlit("round_id");
    reveal_strlit("players");
    reveal_strlit("revision");
    reveal_strlit("revision_date");
    reveal_strlit("hub");
    reveal_strlit("identifier");
    reveal_strlit("admins");
    reveal_strlit("gamestate");
    reveal_strlit("map_name");
    reveal_strlit("security_level");
    reveal_strlit("round_duration");
    reveal_strlit("time_dilation_current");
    reveal_strlit("time_dilation_avg");
    reveal_strlit("time_dilation_avg_slow");
    reveal_strlit("time_dilation_avg_fast");
    reveal_strlit("soft_popcap");
    reveal_strlit("hard_popcap");
    reveal_strlit("extreme_popcap");
    reveal_strlit("popcap");
    reveal_strlit("bunkered");
    reveal_strlit("interviews");
    reveal_strlit("shuttle_mode");
    reveal_strlit("shuttle_timer");
    reveal_strlit("active_players");
    reveal_strlit("public_address");
    assert(k_version().len() != k_host().len());
    assert(k_version() != k_host());
    assert(k_respawn().len() != k_host().len());
    assert(k_respawn() != k_host());
    assert(k_enter().len() != k_host().len());
    assert(k_enter() != k_host());
    assert(k_ai().len() != k_host().len());
    assert(k_ai() != k_host());
    assert(k_round_id().len() != k_host().len());
    assert(k_round_id() != k_host());
    assert(k_players().len() != k_host().len());
    assert(k_players() != k_host());
    assert(k_revision().len() != k_host().len());
    assert(k_revision() != k_host());
    assert(k_revision_date().len() != k_host().len());
    assert(k_revision_date() != k_host());
    assert(k_hub().len() != k_host().len());
    assert(k_hub() != k_host());
    assert(k_identifier().len() != k_host().len());
    assert(k_identifier() != k_host());
    assert(k_admins().len() != k_host().len());
    assert(k_admins() != k_host());
    assert(k_gamestate().len() != k_host().len());
    assert(k_gamestate() != k_host());
    assert(k_map_name().len() != k_host().len());
    assert(k_map_name() != k_host());
    assert(k_security_level().len() != k_host().len());
    assert(k_security_level() != k_host());
    assert(k_round_duration().len() != k_host().len());
    assert(k_round_duration() != k_host());
    assert(k_time_dilation_current().len() != k_host().len());
    assert(k_time_dilation_current() != k_host());
    assert(k_time_dilation_avg().len() != k_host().len());
    assert(k_time_dilation_avg() != k_host());
    assert(k_time_dilation_avg_slow().len() != k_host().len());
    assert(k_time_dilation_avg_slow() != k_host());
    assert(k_time_dilation_avg_fast().len() != k_host().len());
    assert(k_time_dilation_avg_fast() != k_host());
    assert(k_soft_popcap().len() != k_host().len());
    assert(k_soft_popcap() != k_host());
    assert(k_hard_popcap().len() != k_host().len());
    assert(k_hard_popcap() != k_host());
    assert(k_extreme_popcap().len() != k_host().len());
    assert(k_extreme_popcap() != k_host());
    assert(k_popcap().len() != k_host().len());
    assert(k_popcap() != k_host());
    assert(k_bunkered().len() != k_host().len());
    assert(k_bunkered() != k_host());
    assert(k_interviews().len() != k_host().len());
    assert(k_interviews() != k_host());
    assert(k_shuttle_mode().len() != k_host().len());
    assert(k_shuttle_mode() != k_host());
    assert(k_shuttle_timer().len() != k_host().len());
    assert(k_shuttle_timer() != k_host());
    assert(k_active_players().len() != k_host().len());
    assert(k_active_players() != k_host());
    assert(k_public_address().len() != k_host().len());
    assert(k_public_address() != k_host());
    assert(count_name_from(ms, 0, k_host()) == 1) by {
        reveal_with_fuel(count_name_from, 32);
    }
    assert(first_val_from(ms, 0, k_host()) == opt_str_scalar(r.host)) by {
        reveal_with_fuel(first_val_from, 32);
    }
}

#[verifier::rlimit(100)]
proof fn lemma_get_round_id(r: ServerInfoView)
    ensures
        spec_get(record_members(r), k_round_id()) == FieldGet::One(opt_str_scalar(r.round_id)),
{
    let ms = record_members(r);
    reveal_strlit("version");
    reveal_strlit("respawn");
    reveal_strlit("enter");
    reveal_strlit("ai");
    reveal_strlit("host");
    reveal_strlit("round_id");
    reveal_strlit("players");
    reveal_strlit("revision");
    reveal_strlit("revision_date");
    reveal_strlit("hub");
    reveal_strlit("identifier");
    reveal_strlit("admins");
    reveal_strlit("gamestate");
    reveal_strlit("map_name");
    reveal_strlit("security_level");
    reveal_strlit("round_duration");
    reveal_strlit("time_dilation_current");
    reveal_strlit("time_dilation_avg");
    reveal_strlit("time_dilation_avg_slow");
    reveal_strlit("time_dilation_avg_fast");
    reveal_strlit("soft_popcap");
    reveal_strlit("hard_popcap");
    reveal_strlit("extreme_popcap");
    reveal_strlit("popcap");
    reveal_strlit("bunkered");
    reveal_strlit("interviews");
    reveal_strlit("shuttle_mode");
    reveal_strlit("shuttle_timer");
    reveal_strlit("active_players");
    reveal_strlit("public_address");
    assert(k_version().len() != k_round_id().len());
    assert(k_version() != k_round_id());
    assert(k_respawn().len() != k_round_id().len());
    assert(k_respawn() != k_round_id());
    assert(k_enter().len() != k_round_id().len());
    assert(k_enter() != k_round_id());
    assert(k_ai().len() != k_round_id().len());
    assert(k_ai() != k_round_id());
    assert(k_host().len() != k_round_id().len());
    assert(k_host() != k_round_id());
    assert(k_players().len() != k_round_id().len());
    assert(k_players() != k_round_id());
    assert(k_revision()[1] != k_round_id()[1]);
    assert(k_revision() != k_round_id());
    assert(k_revision_date().len() != k_round_id().len());
    assert(k_revision_date() != k_round_id());
    assert(k_hub().len() != k_round_id().len());
    assert(k_hub() != k_round_id());
    assert(k_identifier().len() != k_round_id().len());
    assert(k_identifier() != k_round_id());
    assert(k_admins().len() != k_round_id().len());
    assert(k_admins() != k_round_id());
    assert(k_gamestate().len() != k_round_id().len());
    assert(k_gamestate() != k_round_id());
    assert(k_map_name()[0] != k_round_id()[0]);
    assert(k_map_name() != k_round_id());
    assert(k_security_level().len() != k_round_id().len());
    assert(k_security_level() != k_round_id());
    assert(k_round_duration().len() != k_round_id().len());
    assert(k_round_duration() != k_round_id());
    assert(k_time_dilation_current().len() != k_round_id().len());
    assert(k_time_dilation_current() != k_round_id());
    assert(k_time_dilation_avg().len() != k_round_id().len());
    assert(k_time_dilation_avg() != k_round_id());
    assert(k_time_dilation_avg_slow().len() != k_round_id().len());
    assert(k_time_dilation_avg_slow() != k_round_id());
    assert(k_time_dilation_avg_fast().len() != k_round_id().len());
    assert(k_time_dilation_avg_fast() != k_round_id());
    assert(k_soft_popcap().len() != k_round_id().len());
    assert(k_soft_popcap() != k_round_id());
    assert(k_hard_popcap().len() != k_round_id().len());
    assert(k_hard_popcap() != k_round_id());
    assert(k_extreme_popcap().len() != k_round_id().len());
    assert(k_extreme_popcap() != k_round_id());
    assert(k_popcap().len() != k_round_id().len());
    assert(k_popcap() != k_round_id());
    assert(k_bunkered()[0] != k_round_id()[0]);
    assert(k_bunkered() != k_round_id());
    assert(k_interviews().len() != k_round_id().len());
    assert(k_interviews() != k_round_id());
    assert(k_shuttle_mode().len() != k_round_id().len());
    assert(k_shuttle_mode() != k_round_id());
    assert(k_shuttle_timer().len() != k_round_id().len());
    assert(k_shuttle_timer() != k_round_id());
    assert(k_active_players().len() != k_round_id().len());
    assert(k_active_players() != k_round_id());
    assert(k_public_address().len() != k_round_id().len());
    assert(k_public_address() != k_round_id());
    assert(count_name_from(ms, 0, k_round_id()) == 1) by {
        reveal_with_fuel(count_name_from, 32);
    }
    assert(first_val_from(ms, 0, k_round_id()) == opt_str_scalar(r.round_id)) by {
        reveal_with_fuel(first_val_from, 32);
    }
}

#[verifier::rlimit(100)]
proof fn lemma_get_players(r: ServerInfoView)
    ensures
        spec_get(record_members(r), k_players()) == FieldGet::One(u32_scalar(r.players)),
{
    let ms = record_members(r);
    reveal_strlit("version");
    reveal_strlit("respawn");
    reveal_strlit("enter");
    reveal_strlit("ai");
    reveal_strlit("host");
    reveal_strlit("round_id");
    reveal_strlit("players");
    reveal_strlit("revision");
    reveal_strlit("revision_date");
    reveal_strlit("hub");
    reveal_strlit("identifier");
    reveal_strlit("admins");
    reveal_strlit("gamestate");
    reveal_strlit("map_name");
    reveal_strlit("security_level");
    reveal_strlit("round_duration");
    reveal_strlit("time_dilation_current");
    reveal_strlit("time_dilation_avg");
    reveal_strlit("time_dilation_avg_slow");
    reveal_strlit("time_dilation_avg_fast");
    reveal_strlit("soft_popcap");
    reveal_strlit("hard_popcap");
    reveal_strlit("extreme_popcap");
    reveal_strlit("popcap");
    reveal_strlit("bunkered");
    reveal_strlit("interviews");
    reveal_strlit("shuttle_mode");
    reveal_strlit("shuttle_timer");
    reveal_strlit("active_players");
    reveal_strlit("public_address");
    assert(k_version()[0] != k_players()[0]);
    assert(k_version() != k_players());
    assert(k_respawn()[0] != k_players()[0]);
    assert(k_respawn() != k_players());
    assert(k_enter().len() != k_players().len());
    assert(k_enter() != k_players());
    assert(k_ai().len() != k_players().len());
    assert(k_ai() != k_players());
    assert(k_host().len() != k_players().len());
    assert(k_host() != k_players());
    assert(k_round_id().len() != k_players().len());
    assert(k_round_id() != k_players());
    assert(k_revision().len() != k_players().len());
    assert(k_revision() != k_players());
    assert(k_revision_date().len() != k_players().len());
    assert(k_revision_date() != k_players());
    assert(k_hub().len() != k_players().len());
    assert(k_hub() != k_players());
    assert(k_identifier().len() != k_players().len());
    assert(k_identifier() != k_players());
    assert(k_admins().len() != k_players().len());
    assert(k_admins() != k_players());
    assert(k_gamestate().len() != k_players().len());
    assert(k_gamestate() != k_players());
    assert(k_map_name().len() != k_players().len());
    assert(k_map_name() != k_players());
    assert(k_security_level().len() != k_players().len());
    assert(k_security_level() != k_players());
    assert(k_round_duration().len() != k_players().len());
    assert(k_round_duration() != k_players());
    assert(k_time_dilation_current().len() != k_players().len());
    assert(k_time_dilation_current() != k_players());
    assert(k_time_dilation_avg().len() != k_players().len());
    assert(k_time_dilation_avg() != k_players());
    assert(k_time_dilation_avg_slow().len() != k_players().len());
    assert(k_time_dilation_avg_slow() != k_players());
    assert(k_time_dilation_avg_fast().len() != k_players().len());
    assert(k_time_dilation_avg_fast() != k_players());
    assert(k_soft_popcap().len() != k_players().len());
    assert(k_soft_popcap() != k_players());
    assert(k_hard_popcap().len() != k_players().len());
    assert(k_hard_popcap() != k_players());
    assert(k_extreme_popcap().len() != k_players().len());
    assert(k_extreme_popcap() != k_players());
    assert(k_popcap().len() != k_players().len());
    assert(k_popcap() != k_players());
    assert(k_bunkered().len() != k_players().len());
    assert(k_bunkered() != k_players());
    assert(k_interviews().len() != k_players().len());
    assert(k_interviews() != k_players());
    assert(k_shuttle_mode().len() != k_players().len());
    assert(k_shuttle_mode() != k_players());
    assert(k_shuttle_timer().len() != k_players().len());
    assert(k_shuttle_timer() != k_players());
    assert(k_active_players().len() != k_players().len());
    assert(k_active_players() != k_players());
    assert(k_public_address().len() != k_players().len());
    assert(k_public_address() != k_players());
    assert(count_name_from(ms, 0, k_players()) == 1) by {
        reveal_with_fuel(count_name_from, 32);
    }
    assert(first_val_from(ms, 0, k_players()) == u32_scalar(r.players)) by {
        reveal_with_fuel(first_val_from, 32);
    }
}

#[verifier::rlimit(100)]
proof fn lemma_get_revision(r: ServerInfoView)
    ensures
        spec_get(record_members(r), k_revision()) == FieldGet::One(ScalarView::Str(r.revision)),
{
    let ms = record_members(r);
    reveal_strlit("version");
    reveal_strlit("respawn");
    reveal_strlit("enter");
    reveal_strlit("ai");
    reveal_strlit("host");
    reveal_strlit("round_id");
    reveal_strlit("players");
    reveal_strlit("revision");
    reveal_strlit("revision_date");
    reveal_strlit("hub");
    reveal_strlit("identifier");
    reveal_strlit("admins");
    reveal_strlit("gamestate");
    reveal_strlit("map_name");
    reveal_strlit("security_level");
    reveal_strlit("round_duration");
    reveal_strlit("time_dilation_current");
    reveal_strlit("time_dilation_avg");
    reveal_strlit("time_dilation_avg_slow");
    reveal_strlit("time_dilation_avg_fast");
    reveal_strlit("soft_popcap");
    reveal_strlit("hard_popcap");
    reveal_strlit("extreme_popcap");
    reveal_strlit("popcap");
    reveal_strlit("bunkered");
    reveal_strlit("interviews");
    reveal_strlit("shuttle_mode");
    reveal_strlit("shuttle_timer");
    reveal_strlit("active_players");
    reveal_strlit("public_address");
    assert(k_version().len() != k_revision().len());
    assert(k_version() != k_revision());
    assert(k_respawn().len() != k_revision().len());
    assert(k_respawn() != k_revision());
    assert(k_enter().len() != k_revision().len());
    assert(k_enter() != k_revision());
    assert(k_ai().len() != k_revision().len());
    assert(k_ai() != k_revision());
    assert(k_host().len() != k_revision().len());
    assert(k_host() != k_revision());
    assert(k_round_id()[1] != k_revision()[1]);
    assert(k_round_id() != k_revision());
    assert(k_players().len() != k_revision().len());
    assert(k_players() != k_revision());
    assert(k_revision_date().len() != k_revision().len());
    assert(k_revision_date() != k_revision());
    assert(k_hub().len() != k_revision().len());
    assert(k_hub() != k_revision());
    assert(k_identifier().len() != k_revision().len());
    assert(k_identifier() != k_revision());
    assert(k_admins().len() != k_revision().len());
    assert(k_admins() != k_revision());
    assert(k_gamestate().len() != k_revision().len());
    assert(k_gamestate() != k_revision());
    assert(k_map_name()[0] != k_revision()[0]);
    assert(k_map_name() != k_revision());
    assert(k_security_level().len() != k_revision().len());
    assert(k_security_level() != k_revision());
    assert(k_round_duration().len() != k_revision().len());
    assert(k_round_duration() != k_revision());
    assert(k_time_dilation_current().len() != k_revision().len());
    assert(k_time_dilation_current() != k_revision());
    assert(k_time_dilation_avg().len() != k_revision().len());
    assert(k_time_dilation_avg() != k_revision());
    assert(k_time_dilation_avg_slow().len() != k_revision().len());
    assert(k_time_dilation_avg_slow() != k_revision());
    assert(k_time_dilation_avg_fast().len() != k_revision().len());
    assert(k_time_dilation_avg_fast() != k_revision());
    assert(k_soft_popcap().len() != k_revision().len());
    assert(k_soft_popcap() != k_revision());
    assert(k_hard_popcap().len() != k_revision().len());
    assert(k_hard_popcap() != k_revision());
    assert(k_extreme_popcap().len() != k_revision().len());
    assert(k_extreme_popcap() != k_revision());
    assert(k_popcap().len() != k_revision().len());
    assert(k_popcap() != k_revision());
    assert(k_bunkered()[0] != k_revision()[0]);
    assert(k_bunkered() != k_revision());
    assert(k_interviews().len() != k_revision().len());
    assert(k_interviews() != k_revision());
    assert(k_shuttle_mode().len() != k_revision().len());
    assert(k_shuttle_mode() != k_revision());
    assert(k_shuttle_timer().len() != k_revision().len());
    assert(k_shuttle_timer() != k_revision());
    assert(k_active_players().len() != k_revision().len());
    assert(k_active_players() != k_revision());
    assert(k_public_address().len() != k_revision().len());
    assert(k_public_address() != k_revision());
    assert(count_name_from(ms, 0, k_revision()) == 1) by {
        reveal_with_fuel(count_name_from, 32);
    }
    assert(first_val_from(ms, 0, k_revision()) == ScalarView::Str(r.revision)) by {
        reveal_with_fuel(first_val_from, 32);
    }
}

#[verifier::rlimit(100)]
proof fn lemma_get_revision_date(r: ServerInfoView)
    ensures
        spec_get(record_members(r), k_revision_date()) == FieldGet::One(ScalarView::Str(r.revision_date)),
{
    let ms = record_members(r);
    reveal_strlit("version");
    reveal_strlit("respawn");
    reveal_strlit("enter");
    reveal_strlit("ai");
    reveal_strlit("host");
    reveal_strlit("round_id");
    reveal_strlit("players");
    reveal_strlit("revision");
    reveal_strlit("revision_date");
    reveal_strlit("hub");
    reveal_strlit("identifier");
    reveal_strlit("admins");
    reveal_strlit("gamestate");
    reveal_strlit("map_name");
    reveal_strlit("security_level");
    reveal_strlit("round_duration");
    reveal_strlit("time_dilation_current");
    reveal_strlit("time_dilation_avg");
    reveal_strlit("time_dilation_avg_slow");
    reveal_strlit("time_dilation_avg_fast");
    reveal_strlit("soft_popcap");
    reveal_strlit("hard_popcap");
    reveal_strlit("extreme_popcap");
    reveal_strlit("popcap");
    reveal_strlit("bunkered");
    reveal_strlit("interviews");
    reveal_strlit("shuttle_mode");
    reveal_strlit("shuttle_timer");
    reveal_strlit("active_players");
    reveal_strlit("public_address");
    assert(k_version().len() != k_revision_date().len());
    assert(k_version() != k_revision_date());
    assert(k_respawn().len() != k_revision_date().len());
    assert(k_respawn() != k_revision_date());
    assert(k_enter().len() != k_revision_date().len());
    assert(k_enter() != k_revision_date());
    assert(k_ai().len() != k_revision_date().len());
    assert(k_ai() != k_revision_date());
    assert(k_host().len() != k_revision_date().len());
    assert(k_host() != k_revision_date());
    assert(k_round_id().len() != k_revision_date().len());
    assert(k_round_id() != k_revision_date());
    assert(k_players().len() != k_revision_date().len());
    assert(k_players() != k_revision_date());
    assert(k_revision().len() != k_revision_date().len());
    assert(k_revision() != k_revision_date());
    assert(k_hub().len() != k_revision_date().len());
    assert(k_hub() != k_revision_date());
    assert(k_identifier().len() != k_revision_date().len());
    assert(k_identifier() != k_revision_date());
    assert(k_admins().len() != k_revision_date().len());
    assert(k_admins() != k_revision_date());
    assert(k_gamestate().len() != k_revision_date().len());
    assert(k_gamestate() != k_revision_date());
    assert(k_map_name().len() != k_revision_date().len());
    assert(k_map_name() != k_revision_date());
    assert(k_security_level().len() != k_revision_date().len());
    assert(k_security_level() != k_revision_date());
    assert(k_round_duration().len() != k_revision_date().len());
    assert(k_round_duration() != k_revision_date());
    assert(k_time_dilation_current().len() != k_revision_date().len());
    assert(k_time_dilation_current() != k_revision_date());
    assert(k_time_dilation_avg().len() != k_revision_date().len());
    assert(k_time_dilation_avg() != k_revision_date());
    assert(k_time_dilation_avg_slow().len() != k_revision_date().len());
    assert(k_time_dilation_avg_slow() != k_revision_date());
    assert(k_time_dilation_avg_fast().len() != k_revision_date().len());
    assert(k_time_dilation_avg_fast() != k_revision_date());
    assert(k_soft_popcap().len() != k_revision_date().len());
    assert(k_soft_popcap() != k_revision_date());
    assert(k_hard_popcap().len() != k_revision_date().len());
    assert(k_hard_popcap() != k_revision_date());
    assert(k_extreme_popcap().len() != k_revision_date().len());
    assert(k_extreme_popcap() != k_revision_date());
    assert(k_popcap().len() != k_revision_date().len());
    assert(k_popcap() != k_revision_date());
    assert(k_bunkered().len() != k_revision_date().len());
    assert(k_bunkered() != k_revision_date());
    assert(k_interviews().len() != k_revision_date().len());
    assert(k_interviews() != k_revision_date());
    assert(k_shuttle_mode().len() != k_revision_date().len());
    assert(k_shuttle_mode() != k_revision_date());
    assert(k_shuttle_timer()[0] != k_revision_date()[0]);
    assert(k_shuttle_timer() != k_revision_date());
    assert(k_active_players().len() != k_revision_date().len());
    assert(k_active_players() != k_revision_date());
    assert(k_public_address().len() != k_revision_date().len());
    assert(k_public_address() != k_revision_date());
    assert(count_name_from(ms, 0, k_revision_date()) == 1) by {
        reveal_with_fuel(count_name_from, 32);
    }
    assert(first_val_from(ms, 0, k_revision_date()) == ScalarView::Str(r.revision_date)) by {
        reveal_with_fuel(first_val_from, 32);
    }
}

#[verifier::rlimit(100)]
proof fn lemma_get_hub(r: ServerInfoView)
    ensures
        spec_get(record_members(r), k_hub()) == FieldGet::One(b01_scalar(r.hub)),
{
    let ms = record_members(r);
    reveal_strlit("version");
    reveal_strlit("respawn");
    reveal_strlit("enter");
    reveal_strlit("ai");
    reveal_strlit("host");
    reveal_strlit("round_id");
    reveal_strlit("players");
    reveal_strlit("revision");
    reveal_strlit("revision_date");
    reveal_strlit("hub");
    reveal_strlit("identifier");
    reveal_strlit("admins");
    reveal_strlit("gamestate");
    reveal_strlit("map_name");
    reveal_strlit("security_level");
    reveal_strlit("round_duration");
    reveal_strlit("time_dilation_current");
    reveal_strlit("time_dilation_avg");
    reveal_strlit("time_dilation_avg_slow");
    reveal_strlit("time_dilation_avg_fast");
    reveal_strlit("soft_popcap");
    reveal_strlit("hard_popcap");
    reveal_strlit("extreme_popcap");
    reveal_strlit("popcap");
    reveal_strlit("bunkered");
    reveal_strlit("interviews");
    reveal_strlit("shuttle_mode");
    reveal_strlit("shuttle_timer");
    reveal_strlit("active_players");
    reveal_strlit("public_address");
    assert(k_version().len() != k_hub().len());
    assert(k_version() != k_hub());
    assert(k_respawn().len() != k_hub().len());
    assert(k_respawn() != k_hub());
    assert(k_enter().len() != k_hub().len());
    assert(k_enter() != k_hub());
    assert(k_ai().len() != k_hub().len());
    assert(k_ai() != k_hub());
    assert(k_host().len() != k_hub().len());
    assert(k_host() != k_hub());
    assert(k_round_id().len() != k_hub().len());
    assert(k_round_id() != k_hub());
    assert(k_players().len() != k_hub().len());
    assert(k_players() != k_hub());
    assert(k_revision().len() != k_hub().len());
    assert(k_revision() != k_hub());
    assert(k_revision_date().len() != k_hub().len());
    assert(k_revision_date() != k_hub());
    assert(k_identifier().len() != k_hub().len());
    assert(k_identifier() != k_hub());
    assert(k_admins().len() != k_hub().len());
    assert(k_admins() != k_hub());
    assert(k_gamestate().len() != k_hub().len());
    assert(k_gamestate() != k_hub());
    assert(k_map_name().len() != k_hub().len());
    assert(k_map_name() != k_hub());
    assert(k_security_level().len() != k_hub().len());
    assert(k_security_level() != k_hub());
    assert(k_round_duration().len() != k_hub().len());
    assert(k_round_duration() != k_hub());
    assert(k_time_dilation_current().len() != k_hub().len());
    assert(k_time_dilation_current() != k_hub());
    assert(k_time_dilation_avg().len() != k_hub().len());
    assert(k_time_dilation_avg() != k_hub());
    assert(k_time_dilation_avg_slow().len() != k_hub().len());
    assert(k_time_dilation_avg_slow() != k_hub());
    assert(k_time_dilation_avg_fast().len() != k_hub().len());
    assert(k_time_dilation_avg_fast() != k_hub());
    assert(k_soft_popcap().len() != k_hub().len());
    assert(k_soft_popcap() != k_hub());
    assert(k_hard_popcap().len() != k_hub().len());
    assert(k_hard_popcap() != k_hub());
    assert(k_extreme_popcap().len() != k_hub().len());
    assert(k_extreme_popcap() != k_hub());
    assert(k_popcap().len() != k_hub().len());
    assert(k_popcap() != k_hub());
    assert(k_bunkered().len() != k_hub().len());
    assert(k_bunkered() != k_hub());
    assert(k_interviews().len() != k_hub().len());
    assert(k_interviews() != k_hub());
    assert(k_shuttle_mode().len() != k_hub().len());
    assert(k_shuttle_mode() != k_hub());
    assert(k_shuttle_timer().len() != k_hub().len());
    assert(k_shuttle_timer() != k_hub());
    assert(k_active_players().len() != k_hub().len());
    assert(k_active_players() != k_hub());
    assert(k_public_address().len() != k_hub().len());
    assert(k_public_address() != k_hub());
    assert(count_name_from(ms, 0, k_hub()) == 1) by {
        reveal_with_fuel(count_name_from, 32);
    }
    assert(first_val_from(ms, 0, k_hub()) == b01_scalar(r.hub)) by {
        reveal_with_fuel(first_val_from, 32);
    }
}

#[verifier::rlimit(100)]
proof fn lemma_get_identifier(r: ServerInfoView)
    ensures
        spec_get(record_members(r), k_identifier()) == FieldGet::One(ScalarView::Str(r.identifier)),
{
    let ms = record_members(r);
    reveal_strlit("version");
    reveal_strlit("respawn");
    reveal_strlit("enter");
    reveal_strlit("ai");
    reveal_strlit("host");
    reveal_strlit("round_id");
    reveal_strlit("players");
    reveal_strlit("revision");
    reveal_strlit("revision_date");
    reveal_strlit("hub");
    reveal_strlit("identifier");
    reveal_strlit("admins");
    reveal_strlit("gamestate");
    reveal_strlit("map_name");
    reveal_strlit("security_level");
    reveal_strlit("round_duration");
    reveal_strlit("time_dilation_current");
    reveal_strlit("time_dilation_avg");
    reveal_strlit("time_dilation_avg_slow");
    reveal_strlit("time_dilation_avg_fast");
    reveal_strlit("soft_popcap");
    reveal_strlit("hard_popcap");
    reveal_strlit("extreme_popcap");
    reveal_strlit("popcap");
    reveal_strlit("bunkered");
    reveal_strlit("interviews");
    reveal_strlit("shuttle_mode");
    reveal_strlit("shuttle_timer");
    reveal_strlit("active_players");
    reveal_strlit("public_address");
    assert(k_version().len() != k_identifier().len());
    assert(k_version() != k_identifier());
    assert(k_respawn().len() != k_identifier().len());
    assert(k_respawn() != k_identifier());
    assert(k_enter().len() != k_identifier().len());
    assert(k_enter() != k_identifier());
    assert(k_ai().len() != k_identifier().len());
    assert(k_ai() != k_identifier());
    assert(k_host().len() != k_identifier().len());
    assert(k_host() != k_identifier());
    assert(k_round_id().len() != k_identifier().len());
    assert(k_round_id() != k_identifier());
    assert(k_players().len() != k_identifier().len());
    assert(k_players() != k_identifier());
    assert(k_revision().len() != k_identifier().len());
    assert(k_revision() != k_identifier());
    assert(k_revision_date().len() != k_identifier().len());
    assert(k_revision_date() != k_identifier());
    assert(k_hub().len() != k_identifier().len());
    assert(k_hub() != k_identifier());
    assert(k_admins().len() != k_identifier().len());
    assert(k_admins() != k_identifier());
    assert(k_gamestate().len() != k_identifier().len());
    assert(k_gamestate() != k_identifier());
    assert(k_map_name().len() != k_identifier().len());
    assert(k_map_name() != k_identifier());
    assert(k_security_level().len() != k_identifier().len());
    assert(k_security_level() != k_identifier());
    assert(k_round_duration().len() != k_identifier().len());
    assert(k_round_duration() != k_identifier());
    assert(k_time_dilation_current().len() != k_identifier().len());
    assert(k_time_dilation_current() != k_identifier());
    assert(k_time_dilation_avg().len() != k_identifier().len());
    assert(k_time_dilation_avg() != k_identifier());
    assert(k_time_dilation_avg_slow().len() != k_identifier().len());
    assert(k_time_dilation_avg_slow() != k_identifier());
    assert(k_time_dilation_avg_fast().len() != k_identifier().len());
    assert(k_time_dilation_avg_fast() != k_identifier());
    assert(k_soft_popcap().len() != k_identifier().len());
    assert(k_soft_popcap() != k_identifier());
    assert(k_hard_popcap().len() != k_identifier().len());
    assert(k_hard_popcap() != k_identifier());
    assert(k_extreme_popcap().len() != k_identifier().len());
    assert(k_extreme_popcap() != k_identifier());
    assert(k_popcap().len() != k_identifier().len());
    assert(k_popcap() != k_identifier());
    assert(k_bunkered().len() != k_identifier().len());
    assert(k_bunkered() != k_identifier());
    assert(k_interviews()[1] != k_identifier()[1]);
    assert(k_interviews() != k_identifier());
    assert(k_shuttle_mode().len() != k_identifier().len());
    assert(k_shuttle_mode() != k_identifier());
    assert(k_shuttle_timer().len() != k_identifier().len());
    assert(k_shuttle_timer() != k_identifier());
    assert(k_active_players().len() != k_identifier().len());
    assert(k_active_players() != k_identifier());
    assert(k_public_address().len() != k_identifier().len());
    assert(k_public_address() != k_identifier());
    assert(count_name_from(ms, 0, k_identifier()) == 1) by {
        reveal_with_fuel(count_name_from, 32);
    }
    assert(first_val_from(ms, 0, k_identifier()) == ScalarView::Str(r.identifier)) by {
        reveal_with_fuel(first_val_from, 32);
    }
}

#[verifier::rlimit(100)]
proof fn lemma_get_admins(r: ServerInfoView)
    ensures
        spec_get(record_members(r), k_admins()) == FieldGet::One(u32_scalar(r.admins)),
{
    let ms = record_members(r);
    reveal_strlit("version");
    reveal_strlit("respawn");
    reveal_strlit("enter");
    reveal_strlit("ai");
    reveal_strlit("host");
    reveal_strlit("round_id");
    reveal_strlit("players");
    reveal_strlit("revision");
    reveal_strlit("revision_date");
    reveal_strlit("hub");
    reveal_strlit("identifier");
    reveal_strlit("admins");
    reveal_strlit("gamestate");
    reveal_strlit("map_name");
    reveal_strlit("security_level");
    reveal_strlit("round_duration");
    reveal_strlit("time_dilation_current");
    reveal_strlit("time_dilation_avg");
    reveal_strlit("time_dilation_avg_slow");
    reveal_strlit("time_dilation_avg_fast");
    reveal_strlit("soft_popcap");
    reveal_strlit("hard_popcap");
    reveal_strlit("extreme_popcap");
    reveal_strlit("popcap");
    reveal_strlit("bunkered");
    reveal_strlit("interviews");
    reveal_strlit("shuttle_mode");
    reveal_strlit("shuttle_timer");
    reveal_strlit("active_players");
    reveal_strlit("public_address");
    assert(k_version().len() != k_admins().len());
    assert(k_version() != k_admins());
    assert(k_respawn().len() != k_admins().len());
    assert(k_respawn() != k_admins());
    assert(k_enter().len() != k_admins().len());
    assert(k_enter() != k_admins());
    assert(k_ai().len() != k_admins().len());
    assert(k_ai() != k_admins());
    assert(k_host().len() != k_admins().len());
    assert(k_host() != k_admins());
    assert(k_round_id().len() != k_admins().len());
    assert(k_round_id() != k_admins());
    assert(k_players().len() != k_admins().len());
    assert(k_players() != k_admins());
    assert(k_revision().len() != k_admins().len());
    assert(k_revision() != k_admins());
    assert(k_revision_date().len() != k_admins().len());
    assert(k_revision_date() != k_admins());
    assert(k_hub().len() != k_admins().len());
    assert(k_hub() != k_admins());
    assert(k_identifier().len() != k_admins().len());
    assert(k_identifier() != k_admins());
    assert(k_gamestate().len() != k_admins().len());
    assert(k_gamestate() != k_admins());
    assert(k_map_name().len() != k_admins().len());
    assert(k_map_name() != k_admins());
    assert(k_security_level().len() != k_admins().len());
    assert(k_security_level() != k_admins());
    assert(k_round_duration().len() != k_admins().len());
    assert(k_round_duration() != k_admins());
    assert(k_time_dilation_current().len() != k_admins().len());
    assert(k_time_dilation_current() != k_admins());
    assert(k_time_dilation_avg().len() != k_admins().len());
    assert(k_time_dilation_avg() != k_admins());
    assert(k_time_dilation_avg_slow().len() != k_admins().len());
    assert(k_time_dilation_avg_slow() != k_admins());
    assert(k_time_dilation_avg_fast().len() != k_admins().len());
    assert(k_time_dilation_avg_fast() != k_admins());
    assert(k_soft_popcap().len() != k_admins().len());
    assert(k_soft_popcap() != k_admins());
    assert(k_hard_popcap().len() != k_admins().len());
    assert(k_hard_popcap() != k_admins());
    assert(k_extreme_popcap().len() != k_admins().len());
    assert(k_extreme_popcap() != k_admins());
    assert(k_popcap()[0] != k_admins()[0]);
    assert(k_popcap() != k_admins());
    assert(k_bunkered().len() != k_admins().len());
    assert(k_bunkered() != k_admins());
    assert(k_interviews().len() != k_admins().len());
    assert(k_interviews() != k_admins());
    assert(k_shuttle_mode().len() != k_admins().len());
    assert(k_shuttle_mode() != k_admins());
    assert(k_shuttle_timer().len() != k_admins().len());
    assert(k_shuttle_timer() != k_admins());
    assert(k_active_players().len() != k_admins().len());
    assert(k_active_players() != k_admins());
    assert(k_public_address().len() != k_admins().len());
    assert(k_public_address() != k_admins());
    assert(count_name_from(ms, 0, k_admins()) == 1) by {
        reveal_with_fuel(count_name_from, 32);
    }
    assert(first_val_from(ms, 0, k_admins()) == u32_scalar(r.admins)) by {
        reveal_with_fuel(first_val_from, 32);
    }
}

#[verifier::rlimit(100)]
proof fn lemma_get_gamestate(r: ServerInfoView)
    ensures
        spec_get(record_members(r), k_gamestate()) == FieldGet::One(u32_scalar(r.gamestate)),
{
    let ms = record_members(r);
    reveal_strlit("version");
    reveal_strlit("respawn");
    reveal_strlit("enter");
    reveal_strlit("ai");
    reveal_strlit("host");
    reveal_strlit("round_id");
    reveal_strlit("players");
    reveal_strlit("revision");
    reveal_strlit("revision_date");
    reveal_strlit("hub");
    reveal_strlit("identifier");
    reveal_strlit("admins");
    reveal_strlit("gamestate");
    reveal_strlit("map_name");
    reveal_strlit("security_level");
    reveal_strlit("round_duration");
    reveal_strlit("time_dilation_current");
    reveal_strlit("time_dilation_avg");
    reveal_strlit("time_dilation_avg_slow");
    reveal_strlit("time_dilation_avg_fast");
    reveal_strlit("soft_popcap");
    reveal_strlit("hard_popcap");
    reveal_strlit("extreme_popcap");
    reveal_strlit("popcap");
    reveal_strlit("bunkered");
    reveal_strlit("interviews");
    reveal_strlit("shuttle_mode");
    reveal_strlit("shuttle_timer");
    reveal_strlit("active_players");
    reveal_strlit("public_address");
    assert(k_version().len() != k_gamestate().len());
    assert(k_version() != k_gamestate());
    assert(k_respawn().len() != k_gamestate().len());
    assert(k_respawn() != k_gamestate());
    assert(k_enter().len() != k_gamestate().len());
    assert(k_enter() != k_gamestate());
    assert(k_ai().len() != k_gamestate().len());
    assert(k_ai() != k_gamestate());
    assert(k_host().len() != k_gamestate().len());
    assert(k_host() != k_gamestate());
    assert(k_round_id().len() != k_gamestate().len());
    assert(k_round_id() != k_gamestate());
    assert(k_players().len() != k_gamestate().len());
    assert(k_players() != k_gamestate());
    assert(k_revision().len() != k_gamestate().len());
    assert(k_revision() != k_gamestate());
    assert(k_revision_date().len() != k_gamestate().len());
    assert(k_revision_date() != k_gamestate());
    assert(k_hub().len() != k_gamestate().len());
    assert(k_hub() != k_gamestate());
    assert(k_identifier().len() != k_gamestate().len());
    assert(k_identifier() != k_gamestate());
    assert(k_admins().len() != k_gamestate().len());
    assert(k_admins() != k_gamestate());
    assert(k_map_name().len() != k_gamestate().len());
    assert(k_map_name() != k_gamestate());
    assert(k_security_level().len() != k_gamestate().len());
    assert(k_security_level() != k_gamestate());
    assert(k_round_duration().len() != k_gamestate().len());
    assert(k_round_duration() != k_gamestate());
    assert(k_time_dilation_current().len() != k_gamestate().len());
    assert(k_time_dilation_current() != k_gamestate());
    assert(k_time_dilation_avg().len() != k_gamestate().len());
    assert(k_time_dilation_avg() != k_gamestate());
    assert(k_time_dilation_avg_slow().len() != k_gamestate().len());
    assert(k_time_dilation_avg_slow() != k_gamestate());
    assert(k_time_dilation_avg_fast().len() != k_gamestate().len());
    assert(k_time_dilation_avg_fast() != k_gamestate());
    assert(k_soft_popcap().len() != k_gamestate().len());
    assert(k_soft_popcap() != k_gamestate());
    assert(k_hard_popcap().len() != k_gamestate().len());
    assert(k_hard_popcap() != k_gamestate());
    assert(k_extreme_popcap().len() != k_gamestate().len());
    assert(k_extreme_popcap() != k_gamestate());
    assert(k_popcap().len() != k_gamestate().len());
    assert(k_popcap() != k_gamestate());
    assert(k_bunkered().len() != k_gamestate().len());
    assert(k_bunkered() != k_gamestate());
    assert(k_interviews().len() != k_gamestate().len());
    assert(k_interviews() != k_gamestate());
    assert(k_shuttle_mode().len() != k_gamestate().len());
    assert(k_shuttle_mode() != k_gamestate());
    assert(k_shuttle_timer().len() != k_gamestate().len());
    assert(k_shuttle_timer() != k_gamestate());
    assert(k_active_players().len() != k_gamestate().len());
    assert(k_active_players() != k_gamestate());
    assert(k_public_address().len() != k_gamestate().len());
    assert(k_public_address() != k_gamestate());
    assert(count_name_from(ms, 0, k_gamestate()) == 1) by {
        reveal_with_fuel(count_name_from, 32);
    }
    assert(first_val_from(ms, 0, k_gamestate()) == u32_scalar(r.gamestate)) by {
        reveal_with_fuel(first_val_from, 32);
    }
}

#[verifier::rlimit(100)]
proof fn lemma_get_map_name(r: ServerInfoView)
    ensures
        spec_get(record_members(r), k_map_name()) == FieldGet::One(ScalarView::Str(r.map_name)),
{
    let ms = record_members(r);
    reveal_strlit("version");
    reveal_strlit("respawn");
    reveal_strlit("enter");
    reveal_strlit("ai");
    reveal_strlit("host");
    reveal_strlit("round_id");
    reveal_strlit("players");
    reveal_strlit("revision");
    reveal_strlit("revision_date");
    reveal_strlit("hub");
    reveal_strlit("identifier");
    reveal_strlit("admins");
    reveal_strlit("gamestate");
    reveal_strlit("map_name");
    reveal_strlit("security_level");
    reveal_strlit("round_duration");
    reveal_strlit("time_dilation_current");
    reveal_strlit("time_dilation_avg");
    reveal_strlit("time_dilation_avg_slow");
    reveal_strlit("time_dilation_avg_fast");
    reveal_strlit("soft_popcap");
    reveal_strlit("hard_popcap");
    reveal_strlit("extreme_popcap");
    reveal_strlit("popcap");
    reveal_strlit("bunkered");
    reveal_strlit("interviews");
    reveal_strlit("shuttle_mode");
    reveal_strlit("shuttle_timer");
    reveal_strlit("active_players");
    reveal_strlit("public_address");
    assert(k_version().len() != k_map_name().len());
    assert(k_version() != k_map_name());
    assert(k_respawn().len() != k_map_name().len());
    assert(k_respawn() != k_map_name());
    assert(k_enter().len() != k_map_name().len());
    assert(k_enter() != k_map_name());
    assert(k_ai().len() != k_map_name().len());
    assert(k_ai() != k_map_name());
    assert(k_host().len() != k_map_name().len());
    assert(k_host() != k_map_name());
    assert(k_round_id()[0] != k_map_name()[0]);
    assert(k_round_id() != k_map_name());
    assert(k_players().len() != k_map_name().len());
    assert(k_players() != k_map_name());
    assert(k_revision()[0] != k_map_name()[0]);
    assert(k_revision() != k_map_name());
    assert(k_revision_date().len() != k_map_name().len());
    assert(k_revision_date() != k_map_name());
    assert(k_hub().len() != k_map_name().len());
    assert(k_hub() != k_map_name());
    assert(k_identifier().len() != k_map_name().len());
    assert(k_identifier() != k_map_name());
    assert(k_admins().len() != k_map_name().len());
    assert(k_admins() != k_map_name());
    assert(k_gamestate().len() != k_map_name().len());
    assert(k_gamestate() != k_map_name());
    assert(k_security_level().len() != k_map_name().len());
    assert(k_security_level() != k_map_name());
    assert(k_round_duration().len() != k_map_name().len());
    assert(k_round_duration() != k_map_name());
    assert(k_time_dilation_current().len() != k_map_name().len());
    assert(k_time_dilation_current() != k_map_name());
    assert(k_time_dilation_avg().len() != k_map_name().len());
    assert(k_time_dilation_avg() != k_map_name());
    assert(k_time_dilation_avg_slow().len() != k_map_name().len());
    assert(k_time_dilation_avg_slow() != k_map_name());
    assert(k_time_dilation_avg_fast().len() != k_map_name().len());
    assert(k_time_dilation_avg_fast() != k_map_name());
    assert(k_soft_popcap().len() != k_map_name().len());
    assert(k_soft_popcap() != k_map_name());
    assert(k_hard_popcap().len() != k_map_name().len());
    assert(k_hard_popcap() != k_map_name());
    assert(k_extreme_popcap().len() != k_map_name().len());
    assert(k_extreme_popcap() != k_map_name());
    assert(k_popcap().len() != k_map_name().len());
    assert(k_popcap() != k_map_name());
    assert(k_bunkered()[0] != k_map_name()[0]);
    assert(k_bunkered() != k_map_name());
    assert(k_interviews().len() != k_map_name().len());
    assert(k_interviews() != k_map_name());
    assert(k_shuttle_mode().len() != k_map_name().len());
    assert(k_shuttle_mode() != k_map_name());
    assert(k_shuttle_timer().len() != k_map_name().len());
    assert(k_shuttle_timer() != k_map_name());
    assert(k_active_players().len() != k_map_name().len());
    assert(k_active_players() != k_map_name());
    assert(k_public_address().len() != k_map_name().len());
    assert(k_public_address() != k_map_name());
    assert(count_name_from(ms, 0, k_map_name()) == 1) by {
        reveal_with_fuel(count_name_from, 32);
    }
    assert(first_val_from(ms, 0, k_map_name()) == ScalarView::Str(r.map_name)) by {
        reveal_with_fuel(first_val_from, 32);
    }
}

#[verifier::rlimit(100)]
proof fn lemma_get_security_level(r: ServerInfoView)
    ensures
        spec_get(record_members(r), k_security_level()) == FieldGet::One(ScalarView::Str(r.security_level)),
{
    let ms = record_members(r);
    reveal_strlit("version");
    reveal_strlit("respawn");
    reveal_strlit("enter");
    reveal_strlit("ai");
    reveal_strlit("host");
    reveal_strlit("round_id");
    reveal_strlit("players");
    reveal_strlit("revision");
    reveal_strlit("revision_date");
    reveal_strlit("hub");
    reveal_strlit("identifier");
    reveal_strlit("admins");
    reveal_strlit("gamestate");
    reveal_strlit("map_name");
    reveal_strlit("security_level");
    reveal_strlit("round_duration");
    reveal_strlit("time_dilation_current");
    reveal_strlit("time_dilation_avg");
    reveal_strlit("time_dilation_avg_slow");
    reveal_strlit("time_dilation_avg_fast");
    reveal_strlit("soft_popcap");
    reveal_strlit("hard_popcap");
    reveal_strlit("extreme_popcap");
    reveal_strlit("popcap");
    reveal_strlit("bunkered");
    reveal_strlit("interviews");
    reveal_strlit("shuttle_mode");
    reveal_strlit("shuttle_timer");
    reveal_strlit("active_players");
    reveal_strlit("public_address");
    assert(k_version().len() != k_security_level().len());
    assert(k_version() != k_security_level());
    assert(k_respawn().len() != k_security_level().len());
    assert(k_respawn() != k_security_level());
    assert(k_enter().len() != k_security_level().len());
    assert(k_enter() != k_security_level());
    assert(k_ai().len() != k_security_level().len());
    assert(k_ai() != k_security_level());
    assert(k_host().len() != k_security_level().len());
    assert(k_host() != k_security_level());
    assert(k_round_id().len() != k_security_level().len());
    assert(k_round_id() != k_security_level());
    assert(k_players().len() != k_security_level().len());
    assert(k_players() != k_security_level());
    assert(k_revision().len() != k_security_level().len());
    assert(k_revision() != k_security_level());
    assert(k_revision_date().len() != k_security_level().len());
    assert(k_revision_date() != k_security_level());
    assert(k_hub().len() != k_security_level().len());
    assert(k_hub() != k_security_level());
    assert(k_identifier().len() != k_security_level().len());
    assert(k_identifier() != k_security_level());
    assert(k_admins().len() != k_security_level().len());
    assert(k_admins() != k_security_level());
    assert(k_gamestate().len() != k_security_level().len());
    assert(k_gamestate() != k_security_level());
    assert(k_map_name().len() != k_security_level().len());
    assert(k_map_name() != k_security_level());
    assert(k_round_duration()[0] != k_security_level()[0]);
    assert(k_round_duration() != k_security_level());
    assert(k_time_dilation_current().len() != k_security_level().len());
    assert(k_time_dilation_current() != k_security_level());
    assert(k_time_dilation_avg().len() != k_security_level().len());
    assert(k_time_dilation_avg() != k_security_level());
    assert(k_time_dilation_avg_slow().len() != k_security_level().len());
    assert(k_time_dilation_avg_slow() != k_security_level());
    assert(k_time_dilation_avg_fast().len() != k_security_level().len());
    assert(k_time_dilation_avg_fast() != k_security_level());
    assert(k_soft_popcap().len() != k_security_level().len());
    assert(k_soft_popcap() != k_security_level());
    assert(k_hard_popcap().len() != k_security_level().len());
    assert(k_hard_popcap() != k_security_level());
    assert(k_extreme_popcap()[0] != k_security_level()[0]);
    assert(k_extreme_popcap() != k_security_level());
    assert(k_popcap().len() != k_security_level().len());
    assert(k_popcap() != k_security_level());
    assert(k_bunkered().len() != k_security_level().len());
    assert(k_bunkered() != k_security_level());
    assert(k_interviews().len() != k_security_level().len());
    assert(k_interviews() != k_security_level());
    assert(k_shuttle_mode().len() != k_security_level().len());
    assert(k_shuttle_mode() != k_security_level());
    assert(k_shuttle_timer().len() != k_security_level().len());
    assert(k_shuttle_timer() != k_security_level());
    assert(k_active_players()[0] != k_security_level()[0]);
    assert(k_active_players() != k_security_level());
    assert(k_public_address()[0] != k_security_level()[0]);
    assert(k_public_address() != k_security_level());
    assert(count_name_from(ms, 0, k_security_level()) == 1) by {
        reveal_with_fuel(count_name_from, 32);
    }
    assert(first_val_from(ms, 0, k_security_level()) == ScalarView::Str(r.security_level)) by {
        reveal_with_fuel(first_val_from, 32);
    }
}

#[verifier::rlimit(100)]
proof fn lemma_get_round_duration(r: ServerInfoView)
    ensures
        spec_get(record_members(r), k_round_duration()) == FieldGet::One(ScalarView::Num(r.round_duration)),
{
    let ms = record_members(r);
    reveal_strlit("version");
    reveal_strlit("respawn");
    reveal_strlit("enter");
    reveal_strlit("ai");
    reveal_strlit("host");
    reveal_strlit("round_id");
    reveal_strlit("players");
    reveal_strlit("revision");
    reveal_strlit("revision_date");
    reveal_strlit("hub");
    reveal_strlit("identifier");
    reveal_strlit("admins");
    reveal_strlit("gamestate");
    reveal_strlit("map_name");
    reveal_strlit("security_level");
    reveal_strlit("round_duration");
    reveal_strlit("time_dilation_current");
    reveal_strlit("time_dilation_avg");
    reveal_strlit("time_dilation_avg_slow");
    reveal_strlit("time_dilation_avg_fast");
    reveal_strlit("soft_popcap");
    reveal_strlit("hard_popcap");
    reveal_strlit("extreme_popcap");
    reveal_strlit("popcap");
    reveal_strlit("bunkered");
    reveal_strlit("interviews");
    reveal_strlit("shuttle_mode");
    reveal_strlit("shuttle_timer");
    reveal_strlit("active_players");
    reveal_strlit("public_address");
    assert(k_version().len() != k_round_duration().len());
    assert(k_version() != k_round_duration());
    assert(k_respawn().len() != k_round_duration().len());
    assert(k_respawn() != k_round_duration());
    assert(k_enter().len() != k_round_duration().len());
    assert(k_enter() != k_round_duration());
    assert(k_ai().len() != k_round_duration().len());
    assert(k_ai() != k_round_duration());
    assert(k_host().len() != k_round_duration().len());
    assert(k_host() != k_round_duration());
    assert(k_round_id().len() != k_round_duration().len());
    assert(k_round_id() != k_round_duration());
    assert(k_players().len() != k_round_duration().len());
    assert(k_players() != k_round_duration());
    assert(k_revision().len() != k_round_duration().len());
    assert(k_revision() != k_round_duration());
    assert(k_revision_date().len() != k_round_duration().len());
    assert(k_revision_date() != k_round_duration());
    assert(k_hub().len() != k_round_duration().len());
    assert(k_hub() != k_round_duration());
    assert(k_identifier().len() != k_round_duration().len());
    assert(k_identifier() != k_round_duration());
    assert(k_admins().len() != k_round_duration().len());
    assert(k_admins() != k_round_duration());
    assert(k_gamestate().len() != k_round_duration().len());
    assert(k_gamestate() != k_round_duration());
    assert(k_map_name().len() != k_round_duration().len());
    assert(k_map_name() != k_round_duration());
    assert(k_security_level()[0] != k_round_duration()[0]);
    assert(k_security_level() != k_round_duration());
    assert(k_time_dilation_current().len() != k_round_duration().len());
    assert(k_time_dilation_current() != k_round_duration());
    assert(k_time_dilation_avg().len() != k_round_duration().len());
    assert(k_time_dilation_avg() != k_round_duration());
    assert(k_time_dilation_avg_slow().len() != k_round_duration().len());
    assert(k_time_dilation_avg_slow() != k_round_duration());
    assert(k_time_dilation_avg_fast().len() != k_round_duration().len());
    assert(k_time_dilation_avg_fast() != k_round_duration());
    assert(k_soft_popcap().len() != k_round_duration().len());
    assert(k_soft_popcap() != k_round_duration());
    assert(k_hard_popcap().len() != k_round_duration().len());
    assert(k_hard_popcap() != k_round_duration());
    assert(k_extreme_popcap()[0] != k_round_duration()[0]);
    assert(k_extreme_popcap() != k_round_duration());
    assert(k_popcap().len() != k_round_duration().len());
    assert(k_popcap() != k_round_duration());
    assert(k_bunkered().len() != k_round_duration().len());
    assert(k_bunkered() != k_round_duration());
    assert(k_interviews().len() != k_round_duration().len());
    assert(k_interviews() != k_round_duration());
    assert(k_shuttle_mode().len() != k_round_duration().len());
    assert(k_shuttle_mode() != k_round_duration());
    assert(k_shuttle_timer().len() != k_round_duration().len());
    assert(k_shuttle_timer() != k_round_duration());
    assert(k_active_players()[0] != k_round_duration()[0]);
    assert(k_active_players() != k_round_duration());
    assert(k_public_address()[0] != k_round_duration()[0]);
    assert(k_public_address() != k_round_duration());
    assert(count_name_from(ms, 0, k_round_duration()) == 1) by {
        reveal_with_fuel(count_name_from, 32);
    }
    assert(first_val_from(ms, 0, k_round_duration()) == ScalarView::Num(r.round_duration)) by {
        reveal_with_fuel(first_val_from, 32);
    }
}

#[verifier::rlimit(100)]
proof fn lemma_get_time_dilation_current(r: ServerInfoView)
    ensures
        spec_get(record_members(r), k_time_dilation_current()) == FieldGet::One(ScalarView::Num(r.time_dilation_current)),
{
    let ms = record_members(r);
    reveal_strlit("version");
    reveal_strlit("respawn");
    reveal_strlit("enter");
    reveal_strlit("ai");
    reveal_strlit("host");
    reveal_strlit("round_id");
    reveal_strlit("players");
    reveal_strlit("revision");
    reveal_strlit("revision_date");
    reveal_strlit("hub");
    reveal_strlit("identifier");
    reveal_strlit("admins");
    reveal_strlit("gamestate");
    reveal_strlit("map_name");
    reveal_strlit("security_level");
    reveal_strlit("round_duration");
    reveal_strlit("time_dilation_current");
    reveal_strlit("time_dilation_avg");
    reveal_strlit("time_dilation_avg_slow");
    reveal_strlit("time_dilation_avg_fast");
    reveal_strlit("soft_popcap");
    reveal_strlit("hard_popcap");
    reveal_strlit("extreme_popcap");
    reveal_strlit("popcap");
    reveal_strlit("bunkered");
    reveal_strlit("interviews");
    reveal_strlit("shuttle_mode");
    reveal_strlit("shuttle_timer");
    reveal_strlit("active_players");
    reveal_strlit("public_address");
    assert(k_version().len() != k_time_dilation_current().len());
    assert(k_version() != k_time_dilation_current());
    assert(k_respawn().len() != k_time_dilation_current().len());
    assert(k_respawn() != k_time_dilation_current());
    assert(k_enter().len() != k_time_dilation_current().len());
    assert(k_enter() != k_time_dilation_current());
    assert(k_ai().len() != k_time_dilation_current().len());
    assert(k_ai() != k_time_dilation_current());
    assert(k_host().len() != k_time_dilation_current().len());
    assert(k_host() != k_time_dilation_current());
    assert(k_round_id().len() != k_time_dilation_current().len());
    assert(k_round_id() != k_time_dilation_current());
    assert(k_players().len() != k_time_dilation_current().len());
    assert(k_players() != k_time_dilation_current());
    assert(k_revision().len() != k_time_dilation_current().len());
    assert(k_revision() != k_time_dilation_current());
    assert(k_revision_date().len() != k_time_dilation_current().len());
    assert(k_revision_date() != k_time_dilation_current());
    assert(k_hub().len() != k_time_dilation_current().len());
    assert(k_hub() != k_time_dilation_current());
    assert(k_identifier().len() != k_time_dilation_current().len());
    assert(k_identifier() != k_time_dilation_current());
    assert(k_admins().len() != k_time_dilation_current().len());
    assert(k_admins() != k_time_dilation_current());
    assert(k_gamestate().len() != k_time_dilation_current().len());
    assert(k_gamestate() != k_time_dilation_current());
    assert(k_map_name().len() != k_time_dilation_current().len());
    assert(k_map_name() != k_time_dilation_current());
    assert(k_security_level().len() != k_time_dilation_current().len());
    assert(k_security_level() != k_time_dilation_current());
    assert(k_round_duration().len() != k_time_dilation_current().len());
    assert(k_round_duration() != k_time_dilation_current());
    assert(k_time_dilation_avg().len() != k_time_dilation_current().len());
    assert(k_time_dilation_avg() != k_time_dilation_current());
    assert(k_time_dilation_avg_slow().len() != k_time_dilation_current().len());
    assert(k_time_dilation_avg_slow() != k_time_dilation_current());
    assert(k_time_dilation_avg_fast().len() != k_time_dilation_current().len());
    assert(k_time_dilation_avg_fast() != k_time_dilation_current());
    assert(k_soft_popcap().len() != k_time_dilation_current().len());
    assert(k_soft_popcap() != k_time_dilation_current());
    assert(k_hard_popcap().len() != k_time_dilation_current().len());
    assert(k_hard_popcap() != k_time_dilation_current());
    assert(k_extreme_popcap().len() != k_time_dilation_current().len());
    assert(k_extreme_popcap() != k_time_dilation_current());
    assert(k_popcap().len() != k_time_dilation_current().len());
    assert(k_popcap() != k_time_dilation_current());
    assert(k_bunkered().len() != k_time_dilation_current().len());
    assert(k_bunkered() != k_time_dilation_current());
    assert(k_interviews().len() != k_time_dilation_current().len());
    assert(k_interviews() != k_time_dilation_current());
    assert(k_shuttle_mode().len() != k_time_dilation_current().len());
    assert(k_shuttle_mode() != k_time_dilation_current());
    assert(k_shuttle_timer().len() != k_time_dilation_current().len());
    assert(k_shuttle_timer() != k_time_dilation_current());
    assert(k_active_players().len() != k_time_dilation_current().len());
    assert(k_active_players() != k_time_dilation_current());
    assert(k_public_address().len() != k_time_dilation_current().len());
    assert(k_public_address() != k_time_dilation_current());
    assert(count_name_from(ms, 0, k_time_dilation_current()) == 1) by {
        reveal_with_fuel(count_name_from, 32);
    }
    assert(first_val_from(ms, 0, k_time_dilation_current()) == ScalarView::Num(r.time_dilation_current)) by {
        reveal_with_fuel(first_val_from, 32);
    }
}

#[verifier::rlimit(100)]
proof fn lemma_get_time_dilation_avg(r: ServerInfoView)
    ensures
        spec_get(record_members(r), k_time_dilation_avg()) == FieldGet::One(ScalarView::Num(r.time_dilation_avg)),
{
    let ms = record_members(r);
    reveal_strlit("version");
    reveal_strlit("respawn");
    reveal_strlit("enter");
    reveal_strlit("ai");
    reveal_strlit("host");
    reveal_strlit("round_id");
    reveal_strlit("players");
    reveal_strlit("revision");
    reveal_strlit("revision_date");
    reveal_strlit("hub");
    reveal_strlit("identifier");
    reveal_strlit("admins");
    reveal_strlit("gamestate");
    reveal_strlit("map_name");
    reveal_strlit("security_level");
    reveal_strlit("round_duration");
    reveal_strlit("time_dilation_current");
    reveal_strlit("time_dilation_avg");
    reveal_strlit("time_dilation_avg_slow");
    reveal_strlit("time_dilation_avg_fast");
    reveal_strlit("soft_popcap");
    reveal_strlit("hard_popcap");
    reveal_strlit("extreme_popcap");
    reveal_strlit("popcap");
    reveal_strlit("bunkered");
    reveal_strlit("interviews");
    reveal_strlit("shuttle_mode");
    reveal_strlit("shuttle_timer");
    reveal_strlit("active_players");
    reveal_strlit("public_address");
    assert(k_version().len() != k_time_dilation_avg().len());
    assert(k_version() != k_time_dilation_avg());
    assert(k_respawn().len() != k_time_dilation_avg().len());
    assert(k_respawn() != k_time_dilation_avg());
    assert(k_enter().len() != k_time_dilation_avg().len());
    assert(k_enter() != k_time_dilation_avg());
    assert(k_ai().len() != k_time_dilation_avg().len());
    assert(k_ai() != k_time_dilation_avg());
    assert(k_host().len() != k_time_dilation_avg().len());
    assert(k_host() != k_time_dilation_avg());
    assert(k_round_id().len() != k_time_dilation_avg().len());
    assert(k_round_id() != k_time_dilation_avg());
    assert(k_players().len() != k_time_dilation_avg().len());
    assert(k_players() != k_time_dilation_avg());
    assert(k_revision().len() != k_time_dilation_avg().len());
    assert(k_revision() != k_time_dilation_avg());
    assert(k_revision_date().len() != k_time_dilation_avg().len());
    assert(k_revision_date() != k_time_dilation_avg());
    assert(k_hub().len() != k_time_dilation_avg().len());
    assert(k_hub() != k_time_dilation_avg());
    assert(k_identifier().len() != k_time_dilation_avg().len());
    assert(k_identifier() != k_time_dilation_avg());
    assert(k_admins().len() != k_time_dilation_avg().len());
    assert(k_admins() != k_time_dilation_avg());
    assert(k_gamestate().len() != k_time_dilation_avg().len());
    assert(k_gamestate() != k_time_dilation_avg());
    assert(k_map_name().len() != k_time_dilation_avg().len());
    assert(k_map_name() != k_time_dilation_avg());
    assert(k_security_level().len() != k_time_dilation_avg().len());
    assert(k_security_level() != k_time_dilation_avg());
    assert(k_round_duration().len() != k_time_dilation_avg().len());
    assert(k_round_duration() != k_time_dilation_avg());
    assert(k_time_dilation_current().len() != k_time_dilation_avg().len());
    assert(k_time_dilation_current() != k_time_dilation_avg());
    assert(k_time_dilation_avg_slow().len() != k_time_dilation_avg().len());
    assert(k_time_dilation_avg_slow() != k_time_dilation_avg());
    assert(k_time_dilation_avg_fast().len() != k_time_dilation_avg().len());
    assert(k_time_dilation_avg_fast() != k_time_dilation_avg());
    assert(k_soft_popcap().len() != k_time_dilation_avg().len());
    assert(k_soft_popcap() != k_time_dilation_avg());
    assert(k_hard_popcap().len() != k_time_dilation_avg().len());
    assert(k_hard_popcap() != k_time_dilation_avg());
    assert(k_extreme_popcap().len() != k_time_dilation_avg().len());
    assert(k_extreme_popcap() != k_time_dilation_avg());
    assert(k_popcap().len() != k_time_dilation_avg().len());
    assert(k_popcap() != k_time_dilation_avg());
    assert(k_bunkered().len() != k_time_dilation_avg().len());
    assert(k_bunkered() != k_time_dilation_avg());
    assert(k_interviews().len() != k_time_dilation_avg().len());
    assert(k_interviews() != k_time_dilation_avg());
    assert(k_shuttle_mode().len() != k_time_dilation_avg().len());
    assert(k_shuttle_mode() != k_time_dilation_avg());
    assert(k_shuttle_timer().len() != k_time_dilation_avg().len());
    assert(k_shuttle_timer() != k_time_dilation_avg());
    assert(k_active_players().len() != k_time_dilation_avg().len());
    assert(k_active_players() != k_time_dilation_avg());
    assert(k_public_address().len() != k_time_dilation_avg().len());
    assert(k_public_address() != k_time_dilation_avg());
    assert(count_name_from(ms, 0, k_time_dilation_avg()) == 1) by {
        reveal_with_fuel(count_name_from, 32);
    }
    assert(first_val_from(ms, 0, k_time_dilation_avg()) == ScalarView::Num(r.time_dilation_avg)) by {
        reveal_with_fuel(first_val_from, 32);
    }
}

#[verifier::rlimit(100)]
proof fn lemma_get_time_dilation_avg_slow(r: ServerInfoView)
    ensures
        spec_get(record_members(r), k_time_dilation_avg_slow()) == FieldGet::One(ScalarView::Num(r.time_dilation_avg_slow)),
{
    let ms = record_members(r);
    reveal_strlit("version");
    reveal_strlit("respawn");
    reveal_strlit("enter");
    reveal_strlit("ai");
    reveal_strlit("host");
    reveal_strlit("round_id");
    reveal_strlit("players");
    reveal_strlit("revision");
    reveal_strlit("revision_date");
    reveal_strlit("hub");
    reveal_strlit("identifier");
    reveal_strlit("admins");
    reveal_strlit("gamestate");
    reveal_strlit("map_name");
    reveal_strlit("security_level");
    reveal_strlit("round_duration");
    reveal_strlit("time_dilation_current");
    reveal_strlit("time_dilation_avg");
    reveal_strlit("time_dilation_avg_slow");
    reveal_strlit("time_dilation_avg_fast");
    reveal_strlit("soft_popcap");
    reveal_strlit("hard_popcap");
    reveal_strlit("extreme_popcap");
    reveal_strlit("popcap");
    reveal_strlit("bunkered");
    reveal_strlit("interviews");
    reveal_strlit("shuttle_mode");
    reveal_strlit("shuttle_timer");
    reveal_strlit("active_players");
    reveal_strlit("public_address");
    assert(k_version().len() != k_time_dilation_avg_slow().len());
    assert(k_version() != k_time_dilation_avg_slow());
    assert(k_respawn().len() != k_time_dilation_avg_slow().len());
    assert(k_respawn() != k_time_dilation_avg_slow());
    assert(k_enter().len() != k_time_dilation_avg_slow().len());
    assert(k_enter() != k_time_dilation_avg_slow());
    assert(k_ai().len() != k_time_dilation_avg_slow().len());
    assert(k_ai() != k_time_dilation_avg_slow());
    assert(k_host().len() != k_time_dilation_avg_slow().len());
    assert(k_host() != k_time_dilation_avg_slow());
    assert(k_round_id().len() != k_time_dilation_avg_slow().len());
    assert(k_round_id() != k_time_dilation_avg_slow());
    assert(k_players().len() != k_time_dilation_avg_slow().len());
    assert(k_players() != k_time_dilation_avg_slow());
    assert(k_revision().len() != k_time_dilation_avg_slow().len());
    assert(k_revision() != k_time_dilation_avg_slow());
    assert(k_revision_date().len() != k_time_dilation_avg_slow().len());
    assert(k_revision_date() != k_time_dilation_avg_slow());
    assert(k_hub().len() != k_time_dilation_avg_slow().len());
    assert(k_hub() != k_time_dilation_avg_slow());
    assert(k_identifier().len() != k_time_dilation_avg_slow().len());
    assert(k_identifier() != k_time_dilation_avg_slow());
    assert(k_admins().len() != k_time_dilation_avg_slow().len());
    assert(k_admins() != k_time_dilation_avg_slow());
    assert(k_gamestate().len() != k_time_dilation_avg_slow().len());
    assert(k_gamestate() != k_time_dilation_avg_slow());
    assert(k_map_name().len() != k_time_dilation_avg_slow().len());
    assert(k_map_name() != k_time_dilation_avg_slow());
    assert(k_security_level().len() != k_time_dilation_avg_slow().len());
    assert(k_security_level() != k_time_dilation_avg_slow());
    assert(k_round_duration().len() != k_time_dilation_avg_slow().len());
    assert(k_round_duration() != k_time_dilation_avg_slow());
    assert(k_time_dilation_current().len() != k_time_dilation_avg_slow().len());
    assert(k_time_dilation_current() != k_time_dilation_avg_slow());
    assert(k_time_dilation_avg().len() != k_time_dilation_avg_slow().len());
    assert(k_time_dilation_avg() != k_time_dilation_avg_slow());
    assert(k_time_dilation_avg_fast()[18] != k_time_dilation_avg_slow()[18]);
    assert(k_time_dilation_avg_fast() != k_time_dilation_avg_slow());
    assert(k_soft_popcap().len() != k_time_dilation_avg_slow().len());
    assert(k_soft_popcap() != k_time_dilation_avg_slow());
    assert(k_hard_popcap().len() != k_time_dilation_avg_slow().len());
    assert(k_hard_popcap() != k_time_dilation_avg_slow());
    assert(k_extreme_popcap().len() != k_time_dilation_avg_slow().len());
    assert(k_extreme_popcap() != k_time_dilation_avg_slow());
    assert(k_popcap().len() != k_time_dilation_avg_slow().len());
    assert(k_popcap() != k_time_dilation_avg_slow());
    assert(k_bunkered().len() != k_time_dilation_avg_slow().len());
    assert(k_bunkered() != k_time_dilation_avg_slow());
    assert(k_interviews().len() != k_time_dilation_avg_slow().len());
    assert(k_interviews() != k_time_dilation_avg_slow());
    assert(k_shuttle_mode().len() != k_time_dilation_avg_slow().len());
    assert(k_shuttle_mode() != k_time_dilation_avg_slow());
    assert(k_shuttle_timer().len() != k_time_dilation_avg_slow().len());
    assert(k_shuttle_timer() != k_time_dilation_avg_slow());
    assert(k_active_players().len() != k_time_dilation_avg_slow().len());
    assert(k_active_players() != k_time_dilation_avg_slow());
    assert(k_public_address().len() != k_time_dilation_avg_slow().len());
    assert(k_public_address() != k_time_dilation_avg_slow());
    assert(count_name_from(ms, 0, k_time_dilation_avg_slow()) == 1) by {
        reveal_with_fuel(count_name_from, 32);
    }
    assert(first_val_from(ms, 0, k_time_dilation_avg_slow()) == ScalarView::Num(r.time_dilation_avg_slow)) by {
        reveal_with_fuel(first_val_from, 32);
    }
}

#[verifier::rlimit(100)]
proof fn lemma_get_time_dilation_avg_fast(r: ServerInfoView)
    ensures
        spec_get(record_members(r), k_time_dilation_avg_fast()) == FieldGet::One(ScalarView::Num(r.time_dilation_avg_fast)),
{
    let ms = record_members(r);
    reveal_strlit("version");
    reveal_strlit("respawn");
    reveal_strlit("enter");
    reveal_strlit("ai");
    reveal_strlit("host");
    reveal_strlit("round_id");
    reveal_strlit("players");
    reveal_strlit("revision");
    reveal_strlit("revision_date");
    reveal_strlit("hub");
    reveal_strlit("identifier");
    reveal_strlit("admins");
    reveal_strlit("gamestate");
    reveal_strlit("map_name");
    reveal_strlit("security_level");
    reveal_strlit("round_duration");
    reveal_strlit("time_dilation_current");
    reveal_strlit("time_dilation_avg");
    reveal_strlit("time_dilation_avg_slow");
    reveal_strlit("time_dilation_avg_fast");
    reveal_strlit("soft_popcap");
    reveal_strlit("hard_popcap");
    reveal_strlit("extreme_popcap");
    reveal_strlit("popcap");
    reveal_strlit("bunkered");
    reveal_strlit("interviews");
    reveal_strlit("shuttle_mode");
    reveal_strlit("shuttle_timer");
    reveal_strlit("active_players");
    reveal_strlit("public_address");
    assert(k_version().len() != k_time_dilation_avg_fast().len());
    assert(k_version() != k_time_dilation_avg_fast());
    assert(k_respawn().len() != k_time_dilation_avg_fast().len());
    assert(k_respawn() != k_time_dilation_avg_fast());
    assert(k_enter().len() != k_time_dilation_avg_fast().len());
    assert(k_enter() != k_time_dilation_avg_fast());
    assert(k_ai().len() != k_time_dilation_avg_fast().len());
    assert(k_ai() != k_time_dilation_avg_fast());
    assert(k_host().len() != k_time_dilation_avg_fast().len());
    assert(k_host() != k_time_dilation_avg_fast());
    assert(k_round_id().len() != k_time_dilation_avg_fast().len());
    assert(k_round_id() != k_time_dilation_avg_fast());
    assert(k_players().len() != k_time_dilation_avg_fast().len());
    assert(k_players() != k_time_dilation_avg_fast());
    assert(k_revision().len() != k_time_dilation_avg_fast().len());
    assert(k_revision() != k_time_dilation_avg_fast());
    assert(k_revision_date().len() != k_time_dilation_avg_fast().len());
    assert(k_revision_date() != k_time_dilation_avg_fast());
    assert(k_hub().len() != k_time_dilation_avg_fast().len());
    assert(k_hub() != k_time_dilation_avg_fast());
    assert(k_identifier().len() != k_time_dilation_avg_fast().len());
    assert(k_identifier() != k_time_dilation_avg_fast());
    assert(k_admins().len() != k_time_dilation_avg_fast().len());
    assert(k_admins() != k_time_dilation_avg_fast());
    assert(k_gamestate().len() != k_time_dilation_avg_fast().len());
    assert(k_gamestate() != k_time_dilation_avg_fast());
    assert(k_map_name().len() != k_time_dilation_avg_fast().len());
    assert(k_map_name() != k_time_dilation_avg_fast());
    assert(k_security_level().len() != k_time_dilation_avg_fast().len());
    assert(k_security_level() != k_time_dilation_avg_fast());
    assert(k_round_duration().len() != k_time_dilation_avg_fast().len());
    assert(k_round_duration() != k_time_dilation_avg_fast());
    assert(k_time_dilation_current().len() != k_time_dilation_avg_fast().len());
    assert(k_time_dilation_current() != k_time_dilation_avg_fast());
    assert(k_time_dilation_avg().len() != k_time_dilation_avg_fast().len());
    assert(k_time_dilation_avg() != k_time_dilation_avg_fast());
    assert(k_time_dilation_avg_slow()[18] != k_time_dilation_avg_fast()[18]);
    assert(k_time_dilation_avg_slow() != k_time_dilation_avg_fast());
    assert(k_soft_popcap().len() != k_time_dilation_avg_fast().len());
    assert(k_soft_popcap() != k_time_dilation_avg_fast());
    assert(k_hard_popcap().len() != k_time_dilation_avg_fast().len());
    assert(k_hard_popcap() != k_time_dilation_avg_fast());
    assert(k_extreme_popcap().len() != k_time_dilation_avg_fast().len());
    assert(k_extreme_popcap() != k_time_dilation_avg_fast());
    assert(k_popcap().len() != k_time_dilation_avg_fast().len());
    assert(k_popcap() != k_time_dilation_avg_fast());
    assert(k_bunkered().len() != k_time_dilation_avg_fast().len());
    assert(k_bunkered() != k_time_dilation_avg_fast());
    assert(k_interviews().len() != k_time_dilation_avg_fast().len());
    assert(k_interviews() != k_time_dilation_avg_fast());
    assert(k_shuttle_mode().len() != k_time_dilation_avg_fast().len());
    assert(k_shuttle_mode() != k_time_dilation_avg_fast());
    assert(k_shuttle_timer().len() != k_time_dilation_avg_fast().len());
    assert(k_shuttle_timer() != k_time_dilation_avg_fast());
    assert(k_active_players().len() != k_time_dilation_avg_fast().len());
    assert(k_active_players() != k_time_dilation_avg_fast());
    assert(k_public_address().len() != k_time_dilation_avg_fast().len());
    assert(k_public_address() != k_time_dilation_avg_fast());
    assert(count_name_from(ms, 0, k_time_dilation_avg_fast()) == 1) by {
        reveal_with_fuel(count_name_from, 32);
    }
    assert(first_val_from(ms, 0, k_time_dilation_avg_fast()) == ScalarView::Num(r.time_dilation_avg_fast)) by {
        reveal_with_fuel(first_val_from, 32);
    }
}

#[verifier::rlimit(100)]
proof fn lemma_get_soft_popcap(r: ServerInfoView)
    ensures
        spec_get(record_members(r), k_soft_popcap()) == FieldGet::One(u32_scalar(r.soft_popcap)),
{
    let ms = record_members(r);
    reveal_strlit("version");
    reveal_strlit("respawn");
    reveal_strlit("enter");
    reveal_strlit("ai");
    reveal_strlit("host");
    reveal_strlit("round_id");
    reveal_strlit("players");
    reveal_strlit("revision");
    reveal_strlit("revision_date");
    reveal_strlit("hub");
    reveal_strlit("identifier");
    reveal_strlit("admins");
    reveal_strlit("gamestate");
    reveal_strlit("map_name");
    reveal_strlit("security_level");
    reveal_strlit("round_duration");
    reveal_strlit("time_dilation_current");
    reveal_strlit("time_dilation_avg");
    reveal_strlit("time_dilation_avg_slow");
    reveal_strlit("time_dilation_avg_fast");
    reveal_strlit("soft_popcap");
    reveal_strlit("hard_popcap");
    reveal_strlit("extreme_popcap");
    reveal_strlit("popcap");
    reveal_strlit("bunkered");
    reveal_strlit("interviews");
    reveal_strlit("shuttle_mode");
    reveal_strlit("shuttle_timer");
    reveal_strlit("active_players");
    reveal_strlit("public_address");
    assert(k_version().len() != k_soft_popcap().len());
    assert(k_version() != k_soft_popcap());
    assert(k_respawn().len() != k_soft_popcap().len());
    assert(k_respawn() != k_soft_popcap());
    assert(k_enter().len() != k_soft_popcap().len());
    assert(k_enter() != k_soft_popcap());
    assert(k_ai().len() != k_soft_popcap().len());
    assert(k_ai() != k_soft_popcap());
    assert(k_host().len() != k_soft_popcap().len());
    assert(k_host() != k_soft_popcap());
    assert(k_round_id().len() != k_soft_popcap().len());
    assert(k_round_id() != k_soft_popcap());
    assert(k_players().len() != k_soft_popcap().len());
    assert(k_players() != k_soft_popcap());
    assert(k_revision().len() != k_soft_popcap().len());
    assert(k_revision() != k_soft_popcap());
    assert(k_revision_date().len() != k_soft_popcap().len());
    assert(k_revision_date() != k_soft_popcap());
    assert(k_hub().len() != k_soft_popcap().len());
    assert(k_hub() != k_soft_popcap());
    assert(k_identifier().len() != k_soft_popcap().len());
    assert(k_identifier() != k_soft_popcap());
    assert(k_admins().len() != k_soft_popcap().len());
    assert(k_admins() != k_soft_popcap());
    assert(k_gamestate().len() != k_soft_popcap().len());
    assert(k_gamestate() != k_soft_popcap());
    assert(k_map_name().len() != k_soft_popcap().len());
    assert(k_map_name() != k_soft_popcap());
    assert(k_security_level().len() != k_soft_popcap().len());
    assert(k_security_level() != k_soft_popcap());
    assert(k_round_duration().len() != k_soft_popcap().len());
    assert(k_round_duration() != k_soft_popcap());
    assert(k_time_dilation_current().len() != k_soft_popcap().len());
    assert(k_time_dilation_current() != k_soft_popcap());
    assert(k_time_dilation_avg().len() != k_soft_popcap().len());
    assert(k_time_dilation_avg() != k_soft_popcap());
    assert(k_time_dilation_avg_slow().len() != k_soft_popcap().len());
    assert(k_time_dilation_avg_slow() != k_soft_popcap());
    assert(k_time_dilation_avg_fast().len() != k_soft_popcap().len());
    assert(k_time_dilation_avg_fast() != k_soft_popcap());
    assert(k_hard_popcap()[0] != k_soft_popcap()[0]);
    assert(k_hard_popcap() != k_soft_popcap());
    assert(k_extreme_popcap().len() != k_soft_popcap().len());
    assert(k_extreme_popcap() != k_soft_popcap());
    assert(k_popcap().len() != k_soft_popcap().len());
    assert(k_popcap() != k_soft_popcap());
    assert(k_bunkered().len() != k_soft_popcap().len());
    assert(k_bunkered() != k_soft_popcap());
    assert(k_interviews().len() != k_soft_popcap().len());
    assert(k_interviews() != k_soft_popcap());
    assert(k_shuttle_mode().len() != k_soft_popcap().len());
    assert(k_shuttle_mode() != k_soft_popcap());
    assert(k_shuttle_timer().len() != k_soft_popcap().len());
    assert(k_shuttle_timer() != k_soft_popcap());
    assert(k_active_players().len() != k_soft_popcap().len());
    assert(k_active_players() != k_soft_popcap());
    assert(k_public_address().len() != k_soft_popcap().len());
    assert(k_public_address() != k_soft_popcap());
    assert(count_name_from(ms, 0, k_soft_popcap()) == 1) by {
        reveal_with_fuel(count_name_from, 32);
    }
    assert(first_val_from(ms, 0, k_soft_popcap()) == u32_scalar(r.soft_popcap)) by {
        reveal_with_fuel(first_val_from, 32);
    }
}

#[verifier::rlimit(100)]
proof fn lemma_get_hard_popcap(r: ServerInfoView)
    ensures
        spec_get(record_members(r), k_hard_popcap()) == FieldGet::One(u32_scalar(r.hard_popcap)),
{
    let ms = record_members(r);
    reveal_strlit("version");
    reveal_strlit("respawn");
    reveal_strlit("enter");
    reveal_strlit("ai");
    reveal_strlit("host");
    reveal_strlit("round_id");
    reveal_strlit("players");
    reveal_strlit("revision");
    reveal_strlit("revision_date");
    reveal_strlit("hub");
    reveal_strlit("identifier");
    reveal_strlit("admins");
    reveal_strlit("gamestate");
    reveal_strlit("map_name");
    reveal_strlit("security_level");
    reveal_strlit("round_duration");
    reveal_strlit("time_dilation_current");
    reveal_strlit("time_dilation_avg");
    reveal_strlit("time_dilation_avg_slow");
    reveal_strlit("time_dilation_avg_fast");
    reveal_strlit("soft_popcap");
    reveal_strlit("hard_popcap");
    reveal_strlit("extreme_popcap");
    reveal_strlit("popcap");
    reveal_strlit("bunkered");
    reveal_strlit("interviews");
    reveal_strlit("shuttle_mode");
    reveal_strlit("shuttle_timer");
    reveal_strlit("active_players");
    reveal_strlit("public_address");
    assert(k_version().len() != k_hard_popcap().len());
    assert(k_version() != k_hard_popcap());
    assert(k_respawn().len() != k_hard_popcap().len());
    assert(k_respawn() != k_hard_popcap());
    assert(k_enter().len() != k_hard_popcap().len());
    assert(k_enter() != k_hard_popcap());
    assert(k_ai().len() != k_hard_popcap().len());
    assert(k_ai() != k_hard_popcap());
    assert(k_host().len() != k_hard_popcap().len());
    assert(k_host() != k_hard_popcap());
    assert(k_round_id().len() != k_hard_popcap().len());
    assert(k_round_id() != k_hard_popcap());
    assert(k_players().len() != k_hard_popcap().len());
    assert(k_players() != k_hard_popcap());
    assert(k_revision().len() != k_hard_popcap().len());
    assert(k_revision() != k_hard_popcap());
    assert(k_revision_date().len() != k_hard_popcap().len());
    assert(k_revision_date() != k_hard_popcap());
    assert(k_hub().len() != k_hard_popcap().len());
    assert(k_hub() != k_hard_popcap());
    assert(k_identifier().len() != k_hard_popcap().len());
    assert(k_identifier() != k_hard_popcap());
    assert(k_admins().len() != k_hard_popcap().len());
    assert(k_admins() != k_hard_popcap());
    assert(k_gamestate().len() != k_hard_popcap().len());
    assert(k_gamestate() != k_hard_popcap());
    assert(k_map_name().len() != k_hard_popcap().len());
    assert(k_map_name() != k_hard_popcap());
    assert(k_security_level().len() != k_hard_popcap().len());
    assert(k_security_level() != k_hard_popcap());
    assert(k_round_duration().len() != k_hard_popcap().len());
    assert(k_round_duration() != k_hard_popcap());
    assert(k_time_dilation_current().len() != k_hard_popcap().len());
    assert(k_time_dilation_current() != k_hard_popcap());
    assert(k_time_dilation_avg().len() != k_hard_popcap().len());
    assert(k_time_dilation_avg() != k_hard_popcap());
    assert(k_time_dilation_avg_slow().len() != k_hard_popcap().len());
    assert(k_time_dilation_avg_slow() != k_hard_popcap());
    assert(k_time_dilation_avg_fast().len() != k_hard_popcap().len());
    assert(k_time_dilation_avg_fast() != k_hard_popcap());
    assert(k_soft_popcap()[0] != k_hard_popcap()[0]);
    assert(k_soft_popcap() != k_hard_popcap());
    assert(k_extreme_popcap().len() != k_hard_popcap().len());
    assert(k_extreme_popcap() != k_hard_popcap());
    assert(k_popcap().len() != k_hard_popcap().len());
    assert(k_popcap() != k_hard_popcap());
    assert(k_bunkered().len() != k_hard_popcap().len());
    assert(k_bunkered() != k_hard_popcap());
    assert(k_interviews().len() != k_hard_popcap().len());
    assert(k_interviews() != k_hard_popcap());
    assert(k_shuttle_mode().len() != k_hard_popcap().len());
    assert(k_shuttle_mode() != k_hard_popcap());
    assert(k_shuttle_timer().len() != k_hard_popcap().len());
    assert(k_shuttle_timer() != k_hard_popcap());
    assert(k_active_players().len() != k_hard_popcap().len());
    assert(k_active_players() != k_hard_popcap());
    assert(k_public_address().len() != k_hard_popcap().len());
    assert(k_public_address() != k_hard_popcap());
    assert(count_name_from(ms, 0, k_hard_popcap()) == 1) by {
        reveal_with_fuel(count_name_from, 32);
    }
    assert(first_val_from(ms, 0, k_hard_popcap()) == u32_scalar(r.hard_popcap)) by {
        reveal_with_fuel(first_val_from, 32);
    }
}

#[verifier::rlimit(100)]
proof fn lemma_get_extreme_popcap(r: ServerInfoView)
    ensures
        spec_get(record_members(r), k_extreme_popcap()) == FieldGet::One(u32_scalar(r.extreme_popcap)),
{
    let ms = record_members(r);
    reveal_strlit("version");
    reveal_strlit("respawn");
    reveal_strlit("enter");
    reveal_strlit("ai");
    reveal_strlit("host");
    reveal_strlit("round_id");
    reveal_strlit("players");
    reveal_strlit("revision");
    reveal_strlit("revision_date");
    reveal_strlit("hub");
    reveal_strlit("identifier");
    reveal_strlit("admins");
    reveal_strlit("gamestate");
    reveal_strlit("map_name");
    reveal_strlit("security_level");
    reveal_strlit("round_duration");
    reveal_strlit("time_dilation_current");
    reveal_strlit("time_dilation_avg");
    reveal_strlit("time_dilation_avg_slow");
    reveal_strlit("time_dilation_avg_fast");
    reveal_strlit("soft_popcap");
    reveal_strlit("hard_popcap");
    reveal_strlit("extreme_popcap");
    reveal_strlit("popcap");
    reveal_strlit("bunkered");
    reveal_strlit("interviews");
    reveal_strlit("shuttle_mode");
    reveal_strlit("shuttle_timer");
    reveal_strlit("active_players");
    reveal_strlit("public_address");
    assert(k_version().len() != k_extreme_popcap().len());
    assert(k_version() != k_extreme_popcap());
    assert(k_respawn().len() != k_extreme_popcap().len());
    assert(k_respawn() != k_extreme_popcap());
    assert(k_enter().len() != k_extreme_popcap().len());
    assert(k_enter() != k_extreme_popcap());
    assert(k_ai().len() != k_extreme_popcap().len());
    assert(k_ai() != k_extreme_popcap());
    assert(k_host().len() != k_extreme_popcap().len());
    assert(k_host() != k_extreme_popcap());
    assert(k_round_id().len() != k_extreme_popcap().len());
    assert(k_round_id() != k_extreme_popcap());
    assert(k_players().len() != k_extreme_popcap().len());
    assert(k_players() != k_extreme_popcap());
    assert(k_revision().len() != k_extreme_popcap().len());
    assert(k_revision() != k_extreme_popcap());
    assert(k_revision_date().len() != k_extreme_popcap().len());
    assert(k_revision_date() != k_extreme_popcap());
    assert(k_hub().len() != k_extreme_popcap().len());
    assert(k_hub() != k_extreme_popcap());
    assert(k_identifier().len() != k_extreme_popcap().len());
    assert(k_identifier() != k_extreme_popcap());
    assert(k_admins().len() != k_extreme_popcap().len());
    assert(k_admins() != k_extreme_popcap());
    assert(k_gamestate().len() != k_extreme_popcap().len());
    assert(k_gamestate() != k_extreme_popcap());
    assert(k_map_name().len() != k_extreme_popcap().len());
    assert(k_map_name() != k_extreme_popcap());
    assert(k_security_level()[0] != k_extreme_popcap()[0]);
    assert(k_security_level() != k_extreme_popcap());
    assert(k_round_duration()[0] != k_extreme_popcap()[0]);
    assert(k_round_duration() != k_extreme_popcap());
    assert(k_time_dilation_current().len() != k_extreme_popcap().len());
    assert(k_time_dilation_current() != k_extreme_popcap());
    assert(k_time_dilation_avg().len() != k_extreme_popcap().len());
    assert(k_time_dilation_avg() != k_extreme_popcap());
    assert(k_time_dilation_avg_slow().len() != k_extreme_popcap().len());
    assert(k_time_dilation_avg_slow() != k_extreme_popcap());
    assert(k_time_dilation_avg_fast().len() != k_extreme_popcap().len());
    assert(k_time_dilation_avg_fast() != k_extreme_popcap());
    assert(k_soft_popcap().len() != k_extreme_popcap().len());
    assert(k_soft_popcap() != k_extreme_popcap());
    assert(k_hard_popcap().len() != k_extreme_popcap().len());
    assert(k_hard_popcap() != k_extreme_popcap());
    assert(k_popcap().len() != k_extreme_popcap().len());
    assert(k_popcap() != k_extreme_popcap());
    assert(k_bunkered().len() != k_extreme_popcap().len());
    assert(k_bunkered() != k_extreme_popcap());
    assert(k_interviews().len() != k_extreme_popcap().len());
    assert(k_interviews() != k_extreme_popcap());
    assert(k_shuttle_mode().len() != k_extreme_popcap().len());
    assert(k_shuttle_mode() != k_extreme_popcap());
    assert(k_shuttle_timer().len() != k_extreme_popcap().len());
    assert(k_shuttle_timer() != k_extreme_popcap());
    assert(k_active_players()[0] != k_extreme_popcap()[0]);
    assert(k_active_players() != k_extreme_popcap());
    assert(k_public_address()[0] != k_extreme_popcap()[0]);
    assert(k_public_address() != k_extreme_popcap());
    assert(count_name_from(ms, 0, k_extreme_popcap()) == 1) by {
        reveal_with_fuel(count_name_from, 32);
    }
    assert(first_val_from(ms, 0, k_extreme_popcap()) == u32_scalar(r.extreme_popcap)) by {
        reveal_with_fuel(first_val_from, 32);
    }
}

#[verifier::rlimit(100)]
proof fn lemma_get_popcap(r: ServerInfoView)
    ensures
        spec_get(record_members(r), k_popcap()) == FieldGet::One(opt_u32_scalar(r.popcap)),
{
    let ms = record_members(r);
    reveal_strlit("version");
    reveal_strlit("respawn");
    reveal_strlit("enter");
    reveal_strlit("ai");
    reveal_strlit("host");
    reveal_strlit("round_id");
    reveal_strlit("players");
    reveal_strlit("revision");
    reveal_strlit("revision_date");
    reveal_strlit("hub");
    reveal_strlit("identifier");
    reveal_strlit("admins");
    reveal_strlit("gamestate");
    reveal_strlit("map_name");
    reveal_strlit("security_level");
    reveal_strlit("round_duration");
    reveal_strlit("time_dilation_current");
    reveal_strlit("time_dilation_avg");
    reveal_strlit("time_dilation_avg_slow");
    reveal_strlit("time_dilation_avg_fast");
    reveal_strlit("soft_popcap");
    reveal_strlit("hard_popcap");
    reveal_strlit("extreme_popcap");
    reveal_strlit("popcap");
    reveal_strlit("bunkered");
    reveal_strlit("interviews");
    reveal_strlit("shuttle_mode");
    reveal_strlit("shuttle_timer");
    reveal_strlit("active_players");
    reveal_strlit("public_address");
    assert(k_version().len() != k_popcap().len());
    assert(k_version() != k_popcap());
    assert(k_respawn().len() != k_popcap().len());
    assert(k_respawn() != k_popcap());
    assert(k_enter().len() != k_popcap().len());
    assert(k_enter() != k_popcap());
    assert(k_ai().len() != k_popcap().len());
    assert(k_ai() != k_popcap());
    assert(k_host().len() != k_popcap().len());
    assert(k_host() != k_popcap());
    assert(k_round_id().len() != k_popcap().len());
    assert(k_round_id() != k_popcap());
    assert(k_players().len() != k_popcap().len());
    assert(k_players() != k_popcap());
    assert(k_revision().len() != k_popcap().len());
    assert(k_revision() != k_popcap());
    assert(k_revision_date().len() != k_popcap().len());
    assert(k_revision_date() != k_popcap());
    assert(k_hub().len() != k_popcap().len());
    assert(k_hub() != k_popcap());
    assert(k_identifier().len() != k_popcap().len());
    assert(k_identifier() != k_popcap());
    assert(k_admins()[0] != k_popcap()[0]);
    assert(k_admins() != k_popcap());
    assert(k_gamestate().len() != k_popcap().len());
    assert(k_gamestate() != k_popcap());
    assert(k_map_name().len() != k_popcap().len());
    assert(k_map_name() != k_popcap());
    assert(k_security_level().len() != k_popcap().len());
    assert(k_security_level() != k_popcap());
    assert(k_round_duration().len() != k_popcap().len());
    assert(k_round_duration() != k_popcap());
    assert(k_time_dilation_current().len() != k_popcap().len());
    assert(k_time_dilation_current() != k_popcap());
    assert(k_time_dilation_avg().len() != k_popcap().len());
    assert(k_time_dilation_avg() != k_popcap());
    assert(k_time_dilation_avg_slow().len() != k_popcap().len());
    assert(k_time_dilation_avg_slow() != k_popcap());
    assert(k_time_dilation_avg_fast().len() != k_popcap().len());
    assert(k_time_dilation_avg_fast() != k_popcap());
    assert(k_soft_popcap().len() != k_popcap().len());
    assert(k_soft_popcap() != k_popcap());
    assert(k_hard_popcap().len() != k_popcap().len());
    assert(k_hard_popcap() != k_popcap());
    assert(k_extreme_popcap().len() != k_popcap().len());
    assert(k_extreme_popcap() != k_popcap());
    assert(k_bunkered().len() != k_popcap().len());
    assert(k_bunkered() != k_popcap());
    assert(k_interviews().len() != k_popcap().len());
    assert(k_interviews() != k_popcap());
    assert(k_shuttle_mode().len() != k_popcap().len());
    assert(k_shuttle_mode() != k_popcap());
    assert(k_shuttle_timer().len() != k_popcap().len());
    assert(k_shuttle_timer() != k_popcap());
    assert(k_active_players().len() != k_popcap().len());
    assert(k_active_players() != k_popcap());
    assert(k_public_address().len() != k_popcap().len());
    assert(k_public_address() != k_popcap());
    assert(count_name_from(ms, 0, k_popcap()) == 1) by {
        reveal_with_fuel(count_name_from, 32);
    }
    assert(first_val_from(ms, 0, k_popcap()) == opt_u32_scalar(r.popcap)) by {
        reveal_with_fuel(first_val_from, 32);
    }
}

#[verifier::rlimit(100)]
proof fn lemma_get_bunkered(r: ServerInfoView)
    ensures
        spec_get(record_members(r), k_bunkered()) == FieldGet::One(opt_b01_scalar(r.bunkered)),
{
    let ms = record_members(r);
    reveal_strlit("version");
    reveal_strlit("respawn");
    reveal_strlit("enter");
    reveal_strlit("ai");
    reveal_strlit("host");
    reveal_strlit("round_id");
    reveal_strlit("players");
    reveal_strlit("revision");
    reveal_strlit("revision_date");
    reveal_strlit("hub");
    reveal_strlit("identifier");
    reveal_strlit("admins");
    reveal_strlit("gamestate");
    reveal_strlit("map_name");
    reveal_strlit("security_level");
    reveal_strlit("round_duration");
    reveal_strlit("time_dilation_current");
    reveal_strlit("time_dilation_avg");
    reveal_strlit("time_dilation_avg_slow");
    reveal_strlit("time_dilation_avg_fast");
    reveal_strlit("soft_popcap");
    reveal_strlit("hard_popcap");
    reveal_strlit("extreme_popcap");
    reveal_strlit("popcap");
    reveal_strlit("bunkered");
    reveal_strlit("interviews");
    reveal_strlit("shuttle_mode");
    reveal_strlit("shuttle_timer");
    reveal_strlit("active_players");
    reveal_strlit("public_address");
    assert(k_version().len() != k_bunkered().len());
    assert(k_version() != k_bunkered());
    assert(k_respawn().len() != k_bunkered().len());
    assert(k_respawn() != k_bunkered());
    assert(k_enter().len() != k_bunkered().len());
    assert(k_enter() != k_bunkered());
    assert(k_ai().len() != k_bunkered().len());
    assert(k_ai() != k_bunkered());
    assert(k_host().len() != k_bunkered().len());
    assert(k_host() != k_bunkered());
    assert(k_round_id()[0] != k_bunkered()[0]);
    assert(k_round_id() != k_bunkered());
    assert(k_players().len() != k_bunkered().len());
    assert(k_players() != k_bunkered());
    assert(k_revision()[0] != k_bunkered()[0]);
    assert(k_revision() != k_bunkered());
    assert(k_revision_date().len() != k_bunkered().len());
    assert(k_revision_date() != k_bunkered());
    assert(k_hub().len() != k_bunkered().len());
    assert(k_hub() != k_bunkered());
    assert(k_identifier().len() != k_bunkered().len());
    assert(k_identifier() != k_bunkered());
    assert(k_admins().len() != k_bunkered().len());
    assert(k_admins() != k_bunkered());
    assert(k_gamestate().len() != k_bunkered().len());
    assert(k_gamestate() != k_bunkered());
    assert(k_map_name()[0] != k_bunkered()[0]);
    assert(k_map_name() != k_bunkered());
    assert(k_security_level().len() != k_bunkered().len());
    assert(k_security_level() != k_bunkered());
    assert(k_round_duration().len() != k_bunkered().len());
    assert(k_round_duration() != k_bunkered());
    assert(k_time_dilation_current().len() != k_bunkered().len());
    assert(k_time_dilation_current() != k_bunkered());
    assert(k_time_dilation_avg().len() != k_bunkered().len());
    assert(k_time_dilation_avg() != k_bunkered());
    assert(k_time_dilation_avg_slow().len() != k_bunkered().len());
    assert(k_time_dilation_avg_slow() != k_bunkered());
    assert(k_time_dilation_avg_fast().len() != k_bunkered().len());
    assert(k_time_dilation_avg_fast() != k_bunkered());
    assert(k_soft_popcap().len() != k_bunkered().len());
    assert(k_soft_popcap() != k_bunkered());
    assert(k_hard_popcap().len() != k_bunkered().len());
    assert(k_hard_popcap() != k_bunkered());
    assert(k_extreme_popcap().len() != k_bunkered().len());
    assert(k_extreme_popcap() != k_bunkered());
    assert(k_popcap().len() != k_bunkered().len());
    assert(k_popcap() != k_bunkered());
    assert(k_interviews().len() != k_bunkered().len());
    assert(k_interviews() != k_bunkered());
    assert(k_shuttle_mode().len() != k_bunkered().len());
    assert(k_shuttle_mode() != k_bunkered());
    assert(k_shuttle_timer().len() != k_bunkered().len());
    assert(k_shuttle_timer() != k_bunkered());
    assert(k_active_players().len() != k_bunkered().len());
    assert(k_active_players() != k_bunkered());
    assert(k_public_address().len() != k_bunkered().len());
    assert(k_public_address() != k_bunkered());
    assert(count_name_from(ms, 0, k_bunkered()) == 1) by {
        reveal_with_fuel(count_name_from, 32);
    }
    assert(first_val_from(ms, 0, k_bunkered()) == opt_b01_scalar(r.bunkered)) by {
        reveal_with_fuel(first_val_from, 32);
    }
}

#[verifier::rlimit(100)]
proof fn lemma_get_interviews(r: ServerInfoView)
    ensures
        spec_get(record_members(r), k_interviews()) == FieldGet::One(opt_b01_scalar(r.interviews)),
{
    let ms = record_members(r);
    reveal_strlit("version");
    reveal_strlit("respawn");
    reveal_strlit("enter");
    reveal_strlit("ai");
    reveal_strlit("host");
    reveal_strlit("round_id");
    reveal_strlit("players");
    reveal_strlit("revision");
    reveal_strlit("revision_date");
    reveal_strlit("hub");
    reveal_strlit("identifier");
    reveal_strlit("admins");
    reveal_strlit("gamestate");
    reveal_strlit("map_name");
    reveal_strlit("security_level");
    reveal_strlit("round_duration");
    reveal_strlit("time_dilation_current");
    reveal_strlit("time_dilation_avg");
    reveal_strlit("time_dilation_avg_slow");
    reveal_strlit("time_dilation_avg_fast");
    reveal_strlit("soft_popcap");
    reveal_strlit("hard_popcap");
    reveal_strlit("extreme_popcap");
    reveal_strlit("popcap");
    reveal_strlit("bunkered");
    reveal_strlit("interviews");
    reveal_strlit("shuttle_mode");
    reveal_strlit("shuttle_timer");
    reveal_strlit("active_players");
    reveal_strlit("public_address");
    assert(k_version().len() != k_interviews().len());
    assert(k_version() != k_interviews());
    assert(k_respawn().len() != k_interviews().len());
    assert(k_respawn() != k_interviews());
    assert(k_enter().len() != k_interviews().len());
    assert(k_enter() != k_interviews());
    assert(k_ai().len() != k_interviews().len());
    assert(k_ai() != k_interviews());
    assert(k_host().len() != k_interviews().len());
    assert(k_host() != k_interviews());
    assert(k_round_id().len() != k_interviews().len());
    assert(k_round_id() != k_interviews());
    assert(k_players().len() != k_interviews().len());
    assert(k_players() != k_interviews());
    assert(k_revision().len() != k_interviews().len());
    assert(k_revision() != k_interviews());
    assert(k_revision_date().len() != k_interviews().len());
    assert(k_revision_date() != k_interviews());
    assert(k_hub().len() != k_interviews().len());
    assert(k_hub() != k_interviews());
    assert(k_identifier()[1] != k_interviews()[1]);
    assert(k_identifier() != k_interviews());
    assert(k_admins().len() != k_interviews().len());
    assert(k_admins() != k_interviews());
    assert(k_gamestate().len() != k_interviews().len());
    assert(k_gamestate() != k_interviews());
    assert(k_map_name().len() != k_interviews().len());
    assert(k_map_name() != k_interviews());
    assert(k_security_level().len() != k_interviews().len());
    assert(k_security_level() != k_interviews());
    assert(k_round_duration().len() != k_interviews().len());
    assert(k_round_duration() != k_interviews());
    assert(k_time_dilation_current().len() != k_interviews().len());
    assert(k_time_dilation_current() != k_interviews());
    assert(k_time_dilation_avg().len() != k_interviews().len());
    assert(k_time_dilation_avg() != k_interviews());
    assert(k_time_dilation_avg_slow().len() != k_interviews().len());
    assert(k_time_dilation_avg_slow() != k_interviews());
    assert(k_time_dilation_avg_fast().len() != k_interviews().len());
    assert(k_time_dilation_avg_fast() != k_interviews());
    assert(k_soft_popcap().len() != k_interviews().len());
    assert(k_soft_popcap() != k_interviews());
    assert(k_hard_popcap().len() != k_interviews().len());
    assert(k_hard_popcap() != k_interviews());
    assert(k_extreme_popcap().len() != k_interviews().len());
    assert(k_extreme_popcap() != k_interviews());
    assert(k_popcap().len() != k_interviews().len());
    assert(k_popcap() != k_interviews());
    assert(k_bunkered().len() != k_interviews().len());
    assert(k_bunkered() != k_interviews());
    assert(k_shuttle_mode().len() != k_interviews().len());
    assert(k_shuttle_mode() != k_interviews());
    assert(k_shuttle_timer().len() != k_interviews().len());
    assert(k_shuttle_timer() != k_interviews());
    assert(k_active_players().len() != k_interviews().len());
    assert(k_active_players() != k_interviews());
    assert(k_public_address().len() != k_interviews().len());
    assert(k_public_address() != k_interviews());
    assert(count_name_from(ms, 0, k_interviews()) == 1) by {
        reveal_with_fuel(count_name_from, 32);
    }
    assert(first_val_from(ms, 0, k_interviews()) == opt_b01_scalar(r.interviews)) by {
        reveal_with_fuel(first_val_from, 32);
    }
}

#[verifier::rlimit(100)]
proof fn lemma_get_shuttle_mode(r: ServerInfoView)
    ensures
        spec_get(record_members(r), k_shuttle_mode()) == FieldGet::One(opt_str_scalar(r.shuttle_mode)),
{
    let ms = record_members(r);
    reveal_strlit("version");
    reveal_strlit("respawn");
    reveal_strlit("enter");
    reveal_strlit("ai");
    reveal_strlit("host");
    reveal_strlit("round_id");
    reveal_strlit("players");
    reveal_strlit("revision");
    reveal_strlit("revision_date");
    reveal_strlit("hub");
    reveal_strlit("identifier");
    reveal_strlit("admins");
    reveal_strlit("gamestate");
    reveal_strlit("map_name");
    reveal_strlit("security_level");
    reveal_strlit("round_duration");
    reveal_strlit("time_dilation_current");
    reveal_strlit("time_dilation_avg");
    reveal_strlit("time_dilation_avg_slow");
    reveal_strlit("time_dilation_avg_fast");
    reveal_strlit("soft_popcap");
    reveal_strlit("hard_popcap");
    reveal_strlit("extreme_popcap");
    reveal_strlit("popcap");
    reveal_strlit("bunkered");
    reveal_strlit("interviews");
    reveal_strlit("shuttle_mode");
    reveal_strlit("shuttle_timer");
    reveal_strlit("active_players");
    reveal_strlit("public_address");
    assert(k_version().len() != k_shuttle_mode().len());
    assert(k_version() != k_shuttle_mode());
    assert(k_respawn().len() != k_shuttle_mode().len());
    assert(k_respawn() != k_shuttle_mode());
    assert(k_enter().len() != k_shuttle_mode().len());
    assert(k_enter() != k_shuttle_mode());
    assert(k_ai().len() != k_shuttle_mode().len());
    assert(k_ai() != k_shuttle_mode());
    assert(k_host().len() != k_shuttle_mode().len());
    assert(k_host() != k_shuttle_mode());
    assert(k_round_id().len() != k_shuttle_mode().len());
    assert(k_round_id() != k_shuttle_mode());
    assert(k_players().len() != k_shuttle_mode().len());
    assert(k_players() != k_shuttle_mode());
    assert(k_revision().len() != k_shuttle_mode().len());
    assert(k_revision() != k_shuttle_mode());
    assert(k_revision_date().len() != k_shuttle_mode().len());
    assert(k_revision_date() != k_shuttle_mode());
    assert(k_hub().len() != k_shuttle_mode().len());
    assert(k_hub() != k_shuttle_mode());
    assert(k_identifier().len() != k_shuttle_mode().len());
    assert(k_identifier() != k_shuttle_mode());
    assert(k_admins().len() != k_shuttle_mode().len());
    assert(k_admins() != k_shuttle_mode());
    assert(k_gamestate().len() != k_shuttle_mode().len());
    assert(k_gamestate() != k_shuttle_mode());
    assert(k_map_name().len() != k_shuttle_mode().len());
    assert(k_map_name() != k_shuttle_mode());
    assert(k_security_level().len() != k_shuttle_mode().len());
    assert(k_security_level() != k_shuttle_mode());
    assert(k_round_duration().len() != k_shuttle_mode().len());
    assert(k_round_duration() != k_shuttle_mode());
    assert(k_time_dilation_current().len() != k_shuttle_mode().len());
    assert(k_time_dilation_current() != k_shuttle_mode());
    assert(k_time_dilation_avg().len() != k_shuttle_mode().len());
    assert(k_time_dilation_avg() != k_shuttle_mode());
    assert(k_time_dilation_avg_slow().len() != k_shuttle_mode().len());
    assert(k_time_dilation_avg_slow() != k_shuttle_mode());
    assert(k_time_dilation_avg_fast().len() != k_shuttle_mode().len());
    assert(k_time_dilation_avg_fast() != k_shuttle_mode());
    assert(k_soft_popcap().len() != k_shuttle_mode().len());
    assert(k_soft_popcap() != k_shuttle_mode());
    assert(k_hard_popcap().len() != k_shuttle_mode().len());
    assert(k_hard_popcap() != k_shuttle_mode());
    assert(k_extreme_popcap().len() != k_shuttle_mode().len());
    assert(k_extreme_popcap() != k_shuttle_mode());
    assert(k_popcap().len() != k_shuttle_mode().len());
    assert(k_popcap() != k_shuttle_mode());
    assert(k_bunkered().len() != k_shuttle_mode().len());
    assert(k_bunkered() != k_shuttle_mode());
    assert(k_interviews().len() != k_shuttle_mode().len());
    assert(k_interviews() != k_shuttle_mode());
    assert(k_shuttle_timer().len() != k_shuttle_mode().len());
    assert(k_shuttle_timer() != k_shuttle_mode());
    assert(k_active_players().len() != k_shuttle_mode().len());
    assert(k_active_players() != k_shuttle_mode());
    assert(k_public_address().len() != k_shuttle_mode().len());
    assert(k_public_address() != k_shuttle_mode());
    assert(count_name_from(ms, 0, k_shuttle_mode()) == 1) by {
        reveal_with_fuel(count_name_from, 32);
    }
    assert(first_val_from(ms, 0, k_shuttle_mode()) == opt_str_scalar(r.shuttle_mode)) by {
        reveal_with_fuel(first_val_from, 32);
    }
}

#[verifier::rlimit(100)]
proof fn lemma_get_shuttle_timer(r: ServerInfoView)
    ensures
        spec_get(record_members(r), k_shuttle_timer()) == FieldGet::One(opt_u32_scalar(r.shuttle_timer)),
{
    let ms = record_members(r);
    reveal_strlit("version");
    reveal_strlit("respawn");
    reveal_strlit("enter");
    reveal_strlit("ai");
    reveal_strlit("host");
    reveal_strlit("round_id");
    reveal_strlit("players");
    reveal_strlit("revision");
    reveal_strlit("revision_date");
    reveal_strlit("hub");
    reveal_strlit("identifier");
    reveal_strlit("admins");
    reveal_strlit("gamestate");
    reveal_strlit("map_name");
    reveal_strlit("security_level");
    reveal_strlit("round_duration");
    reveal_strlit("time_dilation_current");
    reveal_strlit("time_dilation_avg");
    reveal_strlit("time_dilation_avg_slow");
    reveal_strlit("time_dilation_avg_fast");
    reveal_strlit("soft_popcap");
    reveal_strlit("hard_popcap");
    reveal_strlit("extreme_popcap");
    reveal_strlit("popcap");
    reveal_strlit("bunkered");
    reveal_strlit("interviews");
    reveal_strlit("shuttle_mode");
    reveal_strlit("shuttle_timer");
    reveal_strlit("active_players");
    reveal_strlit("public_address");
    assert(k_version().len() != k_shuttle_timer().len());
    assert(k_version() != k_shuttle_timer());
    assert(k_respawn().len() != k_shuttle_timer().len());
    assert(k_respawn() != k_shuttle_timer());
    assert(k_enter().len() != k_shuttle_timer().len());
    assert(k_enter() != k_shuttle_timer());
    assert(k_ai().len() != k_shuttle_timer().len());
    assert(k_ai() != k_shuttle_timer());
    assert(k_host().len() != k_shuttle_timer().len());
    assert(k_host() != k_shuttle_timer());
    assert(k_round_id().len() != k_shuttle_timer().len());
    assert(k_round_id() != k_shuttle_timer());
    assert(k_players().len() != k_shuttle_timer().len());
    assert(k_players() != k_shuttle_timer());
    assert(k_revision().len() != k_shuttle_timer().len());
    assert(k_revision() != k_shuttle_timer());
    assert(k_revision_date()[0] != k_shuttle_timer()[0]);
    assert(k_revision_date() != k_shuttle_timer());
    assert(k_hub().len() != k_shuttle_timer().len());
    assert(k_hub() != k_shuttle_timer());
    assert(k_identifier().len() != k_shuttle_timer().len());
    assert(k_identifier() != k_shuttle_timer());
    assert(k_admins().len() != k_shuttle_timer().len());
    assert(k_admins() != k_shuttle_timer());
    assert(k_gamestate().len() != k_shuttle_timer().len());
    assert(k_gamestate() != k_shuttle_timer());
    assert(k_map_name().len() != k_shuttle_timer().len());
    assert(k_map_name() != k_shuttle_timer());
    assert(k_security_level().len() != k_shuttle_timer().len());
    assert(k_security_level() != k_shuttle_timer());
    assert(k_round_duration().len() != k_shuttle_timer().len());
    assert(k_round_duration() != k_shuttle_timer());
    assert(k_time_dilation_current().len() != k_shuttle_timer().len());
    assert(k_time_dilation_current() != k_shuttle_timer());
    assert(k_time_dilation_avg().len() != k_shuttle_timer().len());
    assert(k_time_dilation_avg() != k_shuttle_timer());
    assert(k_time_dilation_avg_slow().len() != k_shuttle_timer().len());
    assert(k_time_dilation_avg_slow() != k_shuttle_timer());
    assert(k_time_dilation_avg_fast().len() != k_shuttle_timer().len());
    assert(k_time_dilation_avg_fast() != k_shuttle_timer());
    assert(k_soft_popcap().len() != k_shuttle_timer().len());
    assert(k_soft_popcap() != k_shuttle_timer());
    assert(k_hard_popcap().len() != k_shuttle_timer().len());
    assert(k_hard_popcap() != k_shuttle_timer());
    assert(k_extreme_popcap().len() != k_shuttle_timer().len());
    assert(k_extreme_popcap() != k_shuttle_timer());
    assert(k_popcap().len() != k_shuttle_timer().len());
    assert(k_popcap() != k_shuttle_timer());
    assert(k_bunkered().len() != k_shuttle_timer().len());
    assert(k_bunkered() != k_shuttle_timer());
    assert(k_interviews().len() != k_shuttle_timer().len());
    assert(k_interviews() != k_shuttle_timer());
    assert(k_shuttle_mode().len() != k_shuttle_timer().len());
    assert(k_shuttle_mode() != k_shuttle_timer());
    assert(k_active_players().len() != k_shuttle_timer().len());
    assert(k_active_players() != k_shuttle_timer());
    assert(k_public_address().len() != k_shuttle_timer().len());
    assert(k_public_address() != k_shuttle_timer());
    assert(count_name_from(ms, 0, k_shuttle_timer()) == 1) by {
        reveal_with_fuel(count_name_from, 32);
    }
    assert(first_val_from(ms, 0, k_shuttle_timer()) == opt_u32_scalar(r.shuttle_timer)) by {
        reveal_with_fuel(first_val_from, 32);
    }
}

#[verifier::rlimit(100)]
proof fn lemma_get_active_players(r: ServerInfoView)
    ensures
        spec_get(record_members(r), k_active_players()) == FieldGet::One(opt_u32_scalar(r.active_players)),
{
    let ms = record_members(r);
    reveal_strlit("version");
    reveal_strlit("respawn");
    reveal_strlit("enter");
    reveal_strlit("ai");
    reveal_strlit("host");
    reveal_strlit("round_id");
    reveal_strlit("players");
    reveal_strlit("revision");
    reveal_strlit("revision_date");
    reveal_strlit("hub");
    reveal_strlit("identifier");
    reveal_strlit("admins");
    reveal_strlit("gamestate");
    reveal_strlit("map_name");
    reveal_strlit("security_level");
    reveal_strlit("round_duration");
    reveal_strlit("time_dilation_current");
    reveal_strlit("time_dilation_avg");
    reveal_strlit("time_dilation_avg_slow");
    reveal_strlit("time_dilation_avg_fast");
    reveal_strlit("soft_popcap");
    reveal_strlit("hard_popcap");
    reveal_strlit("extreme_popcap");
    reveal_strlit("popcap");
    reveal_strlit("bunkered");
    reveal_strlit("interviews");
    reveal_strlit("shuttle_mode");
    reveal_strlit("shuttle_timer");
    reveal_strlit("active_players");
    reveal_strlit("public_address");
    assert(k_version().len() != k_active_players().len());
    assert(k_version() != k_active_players());
    assert(k_respawn().len() != k_active_players().len());
    assert(k_respawn() != k_active_players());
    assert(k_enter().len() != k_active_players().len());
    assert(k_enter() != k_active_players());
    assert(k_ai().len() != k_active_players().len());
    assert(k_ai() != k_active_players());
    assert(k_host().len() != k_active_players().len());
    assert(k_host() != k_active_players());
    assert(k_round_id().len() != k_active_players().len());
    assert(k_round_id() != k_active_players());
    assert(k_players().len() != k_active_players().len());
    assert(k_players() != k_active_players());
    assert(k_revision().len() != k_active_players().len());
    assert(k_revision() != k_active_players());
    assert(k_revision_date().len() != k_active_players().len());
    assert(k_revision_date() != k_active_players());
    assert(k_hub().len() != k_active_players().len());
    assert(k_hub() != k_active_players());
    assert(k_identifier().len() != k_active_players().len());
    assert(k_identifier() != k_active_players());
    assert(k_admins().len() != k_active_players().len());
    assert(k_admins() != k_active_players());
    assert(k_gamestate().len() != k_active_players().len());
    assert(k_gamestate() != k_active_players());
    assert(k_map_name().len() != k_active_players().len());
    assert(k_map_name() != k_active_players());
    assert(k_security_level()[0] != k_active_players()[0]);
    assert(k_security_level() != k_active_players());
    assert(k_round_duration()[0] != k_active_players()[0]);
    assert(k_round_duration() != k_active_players());
    assert(k_time_dilation_current().len() != k_active_players().len());
    assert(k_time_dilation_current() != k_active_players());
    assert(k_time_dilation_avg().len() != k_active_players().len());
    assert(k_time_dilation_avg() != k_active_players());
    assert(k_time_dilation_avg_slow().len() != k_active_players().len());
    assert(k_time_dilation_avg_slow() != k_active_players());
    assert(k_time_dilation_avg_fast().len() != k_active_players().len());
    assert(k_time_dilation_avg_fast() != k_active_players());
    assert(k_soft_popcap().len() != k_active_players().len());
    assert(k_soft_popcap() != k_active_players());
    assert(k_hard_popcap().len() != k_active_players().len());
    assert(k_hard_popcap() != k_active_players());
    assert(k_extreme_popcap()[0] != k_active_players()[0]);
    assert(k_extreme_popcap() != k_active_players());
    assert(k_popcap().len() != k_active_players().len());
    assert(k_popcap() != k_active_players());
    assert(k_bunkered().len() != k_active_players().len());
    assert(k_bunkered() != k_active_players());
    assert(k_interviews().len() != k_active_players().len());
    assert(k_interviews() != k_active_players());
    assert(k_shuttle_mode().len() != k_active_players().len());
    assert(k_shuttle_mode() != k_active_players());
    assert(k_shuttle_timer().len() != k_active_players().len());
    assert(k_shuttle_timer() != k_active_players());
    assert(k_public_address()[0] != k_active_players()[0]);
    assert(k_public_address() != k_active_players());
    assert(count_name_from(ms, 0, k_active_players()) == 1) by {
        reveal_with_fuel(count_name_from, 32);
    }
    assert(first_val_from(ms, 0, k_active_players()) == opt_u32_scalar(r.active_players)) by {
        reveal_with_fuel(first_val_from, 32);
    }
}

#[verifier::rlimit(100)]
proof fn lemma_get_public_address(r: ServerInfoView)
    ensures
        spec_get(record_members(r), k_public_address()) == FieldGet::One(opt_str_scalar(r.public_address)),
{
    let ms = record_members(r);
    reveal_strlit("version");
    reveal_strlit("respawn");
    reveal_strlit("enter");
    reveal_strlit("ai");
    reveal_strlit("host");
    reveal_strlit("round_id");
    reveal_strlit("players");
    reveal_strlit("revision");
    reveal_strlit("revision_date");
    reveal_strlit("hub");
    reveal_strlit("identifier");
    reveal_strlit("admins");
    reveal_strlit("gamestate");
    reveal_strlit("map_name");
    reveal_strlit("security_level");
    reveal_strlit("round_duration");
    reveal_strlit("time_dilation_current");
    reveal_strlit("time_dilation_avg");
    reveal_strlit("time_dilation_avg_slow");
    reveal_strlit("time_dilation_avg_fast");
    reveal_strlit("soft_popcap");
    reveal_strlit("hard_popcap");
    reveal_strlit("extreme_popcap");
    reveal_strlit("popcap");
    reveal_strlit("bunkered");
    reveal_strlit("interviews");
    reveal_strlit("shuttle_mode");
    reveal_strlit("shuttle_timer");
    reveal_strlit("active_players");
    reveal_strlit("public_address");
    assert(k_version().len() != k_public_address().len());
    assert(k_version() != k_public_address());
    assert(k_respawn().len() != k_public_address().len());
    assert(k_respawn() != k_public_address());
    assert(k_enter().len() != k_public_address().len());
    assert(k_enter() != k_public_address());
    assert(k_ai().len() != k_public_address().len());
    assert(k_ai() != k_public_address());
    assert(k_host().len() != k_public_address().len());
    assert(k_host() != k_public_address());
    assert(k_round_id().len() != k_public_address().len());
    assert(k_round_id() != k_public_address());
    assert(k_players().len() != k_public_address().len());
    assert(k_players() != k_public_address());
    assert(k_revision().len() != k_public_address().len());
    assert(k_revision() != k_public_address());
    assert(k_revision_date().len() != k_public_address().len());
    assert(k_revision_date() != k_public_address());
    assert(k_hub().len() != k_public_address().len());
    assert(k_hub() != k_public_address());
    assert(k_identifier().len() != k_public_address().len());
    assert(k_identifier() != k_public_address());
    assert(k_admins().len() != k_public_address().len());
    assert(k_admins() != k_public_address());
    assert(k_gamestate().len() != k_public_address().len());
    assert(k_gamestate() != k_public_address());
    assert(k_map_name().len() != k_public_address().len());
    assert(k_map_name() != k_public_address());
    assert(k_security_level()[0] != k_public_address()[0]);
    assert(k_security_level() != k_public_address());
    assert(k_round_duration()[0] != k_public_address()[0]);
    assert(k_round_duration() != k_public_address());
    assert(k_time_dilation_current().len() != k_public_address().len());
    assert(k_time_dilation_current() != k_public_address());
    assert(k_time_dilation_avg().len() != k_public_address().len());
    assert(k_time_dilation_avg() != k_public_address());
    assert(k_time_dilation_avg_slow().len() != k_public_address().len());
    assert(k_time_dilation_avg_slow() != k_public_address());
    assert(k_time_dilation_avg_fast().len() != k_public_address().len());
    assert(k_time_dilation_avg_fast() != k_public_address());
    assert(k_soft_popcap().len() != k_public_address().len());
    assert(k_soft_popcap() != k_public_address());
    assert(k_hard_popcap().len() != k_public_address().len());
    assert(k_hard_popcap() != k_public_address());
    assert(k_extreme_popcap()[0] != k_public_address()[0]);
    assert(k_extreme_popcap() != k_public_address());
    assert(k_popcap().len() != k_public_address().len());
    assert(k_popcap() != k_public_address());
    assert(k_bunkered().len() != k_public_address().len());
    assert(k_bunkered() != k_public_address());
    assert(k_interviews().len() != k_public_address().len());
    assert(k_interviews() != k_public_address());
    assert(k_shuttle_mode().len() != k_public_address().len());
    assert(k_shuttle_mode() != k_public_address());
    assert(k_shuttle_timer().len() != k_public_address().len());
    assert(k_shuttle_timer() != k_public_address());
    assert(k_active_players()[0] != k_public_address()[0]);
    assert(k_active_players() != k_public_address());
    assert(count_name_from(ms, 0, k_public_address()) == 1) by {
        reveal_with_fuel(count_name_from, 32);
    }
    assert(first_val_from(ms, 0, k_public_address()) == opt_str_scalar(r.public_address)) by {
        reveal_with_fuel(first_val_from, 32);
    }
}

/// The single digit tokens of the wire booleans are complete number
/// tokens.
proof fn lemma_b01_token(b: bool)
    ensures
        crate::roundtrip::scalar_wf(b01_scalar(b)),
        b01_scalar(b) == ScalarView::Num(
            if b {
                seq!['1']
            } else {
                seq!['0']
            },
        ),
{
    let t: Seq<char> = if b {
        seq!['1']
    } else {
        seq!['0']
    };
    assert(crate::json::digits_run(t, 1) == 0) by {
        reveal_with_fuel(crate::json::digits_run, 2);
    }
    assert(crate::json::digits_run(t, 0) == 1) by {
        reveal_with_fuel(crate::json::digits_run, 2);
    }
    assert(crate::json::is_number_token(t));
    assert(forall|k: int| 0 <= k < t.len() ==> crate::json::is_numchar(#[trigger] t[k]));
}

/// Every member of the canonical list of a well-formed record carries a
/// scalar the renderer and the scanner agree on.
#[verifier::rlimit(100)]
pub proof fn lemma_record_members_wf(r: ServerInfoView)
    requires
        r.wf(),
    ensures
        crate::roundtrip::members_wf(record_members(r)),
{
    let ms = record_members(r);
    lemma_b01_token(true);
    lemma_b01_token(false);
    crate::json::lemma_dec_of_token(r.players as nat);
    crate::json::lemma_dec_of_token(r.admins as nat);
    crate::json::lemma_dec_of_token(r.gamestate as nat);
    crate::json::lemma_dec_of_token(r.soft_popcap as nat);
    crate::json::lemma_dec_of_token(r.hard_popcap as nat);
    crate::json::lemma_dec_of_token(r.extreme_popcap as nat);
    match r.popcap {
        Some(n) => crate::json::lemma_dec_of_token(n as nat),
        None => {},
    }
    match r.shuttle_timer {
        Some(n) => crate::json::lemma_dec_of_token(n as nat),
        None => {},
    }
    match r.active_players {
        Some(n) => crate::json::lemma_dec_of_token(n as nat),
        None => {},
    }
    assert(crate::roundtrip::members_wf(ms)) by {
        reveal_with_fuel(crate::roundtrip::members_wf, 32);
    }
}

/// Reading the canonical member list of a record through the schema gives
/// back exactly the record: extraction inverts rendering.
#[verifier::rlimit(100)]
pub proof fn lemma_extract_round(r: ServerInfoView)
    ensures
        spec_extract(record_members(r)) == Ok::<ServerInfoView, crate::error::ResponseError>(r),
{
    let ms = record_members(r);
    lemma_get_version(r);
    lemma_get_respawn(r);
    lemma_get_enter(r);
    lemma_get_ai(r);
    lemma_get_host(r);
    lemma_get_round_id(r);
    lemma_get_players(r);
    lemma_get_revision(r);
    lemma_get_revision_date(r);
    lemma_get_hub(r);
    lemma_get_identifier(r);
    lemma_get_admins(r);
    lemma_get_gamestate(r);
    lemma_get_map_name(r);
    lemma_get_security_level(r);
    lemma_get_round_duration(r);
    lemma_get_time_dilation_current(r);
    lemma_get_time_dilation_avg(r);
    lemma_get_time_dilation_avg_slow(r);
    lemma_get_time_dilation_avg_fast(r);
    lemma_get_soft_popcap(r);
    lemma_get_hard_popcap(r);
    lemma_get_extreme_popcap(r);
    lemma_get_popcap(r);
    lemma_get_bunkered(r);
    lemma_get_interviews(r);
    lemma_get_shuttle_mode(r);
    lemma_get_shuttle_timer(r);
    lemma_get_active_players(r);
    lemma_get_public_address(r);
    crate::json::lemma_dec_of_val(r.players as nat);
    crate::json::lemma_dec_of_val(r.admins as nat);
    crate::json::lemma_dec_of_val(r.gamestate as nat);
    crate::json::lemma_dec_of_val(r.soft_popcap as nat);
    crate::json::lemma_dec_of_val(r.hard_popcap as nat);
    crate::json::lemma_dec_of_val(r.extreme_popcap as nat);
    match r.popcap {
        Some(n) => crate::json::lemma_dec_of_val(n as nat),
        None => {},
    }
    match r.shuttle_timer {
        Some(n) => crate::json::lemma_dec_of_val(n as nat),
        None => {},
    }
    match r.active_players {
        Some(n) => crate::json::lemma_dec_of_val(n as nat),
        None => {},
    }
    assert(seq!['1'][0] == '1' && seq!['0'][0] == '0');
    assert(seq!['1'] != seq!['0'] && seq!['0'] != seq!['1']);
    assert(extract_err(ms) is None);
    assert(extract_view(ms) =~= r);
}

/// Each field reader can only fail with a schema-level decode error.
proof fn lemma_reader_classes(g: FieldGet)
    ensures
        crate::schema::req_str(g) is Err ==> crate::schema::err_of(
            crate::schema::req_str(g),
        ).class_spec() == crate::error::ErrorClass::Decode,
        crate::schema::opt_str(g) is Err ==> crate::schema::err_of(
            crate::schema::opt_str(g),
        ).class_spec() == crate::error::ErrorClass::Decode,
        crate::schema::req_u32(g) is Err ==> crate::schema::err_of(
            crate::schema::req_u32(g),
        ).class_spec() == crate::error::ErrorClass::Decode,
        crate::schema::opt_u32(g) is Err ==> crate::schema::err_of(
            crate::schema::opt_u32(g),
        ).class_spec() == crate::error::ErrorClass::Decode,
        crate::schema::req_b01(g) is Err ==> crate::schema::err_of(
            crate::schema::req_b01(g),
        ).class_spec() == crate::error::ErrorClass::Decode,
        crate::schema::opt_b01(g) is Err ==> crate::schema::err_of(
            crate::schema::opt_b01(g),
        ).class_spec() == crate::error::ErrorClass::Decode,
        crate::schema::req_numtext(g) is Err ==> crate::schema::err_of(
            crate::schema::req_numtext(g),
        ).class_spec() == crate::error::ErrorClass::Decode,
{
}

/// Whatever makes the schema read fail, the failure is a decode error,
/// never a transport or framing fault.
#[verifier::rlimit(100)]
pub proof fn lemma_extract_errors_are_decode(ms: Seq<MemberView>)
    ensures
        match spec_extract(ms) {
            Err(e) => e.class_spec() == crate::error::ErrorClass::Decode,
            Ok(_) => true,
        },
{
    lemma_reader_classes(spec_get(ms, k_version()));
    lemma_reader_classes(spec_get(ms, k_respawn()));
    lemma_reader_classes(spec_get(ms, k_enter()));
    lemma_reader_classes(spec_get(ms, k_ai()));
    lemma_reader_classes(spec_get(ms, k_host()));
    lemma_reader_classes(spec_get(ms, k_round_id()));
    lemma_reader_classes(spec_get(ms, k_players()));
    lemma_reader_classes(spec_get(ms, k_revision()));
    lemma_reader_classes(spec_get(ms, k_revision_date()));
    lemma_reader_classes(spec_get(ms, k_hub()));
    lemma_reader_classes(spec_get(ms, k_identifier()));
    lemma_reader_classes(spec_get(ms, k_admins()));
    lemma_reader_classes(spec_get(ms, k_gamestate()));
    lemma_reader_classes(spec_get(ms, k_map_name()));
    lemma_reader_classes(spec_get(ms, k_security_level()));
    lemma_reader_classes(spec_get(ms, k_round_duration()));
    lemma_reader_classes(spec_get(ms, k_time_dilation_current()));
    lemma_reader_classes(spec_get(ms, k_time_dilation_avg()));
    lemma_reader_classes(spec_get(ms, k_time_dilation_avg_slow()));
    lemma_reader_classes(spec_get(ms, k_time_dilation_avg_fast()));
    lemma_reader_classes(spec_get(ms, k_soft_popcap()));
    lemma_reader_classes(spec_get(ms, k_hard_popcap()));
    lemma_reader_classes(spec_get(ms, k_extreme_popcap()));
    lemma_reader_classes(spec_get(ms, k_popcap()));
    lemma_reader_classes(spec_get(ms, k_bunkered()));
    lemma_reader_classes(spec_get(ms, k_interviews()));
    lemma_reader_classes(spec_get(ms, k_shuttle_mode()));
    lemma_reader_classes(spec_get(ms, k_shuttle_timer()));
    lemma_reader_classes(spec_get(ms, k_active_players()));
    lemma_reader_classes(spec_get(ms, k_public_address()));
}

/// A nullable boolean-coded field carrying a number other than zero or
/// one always makes the decode fail as well: null is the only way to
/// leave it unset.
pub proof fn lemma_nonbinary_optional_bool_rejected(ms: Seq<MemberView>, t: Seq<char>)
    requires
        spec_get(ms, k_bunkered()) == FieldGet::One(ScalarView::Num(t)),
        t != seq!['0'],
        t != seq!['1'],
    ensures
        spec_extract(ms) is Err,
        match spec_extract(ms) {
            Err(e) => e.class_spec() == crate::error::ErrorClass::Decode,
            Ok(_) => false,
        },
{
    assert(crate::schema::opt_b01(spec_get(ms, k_bunkered())) is Err);
    if extract_err(ms) is None {
        assert(false);
    }
    lemma_extract_errors_are_decode(ms);
}

/// A boolean-coded field carrying a number other than zero or one always
/// makes the decode fail; the value is never silently coerced.
pub proof fn lemma_nonbinary_bool_rejected(ms: Seq<MemberView>, t: Seq<char>)
    requires
        spec_get(ms, k_respawn()) == FieldGet::One(ScalarView::Num(t)),
        t != seq!['0'],
        t != seq!['1'],
    ensures
        spec_extract(ms) is Err,
        match spec_extract(ms) {
            Err(e) => e.class_spec() == crate::error::ErrorClass::Decode,
            Ok(_) => false,
        },
{
    assert(crate::schema::req_b01(spec_get(ms, k_respawn())) is Err);
    if extract_err(ms) is None {
        assert(false);
    }
    lemma_extract_errors_are_decode(ms);
}

/// The value found under a name among well-formed members is itself a
/// well-formed scalar.
proof fn lemma_first_val_wf(ms: Seq<MemberView>, i: int, name: Seq<char>)
    requires
        0 <= i,
        count_name_from(ms, i, name) > 0,
        forall|k: int|
            0 <= k < ms.len() ==> crate::roundtrip::scalar_wf((#[trigger] ms[k]).value),
    ensures
        crate::roundtrip::scalar_wf(first_val_from(ms, i, name)),
    decreases ms.len() - i,
{
    if i >= ms.len() {
        assert(count_name_from(ms, i, name) == 0);
        assert(false);
    }
    if ms[i].name == name {
    } else {
        lemma_first_val_wf(ms, i + 1, name);
    }
}

/// A fractional metric read out of well-formed members holds a complete
/// number token.
proof fn lemma_numtext_field_wf(ms: Seq<MemberView>, name: Seq<char>)
    requires
        forall|k: int|
            0 <= k < ms.len() ==> crate::roundtrip::scalar_wf((#[trigger] ms[k]).value),
        crate::schema::req_numtext(spec_get(ms, name)) is Ok,
    ensures
        crate::record::wf_number_text(crate::schema::req_numtext(spec_get(ms, name)).unwrap()),
{
    if count_name_from(ms, 0, name) == 0 {
        assert(false);
    }
    if count_name_from(ms, 0, name) >= 2 {
        assert(false);
    }
    lemma_first_val_wf(ms, 0, name);
}

/// A record read out of well-formed members is itself well-formed: its
/// fractional metrics hold complete number tokens, so the record can be
/// rendered again.
pub proof fn lemma_extract_wf(ms: Seq<MemberView>)
    requires
        crate::roundtrip::members_wf(ms),
        spec_extract(ms) is Ok,
    ensures
        spec_extract(ms).unwrap().wf(),
{
    assert forall|k: int|
        0 <= k < ms.len() implies crate::roundtrip::scalar_wf((#[trigger] ms[k]).value) by {
        crate::roundtrip::lemma_members_wf_index(ms, k);
    }
    lemma_numtext_field_wf(ms, k_round_duration());
    lemma_numtext_field_wf(ms, k_time_dilation_current());
    lemma_numtext_field_wf(ms, k_time_dilation_avg());
    lemma_numtext_field_wf(ms, k_time_dilation_avg_slow());
    lemma_numtext_field_wf(ms, k_time_dilation_avg_fast());
}

} // verus!
