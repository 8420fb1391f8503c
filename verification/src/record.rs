use vstd::prelude::*;

use crate::json::{is_number_token, is_numchar};

verus! {

/// A decoded status payload.  Boolean flags are carried on the wire as the
/// integers zero and one; fractional metrics are carried as JSON number
/// tokens and kept here as their exact digit text, so that nothing is
/// rounded inside the library.
#[derive(Debug)]
pub struct ServerInfo {
    pub version: String,
    pub respawn: bool,
    pub enter: bool,
    pub ai: bool,
    pub host: Option<String>,
    pub round_id: Option<String>,
    pub players: u32,
    pub revision: String,
    pub revision_date: String,
    pub hub: bool,
    pub identifier: String,
    pub admins: u32,
    pub gamestate: u32,
    pub map_name: String,
    pub security_level: String,
    pub round_duration: String,
    pub time_dilation_current: String,
    pub time_dilation_avg: String,
    pub time_dilation_avg_slow: String,
    pub time_dilation_avg_fast: String,
    pub soft_popcap: u32,
    pub hard_popcap: u32,
    pub extreme_popcap: u32,
    pub popcap: Option<u32>,
    pub bunkered: Option<bool>,
    pub interviews: Option<bool>,
    pub shuttle_mode: Option<String>,
    pub shuttle_timer: Option<u32>,
    pub active_players: Option<u32>,
    pub public_address: Option<String>,
}

/// The mathematical model of a [`ServerInfo`]: every text field as its
/// character sequence.
#[verifier::ext_equal]
pub struct ServerInfoView {
    pub version: Seq<char>,
    pub respawn: bool,
    pub enter: bool,
    pub ai: bool,
    pub host: Option<Seq<char>>,
    pub round_id: Option<Seq<char>>,
    pub players: u32,
    pub revision: Seq<char>,
    pub revision_date: Seq<char>,
    pub hub: bool,
    pub identifier: Seq<char>,
    pub admins: u32,
    pub gamestate: u32,
    pub map_name: Seq<char>,
    pub security_level: Seq<char>,
    pub round_duration: Seq<char>,
    pub time_dilation_current: Seq<char>,
    pub time_dilation_avg: Seq<char>,
    pub time_dilation_avg_slow: Seq<char>,
    pub time_dilation_avg_fast: Seq<char>,
    pub soft_popcap: u32,
    pub hard_popcap: u32,
    pub extreme_popcap: u32,
    pub popcap: Option<u32>,
    pub bunkered: Option<bool>,
    pub interviews: Option<bool>,
    pub shuttle_mode: Option<Seq<char>>,
    pub shuttle_timer: Option<u32>,
    pub active_players: Option<u32>,
    pub public_address: Option<Seq<char>>,
}

pub open spec fn view_opt_string(o: Option<String>) -> Option<Seq<char>> {
    match o {
        Some(s) => Some(s@),
        None => None,
    }
}

impl View for ServerInfo {
    type V = ServerInfoView;

    open spec fn view(&self) -> ServerInfoView {
        ServerInfoView {
            version: self.version@,
            respawn: self.respawn,
            enter: self.enter,
            ai: self.ai,
            host: view_opt_string(self.host),
            round_id: view_opt_string(self.round_id),
            players: self.players,
            revision: self.revision@,
            revision_date: self.revision_date@,
            hub: self.hub,
            identifier: self.identifier@,
            admins: self.admins,
            gamestate: self.gamestate,
            map_name: self.map_name@,
            security_level: self.security_level@,
            round_duration: self.round_duration@,
            time_dilation_current: self.time_dilation_current@,
            time_dilation_avg: self.time_dilation_avg@,
            time_dilation_avg_slow: self.time_dilation_avg_slow@,
            time_dilation_avg_fast: self.time_dilation_avg_fast@,
            soft_popcap: self.soft_popcap,
            hard_popcap: self.hard_popcap,
            extreme_popcap: self.extreme_popcap,
            popcap: self.popcap,
            bunkered: self.bunkered,
            interviews: self.interviews,
            shuttle_mode: view_opt_string(self.shuttle_mode),
            shuttle_timer: self.shuttle_timer,
            active_players: self.active_players,
            public_address: view_opt_string(self.public_address),
        }
    }
}

/// A fractional metric as carried on the wire: one complete JSON number
/// token, made of number characters only.
pub open spec fn wf_number_text(t: Seq<char>) -> bool {
    is_number_token(t) && (forall|k: int| 0 <= k < t.len() ==> is_numchar(#[trigger] t[k]))
}

impl ServerInfoView {
    /// A record the codec can carry: each fractional metric holds a valid
    /// number token.
    pub open spec fn wf(self) -> bool {
        &&& wf_number_text(self.round_duration)
        &&& wf_number_text(self.time_dilation_current)
        &&& wf_number_text(self.time_dilation_avg)
        &&& wf_number_text(self.time_dilation_avg_slow)
        &&& wf_number_text(self.time_dilation_avg_fast)
    }
}

pub(crate) fn clone_opt_string(o: &Option<String>) -> (r: Option<String>)
    ensures
        r == o,
{
    match o {
        Some(s) => Some(s.clone()),
        None => None,
    }
}

impl Clone for ServerInfo {
    /// An exact copy, field for field.
    fn clone(&self) -> (r: Self)
        ensures
            r == *self,
    {
        ServerInfo {
            version: self.version.clone(),
            respawn: self.respawn,
            enter: self.enter,
            ai: self.ai,
            host: clone_opt_string(&self.host),
            round_id: clone_opt_string(&self.round_id),
            players: self.players,
            revision: self.revision.clone(),
            revision_date: self.revision_date.clone(),
            hub: self.hub,
            identifier: self.identifier.clone(),
            admins: self.admins,
            gamestate: self.gamestate,
            map_name: self.map_name.clone(),
            security_level: self.security_level.clone(),
            round_duration: self.round_duration.clone(),
            time_dilation_current: self.time_dilation_current.clone(),
            time_dilation_avg: self.time_dilation_avg.clone(),
            time_dilation_avg_slow: self.time_dilation_avg_slow.clone(),
            time_dilation_avg_fast: self.time_dilation_avg_fast.clone(),
            soft_popcap: self.soft_popcap,
            hard_popcap: self.hard_popcap,
            extreme_popcap: self.extreme_popcap,
            popcap: self.popcap,
            bunkered: self.bunkered,
            interviews: self.interviews,
            shuttle_mode: clone_opt_string(&self.shuttle_mode),
            shuttle_timer: self.shuttle_timer,
            active_players: self.active_players,
            public_address: clone_opt_string(&self.public_address),
        }
    }
}

} // verus!
