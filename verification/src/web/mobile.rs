//! Setting up the app on a phone.
use vstd::prelude::*;
use vstd::string::*;
use crate::clock;
use crate::clock::{utc_text, Moment};
use crate::web::ids;
use crate::web::ids::{is_id, token_of};

verus! {

/// What a phone is set up with.
#[derive(Debug)]
pub struct SetupTokenResponse {
    pub token: String,
    pub server_url: String,
    pub expires_at: String,
}

/// What a phone is set up with, made of an identifier: a token that is good for
/// five minutes.
pub fn setup_token(id: &str, origin: &str, now: &Moment) -> (r: SetupTokenResponse)
    requires
        now.dated(0),
        now.secs + 300 <= clock::CALENDAR_LAST,
    ensures
        r.token@ == token_of(id@),
        r.server_url@ == origin@,
        r.expires_at@ == utc_text((now.secs + 300) as i64, now.nanos, "%Y-%m-%d %H:%M:%S"@),
{
    let m = Moment { secs: now.secs + 300, nanos: now.nanos };
    SetupTokenResponse {
        token: ids::inbound_token(id),
        server_url: origin.to_string(),
        expires_at: clock::format_utc(&m, "%Y-%m-%d %H:%M:%S"),
    }
}

/// What a phone is set up with, under a new token.
pub fn create_setup_token(origin: &str, now: &Moment) -> (r: SetupTokenResponse)
    requires
        now.dated(0),
        now.secs + 300 <= clock::CALENDAR_LAST,
    ensures
        exists|id: Seq<char>| is_id(id) && r.token@ == #[trigger] token_of(id),
        r.server_url@ == origin@,
        r.expires_at@ == utc_text((now.secs + 300) as i64, now.nanos, "%Y-%m-%d %H:%M:%S"@),
{
    let id = ids::new_id();
    setup_token(id.as_str(), origin, now)
}

} // verus!
