use vstd::prelude::*;

use crate::message::opt_str;

verus! {

/// The canonical record of one inbound message.
#[derive(Debug, Clone)]
pub struct RithmicResponse {
    pub template_id: i32,
    /// The correlation tag echoed in `user_msg`, if any.
    pub request_id: Option<String>,
    /// The first element of `rp_code`, if any.
    pub rp_code: Option<String>,
    /// The error text of a reply whose code is not "0".
    pub error: Option<String>,
    pub is_update: bool,
    /// The schema-encoded message.
    pub payload: Vec<u8>,
}

/// Template ids of the update streams: last trade, best bid/offer, order and
/// exchange-order notifications, bracket updates, instrument and account pnl
/// updates, time bars and tick bars.
pub open spec fn is_update_template(template_id: i32) -> bool {
    template_id == 150 || template_id == 151 || template_id == 351 || template_id == 352
        || template_id == 353 || template_id == 450 || template_id == 451 || template_id == 250
        || template_id == 251
}

/// A decoded message is an update when its template is on the allowlist or it
/// carries no correlation tag.
pub open spec fn is_update_of(template_id: i32, user_msg: Seq<String>) -> bool {
    is_update_template(template_id) || user_msg.len() == 0
}

/// Whether a template id is on the update-stream allowlist.
pub fn update_template(template_id: i32) -> (r: bool)
    ensures
        r == is_update_template(template_id),
{
    template_id == 150 || template_id == 151 || template_id == 351 || template_id == 352
        || template_id == 353 || template_id == 450 || template_id == 451 || template_id == 250
        || template_id == 251
}

/// The error text that an `rp_code` list carries: none when it is empty or its
/// code is "0"; else its second element, or the code itself when there is none.
pub open spec fn error_of(rp_code: Seq<Seq<char>>) -> Option<Seq<char>> {
    if rp_code.len() == 0 || rp_code[0] == "0"@ {
        None
    } else if rp_code.len() >= 2 {
        Some(rp_code[1])
    } else {
        Some(rp_code[0])
    }
}

/// The first element of a list of strings, as characters.
pub open spec fn first_of(s: Seq<String>) -> Option<Seq<char>> {
    if s.len() == 0 {
        None
    } else {
        Some(s[0]@)
    }
}

/// Builds the canonical record from the fields every message of the schema
/// carries: its template id, `user_msg` and `rp_code`.
pub fn decode_response(template_id: i32, user_msg: Vec<String>, rp_code: Vec<String>, payload: Vec<u8>) -> (r: RithmicResponse)
    ensures
        r.template_id == template_id,
        opt_str(r.request_id) == first_of(user_msg@),
        opt_str(r.rp_code) == first_of(rp_code@),
        opt_str(r.error) == error_of(rp_code@.map_values(|s: String| s@)),
        r.is_update == is_update_of(template_id, user_msg@),
        r.payload@ == payload@,
{
    let ghost codes = rp_code@.map_values(|s: String| s@);
    let request_id = if user_msg.len() > 0 {
        Some(user_msg[0].clone())
    } else {
        None
    };
    let zero = "0".to_string();
    proof {
        reveal_strlit("0");
    }
    let (code, error) = if rp_code.len() == 0 {
        (None, None)
    } else if rp_code[0] == zero {
        (Some(rp_code[0].clone()), None)
    } else if rp_code.len() >= 2 {
        (Some(rp_code[0].clone()), Some(rp_code[1].clone()))
    } else {
        (Some(rp_code[0].clone()), Some(rp_code[0].clone()))
    };
    let is_update = update_template(template_id) || user_msg.len() == 0;
    RithmicResponse { template_id, request_id, rp_code: code, error, is_update, payload }
}

/// A message on the update allowlist that carries no tag is an update; a
/// message off the allowlist that carries a tag is a reply, whose tag is the
/// first element of its `user_msg`.
pub proof fn lemma_update_or_reply(template_id: i32, user_msg: Seq<String>)
    ensures
        is_update_template(template_id) && user_msg.len() == 0 ==> is_update_of(template_id, user_msg),
        !is_update_template(template_id) && user_msg.len() > 0 ==> !is_update_of(template_id, user_msg)
            && first_of(user_msg) == Some(user_msg[0]@),
{
}

} // verus!
