use vstd::prelude::*;
use vstd::utf8::{decode_utf8, valid_utf8};
use crate::actor::{delivery_effects, views, Effect};

verus! {

/// Relies on `std::str::from_utf8`: it accepts exactly the byte sequences
/// that are valid UTF-8, and the text is the characters they encode.
#[verifier::external_body]
fn decode_text(data: &Vec<u8>) -> (r: Option<String>)
    ensures
        r is Some <==> valid_utf8(data@),
        r is Some ==> r->Some_0@ == decode_utf8(data@),
{
    std::str::from_utf8(data.as_slice()).ok().map(String::from)
}

/// The effects of one delivered message with the given tag and bytes.
pub fn handle_delivery(delivery_tag: u64, data: &Vec<u8>) -> (r: Vec<Effect>)
    ensures
        views(r@) == delivery_effects(delivery_tag, data@),
{
    let mut r: Vec<Effect> = Vec::new();
    r.push(Effect::Ack { delivery_tag });
    match decode_text(data) {
        Some(text) => r.push(Effect::Forward { delivery_tag, text }),
        None => r.push(Effect::ReportDecodeError { delivery_tag }),
    }
    assert(views(r@) =~= delivery_effects(delivery_tag, data@));
    r
}

} // verus!
