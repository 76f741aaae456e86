//! The long-string actor: hands a string too large for one packet out in
//! client-chosen pieces.

use vstd::prelude::*;

use crate::actor::LongStringActor;
use crate::error::ActorError;
use crate::json::{Json, JVal, jget, jobj2, mk_obj2, str_eq, jobj1};
use crate::stream::StreamBuf;

verus! {

/// How many characters of the string travel inside the first announcement.
pub const INITIAL_LENGTH: usize = 500;

/// The unsigned integer under `key`, or a default where the field is absent
/// or not an unsigned integer.
pub open spec fn uint_or(msg: JVal, key: Seq<char>, default: u64) -> u64 {
    match jget(msg, key) {
        Some(JVal::Uint(u)) => u,
        _ => default,
    }
}

/// The characters a substring request selects: the character range
/// `start..end`, clipped to the string, and empty when it is reversed.
pub open spec fn substring_clip(s: Seq<char>, start: int, end: int) -> Seq<char> {
    let lo = if start < s.len() {
        start
    } else {
        s.len() as int
    };
    let hi = if end < lo {
        lo
    } else if end < s.len() {
        end
    } else {
        s.len() as int
    };
    s.subrange(lo, hi)
}

/// The reply to a substring request.
pub open spec fn substring_reply_val(from: Seq<char>, substring: Seq<char>) -> JVal {
    jobj2("from"@, JVal::Str(from), "substring"@, JVal::Str(substring))
}

/// The announcement of a long string: its actor, its length in characters,
/// and its first characters.
pub open spec fn long_string_obj_val(actor: Seq<char>, s: Seq<char>) -> JVal {
    JVal::Obj(
        seq![
            ("type"@, JVal::Str("longString"@)),
            ("actor"@, JVal::Str(actor)),
            ("length"@, JVal::Uint(s.len() as u64)),
            (
                "initial"@,
                JVal::Str(substring_clip(s, 0, INITIAL_LENGTH as int)),
            ),
        ],
    )
}

/// The first announcement of a long string: its actor, its length in
/// characters, and its first characters.
pub struct LongStringObj {
    pub actor: String,
    pub length: u64,
    pub initial: String,
}

impl LongStringObj {
    /// This announcement as a JSON value.
    pub fn to_json(self) -> (r: Json)
        ensures
            r@ == JVal::Obj(
                seq![
                    ("type"@, JVal::Str("longString"@)),
                    ("actor"@, JVal::Str(self.actor@)),
                    ("length"@, JVal::Uint(self.length)),
                    ("initial"@, JVal::Str(self.initial@)),
                ],
            ),
    {
        let ghost gself = self;
        let mut fields: Vec<(String, Json)> = Vec::new();
        fields.push(("type".to_owned(), Json::of_str("longString")));
        fields.push(("actor".to_owned(), Json::Str(self.actor)));
        fields.push(("length".to_owned(), Json::Uint(self.length)));
        fields.push(("initial".to_owned(), Json::Str(self.initial)));
        let r = Json::Obj(fields);
        proof {
            crate::json::lemma_jflds_of(fields@);
            assert(r@->Obj_0 =~= seq![
                ("type"@, JVal::Str("longString"@)),
                ("actor"@, JVal::Str(gself.actor@)),
                ("length"@, JVal::Uint(gself.length)),
                ("initial"@, JVal::Str(gself.initial@)),
            ]);
        }
        r
    }
}

impl LongStringActor {
    /// The announcement of this string under the given actor identifier.
    pub fn long_string_obj(&self, name: String) -> (r: LongStringObj)
        ensures
            r.actor == name,
            r.length == self.full_string@.len(),
            r.initial@ == substring_clip(self.full_string@, 0, INITIAL_LENGTH as int),
    {
        let len = self.full_string.as_str().unicode_len();
        let cut = if len < INITIAL_LENGTH {
            len
        } else {
            INITIAL_LENGTH
        };
        let initial = self.full_string.as_str().substring_char(0, cut).to_owned();
        proof {
            assert(initial@ =~= substring_clip(self.full_string@, 0, INITIAL_LENGTH as int));
        }
        LongStringObj { actor: name, length: len as u64, initial }
    }

    /// Handles one message addressed to the long-string actor: `substring`
    /// returns the characters between the `start` and `end` fields, both
    /// clipped to the string.
    pub fn handle_message(&self, name: String, msg_type: &str, msg: &Json, stream: &mut StreamBuf)
        -> (r: Result<(), ActorError>)
        ensures
            final(stream).id == old(stream).id,
            old(stream).out().is_prefix_of(final(stream).out()),
            r is Err ==> *final(stream) == *old(stream),
            r is Ok ==> crate::actor::replied_from(old(stream).out(), final(stream).out(), name@),
            msg_type@ == "substring"@ ==> r is Ok && final(stream).out() == old(
                stream,
            ).out().push(
                substring_reply_val(
                    name@,
                    substring_clip(
                        self.full_string@,
                        uint_or(msg@, "start"@, 0) as int,
                        uint_or(msg@, "end"@, self.full_string@.len() as u64) as int,
                    ),
                ),
            ),
            msg_type@ != "substring"@ ==> r == Result::<(), ActorError>::Err(
                ActorError::UnrecognizedPacketType,
            ) && *final(stream) == *old(stream),
    {
        broadcast use crate::registry::group_prefix_lemmas;

        if str_eq(msg_type, "substring") {
            let len = self.full_string.as_str().unicode_len();
            let start_u = match msg.get_uint("start") {
                Some(u) => u,
                None => 0,
            };
            let end_u = match msg.get_uint("end") {
                Some(u) => u,
                None => len as u64,
            };
            let lo: usize = if start_u < len as u64 {
                start_u as usize
            } else {
                len
            };
            let hi: usize = if end_u < lo as u64 {
                lo
            } else if end_u < len as u64 {
                end_u as usize
            } else {
                len
            };
            let substring = self.full_string.as_str().substring_char(lo, hi).to_owned();
            proof {
                assert(substring@ =~= substring_clip(
                    self.full_string@,
                    start_u as int,
                    end_u as int,
                ));
            }
            let reply = mk_obj2("from", Json::Str(name), "substring", Json::Str(substring));
            stream.write_json_packet(reply);
            Ok(())
        } else {
            Err(ActorError::UnrecognizedPacketType)
        }
    }
}

} // verus!
