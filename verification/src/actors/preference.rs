//! The preference actor: answers the client's preference reads.
//!
//! One preference is mapped onto an embedder value; any other key earns the
//! protocol's default value for the requested type. Floating-point
//! preference reads are not supported by this server.

use vstd::prelude::*;

use crate::actor::PreferenceActor;
use crate::error::ActorError;
use crate::json::{Json, JVal, jget_str, jobj2, mk_obj2, str_eq};
use crate::stream::StreamBuf;

verus! {

/// The reply to a boolean preference read.
pub open spec fn bool_reply_val(from: Seq<char>, value: bool) -> JVal {
    jobj2("from"@, JVal::Str(from), "value"@, JVal::Bool(value))
}

/// The reply to a string preference read.
pub open spec fn char_reply_val(from: Seq<char>, value: Seq<char>) -> JVal {
    jobj2("from"@, JVal::Str(from), "value"@, JVal::Str(value))
}

/// The reply to an integer preference read.
pub open spec fn int_reply_val(from: Seq<char>, value: i64) -> JVal {
    jobj2("from"@, JVal::Str(from), "value"@, JVal::Int(value))
}

/// The default answer for a preference this server does not map, per
/// requested type; none for an unsupported request type.
pub open spec fn default_pref_reply(from: Seq<char>, msg_type: Seq<char>) -> Option<JVal> {
    if msg_type == "getBoolPref"@ {
        Some(bool_reply_val(from, false))
    } else if msg_type == "getCharPref"@ {
        Some(char_reply_val(from, Seq::<char>::empty()))
    } else if msg_type == "getIntPref"@ {
        Some(int_reply_val(from, 0))
    } else {
        None
    }
}

impl PreferenceActor {
    /// Writes a boolean preference value to the client.
    pub fn write_bool(&self, name: String, stream: &mut StreamBuf, pref_value: bool) -> (r: Result<
        (),
        ActorError,
    >)
        ensures
            final(stream).id == old(stream).id,
            final(stream).out() == old(stream).out().push(bool_reply_val(name@, pref_value)),
            r is Ok,
    {
        let reply = mk_obj2("from", Json::Str(name), "value", Json::Bool(pref_value));
        stream.write_json_packet(reply);
        Ok(())
    }

    /// Writes a string preference value to the client.
    pub fn write_char(&self, name: String, stream: &mut StreamBuf, pref_value: String) -> (r:
        Result<(), ActorError>)
        ensures
            final(stream).id == old(stream).id,
            final(stream).out() == old(stream).out().push(char_reply_val(name@, pref_value@)),
            r is Ok,
    {
        let reply = mk_obj2("from", Json::Str(name), "value", Json::Str(pref_value));
        stream.write_json_packet(reply);
        Ok(())
    }

    /// Writes an integer preference value to the client.
    pub fn write_int(&self, name: String, stream: &mut StreamBuf, pref_value: i64) -> (r: Result<
        (),
        ActorError,
    >)
        ensures
            final(stream).id == old(stream).id,
            final(stream).out() == old(stream).out().push(int_reply_val(name@, pref_value)),
            r is Ok,
    {
        let reply = mk_obj2("from", Json::Str(name), "value", Json::Int(pref_value));
        stream.write_json_packet(reply);
        Ok(())
    }

    /// Answers a read of a preference this server does not map: the default
    /// of the requested type. Floating-point reads are unsupported.
    pub fn handle_missing_preference(&self, name: String, stream: &mut StreamBuf, msg_type: &str)
        -> (r: Result<(), ActorError>)
        ensures
            final(stream).id == old(stream).id,
            msg_type@ == "getBoolPref"@ ==> r is Ok && final(stream).out() == old(stream).out().push(bool_reply_val(name@, false)),
            msg_type@ == "getCharPref"@ ==> r is Ok && final(stream).out() == old(stream).out().push(char_reply_val(name@, Seq::<char>::empty())),
            msg_type@ == "getIntPref"@ ==> r is Ok && final(stream).out() == old(stream).out().push(int_reply_val(name@, 0)),
            (msg_type@ != "getBoolPref"@ && msg_type@ != "getCharPref"@ && msg_type@
                != "getIntPref"@) ==> r == Result::<(), ActorError>::Err(
                ActorError::UnrecognizedPacketType,
            ) && *final(stream) == *old(stream),
    {
        proof {
            reveal_strlit("getBoolPref");
            reveal_strlit("getCharPref");
            reveal_strlit("getIntPref");
            assert("getBoolPref"@[3] != "getCharPref"@[3]);
            assert("getBoolPref"@.len() != "getIntPref"@.len());
            assert("getCharPref"@.len() != "getIntPref"@.len());
            assert("getBoolPref"@ != "getCharPref"@);
            assert("getBoolPref"@ != "getIntPref"@);
            assert("getCharPref"@ != "getIntPref"@);
        }
        if str_eq(msg_type, "getBoolPref") {
            self.write_bool(name, stream, false)
        } else if str_eq(msg_type, "getCharPref") {
            let empty_value = String::new();
            proof {
                assert(empty_value@ =~= Seq::<char>::empty());
            }
            self.write_char(name, stream, empty_value)
        } else if str_eq(msg_type, "getIntPref") {
            let zero: i64 = 0;
            self.write_int(name, stream, zero)
        } else {
            Err(ActorError::UnrecognizedPacketType)
        }
    }

    /// Handles one message addressed to the preference actor: the `value`
    /// field names the preference to read.
    pub fn handle_message(&self, name: String, msg_type: &str, msg: &Json, stream: &mut StreamBuf)
        -> (r: Result<(), ActorError>)
        ensures
            final(stream).id == old(stream).id,
            old(stream).out().is_prefix_of(final(stream).out()),
            r is Err ==> *final(stream) == *old(stream),
            r is Ok ==> crate::actor::replied_from(old(stream).out(), final(stream).out(), name@),
            crate::json::jget(msg@, "value"@) is None ==> r == Result::<(), ActorError>::Err(
                ActorError::MissingParameter,
            ) && *final(stream) == *old(stream),
            crate::json::jget(msg@, "value"@) matches Some(v) && !(v is Str) ==> r == Result::<
                (),
                ActorError,
            >::Err(ActorError::BadParameterType) && *final(stream) == *old(stream),
            jget_str(msg@, "value"@) == Some("dom.serviceWorkers.enabled"@) ==> r is Ok && final(stream).out() == old(stream).out().push(
                bool_reply_val(name@, self.service_workers_enabled),
            ),
            (jget_str(msg@, "value"@) matches Some(v) && v != "dom.serviceWorkers.enabled"@)
                ==> (match default_pref_reply(name@, msg_type@) {
                Some(p) => r is Ok && final(stream).out() == old(stream).out().push(p),
                None => r == Result::<(), ActorError>::Err(ActorError::UnrecognizedPacketType)
                    && *final(stream) == *old(stream),
            }),
    {
        broadcast use crate::registry::group_prefix_lemmas;

        let value = match msg.get("value") {
            Some(v) => v,
            None => {
                return Err(ActorError::MissingParameter);
            },
        };
        let key = match value {
            Json::Str(s) => s,
            _ => {
                return Err(ActorError::BadParameterType);
            },
        };
        if str_eq(key.as_str(), "dom.serviceWorkers.enabled") {
            self.write_bool(name, stream, self.service_workers_enabled)
        } else {
            self.handle_missing_preference(name, stream, msg_type)
        }
    }
}

} // verus!
