//! The inbound endpoint's fixed assistant profile: the record handed to the
//! platform when a call comes in.  The transport-level tuning knobs the
//! platform reads as fractions (model temperature, voice settings) are
//! added by the transport layer; this settles the profile's plain fields.

use vstd::prelude::*;

use crate::vapi::Assistant;

verus! {

/// The name the inbound assistant answers to.
pub open spec fn spec_inbound_assistant_name() -> Seq<char> {
    "Paula"@
}

/// The first words the inbound assistant says.
pub open spec fn spec_inbound_first_message() -> Seq<char> {
    "Hi, I'm Paula, your personal email assistant."@
}

/// Builds the fixed assistant profile the inbound endpoint answers with:
/// the assistant's name and first message are set, everything else is left
/// unset.
pub fn inbound_assistant() -> (a: Assistant)
    ensures
        a.name.deep_view() == Some(spec_inbound_assistant_name()),
        a.first_message.deep_view() == Some(spec_inbound_first_message()),
        a.language is None,
        a.voicemail_message is None,
        a.end_call_message is None,
        a.forwarding_phone_number is None,
        a.interruptions_enabled is None,
        a.recording_enabled is None,
        a.server_url is None,
        a.id is None,
        a.org_id is None,
{
    Assistant {
        name: Some("Paula".to_owned()),
        language: None,
        first_message: Some("Hi, I'm Paula, your personal email assistant.".to_owned()),
        voicemail_message: None,
        end_call_message: None,
        forwarding_phone_number: None,
        interruptions_enabled: None,
        recording_enabled: None,
        server_url: None,
        id: None,
        org_id: None,
    }
}

} // verus!
