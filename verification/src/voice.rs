//! Voice calls: audio settings and the calls in progress.

use vstd::prelude::*;

use crate::clock::{new_uuid, now_millis, uuid_string, uuid_text};
use crate::error::AgentError;
use crate::text::{push_str, to_owned_string};

verus! {

/// Audio settings for voice calls.
#[derive(Debug, Clone, Copy)]
pub struct VoiceConfig {
    pub sample_rate: u32,
    pub channels: u16,
    pub encoding: AudioEncoding,
    pub enable_transcription: bool,
    pub enable_synthesis: bool,
}

impl Default for VoiceConfig {
    /// 48 kHz stereo Opus, with transcription and synthesis enabled.
    fn default() -> (c: Self)
        ensures
            c.sample_rate == 48000,
            c.channels == 2,
            c.encoding == AudioEncoding::Opus,
            c.enable_transcription,
            c.enable_synthesis,
    {
        VoiceConfig {
            sample_rate: 48000,
            channels: 2,
            encoding: AudioEncoding::Opus,
            enable_transcription: true,
            enable_synthesis: true,
        }
    }
}

/// Audio encodings.
#[derive(Debug, Clone, Copy, PartialEq, Eq, Structural)]
pub enum AudioEncoding {
    Pcm,
    Opus,
    Aac,
    Mp3,
}

/// A call in progress, with a 128-bit ID and its start in milliseconds
/// since the epoch.
#[derive(Debug)]
pub struct ActiveCall {
    pub id: u128,
    pub channel_id: String,
    pub started_at: i64,
    pub participants: Vec<String>,
}

/// Handles voice calls.
#[derive(Debug)]
pub struct VoiceHandler {
    config: VoiceConfig,
    active_calls: Vec<ActiveCall>,
}

/// The IDs of a run of calls.
pub open spec fn call_ids(calls: Seq<ActiveCall>) -> Seq<u128> {
    calls.map_values(|c: ActiveCall| c.id)
}

impl VoiceHandler {
    /// A handler with no calls.
    pub fn new(config: VoiceConfig) -> (h: Self)
        ensures
            h.config() == config,
            h.calls().len() == 0,
    {
        VoiceHandler { config, active_calls: Vec::new() }
    }

    /// The handler's settings.
    pub closed spec fn config(&self) -> VoiceConfig {
        self.config
    }

    /// The calls in progress, oldest first.
    pub closed spec fn calls(&self) -> Seq<ActiveCall> {
        self.active_calls@
    }

    /// Starts a call on a channel with a fresh ID, and returns the ID.
    pub fn join_channel(&mut self, channel_id: &str) -> (id: u128)
        ensures
            final(self).config() == old(self).config(),
            final(self).calls().drop_last() == old(self).calls(),
            final(self).calls().len() == old(self).calls().len() + 1,
            final(self).calls().last().id == id,
            final(self).calls().last().channel_id@ == channel_id@,
            final(self).calls().last().participants@.len() == 0,
    {
        let call = ActiveCall {
            id: new_uuid(),
            channel_id: to_owned_string(channel_id),
            started_at: now_millis(),
            participants: Vec::new(),
        };
        let id = call.id;
        let ghost before = self.active_calls@;
        self.active_calls.push(call);
        assert(self.active_calls@.drop_last() =~= before);
        id
    }

    /// Ends the first call with the given ID; an unknown ID is an error
    /// naming the call.
    pub fn leave_channel(&mut self, call_id: u128) -> (r: Result<(), AgentError>)
        ensures
            final(self).config() == old(self).config(),
            r is Ok <==> call_ids(old(self).calls()).contains(call_id),
            r is Ok ==> exists|i: int|
                0 <= i < old(self).calls().len() && old(self).calls()[i].id == call_id && (forall|j: int|
                    0 <= j < i ==> old(self).calls()[j].id != call_id) && final(self).calls() == old(
                    self,
                ).calls().remove(i),
            r matches Err(e) ==> final(self).calls() == old(self).calls() && e == AgentError::NotFound(
                e->NotFound_0,
            ) && e->NotFound_0@ == "Call "@ + uuid_text(call_id),
    {
        let mut i: usize = 0;
        while i < self.active_calls.len()
            invariant
                i <= self.active_calls.len(),
                self.active_calls@ == old(self).active_calls@,
                self.config == old(self).config,
                forall|j: int| 0 <= j < i ==> self.active_calls@[j].id != call_id,
            decreases self.active_calls.len() - i,
        {
            if self.active_calls[i].id == call_id {
                self.active_calls.remove(i);
                assert(call_ids(old(self).calls())[i as int] == call_id);
                return Ok(());
            }
            i = i + 1;
        }
        assert(!call_ids(old(self).calls()).contains(call_id)) by {
            if call_ids(old(self).calls()).contains(call_id) {
                let k = choose|k: int| 0 <= k < call_ids(old(self).calls()).len() && call_ids(old(self).calls())[k] == call_id;
                assert(old(self).calls()[k].id == call_id);
            }
        }
        let mut msg = to_owned_string("Call ");
        let id_text = uuid_string(call_id);
        push_str(&mut msg, id_text.as_str());
        Err(AgentError::NotFound(msg))
    }

    /// Checks that a call is in progress before streaming audio to it.
    pub fn stream_audio(&self, call_id: u128, _audio_data: &[u8]) -> (r: Result<(), AgentError>)
        ensures
            r is Ok <==> call_ids(self.calls()).contains(call_id),
            r matches Err(e) ==> e == AgentError::NotFound(e->NotFound_0) && e->NotFound_0@ == "Call "@
                + uuid_text(call_id),
    {
        let mut i: usize = 0;
        while i < self.active_calls.len()
            invariant
                i <= self.active_calls.len(),
                forall|j: int| 0 <= j < i ==> self.active_calls@[j].id != call_id,
            decreases self.active_calls.len() - i,
        {
            if self.active_calls[i].id == call_id {
                assert(call_ids(self.calls())[i as int] == call_id);
                return Ok(());
            }
            i = i + 1;
        }
        assert(!call_ids(self.calls()).contains(call_id)) by {
            if call_ids(self.calls()).contains(call_id) {
                let k = choose|k: int| 0 <= k < call_ids(self.calls()).len() && call_ids(self.calls())[k] == call_id;
                assert(self.calls()[k].id == call_id);
            }
        }
        let mut msg = to_owned_string("Call ");
        let id_text = uuid_string(call_id);
        push_str(&mut msg, id_text.as_str());
        Err(AgentError::NotFound(msg))
    }

    /// Transcribes audio when transcription is enabled; no speech service
    /// is attached, so the text is empty.
    pub fn transcribe(&self, _audio_data: &[u8]) -> (r: Result<String, AgentError>)
        ensures
            self.config().enable_transcription ==> (r matches Ok(s) && s@.len() == 0),
            !self.config().enable_transcription ==> (r matches Err(e) && e == AgentError::Configuration(
                e->Configuration_0,
            ) && e->Configuration_0@ == "Transcription not enabled"@),
    {
        if !self.config.enable_transcription {
            return Err(AgentError::Configuration(to_owned_string("Transcription not enabled")));
        }
        Ok(String::new())
    }

    /// Synthesizes speech when synthesis is enabled; no speech service is
    /// attached, so the audio is empty.
    pub fn synthesize(&self, _text: &str) -> (r: Result<Vec<u8>, AgentError>)
        ensures
            self.config().enable_synthesis ==> (r matches Ok(v) && v@.len() == 0),
            !self.config().enable_synthesis ==> (r matches Err(e) && e == AgentError::Configuration(
                e->Configuration_0,
            ) && e->Configuration_0@ == "Synthesis not enabled"@),
    {
        if !self.config.enable_synthesis {
            return Err(AgentError::Configuration(to_owned_string("Synthesis not enabled")));
        }
        Ok(Vec::new())
    }

    /// The calls in progress.
    pub fn active_calls(&self) -> (s: &[ActiveCall])
        ensures
            s@ == self.calls(),
    {
        self.active_calls.as_slice()
    }
}

impl Default for VoiceHandler {
    fn default() -> (h: Self)
        ensures
            h.config().sample_rate == 48000,
            h.config().channels == 2,
            h.config().encoding == AudioEncoding::Opus,
            h.config().enable_transcription,
            h.config().enable_synthesis,
            h.calls().len() == 0,
    {
        VoiceHandler::new(VoiceConfig::default())
    }
}

} // verus!
