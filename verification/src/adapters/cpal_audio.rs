//! Audio input and output streams.
//!
//! A stream lives on the thread that made it, so the library holds it as a value of any
//! type `S`. Starting runs in two steps: a device is chosen from what the audio system
//! lists, and the outcome of building and playing the stream on it is taken note of.

use crate::adapters::audio_devices::{enumerate_devices, is_text, lists, HostReport};
use crate::domain::error::{Psk31Error, Psk31Result};
use crate::domain::types::AudioDeviceInfo;
use crate::text::same_text;
use vstd::prelude::*;

verus! {

/// Channels of every stream.
pub const STREAM_CHANNELS: u16 = 1;

/// Sample rate of every stream, in hertz: the standard for digital modes.
pub const STREAM_SAMPLE_RATE: u32 = 48_000;

/// What became of a stream on the chosen device.
pub enum StreamOutcome<S> {
    /// The stream could not be built; the text says why.
    BuildFailed(String),
    /// The stream was built and would not play; the text says why.
    PlayFailed(String),
    Playing(S),
}

/// Audio input.
pub struct CpalAudioInput<S> {
    pub stream: Option<S>,
    pub running: bool,
}

/// Audio output.
pub struct CpalAudioOutput<S> {
    pub stream: Option<S>,
    pub running: bool,
}

/// The audio error with this text.
pub open spec fn audio_error<T>(r: Psk31Result<T>, text: Seq<char>) -> bool {
    r matches Err(Psk31Error::Audio(shown)) && shown@ == text
}

/// The first device with this name. Devices without a name are passed over.
pub open spec fn first_named(names: Seq<Option<String>>, id: Seq<char>, at: int) -> bool {
    &&& 0 <= at < names.len()
    &&& is_text(names[at], id)
    &&& forall|i: int| 0 <= i < at ==> !is_text(#[trigger] names[i], id)
}

/// Which device a start uses: the first one with the wanted name. `missing` begins the
/// text of the failure to find one.
pub open spec fn selects(
    listing: Result<Vec<Option<String>>, String>,
    id: Seq<char>,
    missing: Seq<char>,
    r: Psk31Result<usize>,
) -> bool {
    match listing {
        Err(cause) => audio_error(r, "Failed to enumerate devices: "@ + cause@),
        Ok(names) => match r {
            Ok(at) => first_named(names@, id, at as int),
            Err(_) => {
                &&& audio_error(r, missing + id)
                &&& forall|i: int| 0 <= i < names@.len() ==> !is_text(#[trigger] names@[i], id)
            },
        },
    }
}

fn failure<T>(text: &str, detail: &str) -> (r: Psk31Result<T>)
    ensures
        audio_error(r, text@ + detail@),
{
    let mut shown: String = text.to_owned();
    shown.append(detail);
    Err(Psk31Error::Audio(shown))
}

fn select(listing: &Result<Vec<Option<String>>, String>, id: &str, missing: &str) -> (r: Psk31Result<
    usize,
>)
    ensures
        selects(*listing, id@, missing@, r),
{
    let names: &Vec<Option<String>> = match listing {
        Ok(names) => names,
        Err(cause) => {
            return failure("Failed to enumerate devices: ", cause.as_str());
        },
    };
    let mut i: usize = 0;
    while i < names.len()
        invariant
            i <= names@.len(),
            *listing == Ok::<Vec<Option<String>>, String>(*names),
            forall|j: int| 0 <= j < i ==> !is_text(#[trigger] names@[j], id@),
        decreases names@.len() - i,
    {
        if let Some(name) = &names[i] {
            if same_text(name.as_str(), id) {
                return Ok(i);
            }
        }
        i = i + 1;
    }
    failure(missing, id)
}

impl<S> CpalAudioInput<S> {
    pub open spec fn stopped() -> CpalAudioInput<S> {
        CpalAudioInput { stream: None, running: false }
    }

    pub fn new() -> (r: CpalAudioInput<S>)
        ensures
            r == CpalAudioInput::<S>::stopped(),
    {
        CpalAudioInput { stream: None, running: false }
    }

    /// The devices to choose from.
    pub fn list_devices(&self, host: &HostReport) -> (r: Psk31Result<Vec<AudioDeviceInfo>>)
        ensures
            r matches Ok(list) && lists(list@, host.all_devices(), *host),
    {
        enumerate_devices(host)
    }

    /// Start on the input of the audio system with this name. `listing` holds the names of
    /// its inputs, or says why there is no list.
    ///
    /// Returns the position of the device to build the stream on. From then on the stream
    /// counts as running.
    pub fn start(
        &mut self,
        listing: &Result<Vec<Option<String>>, String>,
        device_id: &str,
    ) -> (r: Psk31Result<usize>)
        ensures
            if old(self).running {
                audio_error(r, "Audio stream already running"@)
            } else {
                selects(*listing, device_id@, "Audio device not found: "@, r)
            },
            *final(self) == (CpalAudioInput {
                running: old(self).running || r is Ok,
                ..*old(self)
            }),
    {
        if self.running {
            return Err(Psk31Error::Audio("Audio stream already running".to_owned()));
        }
        let chosen = select(listing, device_id, "Audio device not found: ");
        if chosen.is_ok() {
            self.running = true;
        }
        chosen
    }

    /// Take note of what became of the stream. After a failure the stream still counts as
    /// running, until it is stopped.
    pub fn attach(&mut self, outcome: StreamOutcome<S>) -> (r: Psk31Result<()>)
        ensures
            match outcome {
                StreamOutcome::BuildFailed(cause) => audio_error(
                    r,
                    "Failed to build stream: "@ + cause@,
                ) && *final(self) == *old(self),
                StreamOutcome::PlayFailed(cause) => audio_error(
                    r,
                    "Failed to start stream: "@ + cause@,
                ) && *final(self) == *old(self),
                StreamOutcome::Playing(stream) => r is Ok && *final(self) == (CpalAudioInput {
                    stream: Some(stream),
                    ..*old(self)
                }),
            },
    {
        match outcome {
            StreamOutcome::BuildFailed(cause) => failure(
                "Failed to build stream: ",
                cause.as_str(),
            ),
            StreamOutcome::PlayFailed(cause) => failure(
                "Failed to start stream: ",
                cause.as_str(),
            ),
            StreamOutcome::Playing(stream) => {
                self.stream = Some(stream);
                Ok(())
            },
        }
    }

    /// The audio system reported an error of the running stream.
    pub fn stream_error(&mut self)
        ensures
            *final(self) == (CpalAudioInput { running: false, ..*old(self) }),
    {
        self.running = false;
    }

    /// Stop. Dropping the stream ends the capture.
    pub fn stop(&mut self) -> (r: Psk31Result<()>)
        ensures
            r is Ok,
            *final(self) == CpalAudioInput::<S>::stopped(),
    {
        self.running = false;
        self.stream = None;
        Ok(())
    }

    pub fn is_running(&self) -> (r: bool)
        ensures
            r == self.running,
    {
        self.running
    }
}

impl<S> CpalAudioOutput<S> {
    pub open spec fn stopped() -> CpalAudioOutput<S> {
        CpalAudioOutput { stream: None, running: false }
    }

    pub fn new() -> (r: CpalAudioOutput<S>)
        ensures
            r == CpalAudioOutput::<S>::stopped(),
    {
        CpalAudioOutput { stream: None, running: false }
    }

    /// The devices to choose from.
    pub fn list_devices(&self, host: &HostReport) -> (r: Psk31Result<Vec<AudioDeviceInfo>>)
        ensures
            r matches Ok(list) && lists(list@, host.all_devices(), *host),
    {
        enumerate_devices(host)
    }

    /// Start on the device of the audio system with this name. `listing` holds the names of
    /// all its devices, since it does not list every output as one, or says why there is
    /// no list.
    ///
    /// Returns the position of the device to build the stream on. From then on the stream
    /// counts as running.
    pub fn start(
        &mut self,
        listing: &Result<Vec<Option<String>>, String>,
        device_id: &str,
    ) -> (r: Psk31Result<usize>)
        ensures
            if old(self).running {
                audio_error(r, "Audio output already running"@)
            } else {
                selects(*listing, device_id@, "Audio output device not found: "@, r)
            },
            *final(self) == (CpalAudioOutput {
                running: old(self).running || r is Ok,
                ..*old(self)
            }),
    {
        if self.running {
            return Err(Psk31Error::Audio("Audio output already running".to_owned()));
        }
        let chosen = select(listing, device_id, "Audio output device not found: ");
        if chosen.is_ok() {
            self.running = true;
        }
        chosen
    }

    /// Take note of what became of the stream. After a failure the stream still counts as
    /// running, until it is stopped.
    pub fn attach(&mut self, outcome: StreamOutcome<S>) -> (r: Psk31Result<()>)
        ensures
            match outcome {
                StreamOutcome::BuildFailed(cause) => audio_error(
                    r,
                    "Failed to build output stream: "@ + cause@,
                ) && *final(self) == *old(self),
                StreamOutcome::PlayFailed(cause) => audio_error(
                    r,
                    "Failed to start output stream: "@ + cause@,
                ) && *final(self) == *old(self),
                StreamOutcome::Playing(stream) => r is Ok && *final(self) == (CpalAudioOutput {
                    stream: Some(stream),
                    ..*old(self)
                }),
            },
    {
        match outcome {
            StreamOutcome::BuildFailed(cause) => failure(
                "Failed to build output stream: ",
                cause.as_str(),
            ),
            StreamOutcome::PlayFailed(cause) => failure(
                "Failed to start output stream: ",
                cause.as_str(),
            ),
            StreamOutcome::Playing(stream) => {
                self.stream = Some(stream);
                Ok(())
            },
        }
    }

    /// The audio system reported an error of the running stream.
    pub fn stream_error(&mut self)
        ensures
            *final(self) == (CpalAudioOutput { running: false, ..*old(self) }),
    {
        self.running = false;
    }

    /// Stop. Dropping the stream ends the playback.
    pub fn stop(&mut self) -> (r: Psk31Result<()>)
        ensures
            r is Ok,
            *final(self) == CpalAudioOutput::<S>::stopped(),
    {
        self.running = false;
        self.stream = None;
        Ok(())
    }

    pub fn is_running(&self) -> (r: bool)
        ensures
            r == self.running,
    {
        self.running
    }
}

} // verus!
