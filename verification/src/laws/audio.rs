//! Audio devices and streams.

use crate::adapters::audio_devices::{
    distinct_names, enumerate_devices, list_holds_every_device_once, HostDevice, HostReport,
};
use crate::adapters::cpal_audio::{CpalAudioInput, CpalAudioOutput, StreamOutcome};
use crate::domain::error::Psk31Result;
use crate::domain::types::AudioDeviceInfo;
use vstd::prelude::*;

verus! {

/// The device goes by this name.
pub open spec fn goes_by(device: HostDevice, name: Seq<char>) -> bool {
    match device.name {
        Some(own) => own@ == name,
        None => name == "Unknown"@,
    }
}

/// One of the devices goes by this name.
pub open spec fn some_device(devices: Seq<HostDevice>, name: Seq<char>) -> bool {
    exists|i: int| 0 <= i < devices.len() && #[trigger] goes_by(devices[i], name)
}

/// A device of the first name is reported before any device of the second one.
pub open spec fn reported_before(
    devices: Seq<HostDevice>,
    first: Seq<char>,
    second: Seq<char>,
) -> bool {
    exists|i: int|
        {
            &&& 0 <= i < devices.len()
            &&& #[trigger] goes_by(devices[i], first)
            &&& forall|j: int| 0 <= j <= i ==> !#[trigger] goes_by(devices[j], second)
        }
}

/// The list has an entry of this name.
pub open spec fn has_entry(list: Seq<AudioDeviceInfo>, name: Seq<char>) -> bool {
    exists|k: int| 0 <= k < list.len() && (#[trigger] list[k]).name@ == name
}

/// The list has an entry under a name if and only if one of the devices goes by it, and
/// never two. The entries stand in the order in which their names are first reported. An
/// audio system that cannot list its devices gives an empty list.
pub proof fn every_device_has_one_entry(host: &HostReport, r: Psk31Result<Vec<AudioDeviceInfo>>)
    requires
        call_ensures(enumerate_devices, (host,), r),
    ensures
        r is Ok,
        host.devices is None ==> r->Ok_0@.len() == 0,
        host.devices is Some ==> forall|name: Seq<char>|
            has_entry(r->Ok_0@, name) <==> some_device(host.devices->0@, name),
        forall|k: int, l: int|
            0 <= k < l < r->Ok_0@.len() ==> (#[trigger] r->Ok_0@[k]).name@ != (
            #[trigger] r->Ok_0@[l]).name@,
        forall|k: int|
            0 <= k < r->Ok_0@.len() ==> (#[trigger] r->Ok_0@[k]).id@ == r->Ok_0@[k].name@,
        host.devices is Some ==> forall|k: int, l: int|
            0 <= k < l < r->Ok_0@.len() ==> reported_before(
                host.devices->0@,
                (#[trigger] r->Ok_0@[k]).name@,
                (#[trigger] r->Ok_0@[l]).name@,
            ),
{
    let list = r->Ok_0@;
    let devices = host.all_devices();
    let names = distinct_names(devices);
    list_holds_every_device_once(devices);
    assert(list.len() == names.len());
    assert forall|k: int| 0 <= k < list.len() implies (#[trigger] list[k]).name@ == names[k]
        && list[k].id@ == names[k] by {}
    assert forall|name: Seq<char>| has_entry(list, name) <==> some_device(devices, name) by {
        if has_entry(list, name) {
            let k = choose|k: int| 0 <= k < list.len() && (#[trigger] list[k]).name@ == name;
            lemma_name_is_reported(devices, k);
        }
        if some_device(devices, name) {
            let i = choose|i: int| 0 <= i < devices.len() && #[trigger] goes_by(devices[i], name);
            assert(names.contains(devices[i].shown_name()));
            let k = choose|k: int| 0 <= k < names.len() && names[k] == name;
            assert(list[k].name@ == name);
        }
    }
    assert forall|k: int, l: int| 0 <= k < l < list.len() implies reported_before(
        devices,
        (#[trigger] list[k]).name@,
        (#[trigger] list[l]).name@,
    ) by {
        lemma_names_in_order(devices, k, l);
    }
}

proof fn lemma_name_is_reported(devices: Seq<HostDevice>, k: int)
    requires
        0 <= k < distinct_names(devices).len(),
    ensures
        some_device(devices, distinct_names(devices)[k]),
    decreases devices.len(),
{
    if devices.len() > 0 {
        let before = devices.drop_last();
        let name = distinct_names(devices)[k];
        if k < distinct_names(before).len() {
            lemma_name_is_reported(before, k);
            let i = choose|i: int| 0 <= i < before.len() && #[trigger] goes_by(before[i], name);
            assert(goes_by(devices[i], name));
        } else {
            assert(goes_by(devices[devices.len() - 1], name));
        }
    }
}

proof fn lemma_names_in_order(devices: Seq<HostDevice>, k: int, l: int)
    requires
        0 <= k < l < distinct_names(devices).len(),
    ensures
        reported_before(devices, distinct_names(devices)[k], distinct_names(devices)[l]),
    decreases devices.len(),
{
    if devices.len() > 0 {
        let before = devices.drop_last();
        let names = distinct_names(before);
        let first = distinct_names(devices)[k];
        let second = distinct_names(devices)[l];
        if l < names.len() {
            lemma_names_in_order(before, k, l);
            let i = choose|i: int|
                {
                    &&& 0 <= i < before.len()
                    &&& #[trigger] goes_by(before[i], first)
                    &&& forall|j: int| 0 <= j <= i ==> !#[trigger] goes_by(before[j], second)
                };
            assert(goes_by(devices[i], first));
            assert forall|j: int| 0 <= j <= i implies !#[trigger] goes_by(devices[j], second) by {
                assert(!goes_by(before[j], second));
            }
        } else {
            lemma_name_is_reported(before, k);
            let i = choose|i: int| 0 <= i < before.len() && #[trigger] goes_by(before[i], first);
            assert(goes_by(devices[i], first));
            list_holds_every_device_once(before);
            assert forall|j: int| 0 <= j <= i implies !#[trigger] goes_by(devices[j], second) by {
                assert(before[j] == devices[j]);
                assert(names.contains(before[j].shown_name()));
                assert(!names.contains(second));
            }
        }
    }
}

/// The audio system counts this name among its outputs.
pub open spec fn counted_as_output(host: HostReport, name: Seq<char>) -> bool {
    &&& host.outputs is Some
    &&& exists|i: int|
        0 <= i < host.outputs->0@.len() && (#[trigger] host.outputs->0@[i]) is Some
            && host.outputs->0@[i]->0@ == name
}

/// What an entry says of its device. It is a default if and only if its name is the one of
/// the default input or the one of the default output, whatever sides the device has. It is
/// an input if and only if a device of its name has an input. It is an output if and only
/// if the audio system counts it as one or a device of its name can be one, and unverified
/// in the second case alone.
pub proof fn entries_describe_their_devices(
    host: &HostReport,
    r: Psk31Result<Vec<AudioDeviceInfo>>,
    k: int,
)
    requires
        call_ensures(enumerate_devices, (host,), r),
        r is Ok,
        0 <= k < r->Ok_0@.len(),
    ensures
        ({
            let entry = r->Ok_0@[k];
            let name = entry.name@;
            let can_be_input = exists|i: int|
                0 <= i < host.devices->0@.len() && #[trigger] goes_by(host.devices->0@[i], name)
                    && host.devices->0@[i].has_input;
            let can_be_output = exists|i: int|
                0 <= i < host.devices->0@.len() && #[trigger] goes_by(host.devices->0@[i], name)
                    && host.devices->0@[i].has_output;
            let counted = counted_as_output(*host, name);
            &&& host.devices is Some
            &&& entry.is_default <==> (host.default_input is Some && host.default_input->0@ == name)
                || (host.default_output is Some && host.default_output->0@ == name)
            &&& entry.is_input <==> can_be_input
            &&& entry.is_output <==> counted || can_be_output
            &&& entry.output_unverified <==> can_be_output && !counted
        }),
{
    let entry = r->Ok_0@[k];
    let name = entry.name@;
    let devices = host.all_devices();
    assert(name == distinct_names(devices)[k]);
    assert forall|i: int| 0 <= i < devices.len() implies (goes_by(devices[i], name)
        == ((#[trigger] devices[i]).shown_name() == name)) by {}
    if host.outputs is Some {
        let outputs = host.outputs->0@;
        assert(host.confirms(name) == counted_as_output(*host, name)) by {
            assert(forall|i: int|
                0 <= i < outputs.len() ==> (#[trigger] outputs[i] is Some && outputs[i]->0@ == name)
                    == crate::adapters::audio_devices::is_text(outputs[i], name));
        }
    }
}

/// Two entries say the same.
pub open spec fn same_entry(a: AudioDeviceInfo, b: AudioDeviceInfo) -> bool {
    &&& a.id@ == b.id@
    &&& a.name@ == b.name@
    &&& a.is_input == b.is_input
    &&& a.is_output == b.is_output
    &&& a.is_default == b.is_default
    &&& a.output_unverified == b.output_unverified
}

/// Audio input starts on the first device of the wanted name, if none is running yet. It counts
/// as running from then on. Whatever stands in the way is named, and leaves everything as
/// it was.
pub proof fn input_starts_on_the_wanted_device<S>()
    ensures
        forall|
            me: &mut CpalAudioInput<S>,
            listing: &Result<Vec<Option<String>>, String>,
            id: &str,
            r: Psk31Result<usize>,
        | #[trigger]
            call_ensures(CpalAudioInput::<S>::start, (me, listing, id), r) ==> {
                let before = *me;
                let after = *final(me);
                &&& after.stream == before.stream
                &&& after.running <==> before.running || r is Ok
                &&& before.running ==> r is Err && r->Err_0 is Audio && r->Err_0->Audio_0@
                    == "Audio stream already running"@
                &&& !before.running && *listing is Err ==> r is Err && r->Err_0 is Audio
                    && r->Err_0->Audio_0@ == "Failed to enumerate devices: "@ + listing->Err_0@
                &&& r is Ok ==> {
                    let names = listing->Ok_0@;
                    &&& *listing is Ok
                    &&& r->Ok_0 < names.len()
                    &&& names[r->Ok_0 as int] is Some
                    &&& names[r->Ok_0 as int]->0@ == id@
                    &&& forall|i: int|
                        0 <= i < r->Ok_0 && (#[trigger] names[i]) is Some ==> names[i]->0@ != id@
                }
                &&& !before.running && *listing is Ok && r is Err ==> {
                    let names = listing->Ok_0@;
                    &&& r->Err_0 is Audio
                    &&& r->Err_0->Audio_0@ == "Audio device not found: "@ + id@
                    &&& forall|i: int|
                        0 <= i < names.len() && (#[trigger] names[i]) is Some ==> names[i]->0@
                            != id@
                }
            },
{
}

/// What becomes of a stream: one that plays is kept, any failure is passed on with its cause
/// and changes nothing. An error of the audio system takes the stream out of running, and a
/// stop lets go of it; after that a start is free again.
pub proof fn input_keeps_what_plays<S>()
    ensures
        forall|me: &mut CpalAudioInput<S>, outcome: StreamOutcome<S>, r: Psk31Result<()>| #[trigger]
            call_ensures(CpalAudioInput::<S>::attach, (me, outcome), r) ==> {
                &&& final(me).running == (*me).running
                &&& r is Ok <==> outcome is Playing
                &&& outcome is Playing ==> final(me).stream == Some(outcome->Playing_0)
                &&& r is Err ==> final(me).stream == (*me).stream && r->Err_0 is Audio
                &&& outcome is BuildFailed ==> r->Err_0->Audio_0@ == "Failed to build stream: "@
                    + outcome->BuildFailed_0@
                &&& outcome is PlayFailed ==> r->Err_0->Audio_0@ == "Failed to start stream: "@
                    + outcome->PlayFailed_0@
            },
        forall|me: &mut CpalAudioInput<S>, r: ()| #[trigger]
            call_ensures(CpalAudioInput::<S>::stream_error, (me,), r) ==> !final(me).running
                && final(me).stream == (*me).stream,
        forall|me: &mut CpalAudioInput<S>, r: Psk31Result<()>| #[trigger]
            call_ensures(CpalAudioInput::<S>::stop, (me,), r) ==> r is Ok && !final(me).running
                && final(me).stream is None,
        forall|me: &CpalAudioInput<S>, r: bool| #[trigger]
            call_ensures(CpalAudioInput::<S>::is_running, (me,), r) ==> r == me.running,
        forall|me: CpalAudioInput<S>| #[trigger]
            call_ensures(CpalAudioInput::<S>::new, (), me) ==> !me.running && me.stream is None,
{
}

/// The devices to choose from are the devices of the audio system.
pub proof fn input_offers_all_devices<S>(
    me: &CpalAudioInput<S>,
    host: &HostReport,
    offered: Psk31Result<Vec<AudioDeviceInfo>>,
    listed: Psk31Result<Vec<AudioDeviceInfo>>,
)
    requires
        call_ensures(CpalAudioInput::<S>::list_devices, (me, host), offered),
        call_ensures(enumerate_devices, (host,), listed),
    ensures
        offered is Ok,
        listed is Ok,
        offered->Ok_0@.len() == listed->Ok_0@.len(),
        forall|k: int| #![trigger offered->Ok_0@[k]]
            0 <= k < offered->Ok_0@.len() ==> same_entry(offered->Ok_0@[k], listed->Ok_0@[k]),
{
    assert forall|k: int| #![trigger offered->Ok_0@[k]] 0 <= k < offered->Ok_0@.len() implies same_entry(
        offered->Ok_0@[k],
        listed->Ok_0@[k],
    ) by {
        assert(listed->Ok_0@[k].name@ == distinct_names(host.all_devices())[k]);
    }
}

/// Audio output starts on the first device of the wanted name, if none is running yet. It counts
/// as running from then on. Whatever stands in the way is named, and leaves everything as
/// it was.
pub proof fn output_starts_on_the_wanted_device<S>()
    ensures
        forall|
            me: &mut CpalAudioOutput<S>,
            listing: &Result<Vec<Option<String>>, String>,
            id: &str,
            r: Psk31Result<usize>,
        | #[trigger]
            call_ensures(CpalAudioOutput::<S>::start, (me, listing, id), r) ==> {
                let before = *me;
                let after = *final(me);
                &&& after.stream == before.stream
                &&& after.running <==> before.running || r is Ok
                &&& before.running ==> r is Err && r->Err_0 is Audio && r->Err_0->Audio_0@
                    == "Audio output already running"@
                &&& !before.running && *listing is Err ==> r is Err && r->Err_0 is Audio
                    && r->Err_0->Audio_0@ == "Failed to enumerate devices: "@ + listing->Err_0@
                &&& r is Ok ==> {
                    let names = listing->Ok_0@;
                    &&& *listing is Ok
                    &&& r->Ok_0 < names.len()
                    &&& names[r->Ok_0 as int] is Some
                    &&& names[r->Ok_0 as int]->0@ == id@
                    &&& forall|i: int|
                        0 <= i < r->Ok_0 && (#[trigger] names[i]) is Some ==> names[i]->0@ != id@
                }
                &&& !before.running && *listing is Ok && r is Err ==> {
                    let names = listing->Ok_0@;
                    &&& r->Err_0 is Audio
                    &&& r->Err_0->Audio_0@ == "Audio output device not found: "@ + id@
                    &&& forall|i: int|
                        0 <= i < names.len() && (#[trigger] names[i]) is Some ==> names[i]->0@
                            != id@
                }
            },
{
}

/// What becomes of a stream: one that plays is kept, any failure is passed on with its cause
/// and changes nothing. An error of the audio system takes the stream out of running, and a
/// stop lets go of it; after that a start is free again.
pub proof fn output_keeps_what_plays<S>()
    ensures
        forall|me: &mut CpalAudioOutput<S>, outcome: StreamOutcome<S>, r: Psk31Result<()>| #[trigger]
            call_ensures(CpalAudioOutput::<S>::attach, (me, outcome), r) ==> {
                &&& final(me).running == (*me).running
                &&& r is Ok <==> outcome is Playing
                &&& outcome is Playing ==> final(me).stream == Some(outcome->Playing_0)
                &&& r is Err ==> final(me).stream == (*me).stream && r->Err_0 is Audio
                &&& outcome is BuildFailed ==> r->Err_0->Audio_0@ == "Failed to build output stream: "@
                    + outcome->BuildFailed_0@
                &&& outcome is PlayFailed ==> r->Err_0->Audio_0@ == "Failed to start output stream: "@
                    + outcome->PlayFailed_0@
            },
        forall|me: &mut CpalAudioOutput<S>, r: ()| #[trigger]
            call_ensures(CpalAudioOutput::<S>::stream_error, (me,), r) ==> !final(me).running
                && final(me).stream == (*me).stream,
        forall|me: &mut CpalAudioOutput<S>, r: Psk31Result<()>| #[trigger]
            call_ensures(CpalAudioOutput::<S>::stop, (me,), r) ==> r is Ok && !final(me).running
                && final(me).stream is None,
        forall|me: &CpalAudioOutput<S>, r: bool| #[trigger]
            call_ensures(CpalAudioOutput::<S>::is_running, (me,), r) ==> r == me.running,
        forall|me: CpalAudioOutput<S>| #[trigger]
            call_ensures(CpalAudioOutput::<S>::new, (), me) ==> !me.running && me.stream is None,
{
}

/// The devices to choose from are the devices of the audio system.
pub proof fn output_offers_all_devices<S>(
    me: &CpalAudioOutput<S>,
    host: &HostReport,
    offered: Psk31Result<Vec<AudioDeviceInfo>>,
    listed: Psk31Result<Vec<AudioDeviceInfo>>,
)
    requires
        call_ensures(CpalAudioOutput::<S>::list_devices, (me, host), offered),
        call_ensures(enumerate_devices, (host,), listed),
    ensures
        offered is Ok,
        listed is Ok,
        offered->Ok_0@.len() == listed->Ok_0@.len(),
        forall|k: int| #![trigger offered->Ok_0@[k]]
            0 <= k < offered->Ok_0@.len() ==> same_entry(offered->Ok_0@[k], listed->Ok_0@[k]),
{
    assert forall|k: int| #![trigger offered->Ok_0@[k]] 0 <= k < offered->Ok_0@.len() implies same_entry(
        offered->Ok_0@[k],
        listed->Ok_0@[k],
    ) by {
        assert(listed->Ok_0@[k].name@ == distinct_names(host.all_devices())[k]);
    }
}

} // verus!
