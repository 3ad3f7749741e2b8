//! The list of audio devices.
//!
//! The audio system names the same device twice where it has an input and an output side
//! (USB codecs on macOS). The list holds every name once. What the audio system counts
//! among its outputs is an output; so is a device with a default output configuration,
//! which is marked where the audio system does not count it.

use crate::domain::error::Psk31Result;
use crate::domain::types::AudioDeviceInfo;
use crate::text::same_text;
use vstd::prelude::*;

verus! {

/// A device as the audio system reports it.
#[derive(Debug)]
pub struct HostDevice {
    /// Absent if the audio system could not tell.
    pub name: Option<String>,
    /// The device has a default input configuration.
    pub has_input: bool,
    /// The device has a default output configuration.
    pub has_output: bool,
}

impl HostDevice {
    pub open spec fn shown_name(self) -> Seq<char> {
        match self.name {
            Some(name) => name@,
            None => "Unknown"@,
        }
    }
}

/// What the audio system reports.
#[derive(Debug)]
pub struct HostReport {
    /// Name of the default input, if there is one and it has a name.
    pub default_input: Option<String>,
    /// Name of the default output, if there is one and it has a name.
    pub default_output: Option<String>,
    /// The names of what the audio system counts among its outputs, as far as it could
    /// tell them. Absent if it could not list its outputs.
    pub outputs: Option<Vec<Option<String>>>,
    /// All devices. Absent if the audio system could not list them.
    pub devices: Option<Vec<HostDevice>>,
}

impl HostReport {
    pub open spec fn all_devices(self) -> Seq<HostDevice> {
        match self.devices {
            Some(devices) => devices@,
            None => Seq::empty(),
        }
    }

    /// The audio system counts the device `name` among its outputs.
    pub open spec fn confirms(self, name: Seq<char>) -> bool {
        match self.outputs {
            Some(names) => mentions(names@, name),
            None => false,
        }
    }
}

/// A text is among these names.
pub open spec fn mentions(names: Seq<Option<String>>, text: Seq<char>) -> bool {
    exists|i: int| 0 <= i < names.len() && is_text(#[trigger] names[i], text)
}

/// The optional string is this text.
pub open spec fn is_text(name: Option<String>, text: Seq<char>) -> bool {
    name matches Some(n) && n@ == text
}

/// One of the devices has this name and an input.
pub open spec fn has_input_named(devices: Seq<HostDevice>, name: Seq<char>) -> bool {
    exists|i: int|
        0 <= i < devices.len() && (#[trigger] devices[i]).shown_name() == name
            && devices[i].has_input
}

/// One of the devices has this name and a default output configuration.
pub open spec fn has_output_named(devices: Seq<HostDevice>, name: Seq<char>) -> bool {
    exists|i: int|
        0 <= i < devices.len() && (#[trigger] devices[i]).shown_name() == name
            && devices[i].has_output
}

/// The names of these devices, each once, in the order in which they first occur.
pub open spec fn distinct_names(devices: Seq<HostDevice>) -> Seq<Seq<char>>
    decreases devices.len(),
{
    if devices.len() == 0 {
        Seq::empty()
    } else {
        let before = distinct_names(devices.drop_last());
        let name = devices.last().shown_name();
        if before.contains(name) {
            before
        } else {
            before.push(name)
        }
    }
}

/// What the list says of the device `name`, once the audio system has reported `devices`.
pub open spec fn describes(
    info: AudioDeviceInfo,
    name: Seq<char>,
    devices: Seq<HostDevice>,
    host: HostReport,
) -> bool {
    &&& info.id@ == name
    &&& info.name@ == name
    &&& info.is_input == has_input_named(devices, name)
    &&& info.is_output == (host.confirms(name) || has_output_named(devices, name))
    &&& info.is_default == (is_text(host.default_input, name) || is_text(
        host.default_output,
        name,
    ))
    &&& info.output_unverified == (has_output_named(devices, name) && !host.confirms(name))
}

/// The list holds every name once, in the order in which the names first occur.
pub open spec fn lists(
    list: Seq<AudioDeviceInfo>,
    devices: Seq<HostDevice>,
    host: HostReport,
) -> bool {
    &&& list.len() == distinct_names(devices).len()
    &&& forall|i: int|
        0 <= i < list.len() ==> describes(
            #[trigger] list[i],
            distinct_names(devices)[i],
            devices,
            host,
        )
}

fn position_of(list: &Vec<AudioDeviceInfo>, name: &str) -> (r: Option<usize>)
    ensures
        match r {
            Some(at) => at < list@.len() && list@[at as int].name@ == name@,
            None => forall|i: int| 0 <= i < list@.len() ==> (#[trigger] list@[i]).name@ != name@,
        },
{
    let mut i: usize = 0;
    while i < list.len()
        invariant
            i <= list@.len(),
            forall|j: int| 0 <= j < i ==> (#[trigger] list@[j]).name@ != name@,
        decreases list@.len() - i,
    {
        if same_text(list[i].name.as_str(), name) {
            return Some(i);
        }
        i = i + 1;
    }
    None
}

fn is_confirmed(host: &HostReport, name: &str) -> (r: bool)
    ensures
        r == host.confirms(name@),
{
    let names: &Vec<Option<String>> = match &host.outputs {
        Some(names) => names,
        None => {
            return false;
        },
    };
    let mut i: usize = 0;
    while i < names.len()
        invariant
            i <= names@.len(),
            host.outputs == Some(*names),
            forall|j: int| 0 <= j < i ==> !is_text(#[trigger] names@[j], name@),
        decreases names@.len() - i,
    {
        if is_named(&names[i], name) {
            return true;
        }
        i = i + 1;
    }
    false
}

fn is_named(name: &Option<String>, text: &str) -> (r: bool)
    ensures
        r == is_text(*name, text@),
{
    match name {
        Some(name) => same_text(name.as_str(), text),
        None => false,
    }
}

/// The list of devices, from what the audio system reports. Where it cannot list its
/// devices, the list is empty.
pub fn enumerate_devices(host: &HostReport) -> (r: Psk31Result<Vec<AudioDeviceInfo>>)
    ensures
        r matches Ok(list) && lists(list@, host.all_devices(), *host),
{
    let mut list: Vec<AudioDeviceInfo> = Vec::new();
    let devices: &Vec<HostDevice> = match &host.devices {
        Some(devices) => devices,
        None => {
            return Ok(list);
        },
    };
    let mut seen: usize = 0;
    assert(devices@.take(0) =~= Seq::<HostDevice>::empty());
    while seen < devices.len()
        invariant
            seen <= devices@.len(),
            lists(list@, devices@.take(seen as int), *host),
        decreases devices@.len() - seen,
    {
        let ghost before = devices@.take(seen as int);
        let ghost now = devices@.take(seen + 1);
        let ghost names = distinct_names(before);
        proof {
            assert(now.drop_last() =~= before);
            assert(now.last() == devices@[seen as int]);
            lemma_names_are_distinct(before);
            lemma_sides_grow(before, now);
        }
        let device: &HostDevice = &devices[seen];
        let name: String = match &device.name {
            Some(name) => name.clone(),
            None => "Unknown".to_owned(),
        };
        let has_input: bool = device.has_input;
        let has_output: bool = device.has_output;
        let confirmed: bool = is_confirmed(host, name.as_str());
        let ghost old_list = list@;
        match position_of(&list, name.as_str()) {
            Some(at) => {
                let is_input: bool = list[at].is_input || has_input;
                let is_output: bool = list[at].is_output || has_output;
                list[at].is_input = is_input;
                list[at].is_output = is_output;
                list[at].output_unverified = is_output && !confirmed;
                proof {
                    assert(names[at as int] == name@);
                    assert forall|i: int| 0 <= i < list@.len() implies describes(
                        #[trigger] list@[i],
                        distinct_names(now)[i],
                        now,
                        *host,
                    ) by {
                        assert(describes(old_list[i], names[i], before, *host));
                        if i != at {
                            assert(names[i] != names[at as int]);
                        }
                    }
                }
            },
            None => {
                let is_default: bool = is_named(&host.default_input, name.as_str()) || is_named(
                    &host.default_output,
                    name.as_str(),
                );
                proof {
                    assert forall|i: int| 0 <= i < names.len() implies names[i] != name@ by {
                        assert(old_list[i].name@ != name@);
                    }
                    lemma_unseen_has_no_sides(before, name@);
                }
                list.push(
                    AudioDeviceInfo {
                        id: name.clone(),
                        name,
                        is_input: has_input,
                        is_output: confirmed || has_output,
                        is_default,
                        output_unverified: has_output && !confirmed,
                    },
                );
                proof {
                    assert forall|i: int| 0 <= i < list@.len() implies describes(
                        #[trigger] list@[i],
                        distinct_names(now)[i],
                        now,
                        *host,
                    ) by {
                        if i < old_list.len() {
                            assert(describes(old_list[i], names[i], before, *host));
                        }
                    }
                }
            },
        }
        seen = seen + 1;
    }
    assert(devices@.take(seen as int) =~= devices@);
    Ok(list)
}

/// One more device gives its name the sides that it has, and changes nothing for others.
proof fn lemma_sides_grow(before: Seq<HostDevice>, now: Seq<HostDevice>)
    requires
        now.len() > 0,
        now.drop_last() == before,
    ensures
        forall|name: Seq<char>| #[trigger]
            has_input_named(now, name) == (has_input_named(before, name) || (
            now.last().shown_name() == name && now.last().has_input)),
        forall|name: Seq<char>| #[trigger]
            has_output_named(now, name) == (has_output_named(before, name) || (
            now.last().shown_name() == name && now.last().has_output)),
{
    assert forall|i: int| 0 <= i < before.len() implies #[trigger] before[i] == now[i] by {}
    assert forall|name: Seq<char>| #[trigger]
        has_input_named(now, name) == (has_input_named(before, name) || (now.last().shown_name()
            == name && now.last().has_input)) by {
        if has_input_named(now, name) {
            let i = choose|i: int|
                0 <= i < now.len() && (#[trigger] now[i]).shown_name() == name && now[i].has_input;
            assert(i < before.len() ==> before[i] == now[i]);
        }
        if has_input_named(before, name) {
            let i = choose|i: int|
                0 <= i < before.len() && (#[trigger] before[i]).shown_name() == name
                    && before[i].has_input;
            assert(now[i] == before[i]);
        }
        assert(now[now.len() - 1] == now.last());
    }
    assert forall|name: Seq<char>| #[trigger]
        has_output_named(now, name) == (has_output_named(before, name) || (now.last().shown_name()
            == name && now.last().has_output)) by {
        if has_output_named(now, name) {
            let i = choose|i: int|
                0 <= i < now.len() && (#[trigger] now[i]).shown_name() == name
                    && now[i].has_output;
            assert(i < before.len() ==> before[i] == now[i]);
        }
        if has_output_named(before, name) {
            let i = choose|i: int|
                0 <= i < before.len() && (#[trigger] before[i]).shown_name() == name
                    && before[i].has_output;
            assert(now[i] == before[i]);
        }
        assert(now[now.len() - 1] == now.last());
    }
}

proof fn lemma_every_name_occurs(devices: Seq<HostDevice>, at: int)
    requires
        0 <= at < devices.len(),
    ensures
        distinct_names(devices).contains(devices[at].shown_name()),
    decreases devices.len(),
{
    let before = devices.drop_last();
    let name = devices.last().shown_name();
    let names = distinct_names(before);
    if at == devices.len() - 1 {
        if !names.contains(name) {
            assert(names.push(name)[names.len() as int] == name);
        }
    } else {
        lemma_every_name_occurs(before, at);
        assert(before[at] == devices[at]);
        let found = choose|found: int|
            0 <= found < names.len() && names[found] == devices[at].shown_name();
        assert(distinct_names(devices)[found] == names[found]);
    }
}

proof fn lemma_unseen_has_no_sides(devices: Seq<HostDevice>, name: Seq<char>)
    requires
        forall|i: int| 0 <= i < distinct_names(devices).len() ==> distinct_names(devices)[i] != name,
    ensures
        !has_input_named(devices, name),
        !has_output_named(devices, name),
{
    assert forall|i: int| 0 <= i < devices.len() implies (#[trigger] devices[i]).shown_name()
        != name by {
        lemma_every_name_occurs(devices, i);
    }
}

proof fn lemma_names_are_distinct(devices: Seq<HostDevice>)
    ensures
        distinct_names(devices).no_duplicates(),
    decreases devices.len(),
{
    if devices.len() > 0 {
        lemma_names_are_distinct(devices.drop_last());
    }
}

/// No name occurs twice in the list, and every device of the audio system is in it.
pub proof fn list_holds_every_device_once(devices: Seq<HostDevice>)
    ensures
        distinct_names(devices).no_duplicates(),
        forall|i: int|
            0 <= i < devices.len() ==> distinct_names(devices).contains(
                (#[trigger] devices[i]).shown_name(),
            ),
{
    lemma_names_are_distinct(devices);
    assert forall|i: int| 0 <= i < devices.len() implies distinct_names(devices).contains(
        (#[trigger] devices[i]).shown_name(),
    ) by {
        lemma_every_name_occurs(devices, i);
    }
}

} // verus!
