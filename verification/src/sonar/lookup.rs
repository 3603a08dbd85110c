//! Reading Sonar's device list and redirection list.

use vstd::prelude::*;
use crate::models::AudioDevice;
use crate::sonar::types::{RawAudioDevice, RawRedirection, SonarError};
use crate::text::{joined3, same_text};

verus! {

/// A physical device of this data flow: no role, not a Sonar virtual device.
pub open spec fn is_physical(device: RawAudioDevice, flow: Seq<char>) -> bool {
    &&& device.data_flow@ == flow
    &&& device.role@ == "none"@
    &&& !device.is_vad
}

/// A device of Sonar's list as the user interface shows it.
pub open spec fn as_listed(device: RawAudioDevice) -> AudioDevice {
    AudioDevice {
        id: device.id,
        name: device.friendly_name,
        state: device.state,
        channels: device.channels,
    }
}

/// The physical devices of a data flow, in Sonar's order.
pub open spec fn physical_devices(raw: Seq<RawAudioDevice>, flow: Seq<char>) -> Seq<AudioDevice>
    decreases raw.len(),
{
    if raw.len() == 0 {
        Seq::empty()
    } else {
        let earlier = physical_devices(raw.drop_last(), flow);
        if is_physical(raw.last(), flow) {
            earlier.push(as_listed(raw.last()))
        } else {
            earlier
        }
    }
}

/// Whether a device is physical for this data flow.
pub fn physical(device: &RawAudioDevice, flow: &str) -> (yes: bool)
    ensures
        yes == is_physical(*device, flow@),
{
    same_text(device.data_flow.as_str(), flow) && same_text(device.role.as_str(), "none") && !device.is_vad
}

/// The physical devices of a data flow, as the user interface lists them.
pub fn physical_device_list(raw: &Vec<RawAudioDevice>, flow: &str) -> (listed: Vec<AudioDevice>)
    ensures
        listed@ == physical_devices(raw@, flow@),
{
    let mut listed: Vec<AudioDevice> = Vec::new();
    let mut i: usize = 0;
    while i < raw.len()
        invariant
            i <= raw.len(),
            listed@ == physical_devices(raw@.take(i as int), flow@),
        decreases raw.len() - i,
    {
        assert(raw@.take(i + 1).drop_last() =~= raw@.take(i as int));
        let device = &raw[i];
        if physical(device, flow) {
            listed.push(AudioDevice {
                id: device.id.clone(),
                name: device.friendly_name.clone(),
                state: device.state.clone(),
                channels: device.channels,
            });
        }
        i = i + 1;
    }
    assert(raw@.take(raw.len() as int) =~= raw@);
    listed
}

/// The first redirection with this id.
pub open spec fn lookup_redirection(items: Seq<RawRedirection>, id: Seq<char>) -> Option<RawRedirection>
    decreases items.len(),
{
    if items.len() == 0 {
        None
    } else if items[0].stream_redirection_id@ == id {
        Some(items[0])
    } else {
        lookup_redirection(items.drop_first(), id)
    }
}

/// The detail of the error for a redirection that is not listed.
pub open spec fn missing_redirection_text(id: Seq<char>) -> Seq<char> {
    "streamRedirections에 "@ + id + " 항목이 없습니다"@
}

/// The first redirection with this id, or an `ApiChanged` error naming it.
pub fn find_redirection<'a>(items: &'a [RawRedirection], id: &str) -> (found: Result<&'a RawRedirection, SonarError>)
    ensures
        match lookup_redirection(items@, id@) {
            Some(entry) => found == Ok::<&RawRedirection, SonarError>(&entry),
            None => found matches Err(SonarError::ApiChanged(detail))
                && detail@ == missing_redirection_text(id@),
        },
{
    let mut i: usize = 0;
    assert(items@.skip(0) =~= items@);
    while i < items.len()
        invariant
            i <= items@.len(),
            lookup_redirection(items@, id@) == lookup_redirection(items@.skip(i as int), id@),
        decreases items.len() - i,
    {
        assert(items@.skip(i as int).drop_first() =~= items@.skip(i + 1));
        if same_text(items[i].stream_redirection_id.as_str(), id) {
            return Ok(&items[i]);
        }
        i = i + 1;
    }
    assert(items@.skip(i as int).len() == 0);
    Err(SonarError::ApiChanged(joined3("streamRedirections에 ", id, " 항목이 없습니다")))
}

} // verus!
