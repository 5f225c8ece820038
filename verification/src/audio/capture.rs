//! Decisions made when opening a capture device: which device was asked
//! for, and which of the stream configurations the device supports is used.
use crate::text::{owned, push_text, same_text};
use vstd::prelude::*;

verus! {

/// One range of stream configurations a capture device supports: a channel
/// count with every sample rate from `min_rate` to `max_rate`.
#[derive(Debug, Clone, Copy, PartialEq, Eq, Structural)]
pub struct SupportedRange {
    pub channels: u16,
    pub min_rate: u32,
    pub max_rate: u32,
}

/// The range offers `channels` channels at `target_rate`.
pub open spec fn range_fits(r: SupportedRange, target_rate: u32, channels: u16) -> bool {
    r.channels == channels && r.min_rate <= target_rate && target_rate <= r.max_rate
}

/// The first supported range that offers the wanted channel count at the
/// wanted sample rate; `None` means the device's default configuration is
/// used instead.
pub fn choose_input_config(ranges: &[SupportedRange], target_rate: u32, channels: u16) -> (r: Option<usize>)
    ensures
        r matches Some(i) ==> i < ranges@.len() && range_fits(ranges@[i as int], target_rate, channels)
            && forall|j: int| 0 <= j < i ==> !range_fits(#[trigger] ranges@[j], target_rate, channels),
        r is None ==> forall|j: int|
            0 <= j < ranges@.len() ==> !range_fits(#[trigger] ranges@[j], target_rate, channels),
{
    let mut i: usize = 0;
    while i < ranges.len()
        invariant
            0 <= i <= ranges@.len(),
            forall|j: int| 0 <= j < i ==> !range_fits(#[trigger] ranges@[j], target_rate, channels),
        decreases ranges@.len() - i,
    {
        let c = ranges[i];
        if c.channels == channels && c.min_rate <= target_rate && c.max_rate >= target_rate {
            return Some(i);
        }
        i = i + 1;
    }
    None
}

/// The device name to look up: the configured name when it is given and
/// not empty; `None` selects the system's default input device.
pub fn requested_device(name: Option<&str>) -> (r: Option<&str>)
    ensures
        r matches Some(n) ==> name == Some(n) && n@.len() > 0,
        r is None ==> (name is None || name.unwrap()@.len() == 0),
{
    match name {
        Some(n) => {
            if n.is_empty() {
                None
            } else {
                Some(n)
            }
        },
        None => None,
    }
}

/// The input device whose name is `wanted`: the index of the first device
/// in `names` (the names of the input devices, in the order the host lists
/// them) with exactly that name, else the error `Device '<wanted>' not
/// found`.
pub fn find_device(names: &[String], wanted: &str) -> (r: Result<usize, String>)
    ensures
        r matches Ok(i) ==> i < names@.len() && names@[i as int]@ == wanted@
            && forall|j: int| 0 <= j < i ==> names@[j]@ != wanted@,
        r matches Err(e) ==> e@ == "Device '"@ + wanted@ + "' not found"@
            && forall|j: int| 0 <= j < names@.len() ==> names@[j]@ != wanted@,
{
    let mut i: usize = 0;
    while i < names.len()
        invariant
            0 <= i <= names@.len(),
            forall|j: int| 0 <= j < i ==> names@[j]@ != wanted@,
        decreases names@.len() - i,
    {
        if same_text(names[i].as_str(), wanted) {
            return Ok(i);
        }
        i = i + 1;
    }
    let mut e = owned("Device '");
    push_text(&mut e, wanted);
    push_text(&mut e, "' not found");
    Err(e)
}

} // verus!
