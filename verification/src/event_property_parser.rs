//! Typed properties out of `property-change` events.

use vstd::prelude::*;
use crate::core_api::MpvDataType;
use crate::error::MpvError;
use crate::event_parser::Event;
use crate::property_parser::{is_property, parse_property, Property};
use crate::text::str_eq;

verus! {

/// Whether a name is one that events leave untyped though a request for the
/// property types it.
pub open spec fn is_untyped_in_events(name: Seq<char>) -> bool {
    name == "time-pos"@ || name == "time-remaining"@ || name == "eof-reached"@
}

/// Whether a result is what the data of a changed property decodes to under
/// its name: as a request for the property would, but for the names that
/// events leave untyped, which give `Unknown` with name and data kept.
pub open spec fn is_event_property(
    name: Seq<char>,
    data: Option<MpvDataType>,
    r: Result<Property, MpvError>,
) -> bool {
    if is_untyped_in_events(name) {
        r matches Ok(Property::Unknown { name: n, data: d }) && n@ == name && d == data
    } else {
        is_property(name, data, r)
    }
}

/// Decodes the property that a `property-change` event announces, with the
/// id of the subscription it belongs to.
pub fn parse_event_property(event: Event) -> (r: Result<(usize, Property), MpvError>)
    requires
        event matches Event::PropertyChange { id, name, data },
        event matches Event::PropertyChange { id, name, data: Some(d) } ==> d.wf(),
    ensures
        event matches Event::PropertyChange { id, name, data } && match r {
            Ok((i, p)) => i == id && is_event_property(name@, data, Ok::<Property, MpvError>(p)),
            Err(e) => is_event_property(name@, data, Err::<Property, MpvError>(e)),
        },
{
    match event {
        Event::PropertyChange { id, name, data } => {
            if str_eq(name.as_str(), "time-pos") || str_eq(name.as_str(), "time-remaining")
                || str_eq(name.as_str(), "eof-reached") {
                Ok((id, Property::Unknown { name, data }))
            } else {
                match parse_property(name.as_str(), data) {
                    Ok(p) => Ok((id, p)),
                    Err(e) => Err(e),
                }
            }
        },
        _ => Err(MpvError::MissingMpvData),
    }
}

} // verus!
