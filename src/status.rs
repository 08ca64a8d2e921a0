use vstd::prelude::*;

use crate::markup::{
    chars_of, id_attribute, id_value, keep_containing, lines_containing, lines_of, same_chars,
    split_lines,
    views,
};
use crate::model::{wire_code_spec, Action, PortalError, Status};

verus! {

/// The lines of the dashboard markup that mark a control as disabled.
pub open spec fn disabled_lines(html: Seq<char>) -> Seq<Seq<char>> {
    lines_containing(lines_of(html), "DISABLED"@)
}

/// The state that the dashboard markup shows, read from which controls it
/// disables; `None` where the markup has none of the known shapes.
///
/// The first two disabled controls must carry an `ID=` attribute. A third
/// disabled control means the worker is clocked off; otherwise a disabled
/// start-break control means a break is running, and a disabled end-break
/// control means the worker is clocked on.
pub open spec fn status_of(html: Seq<char>) -> Option<Status> {
    let ds = disabled_lines(html);
    if ds.len() < 2 {
        None
    } else {
        match (id_attribute(ds[0]), id_attribute(ds[1])) {
            (Some(a), Some(b)) => if ds.len() > 2 {
                Some(Status::ClockedOff)
            } else if a == wire_code_spec(Action::BreakOn) || b == wire_code_spec(
                Action::BreakOn,
            ) {
                Some(Status::OnBreak)
            } else if a == wire_code_spec(Action::BreakOff) || b == wire_code_spec(
                Action::BreakOff,
            ) {
                Some(Status::ClockedOn)
            } else {
                None
            },
            _ => None,
        }
    }
}

/// Reads the worker's state from the dashboard markup, or fails with
/// `BadStatus` where the markup has none of the known shapes.
pub fn get_status(html: &str) -> (r: Result<Status, PortalError>)
    ensures
        r == (match status_of(html@) {
            Some(s) => Ok(s),
            None => Err(PortalError::BadStatus),
        }),
{
    let lines = split_lines(html);
    let marker = chars_of("DISABLED");
    let ds = keep_containing(&lines, &marker);
    proof {
        assert(views(ds@) == disabled_lines(html@));
        assert(views(ds@).len() == ds@.len());
    }
    if ds.len() < 2 {
        return Err(PortalError::BadStatus);
    }
    proof {
        assert(views(ds@)[0] == ds@[0]@);
        assert(views(ds@)[1] == ds@[1]@);
    }
    let id_one = match id_value(&ds[0]) {
        Some(v) => v,
        None => return Err(PortalError::BadStatus),
    };
    let id_two = match id_value(&ds[1]) {
        Some(v) => v,
        None => return Err(PortalError::BadStatus),
    };
    if ds.len() > 2 {
        return Ok(Status::ClockedOff);
    }
    let break_on = chars_of(Action::BreakOn.wire_code());
    let break_off = chars_of(Action::BreakOff.wire_code());
    if same_chars(&id_one, &break_on) || same_chars(&id_two, &break_on) {
        Ok(Status::OnBreak)
    } else if same_chars(&id_one, &break_off) || same_chars(&id_two, &break_off) {
        Ok(Status::ClockedOn)
    } else {
        Err(PortalError::BadStatus)
    }
}

} // verus!
