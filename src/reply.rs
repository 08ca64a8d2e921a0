use vstd::prelude::*;

use crate::markup::{
    chars_of, contains, contains_chars, copy_chars, element_text, inner_text, lines_of,
    same_chars, split_lines, views,
};
use crate::model::{Action, PortalError};

verus! {

/// A line of the action response that carries a caption, an enabled flag or
/// inner markup.
pub open spec fn is_reply_field(l: Seq<char>) -> bool {
    contains(l, "caption"@) || contains(l, "enabled"@) || contains(l, "innerhtml"@)
}

/// The field lines of `ls`, in their order.
pub open spec fn reply_fields(ls: Seq<Seq<char>>) -> Seq<Seq<char>>
    decreases ls.len(),
{
    if ls.len() == 0 {
        Seq::empty()
    } else {
        let kept = reply_fields(ls.drop_last());
        if is_reply_field(ls.last()) {
            kept.push(ls.last())
        } else {
            kept
        }
    }
}

/// Among the first `n` pairs of field lines (a caption line, then its
/// enabled line), the last one whose caption is `caption`: whether its
/// control is enabled.
pub open spec fn flag_of(fs: Seq<Seq<char>>, caption: Seq<char>, n: nat) -> Option<bool>
    decreases n,
{
    if n == 0 {
        None
    } else {
        let k = n - 1;
        if inner_text(fs[2 * k]) == caption {
            Some(inner_text(fs[2 * k + 1]) == "true"@)
        } else {
            flag_of(fs, caption, (n - 1) as nat)
        }
    }
}

/// The action that the field lines show was taken, read in reverse from
/// the control it left enabled: an enabled "Clock Off" follows clocking on,
/// a disabled one clocking off; an enabled "End Break" follows starting a
/// break, a disabled one ending it. "Clock Off" decides where both appear.
/// `None` where the lines do not pair up or neither caption appears.
pub open spec fn decode_fields(fs: Seq<Seq<char>>) -> Option<Action> {
    if fs.len() % 2 != 0 {
        None
    } else {
        let n = (fs.len() / 2) as nat;
        match flag_of(fs, "Clock Off"@, n) {
            Some(e) => Some(
                if e {
                    Action::ClockOn
                } else {
                    Action::ClockOff
                },
            ),
            None => match flag_of(fs, "End Break"@, n) {
                Some(e) => Some(
                    if e {
                        Action::BreakOn
                    } else {
                        Action::BreakOff
                    },
                ),
                None => None,
            },
        }
    }
}

/// The action that a response to an action shows was taken.
pub open spec fn action_of_reply(xml: Seq<char>) -> Option<Action> {
    decode_fields(reply_fields(lines_of(xml)))
}

/// The field lines of `lines`, in their order.
pub fn keep_fields(lines: &Vec<Vec<char>>) -> (r: Vec<Vec<char>>)
    ensures
        views(r@) == reply_fields(views(lines@)),
{
    let caption = chars_of("caption");
    let enabled = chars_of("enabled");
    let innerhtml = chars_of("innerhtml");
    let mut r: Vec<Vec<char>> = Vec::new();
    let mut i: usize = 0;
    while i < lines.len()
        invariant
            i <= lines.len(),
            caption@ == "caption"@,
            enabled@ == "enabled"@,
            innerhtml@ == "innerhtml"@,
            views(r@) == reply_fields(views(lines@).take(i as int)),
        decreases lines.len() - i,
    {
        proof {
            assert(views(lines@).take(i + 1).drop_last() =~= views(lines@).take(i as int));
        }
        let l = &lines[i];
        if contains_chars(l, &caption) || contains_chars(l, &enabled) || contains_chars(
            l,
            &innerhtml,
        ) {
            let ghost before = r@;
            let c = copy_chars(l);
            r.push(c);
            proof {
                assert(views(r@) =~= views(before).push(lines@[i as int]@));
            }
        }
        i += 1;
    }
    assert(views(lines@).take(lines@.len() as int) =~= views(lines@));
    r
}

/// Reads the action that the field lines show was taken.
pub fn decode_reply_fields(fs: &Vec<Vec<char>>) -> (r: Option<Action>)
    ensures
        r == decode_fields(views(fs@)),
{
    if fs.len() % 2 != 0 {
        return None;
    }
    let clock_off = chars_of("Clock Off");
    let end_break = chars_of("End Break");
    let yes = chars_of("true");
    proof {
        reveal_strlit("Clock Off");
        reveal_strlit("End Break");
        assert(clock_off@[0] != end_break@[0]);
    }
    let n: usize = fs.len() / 2;
    let mut clocking: Option<bool> = None;
    let mut breaking: Option<bool> = None;
    let mut k: usize = 0;
    while k < n
        invariant
            n == fs.len() / 2,
            fs.len() % 2 == 0,
            k <= n,
            clock_off@ == "Clock Off"@,
            end_break@ == "End Break"@,
            clock_off@ != end_break@,
            yes@ == "true"@,
            clocking == flag_of(views(fs@), "Clock Off"@, k as nat),
            breaking == flag_of(views(fs@), "End Break"@, k as nat),
        decreases n - k,
    {
        let caption = element_text(&fs[2 * k]);
        if same_chars(&caption, &clock_off) {
            let flag = element_text(&fs[2 * k + 1]);
            clocking = Some(same_chars(&flag, &yes));
        } else if same_chars(&caption, &end_break) {
            let flag = element_text(&fs[2 * k + 1]);
            breaking = Some(same_chars(&flag, &yes));
        }
        k += 1;
    }
    match clocking {
        Some(e) => Some(
            if e {
                Action::ClockOn
            } else {
                Action::ClockOff
            },
        ),
        None => match breaking {
            Some(e) => Some(
                if e {
                    Action::BreakOn
                } else {
                    Action::BreakOff
                },
            ),
            None => None,
        },
    }
}

/// Reads from the response to an action which action the server took, or
/// fails with `ResponseUnParsable` where the response does not show it.
pub fn get_action_from_result(xml: &str) -> (r: Result<Action, PortalError>)
    ensures
        r == (match action_of_reply(xml@) {
            Some(a) => Ok(a),
            None => Err(PortalError::ResponseUnParsable),
        }),
{
    let lines = split_lines(xml);
    let fields = keep_fields(&lines);
    match decode_reply_fields(&fields) {
        Some(a) => Ok(a),
        None => Err(PortalError::ResponseUnParsable),
    }
}

/// Checks the response to a submitted action: it succeeds where the response
/// shows that the server took that action, and fails with `ActionFailure`,
/// carrying the response's length in bytes, where it shows another.
pub fn confirm_action(action: Action, body: &str) -> (r: Result<(), PortalError>)
    ensures
        r == (match action_of_reply(body@) {
            Some(a) => if a == action {
                Ok(())
            } else {
                Err(PortalError::ActionFailure(body.len()))
            },
            None => Err(PortalError::ResponseUnParsable),
        }),
{
    let taken = get_action_from_result(body)?;
    if taken == action {
        Ok(())
    } else {
        Err(PortalError::ActionFailure(body.len()))
    }
}

} // verus!
