use vstd::prelude::*;

use crate::markup::{
    after_first, contains, free_of, id_attribute, inner_text, lines_of, occurs_at, scan_lines,
    strip_cr, take_until,
};
use crate::model::{action_of_code, wire_code_spec, Action, Status};
use crate::reply::{action_of_reply, decode_fields, flag_of, is_reply_field, reply_fields};
use crate::status::{disabled_lines, status_of};

verus! {

/// An element on one line: `<tag>text</tag>`.
pub open spec fn element(tag: Seq<char>, text: Seq<char>) -> Seq<char> {
    seq!['<'] + tag + seq!['>'] + text + seq!['<', '/'] + tag + seq!['>']
}

/// The caption of the control whose state in a response tells that `a` was
/// taken.
pub open spec fn caption_for(a: Action) -> Seq<char> {
    match a {
        Action::ClockOn | Action::ClockOff => "Clock Off"@,
        Action::BreakOn | Action::BreakOff => "End Break"@,
    }
}

/// The enabled flag of that control once `a` was taken.
pub open spec fn flag_for(a: Action) -> Seq<char> {
    match a {
        Action::ClockOn | Action::BreakOn => "true"@,
        Action::ClockOff | Action::BreakOff => "false"@,
    }
}

/// A response to `a` written by the caption and enabled-flag convention: a
/// caption line, then its enabled line.
pub open spec fn reply_markup(a: Action) -> Seq<char> {
    element("caption"@, caption_for(a)) + seq!['\n'] + element("enabled"@, flag_for(a))
}

/// Each action has its own wire code, and reading a wire code back gives
/// the one action that has it.
pub proof fn lemma_wire_code_bijection(a: Action, code: Seq<char>)
    ensures
        action_of_code(wire_code_spec(a)) == Some(a),
        action_of_code(code) == Some(a) <==> code == wire_code_spec(a),
{
    reveal_strlit("CLKONBTN");
    reveal_strlit("CLKOFFBTN");
    reveal_strlit("BRKSTABTN");
    reveal_strlit("BRKENDBTN");
    assert("CLKONBTN"@.len() != "CLKOFFBTN"@.len());
    assert("CLKONBTN"@.len() != "BRKSTABTN"@.len());
    assert("CLKONBTN"@.len() != "BRKENDBTN"@.len());
    assert("CLKOFFBTN"@[0] != "BRKSTABTN"@[0]);
    assert("CLKOFFBTN"@[0] != "BRKENDBTN"@[0]);
    assert("BRKSTABTN"@[3] != "BRKENDBTN"@[3]);
}

/// Two actions with the same wire code are the same action.
pub proof fn lemma_wire_code_injective(a: Action, b: Action)
    ensures
        wire_code_spec(a) == wire_code_spec(b) ==> a == b,
{
    lemma_wire_code_bijection(a, wire_code_spec(b));
    lemma_wire_code_bijection(b, wire_code_spec(b));
}

proof fn lemma_scan_lines_append(x: Seq<char>, q: Seq<char>)
    requires
        free_of(q, '\n'),
    ensures
        scan_lines(x + q) == (scan_lines(x).0, scan_lines(x).1 + q),
    decreases q.len(),
{
    if q.len() == 0 {
        assert(x + q =~= x);
        assert(scan_lines(x).1 + q =~= scan_lines(x).1);
    } else {
        let p = q.drop_last();
        assert((x + q).drop_last() =~= x + p);
        assert((x + q).last() == q.last());
        lemma_scan_lines_append(x, p);
        assert((scan_lines(x).1 + p).push(q.last()) =~= scan_lines(x).1 + q);
    }
}

proof fn lemma_two_lines(l1: Seq<char>, l2: Seq<char>)
    requires
        free_of(l1, '\n'),
        free_of(l2, '\n'),
        l1.len() > 0,
        l1.last() != '\r',
        l2.len() > 0,
    ensures
        lines_of(l1 + seq!['\n'] + l2) == seq![l1, l2],
{
    let e = Seq::<char>::empty();
    assert(e + l1 =~= l1);
    lemma_scan_lines_append(e, l1);
    let m = l1 + seq!['\n'];
    assert(m.drop_last() =~= l1);
    assert(strip_cr(l1) == l1);
    assert(scan_lines(m) == (Seq::<Seq<char>>::empty().push(l1), e));
    lemma_scan_lines_append(m, l2);
    assert(e + l2 =~= l2);
    assert(Seq::<Seq<char>>::empty().push(l1).push(l2) =~= seq![l1, l2]);
}

proof fn lemma_after_first(x: Seq<char>, c: char, y: Seq<char>)
    requires
        free_of(x, c),
    ensures
        after_first(x + seq![c] + y, c) == y,
    decreases x.len(),
{
    let s = x + seq![c] + y;
    if x.len() == 0 {
        assert(s.drop_first() =~= y);
    } else {
        assert(s.drop_first() =~= x.drop_first() + seq![c] + y);
        lemma_after_first(x.drop_first(), c, y);
    }
}

proof fn lemma_take_until(x: Seq<char>, c: char, y: Seq<char>)
    requires
        free_of(x, c),
    ensures
        take_until(x + seq![c] + y, c) == x,
    decreases x.len(),
{
    let s = x + seq![c] + y;
    if x.len() == 0 {
        assert(x =~= Seq::<char>::empty());
    } else {
        assert(s.drop_first() =~= x.drop_first() + seq![c] + y);
        lemma_take_until(x.drop_first(), c, y);
        assert(seq![x[0]] + x.drop_first() =~= x);
    }
}

proof fn lemma_element(tag: Seq<char>, text: Seq<char>)
    requires
        free_of(tag, '>'),
        free_of(tag, '\n'),
        free_of(text, '<'),
        free_of(text, '\n'),
    ensures
        inner_text(element(tag, text)) == text,
        contains(element(tag, text), tag),
        free_of(element(tag, text), '\n'),
        element(tag, text).len() > 0,
        element(tag, text).last() == '>',
{
    let el = element(tag, text);
    let head = seq!['<'] + tag;
    let rest = text + seq!['<', '/'] + tag + seq!['>'];
    assert(el =~= head + seq!['>'] + rest);
    lemma_after_first(head, '>', rest);
    let tail = seq!['/'] + tag + seq!['>'];
    assert(rest =~= text + seq!['<'] + tail);
    lemma_take_until(text, '<', tail);
    assert(el.subrange(1, 1 + tag.len() as int) =~= tag);
    assert(occurs_at(el, tag, 1));
}

proof fn lemma_fields_pair(l1: Seq<char>, l2: Seq<char>)
    requires
        is_reply_field(l1),
        is_reply_field(l2),
    ensures
        reply_fields(seq![l1, l2]) == seq![l1, l2],
{
    let e = Seq::<Seq<char>>::empty();
    assert(seq![l1].drop_last() =~= e);
    assert(reply_fields(e) == e);
    assert(e.push(l1) =~= seq![l1]);
    assert(reply_fields(seq![l1]) == seq![l1]);
    assert(seq![l1, l2].drop_last() =~= seq![l1]);
    assert(seq![l1].push(l2) =~= seq![l1, l2]);
}

proof fn lemma_literal_text(a: Action)
    ensures
        free_of("caption"@, '>'),
        free_of("caption"@, '\n'),
        free_of("enabled"@, '>'),
        free_of("enabled"@, '\n'),
        free_of(caption_for(a), '<'),
        free_of(caption_for(a), '\n'),
        free_of(flag_for(a), '<'),
        free_of(flag_for(a), '\n'),
        "Clock Off"@ != "End Break"@,
        "false"@ != "true"@,
{
    reveal_strlit("caption");
    reveal_strlit("enabled");
    reveal_strlit("Clock Off");
    reveal_strlit("End Break");
    reveal_strlit("true");
    reveal_strlit("false");
    assert("Clock Off"@[0] != "End Break"@[0]);
    assert("false"@.len() != "true"@.len());
}

/// A response written by the caption and enabled-flag convention for an
/// action reads back as that action.
pub proof fn lemma_reply_round_trip(a: Action)
    ensures
        action_of_reply(reply_markup(a)) == Some(a),
{
    lemma_literal_text(a);
    let l1 = element("caption"@, caption_for(a));
    let l2 = element("enabled"@, flag_for(a));
    lemma_element("caption"@, caption_for(a));
    lemma_element("enabled"@, flag_for(a));
    lemma_two_lines(l1, l2);
    lemma_fields_pair(l1, l2);
    let fs = seq![l1, l2];
    assert(fs[0] == l1 && fs[1] == l2);
    assert(flag_of(fs, "Clock Off"@, 0) is None);
    assert(flag_of(fs, "End Break"@, 0) is None);
    assert(decode_fields(fs) == Some(a));
}

proof fn lemma_flag_absent(fs: Seq<Seq<char>>, caption: Seq<char>, n: nat)
    requires
        2 * n <= fs.len(),
        forall|i: int| 0 <= i < fs.len() ==> inner_text(#[trigger] fs[i]) != caption,
    ensures
        flag_of(fs, caption, n) is None,
    decreases n,
{
    if n > 0 {
        assert(inner_text(fs[2 * (n - 1)]) != caption);
        lemma_flag_absent(fs, caption, (n - 1) as nat);
    }
}

/// A response none of whose field lines has "Clock Off" or "End Break" as
/// its text tells no action.
pub proof fn lemma_no_caption_rejected(xml: Seq<char>)
    requires
        forall|i: int|
            0 <= i < reply_fields(lines_of(xml)).len() ==> {
                let t = inner_text(#[trigger] reply_fields(lines_of(xml))[i]);
                t != "Clock Off"@ && t != "End Break"@
            },
    ensures
        action_of_reply(xml) is None,
{
    let fs = reply_fields(lines_of(xml));
    let n = (fs.len() / 2) as nat;
    if fs.len() % 2 == 0 {
        lemma_flag_absent(fs, "Clock Off"@, n);
        lemma_flag_absent(fs, "End Break"@, n);
    }
}

/// How the dashboard markup's disabled controls decide the state, once the
/// first two carry an `ID=` attribute: three or more disabled controls mean
/// clocked off, whatever their identifiers; with exactly two, a disabled
/// start-break control means on break, and otherwise a disabled end-break
/// control means clocked on.
pub proof fn lemma_status_shapes(html: Seq<char>)
    requires
        disabled_lines(html).len() >= 2,
        id_attribute(disabled_lines(html)[0]) is Some,
        id_attribute(disabled_lines(html)[1]) is Some,
    ensures
        ({
            let ds = disabled_lines(html);
            let a = id_attribute(ds[0])->0;
            let b = id_attribute(ds[1])->0;
            let start = wire_code_spec(Action::BreakOn);
            let end = wire_code_spec(Action::BreakOff);
            &&& ds.len() >= 3 ==> status_of(html) == Some(Status::ClockedOff)
            &&& ds.len() == 2 && (a == start || b == start) ==> status_of(html) == Some(
                Status::OnBreak,
            )
            &&& ds.len() == 2 && a != start && b != start && (a == end || b == end)
                ==> status_of(html) == Some(Status::ClockedOn)
            &&& ds.len() == 2 && a != start && b != start && a != end && b != end
                ==> status_of(html) is None
        }),
{
}

} // verus!
