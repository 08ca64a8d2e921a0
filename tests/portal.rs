use clockon::{
    check_login_page, confirm_action, get_action_from_result, get_status, parse_operator,
    plan_action, session_id, Action, PortalError, Status,
};

fn control(id: &str, disabled: bool) -> String {
    let flag = if disabled { " DISABLED" } else { "" };
    format!("<input type=\"button\" ID=\"{id}\" NAME=\"{id}\" CLASS=\"btn\"{flag}>\n")
}

fn dashboard(disabled: &[&str], enabled: &[&str]) -> String {
    let mut page = String::from("<html>\n<body>\n<form NAME=\"SubmitForm\">\n");
    for id in enabled {
        page.push_str(&control(id, false));
    }
    for id in disabled {
        page.push_str(&control(id, true));
    }
    page.push_str("</form>\n</body>\n</html>\n");
    page
}

fn clocked_on_page() -> String {
    dashboard(&["CLKONBTN", "BRKENDBTN"], &["CLKOFFBTN", "BRKSTABTN"])
}

fn clocked_off_page() -> String {
    dashboard(&["CLKOFFBTN", "BRKSTABTN", "BRKENDBTN"], &["CLKONBTN"])
}

fn on_break_page() -> String {
    dashboard(&["CLKONBTN", "BRKSTABTN"], &["CLKOFFBTN", "BRKENDBTN"])
}

fn reply(fields: &[(&str, bool)]) -> String {
    let mut xml = String::from("<?xml version=\"1.0\"?>\n<response>\n");
    for (caption, enabled) in fields {
        xml.push_str("<control>\n");
        xml.push_str(&format!("<caption>{caption}</caption>\n"));
        xml.push_str(&format!("<enabled>{enabled}</enabled>\n"));
        xml.push_str("</control>\n");
    }
    xml.push_str("</response>\n");
    xml
}

fn get_action_from_xml(xml: &str) -> Action {
    get_action_from_result(xml).expect("parse action from xml page")
}

#[test]
fn read_action_from_response() {
    assert_eq!(Action::ClockOff, get_action_from_xml(&reply(&[("Clock Off", false)])));
    assert_eq!(Action::ClockOn, get_action_from_xml(&reply(&[("Clock Off", true)])));
    assert_eq!(Action::BreakOn, get_action_from_xml(&reply(&[("End Break", true)])));
    assert_eq!(Action::BreakOff, get_action_from_xml(&reply(&[("End Break", false)])));
}

fn action_from_page(page: &str, to_action: bool) -> Action {
    let result = get_status(page).expect("able to get status");
    result.to_action(to_action).expect("get action from result")
}

fn err_from_page(page: &str, to_action: bool) -> bool {
    let result = get_status(page).expect("able to get status");
    let err = result.to_action(to_action).expect_err("get action from result");
    err == PortalError::NoActionToTake
}

#[test]
fn decide_action_from_login_page() {
    assert_eq!(Action::BreakOn, action_from_page(&clocked_on_page(), true));
    assert_eq!(Action::ClockOff, action_from_page(&clocked_on_page(), false));
    assert_eq!(Action::ClockOn, action_from_page(&clocked_off_page(), true));
    assert!(err_from_page(&clocked_off_page(), false));
    assert!(err_from_page(&on_break_page(), true));
    assert_eq!(Action::BreakOff, action_from_page(&on_break_page(), false));
}

#[test]
fn wire_codes_round_trip() {
    let all = [Action::ClockOn, Action::ClockOff, Action::BreakOn, Action::BreakOff];
    assert_eq!(Action::ClockOn.wire_code(), "CLKONBTN");
    assert_eq!(Action::ClockOff.wire_code(), "CLKOFFBTN");
    assert_eq!(Action::BreakOn.wire_code(), "BRKSTABTN");
    assert_eq!(Action::BreakOff.wire_code(), "BRKENDBTN");
    for a in all {
        assert_eq!(Action::from_wire_code(a.wire_code()), Some(a));
    }
    assert_eq!(Action::from_wire_code("LOGINBTN"), None);
    assert_eq!(Action::from_wire_code("clkonbtn"), None);
    assert_eq!(Action::from_wire_code(""), None);
}

#[test]
fn status_from_disabled_controls() {
    assert_eq!(get_status(&clocked_on_page()), Ok(Status::ClockedOn));
    assert_eq!(get_status(&clocked_off_page()), Ok(Status::ClockedOff));
    assert_eq!(get_status(&on_break_page()), Ok(Status::OnBreak));
    // The start-break control decides over the end-break control.
    assert_eq!(get_status(&dashboard(&["BRKENDBTN", "BRKSTABTN"], &[])), Ok(Status::OnBreak));
    // Three disabled controls mean clocked off, whatever they are.
    assert_eq!(
        get_status(&dashboard(&["AAA", "BBB", "CCC", "DDD"], &[])),
        Ok(Status::ClockedOff)
    );
}

#[test]
fn status_rejects_unknown_shapes() {
    assert_eq!(get_status(""), Err(PortalError::BadStatus));
    assert_eq!(get_status(&dashboard(&["BRKENDBTN"], &["CLKONBTN"])), Err(PortalError::BadStatus));
    assert_eq!(get_status(&dashboard(&["CLKONBTN", "CLKOFFBTN"], &[])), Err(PortalError::BadStatus));
    let no_id = "<input NAME=\"X\" DISABLED>\n<input ID=\"BRKENDBTN\" DISABLED>\n";
    assert_eq!(get_status(no_id), Err(PortalError::BadStatus));
}

#[test]
fn status_reads_crlf_and_tabs() {
    let page = "<body>\r\n<input\tID=\"BRKSTABTN\"\tDISABLED>\r\n<input ID=\"CLKONBTN\" DISABLED>\r\n</body>";
    assert_eq!(get_status(page), Ok(Status::OnBreak));
}

#[test]
fn status_takes_value_after_fixed_offset() {
    // The value starts four characters into the word that holds `ID=`.
    let page = "<a xID=\"BRKENDBTN\" DISABLED>\n<a ID=\"BRKENDBTN\" DISABLED>\n";
    assert_eq!(get_status(page), Ok(Status::ClockedOn));
    let page = "<a xID=\"BRKSTABTN\" DISABLED>\n<a ID=\"CLKONBTN\" DISABLED>\n";
    assert_eq!(get_status(page), Err(PortalError::BadStatus));
}

#[test]
fn planner_matches_table() {
    assert_eq!(Status::ClockedOn.to_action(true), Ok(Action::BreakOn));
    assert_eq!(Status::ClockedOn.to_action(false), Ok(Action::ClockOff));
    assert_eq!(Status::ClockedOff.to_action(true), Ok(Action::ClockOn));
    assert_eq!(Status::ClockedOff.to_action(false), Err(PortalError::NoActionToTake));
    assert_eq!(Status::OnBreak.to_action(true), Err(PortalError::NoActionToTake));
    assert_eq!(Status::OnBreak.to_action(false), Ok(Action::BreakOff));
}

#[test]
fn status_labels() {
    assert_eq!(Status::ClockedOn.label(), "Clocked On");
    assert_eq!(Status::ClockedOff.label(), "Clocked Off");
    assert_eq!(Status::OnBreak.label(), "Clocked On (On Break)");
}

#[test]
fn reply_without_known_caption_is_rejected() {
    assert_eq!(get_action_from_result(""), Err(PortalError::ResponseUnParsable));
    assert_eq!(
        get_action_from_result(&reply(&[("Clock On", true), ("Start Break", false)])),
        Err(PortalError::ResponseUnParsable)
    );
}

#[test]
fn reply_with_unpaired_lines_is_rejected() {
    let xml = "<caption>Clock Off</caption>\n<enabled>true</enabled>\n<caption>End Break</caption>\n";
    assert_eq!(get_action_from_result(xml), Err(PortalError::ResponseUnParsable));
}

#[test]
fn reply_clock_off_caption_decides() {
    let xml = reply(&[("End Break", true), ("Clock Off", false)]);
    assert_eq!(get_action_from_result(&xml), Ok(Action::ClockOff));
    let xml = reply(&[("Other", true), ("End Break", false)]);
    assert_eq!(get_action_from_result(&xml), Ok(Action::BreakOff));
}

#[test]
fn reply_last_pair_of_a_caption_counts() {
    let xml = reply(&[("Clock Off", false), ("Clock Off", true)]);
    assert_eq!(get_action_from_result(&xml), Ok(Action::ClockOn));
}

#[test]
fn reply_innerhtml_lines_take_part_in_pairs() {
    let xml = "<innerhtml>x</innerhtml>\n<caption>Clock Off</caption>\n<enabled>true</enabled>\n";
    assert_eq!(get_action_from_result(xml), Err(PortalError::ResponseUnParsable));
}

#[test]
fn scenario_clocked_on_wants_active() {
    assert_eq!(plan_action(&clocked_on_page(), true), Ok(Action::BreakOn));
}

#[test]
fn scenario_clocked_off_wants_inactive() {
    assert_eq!(plan_action(&clocked_off_page(), false), Err(PortalError::NoActionToTake));
}

#[test]
fn scenario_on_break_wants_inactive() {
    let action = plan_action(&on_break_page(), false).expect("a legal action");
    assert_eq!(action, Action::BreakOff);
    let xml = reply(&[("End Break", false)]);
    assert_eq!(confirm_action(action, &xml), Ok(()));
}

#[test]
fn scenario_silent_failure_detected() {
    let xml = reply(&[("Clock Off", false)]);
    assert_eq!(confirm_action(Action::ClockOn, &xml), Err(PortalError::ActionFailure(xml.len())));
    assert_eq!(confirm_action(Action::ClockOff, &xml), Ok(()));
    assert_eq!(confirm_action(Action::ClockOn, "nothing"), Err(PortalError::ResponseUnParsable));
}

#[test]
fn plan_action_reports_bad_status() {
    assert_eq!(plan_action("<html></html>", true), Err(PortalError::BadStatus));
}

#[test]
fn session_id_takes_first_characters() {
    let header = "ASP.NET_SessionId=0123456789abcdefghijklmnopq; path=/; HttpOnly";
    let id = session_id(header).expect("long enough");
    assert_eq!(id, "ASP.NET_SessionId=0123456789abcdefghijklmnopq");
    assert_eq!(id.chars().count(), 45);
    let exact = "a".repeat(45);
    assert_eq!(session_id(&exact), Ok(exact.clone()));
}

#[test]
fn session_id_too_short() {
    assert_eq!(session_id("short"), Err(PortalError::BadHeaderLen(String::from("short"))));
    assert_eq!(session_id(&"b".repeat(44)), Err(PortalError::BadHeaderLen("b".repeat(44))));
    assert_eq!(session_id(""), Err(PortalError::BadHeaderLen(String::new())));
}

#[test]
fn login_page_size_heuristic() {
    let small = "x".repeat(74999);
    assert_eq!(check_login_page(small.clone()), Ok(small));
    assert_eq!(check_login_page("x".repeat(75000)), Err(PortalError::LoginFailure));
    assert_eq!(check_login_page(String::new()), Ok(String::new()));
}

#[test]
fn operator_argument() {
    assert_eq!(parse_operator(Some("on")), Ok(true));
    assert_eq!(parse_operator(Some("off")), Ok(false));
    assert_eq!(parse_operator(Some("On")), Err(PortalError::NoOperator));
    assert_eq!(parse_operator(Some("")), Err(PortalError::NoOperator));
    assert_eq!(parse_operator(None), Err(PortalError::NoOperator));
}
