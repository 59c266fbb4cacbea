use online_tac_vm::common::{Msg, Request, Response};
use online_tac_vm::number::parse_u32;
use online_tac_vm::{parse_limit, Model, LIMIT};

fn request(code: &str, inst_limit: u32, stack_limit: u32) -> Request {
    Request { code: code.to_string(), inst_limit, stack_limit }
}

fn response(stdout: &str, stderr: &str, status: &str) -> Response {
    Response { stdout: stdout.to_string(), stderr: stderr.to_string(), status: status.to_string() }
}

#[test]
fn default_limit_is_one_thousand() {
    assert_eq!(LIMIT, 1000);
}

#[test]
fn limit_text_that_is_no_number_gives_the_default() {
    assert_eq!(parse_limit("abc"), 1000);
}

#[test]
fn limit_text_that_is_a_number_is_taken() {
    assert_eq!(parse_limit("0"), 0);
    assert_eq!(parse_limit("5"), 5);
    assert_eq!(parse_limit("100"), 100);
    assert_eq!(parse_limit("4294967295"), u32::MAX);
}

#[test]
fn limit_text_out_of_range_gives_the_default() {
    assert_eq!(parse_limit("4294967296"), 1000);
    assert_eq!(parse_limit("99999999999999999999"), 1000);
}

#[test]
fn limit_text_with_stray_characters_gives_the_default() {
    assert_eq!(parse_limit(""), 1000);
    assert_eq!(parse_limit(" 5"), 1000);
    assert_eq!(parse_limit("5 "), 1000);
    assert_eq!(parse_limit("-5"), 1000);
    assert_eq!(parse_limit("1_000"), 1000);
    assert_eq!(parse_limit("12.5"), 1000);
    assert_eq!(parse_limit("\u{ff11}"), 1000);
}

#[test]
fn numbers_parse_as_the_standard_library_parses_them() {
    let samples = [
        "", "+", "-", "0", "+0", "-0", "007", "+42", "++1", "1+", "4294967295", "4294967296",
        "04294967295", "42949672950", "0000000000000000000001", "12a", "a12", " 1", "1\n",
        "\u{663}", "1\u{e9}", "+\u{1f600}", "0x10", "1e3", "٣",
    ];
    for text in samples {
        assert_eq!(parse_u32(text), text.parse::<u32>().ok(), "{:?}", text);
    }
}

#[test]
fn numbers_have_exact_values() {
    assert_eq!(parse_u32("1000"), Some(1000));
    assert_eq!(parse_u32("+7"), Some(7));
    assert_eq!(parse_u32("0010"), Some(10));
    assert_eq!(parse_u32("4294967295"), Some(4294967295));
    assert_eq!(parse_u32("4294967296"), None);
    assert_eq!(parse_u32("+"), None);
    assert_eq!(parse_u32(""), None);
}

#[test]
fn model_starts_out_blank() {
    let model = Model::create();
    assert_eq!(model.code(), "");
    assert_eq!(model.stdout(), "");
    assert_eq!(model.stderr(), "");
    assert_eq!(model.status(), "");
    assert_eq!(model.inst_limit(), 1000);
    assert_eq!(model.stack_limit(), 1000);
}

#[test]
fn editing_the_code_sends_a_request() {
    let mut model = Model::create();
    let update = model.update(Msg::InputCode("PRINT 1".to_string()));
    assert!(update.should_render);
    assert_eq!(update.request, Some(request("PRINT 1", 1000, 1000)));
    assert_eq!(model.code(), "PRINT 1");
    assert_eq!(model.status(), "Running...");
}

#[test]
fn editing_a_limit_sends_a_request_with_it() {
    let mut model = Model::create();
    model.update(Msg::InputCode("PRINT 1".to_string()));
    let update = model.update(Msg::InputInst("100".to_string()));
    assert!(update.should_render);
    assert_eq!(update.request, Some(request("PRINT 1", 100, 1000)));
    assert_eq!(model.inst_limit(), 100);
    let update = model.update(Msg::InputStack("7".to_string()));
    assert_eq!(update.request, Some(request("PRINT 1", 100, 7)));
    assert_eq!(model.stack_limit(), 7);
    assert_eq!(model.status(), "Running...");
}

#[test]
fn a_limit_that_is_no_number_is_replaced_in_the_request() {
    let mut model = Model::create();
    model.update(Msg::InputInst("5".to_string()));
    model.update(Msg::InputStack("6".to_string()));
    let update = model.update(Msg::InputInst("abc".to_string()));
    assert_eq!(update.request, Some(request("", 1000, 6)));
    assert_eq!(model.inst_limit(), 1000);
    let update = model.update(Msg::InputStack("abc".to_string()));
    assert_eq!(update.request, Some(request("", 1000, 1000)));
    assert_eq!(model.stack_limit(), 1000);
}

#[test]
fn a_limit_of_zero_is_sent_as_zero() {
    let mut model = Model::create();
    let update = model.update(Msg::InputInst("0".to_string()));
    assert_eq!(update.request, Some(request("", 0, 1000)));
}

#[test]
fn a_response_overwrites_what_is_shown() {
    let mut model = Model::create();
    model.update(Msg::InputCode("PRINT 1".to_string()));
    let update = model.update(Msg::RunnerResp(response("1\n", "note", "Running code succeeded")));
    assert!(update.should_render);
    assert_eq!(update.request, None);
    assert_eq!(model.stdout(), "1\n");
    assert_eq!(model.stderr(), "note");
    assert_eq!(model.status(), "Running code succeeded");
    assert_eq!(model.code(), "PRINT 1");
    assert_eq!(model.inst_limit(), 1000);
    assert_eq!(model.stack_limit(), 1000);
}

#[test]
fn a_later_response_replaces_an_earlier_one_whole() {
    let mut model = Model::create();
    model.update(Msg::RunnerResp(response("out", "err", "Running code succeeded")));
    model.update(Msg::RunnerResp(response("", "", "Running code failed with limit")));
    assert_eq!(model.stdout(), "");
    assert_eq!(model.stderr(), "");
    assert_eq!(model.status(), "Running code failed with limit");
}

#[test]
fn an_edit_keeps_the_last_output_but_marks_the_run_as_under_way() {
    let mut model = Model::create();
    model.update(Msg::RunnerResp(response("out", "err", "Running code succeeded")));
    model.update(Msg::InputCode("PRINT 2".to_string()));
    assert_eq!(model.stdout(), "out");
    assert_eq!(model.stderr(), "err");
    assert_eq!(model.status(), "Running...");
}
