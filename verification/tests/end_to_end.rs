use online_tac_vm::common::{Msg, Request, Response};
use online_tac_vm::runner::Runner;
use online_tac_vm::Model;

fn response(stdout: &str, stderr: &str, status: &str) -> Response {
    Response { stdout: stdout.to_string(), stderr: stderr.to_string(), status: status.to_string() }
}

#[test]
fn print_one_end_to_end() {
    let request = Request { code: "PRINT 1".to_string(), inst_limit: 100, stack_limit: 100 };
    let mut runner = Runner::create();
    let mut invocation = runner.prepare(request, 1u32);
    assert_eq!(invocation.output.write(b"1\n"), 2);
    invocation.output.flush();
    let reply = runner.handle(invocation, Ok(()));
    assert_eq!(reply.to, 1);
    assert_eq!(reply.response, response("1\n", "", "Running code succeeded"));
}

#[test]
fn loop_forever_end_to_end() {
    let request = Request { code: "LOOP FOREVER".to_string(), inst_limit: 5, stack_limit: 5 };
    let mut runner = Runner::create();
    let invocation = runner.prepare(request, 1u32);
    assert_eq!(invocation.inst_limit, 5);
    assert_eq!(invocation.stack_limit, 5);
    let reply = runner.handle(invocation, Err("TooMuchInst".to_string()));
    assert_eq!(reply.response, response("", "", "Running code failed with TooMuchInst"));
}

#[test]
fn unparsable_limit_end_to_end() {
    let mut model = Model::create();
    let update = model.update(Msg::InputInst("abc".to_string()));
    let request = update.request.unwrap();
    assert_eq!(request.inst_limit, 1000);
    assert_eq!(request.stack_limit, 1000);
}

#[test]
fn edit_travels_to_the_worker_and_back() {
    let mut model = Model::create();
    model.update(Msg::InputStack("64".to_string()));
    let sent = model.update(Msg::InputCode("PRINT 1".to_string())).request.unwrap();
    let received = Request::from_bytes(&sent.to_bytes()).unwrap();
    let mut runner = Runner::create();
    let mut invocation = runner.prepare(received, 9u32);
    assert_eq!(invocation.code, "PRINT 1");
    assert_eq!(invocation.inst_limit, 1000);
    assert_eq!(invocation.stack_limit, 64);
    invocation.output.write(b"1\n");
    let reply = runner.handle(invocation, Ok(()));
    let delivered = Response::from_bytes(&reply.response.to_bytes()).unwrap();
    model.update(Msg::RunnerResp(delivered));
    assert_eq!(model.stdout(), "1\n");
    assert_eq!(model.stderr(), "");
    assert_eq!(model.status(), "Running code succeeded");
}
