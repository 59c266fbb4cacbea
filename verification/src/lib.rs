//! Dispatching programs to a virtual machine from an interactive front end.
//!
//! The crate holds the message shapes that cross the boundary between the
//! front end and the worker ([`common`]), the worker's rules for capturing
//! what the machine prints and turning a finished run into a reply
//! ([`runner`]), and the front end's rules for turning edits into requests
//! and responses into what is shown ([`Model`]).

pub mod common;
pub mod number;
pub mod runner;
pub mod text;

use common::{running_status, Msg, MsgView, Request, RequestView, ResponseView};
use number::{parse_u32, parsed_u32};
use vstd::prelude::*;
use vstd::string::*;

verus! {

/// The limit that stands in wherever a limit field does not hold a number.
pub const LIMIT: u32 = 1000;

/// The limit that a field holding `text` asks for.
pub open spec fn limit_from(text: Seq<char>) -> u32 {
    match parsed_u32(text) {
        Some(limit) => limit,
        None => LIMIT,
    }
}

/// Reads a limit field. Text that is not a number gives [`LIMIT`], silently.
pub fn parse_limit(text: &str) -> (limit: u32)
    ensures
        limit == limit_from(text@),
{
    match parse_u32(text) {
        Some(limit) => limit,
        None => LIMIT,
    }
}

/// The front end's state: the three inputs as last edited and the three
/// read-only fields as last received.
#[derive(Debug)]
pub struct Model {
    code: String,
    stdout: String,
    stderr: String,
    status: String,
    inst_limit: u32,
    stack_limit: u32,
}

/// The front end's state as a mathematical value.
pub struct ModelView {
    pub code: Seq<char>,
    pub stdout: Seq<char>,
    pub stderr: Seq<char>,
    pub status: Seq<char>,
    pub inst_limit: u32,
    pub stack_limit: u32,
}

/// What the surroundings are to do after a message has been taken in.
#[derive(Debug)]
pub struct Update {
    /// Whether the page is to be drawn again.
    pub should_render: bool,
    /// The request to send to the worker, if the message calls for one.
    pub request: Option<Request>,
}

impl ModelView {
    /// The state before anything has happened: nothing entered, nothing
    /// shown, both limits at [`LIMIT`].
    pub open spec fn initial() -> ModelView {
        ModelView {
            code: Seq::empty(),
            stdout: Seq::empty(),
            stderr: Seq::empty(),
            status: Seq::empty(),
            inst_limit: LIMIT,
            stack_limit: LIMIT,
        }
    }

    /// Whether `msg` is an edit to one of the inputs. Every edit sends a
    /// request; a response never does.
    pub open spec fn is_edit(msg: MsgView) -> bool {
        !(msg is RunnerResp)
    }

    /// The request made of the inputs as they stand.
    pub open spec fn request(self) -> RequestView {
        RequestView {
            code: self.code,
            inst_limit: self.inst_limit,
            stack_limit: self.stack_limit,
        }
    }

    /// The state after `msg`. An edit replaces the one input it names and
    /// marks the run as under way; a response replaces all three read-only
    /// fields and nothing else.
    pub open spec fn next(self, msg: MsgView) -> ModelView {
        match msg {
            MsgView::InputCode(text) => ModelView { code: text, status: running_status(), ..self },
            MsgView::InputInst(text) => ModelView {
                inst_limit: limit_from(text),
                status: running_status(),
                ..self
            },
            MsgView::InputStack(text) => ModelView {
                stack_limit: limit_from(text),
                status: running_status(),
                ..self
            },
            MsgView::RunnerResp(response) => ModelView {
                stdout: response.stdout,
                stderr: response.stderr,
                status: response.status,
                ..self
            },
        }
    }

    /// The request that `msg` sends off, made of the inputs after the edit.
    pub open spec fn sends(self, msg: MsgView) -> Option<RequestView> {
        if Self::is_edit(msg) {
            Some(self.next(msg).request())
        } else {
            None
        }
    }

    /// A response overwrites what an earlier response left; nothing of the
    /// earlier one shows through, and the inputs are as they were.
    pub proof fn lemma_response_overwrites(self, earlier: ResponseView, later: ResponseView)
        ensures
            self.next(MsgView::RunnerResp(earlier)).next(MsgView::RunnerResp(later)) == self.next(
                MsgView::RunnerResp(later),
            ),
            self.next(MsgView::RunnerResp(later)).request() == self.request(),
    {
    }

    /// Every edit marks the run as under way and leaves the output of the
    /// last run on display until the next response arrives.
    pub proof fn lemma_edit_keeps_output(self, msg: MsgView)
        requires
            Self::is_edit(msg),
        ensures
            self.next(msg).status == running_status(),
            self.next(msg).stdout == self.stdout,
            self.next(msg).stderr == self.stderr,
            self.sends(msg) is Some,
    {
    }
}

impl View for Model {
    type V = ModelView;

    closed spec fn view(&self) -> ModelView {
        ModelView {
            code: self.code@,
            stdout: self.stdout@,
            stderr: self.stderr@,
            status: self.status@,
            inst_limit: self.inst_limit,
            stack_limit: self.stack_limit,
        }
    }
}

impl Model {
    /// The front end as it starts out.
    pub fn create() -> (model: Self)
        ensures
            model@ == ModelView::initial(),
    {
        Model {
            code: String::new(),
            stdout: String::new(),
            stderr: String::new(),
            status: String::new(),
            inst_limit: LIMIT,
            stack_limit: LIMIT,
        }
    }

    /// Takes in one message. The page is drawn again after every message.
    pub fn update(&mut self, msg: Msg) -> (update: Update)
        ensures
            final(self)@ == old(self)@.next(msg@),
            update.should_render,
            match update.request {
                Some(request) => old(self)@.sends(msg@) == Some(request@),
                None => old(self)@.sends(msg@) is None,
            },
    {
        let should_run = match msg {
            Msg::InputCode(text) => {
                self.code = text;
                true
            },
            Msg::InputInst(text) => {
                self.inst_limit = parse_limit(text.as_str());
                true
            },
            Msg::InputStack(text) => {
                self.stack_limit = parse_limit(text.as_str());
                true
            },
            Msg::RunnerResp(response) => {
                self.stdout = response.stdout;
                self.stderr = response.stderr;
                self.status = response.status;
                false
            },
        };
        let request = if should_run {
            self.status = String::from_str("Running...");
            Some(
                Request {
                    code: self.code.clone(),
                    inst_limit: self.inst_limit,
                    stack_limit: self.stack_limit,
                },
            )
        } else {
            None
        };
        Update { should_render: true, request }
    }

    /// The program as last entered.
    pub fn code(&self) -> (code: &str)
        ensures
            code@ == self@.code,
    {
        self.code.as_str()
    }

    /// The program's output as last received.
    pub fn stdout(&self) -> (stdout: &str)
        ensures
            stdout@ == self@.stdout,
    {
        self.stdout.as_str()
    }

    /// The machine's diagnostics as last received.
    pub fn stderr(&self) -> (stderr: &str)
        ensures
            stderr@ == self@.stderr,
    {
        self.stderr.as_str()
    }

    /// The status line.
    pub fn status(&self) -> (status: &str)
        ensures
            status@ == self@.status,
    {
        self.status.as_str()
    }

    /// The instruction limit in force.
    pub fn inst_limit(&self) -> (limit: u32)
        ensures
            limit == self@.inst_limit,
    {
        self.inst_limit
    }

    /// The stack limit in force.
    pub fn stack_limit(&self) -> (limit: u32)
        ensures
            limit == self@.stack_limit,
    {
        self.stack_limit
    }
}

} // verus!
