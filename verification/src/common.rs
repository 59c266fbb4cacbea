//! The messages exchanged between the front end and the worker.
//!
//! A [`Request`] carries a program and the machine's two limits to the
//! worker; a [`Response`] carries the captured output and a status line back.
//! Each has a byte form that reads back as the value it was written from.

use crate::text::{
    encode_text, fits_length_prefix, lemma_text_round_trip, put_text, take_text, text_at,
};
use vstd::bytes::*;
use vstd::prelude::*;
use vstd::slice::*;
use vstd::std_specs::cmp::PartialEqSpecImpl;
use vstd::string::*;
use vstd::utf8::*;

verus! {

/// A program to run, with the two resource limits of the machine.
/// A limit of zero is a limit like any other.
#[derive(Debug, Clone)]
pub struct Request {
    pub code: String,
    pub inst_limit: u32,
    pub stack_limit: u32,
}

/// A request as a mathematical value.
pub struct RequestView {
    pub code: Seq<char>,
    pub inst_limit: u32,
    pub stack_limit: u32,
}

impl View for Request {
    type V = RequestView;

    open spec fn view(&self) -> RequestView {
        RequestView {
            code: self.code@,
            inst_limit: self.inst_limit,
            stack_limit: self.stack_limit,
        }
    }
}

impl RequestView {
    /// Whether the program is short enough to be written with its length.
    /// Every `Request` that fits in memory is.
    pub open spec fn encodable(self) -> bool {
        fits_length_prefix(self.code)
    }

    /// The byte form: the program as a text field, then each limit as four
    /// little-endian bytes.
    pub open spec fn encode(self) -> Seq<u8> {
        encode_text(self.code) + spec_u32_to_le_bytes(self.inst_limit) + spec_u32_to_le_bytes(
            self.stack_limit,
        )
    }

    /// The request that `bytes` are the byte form of, if they are one.
    /// Nothing may follow the second limit.
    pub open spec fn decode(bytes: Seq<u8>) -> Option<RequestView> {
        match text_at(bytes, 0) {
            Some((code, end)) => if end + 8 == bytes.len() {
                Some(
                    RequestView {
                        code,
                        inst_limit: spec_u32_from_le_bytes(bytes.subrange(end, end + 4)),
                        stack_limit: spec_u32_from_le_bytes(bytes.subrange(end + 4, end + 8)),
                    },
                )
            } else {
                None
            },
            None => None,
        }
    }

    /// Writing a request and reading it back gives the same request.
    pub proof fn lemma_round_trip(self)
        requires
            self.encodable(),
        ensures
            Self::decode(self.encode()) == Some(self),
    {
        let inst = spec_u32_to_le_bytes(self.inst_limit);
        let stack = spec_u32_to_le_bytes(self.stack_limit);
        let bytes = self.encode();
        let end = encode_text(self.code).len() as int;
        lemma_auto_spec_u32_to_from_le_bytes();
        lemma_text_round_trip(Seq::empty(), self.code, inst + stack);
        assert(bytes =~= Seq::<u8>::empty() + encode_text(self.code) + (inst + stack));
        assert(bytes.subrange(end, end + 4) =~= inst);
        assert(bytes.subrange(end + 4, end + 8) =~= stack);
    }
}

impl Request {
    /// The byte form of this request.
    pub fn to_bytes(&self) -> (bytes: Vec<u8>)
        ensures
            bytes@ == self@.encode(),
            self@.encodable(),
    {
        let mut bytes: Vec<u8> = Vec::new();
        put_text(&mut bytes, self.code.as_str());
        let mut inst = u32_to_le_bytes(self.inst_limit);
        bytes.append(&mut inst);
        let mut stack = u32_to_le_bytes(self.stack_limit);
        bytes.append(&mut stack);
        assert(bytes@ =~= self@.encode());
        bytes
    }

    /// Reads a request from its byte form. Bytes that are not the byte form
    /// of a request give `None`.
    pub fn from_bytes(bytes: &[u8]) -> (request: Option<Request>)
        ensures
            match request {
                Some(r) => RequestView::decode(bytes@) == Some(r@),
                None => RequestView::decode(bytes@) is None,
            },
    {
        match take_text(bytes, 0) {
            Some((code, end)) => {
                if bytes.len() - end != 8 {
                    return None;
                }
                let inst_limit = u32_from_le_bytes(slice_subrange(bytes, end, end + 4));
                let stack_limit = u32_from_le_bytes(slice_subrange(bytes, end + 4, end + 8));
                Some(Request { code, inst_limit, stack_limit })
            },
            None => None,
        }
    }
}

impl PartialEq for Request {
    fn eq(&self, other: &Self) -> (equal: bool) {
        self.code == other.code && self.inst_limit == other.inst_limit && self.stack_limit
            == other.stack_limit
    }
}

impl PartialEqSpecImpl for Request {
    open spec fn obeys_eq_spec() -> bool {
        true
    }

    open spec fn eq_spec(&self, other: &Self) -> bool {
        self.code@ == other.code@ && self.inst_limit == other.inst_limit && self.stack_limit
            == other.stack_limit
    }
}

/// What a run produced: the two captured streams and a status line.
///
/// The streams carry text only after a run that succeeded. After one that
/// failed both are empty and the status line tells what went wrong.
#[derive(Debug, Clone)]
pub struct Response {
    pub stdout: String,
    pub stderr: String,
    pub status: String,
}

/// A response as a mathematical value.
pub struct ResponseView {
    pub stdout: Seq<char>,
    pub stderr: Seq<char>,
    pub status: Seq<char>,
}

impl View for Response {
    type V = ResponseView;

    open spec fn view(&self) -> ResponseView {
        ResponseView { stdout: self.stdout@, stderr: self.stderr@, status: self.status@ }
    }
}

/// The status line shown from the moment a request is sent until its
/// response arrives.
pub open spec fn running_status() -> Seq<char> {
    "Running..."@
}

/// The status line of a run that succeeded.
pub open spec fn success_status() -> Seq<char> {
    "Running code succeeded"@
}

/// The status line of a run that failed: a fixed opening, then the machine's
/// own account of the failure.
pub open spec fn failure_status(detail: Seq<char>) -> Seq<char> {
    "Running code failed with "@ + detail
}

impl ResponseView {
    /// The response to a run that succeeded with the given stream texts.
    pub open spec fn succeeded(stdout: Seq<char>, stderr: Seq<char>) -> ResponseView {
        ResponseView { stdout, stderr, status: success_status() }
    }

    /// The response to a run that failed in the way `detail` describes.
    pub open spec fn failed(detail: Seq<char>) -> ResponseView {
        ResponseView {
            stdout: Seq::empty(),
            stderr: Seq::empty(),
            status: failure_status(detail),
        }
    }

    /// Whether each field is short enough to be written with its length.
    /// Every `Response` that fits in memory is.
    pub open spec fn encodable(self) -> bool {
        &&& fits_length_prefix(self.stdout)
        &&& fits_length_prefix(self.stderr)
        &&& fits_length_prefix(self.status)
    }

    /// The byte form: the three fields, each as a text field, in the order
    /// standard output, diagnostics, status.
    pub open spec fn encode(self) -> Seq<u8> {
        encode_text(self.stdout) + encode_text(self.stderr) + encode_text(self.status)
    }

    /// The response that `bytes` are the byte form of, if they are one.
    /// Nothing may follow the status line.
    pub open spec fn decode(bytes: Seq<u8>) -> Option<ResponseView> {
        match text_at(bytes, 0) {
            Some((stdout, first)) => match text_at(bytes, first) {
                Some((stderr, second)) => match text_at(bytes, second) {
                    Some((status, end)) => if end == bytes.len() {
                        Some(ResponseView { stdout, stderr, status })
                    } else {
                        None
                    },
                    None => None,
                },
                None => None,
            },
            None => None,
        }
    }

    /// Writing a response and reading it back gives the same response.
    pub proof fn lemma_round_trip(self)
        requires
            self.encodable(),
        ensures
            Self::decode(self.encode()) == Some(self),
    {
        let out = encode_text(self.stdout);
        let err = encode_text(self.stderr);
        let status = encode_text(self.status);
        let bytes = self.encode();
        lemma_text_round_trip(Seq::empty(), self.stdout, err + status);
        assert(bytes =~= Seq::<u8>::empty() + out + (err + status));
        lemma_text_round_trip(out, self.stderr, status);
        lemma_text_round_trip(out + err, self.status, Seq::empty());
        assert(bytes =~= out + err + status + Seq::<u8>::empty());
    }
}

impl Response {
    /// The response to a run that succeeded and left the given texts in
    /// its two streams.
    pub fn succeeded(stdout: String, stderr: String) -> (response: Response)
        ensures
            response@ == ResponseView::succeeded(stdout@, stderr@),
    {
        Response { stdout, stderr, status: String::from_str("Running code succeeded") }
    }

    /// The response to a run that failed: both streams empty, and the
    /// machine's account of the failure folded into the status line.
    pub fn failed(detail: &str) -> (response: Response)
        ensures
            response@ == ResponseView::failed(detail@),
    {
        Response {
            stdout: String::new(),
            stderr: String::new(),
            status: String::from_str("Running code failed with ").concat(detail),
        }
    }

    /// The byte form of this response.
    pub fn to_bytes(&self) -> (bytes: Vec<u8>)
        ensures
            bytes@ == self@.encode(),
            self@.encodable(),
    {
        let mut bytes: Vec<u8> = Vec::new();
        put_text(&mut bytes, self.stdout.as_str());
        put_text(&mut bytes, self.stderr.as_str());
        put_text(&mut bytes, self.status.as_str());
        assert(bytes@ =~= self@.encode());
        bytes
    }

    /// Reads a response from its byte form. Bytes that are not the byte form
    /// of a response give `None`.
    pub fn from_bytes(bytes: &[u8]) -> (response: Option<Response>)
        ensures
            match response {
                Some(r) => ResponseView::decode(bytes@) == Some(r@),
                None => ResponseView::decode(bytes@) is None,
            },
    {
        let (stdout, first) = match take_text(bytes, 0) {
            Some(taken) => taken,
            None => { return None; },
        };
        let (stderr, second) = match take_text(bytes, first) {
            Some(taken) => taken,
            None => { return None; },
        };
        let (status, end) = match take_text(bytes, second) {
            Some(taken) => taken,
            None => { return None; },
        };
        if end != bytes.len() {
            return None;
        }
        Some(Response { stdout, stderr, status })
    }
}

impl PartialEq for Response {
    fn eq(&self, other: &Self) -> (equal: bool) {
        self.stdout == other.stdout && self.stderr == other.stderr && self.status == other.status
    }
}

impl PartialEqSpecImpl for Response {
    open spec fn obeys_eq_spec() -> bool {
        true
    }

    open spec fn eq_spec(&self, other: &Self) -> bool {
        self.stdout@ == other.stdout@ && self.stderr@ == other.stderr@ && self.status@
            == other.status@
    }
}

/// What can reach the front end: an edit to one of its three input fields,
/// carrying the field's new text, or a response from the worker.
#[derive(Debug, Clone)]
pub enum Msg {
    InputCode(String),
    InputInst(String),
    InputStack(String),
    RunnerResp(Response),
}

/// A front-end message as a mathematical value.
pub enum MsgView {
    InputCode(Seq<char>),
    InputInst(Seq<char>),
    InputStack(Seq<char>),
    RunnerResp(ResponseView),
}

impl View for Msg {
    type V = MsgView;

    open spec fn view(&self) -> MsgView {
        match self {
            Msg::InputCode(text) => MsgView::InputCode(text@),
            Msg::InputInst(text) => MsgView::InputInst(text@),
            Msg::InputStack(text) => MsgView::InputStack(text@),
            Msg::RunnerResp(response) => MsgView::RunnerResp(response@),
        }
    }
}

} // verus!
