//! The worker side: capturing what the machine prints and answering requests.
//!
//! The worker never runs the machine itself. It says what the machine is to
//! be given for a request ([`Runner::prepare`]) and, once the machine has
//! returned, what is to be sent back and to whom ([`Runner::handle`]).

use crate::common::{Msg, Request, Response, ResponseView};
use crate::text::{capture_to_text, captured_text};
use vstd::prelude::*;
use vstd::utf8::*;

verus! {

/// An append-only sink of bytes whose contents can be read back at any time.
#[derive(Debug)]
pub struct OutputBuffer {
    buffer: Vec<u8>,
}

impl View for OutputBuffer {
    type V = Seq<u8>;

    closed spec fn view(&self) -> Seq<u8> {
        self.buffer@
    }
}

impl OutputBuffer {
    /// What a buffer holds once `data` has been written to one holding
    /// `contents`.
    pub open spec fn written(contents: Seq<u8>, data: Seq<u8>) -> Seq<u8> {
        contents + data
    }

    /// An empty buffer.
    pub fn new() -> (buffer: Self)
        ensures
            buffer@ == Seq::<u8>::empty(),
    {
        OutputBuffer { buffer: Vec::new() }
    }

    /// A copy of everything written so far. The buffer is left as it is, so
    /// reading again gives the same bytes.
    pub fn data(&self) -> (bytes: Vec<u8>)
        ensures
            bytes@ == self@,
    {
        self.buffer.clone()
    }

    /// Appends `data` and reports how many bytes were taken: all of them.
    pub fn write(&mut self, data: &[u8]) -> (count: usize)
        ensures
            final(self)@ == Self::written(old(self)@, data@),
            count == data@.len(),
    {
        self.buffer.extend_from_slice(data);
        data.len()
    }

    /// Nothing is staged, so there is nothing to force through.
    pub fn flush(&mut self)
        ensures
            final(self)@ == old(self)@,
    {
    }

    /// Two writes in a row to a fresh buffer leave the first data followed
    /// by the second.
    pub proof fn lemma_writes_concatenate(first: Seq<u8>, second: Seq<u8>)
        ensures
            Self::written(Self::written(Seq::empty(), first), second) == first + second,
    {
        assert(Seq::<u8>::empty() + first =~= first);
    }
}

/// Everything the machine is given for one request, with the caller that
/// the answer is owed to.
#[derive(Debug)]
pub struct Invocation<Id> {
    /// The caller that sent the request.
    pub id: Id,
    /// The program.
    pub code: String,
    /// How many instructions the machine may execute.
    pub inst_limit: u32,
    /// How deep the machine's stack may grow.
    pub stack_limit: u32,
    /// The first of the machine's two switches; always on.
    pub flag_a: bool,
    /// The second of the machine's two switches; always on.
    pub flag_b: bool,
    /// What the program may read: always nothing.
    pub input: Vec<u8>,
    /// Where the program's output goes.
    pub output: OutputBuffer,
    /// Where the machine's diagnostics go.
    pub diagnostics: OutputBuffer,
}

/// A response on its way back to the caller whose request it answers.
#[derive(Debug)]
pub struct Reply<Id> {
    pub to: Id,
    pub response: Response,
}

/// The response owed for a run, from how the machine returned and what it
/// left in the two buffers. A failure carries the machine's account of it.
pub open spec fn response_for(
    outcome: Result<(), Seq<char>>,
    output: Seq<u8>,
    diagnostics: Seq<u8>,
) -> ResponseView {
    match outcome {
        Ok(_) => ResponseView::succeeded(captured_text(output), captured_text(diagnostics)),
        Err(detail) => ResponseView::failed(detail),
    }
}

/// The worker. It keeps nothing from one request to the next.
#[derive(Debug)]
pub struct Runner {}

impl Runner {
    pub fn create() -> (runner: Self) {
        Runner {  }
    }

    /// The worker has no messages of its own to act on.
    pub fn update(&mut self, _msg: Msg)
        ensures
            *final(self) == *old(self),
    {
    }

    /// What the machine is to be given for `msg`: the program and limits of
    /// the request, both switches on, nothing to read, and two fresh buffers.
    pub fn prepare<Id>(&self, msg: Request, id: Id) -> (invocation: Invocation<Id>)
        ensures
            invocation.id == id,
            invocation.code@ == msg.code@,
            invocation.inst_limit == msg.inst_limit,
            invocation.stack_limit == msg.stack_limit,
            invocation.flag_a,
            invocation.flag_b,
            invocation.input@ == Seq::<u8>::empty(),
            invocation.output@ == Seq::<u8>::empty(),
            invocation.diagnostics@ == Seq::<u8>::empty(),
    {
        Invocation {
            id,
            code: msg.code,
            inst_limit: msg.inst_limit,
            stack_limit: msg.stack_limit,
            flag_a: true,
            flag_b: true,
            input: Vec::new(),
            output: OutputBuffer::new(),
            diagnostics: OutputBuffer::new(),
        }
    }

    /// Answers a request once the machine has returned. `outcome` is how it
    /// returned, a failure carrying the machine's account of it.
    ///
    /// There is one reply, and it goes to the caller of the request. After a
    /// success it shows what the two buffers hold; after a failure it shows
    /// the account and nothing else.
    pub fn handle<Id>(&mut self, invocation: Invocation<Id>, outcome: Result<(), String>) -> (reply:
        Reply<Id>)
        ensures
            reply.to == invocation.id,
            reply.response@ == response_for(
                match outcome {
                    Ok(_) => Ok(()),
                    Err(detail) => Err(detail@),
                },
                invocation.output@,
                invocation.diagnostics@,
            ),
            *final(self) == *old(self),
    {
        let response = match outcome {
            Ok(_) => {
                let stdout = capture_to_text(invocation.output.data());
                let stderr = capture_to_text(invocation.diagnostics.data());
                Response::succeeded(stdout, stderr)
            },
            Err(detail) => Response::failed(detail.as_str()),
        };
        Reply { to: invocation.id, response }
    }
}

/// After a success, a stream that the program wrote as UTF-8 is shown as
/// exactly the text of the bytes written: encoding what is shown gives those
/// bytes back. The other stream has no say in it.
pub proof fn lemma_success_shows_what_was_written(output: Seq<u8>, diagnostics: Seq<u8>)
    ensures
        response_for(Ok(()), output, diagnostics).status == "Running code succeeded"@,
        valid_utf8(output) ==> encode_utf8(response_for(Ok(()), output, diagnostics).stdout)
            == output,
        valid_utf8(diagnostics) ==> encode_utf8(response_for(Ok(()), output, diagnostics).stderr)
            == diagnostics,
{
    if valid_utf8(output) {
        decode_utf8_encode_utf8(output);
    }
    if valid_utf8(diagnostics) {
        decode_utf8_encode_utf8(diagnostics);
    }
}

/// After a failure both streams are empty whatever the buffers hold, and the
/// status line ends with the machine's account of the failure, whole.
pub proof fn lemma_failure_shows_the_account(
    detail: Seq<char>,
    output: Seq<u8>,
    diagnostics: Seq<u8>,
)
    ensures
        response_for(Err(detail), output, diagnostics).stdout == Seq::<char>::empty(),
        response_for(Err(detail), output, diagnostics).stderr == Seq::<char>::empty(),
        ({
            let status = response_for(Err(detail), output, diagnostics).status;
            &&& status.len() >= detail.len()
            &&& status.subrange(status.len() - detail.len(), status.len() as int) == detail
        }),
{
    let status = response_for(Err(detail), output, diagnostics).status;
    assert(status.subrange(status.len() - detail.len(), status.len() as int) =~= detail);
}

} // verus!
