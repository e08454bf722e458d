//! Commands from the trigger node to the actuator node.
//!
//! A command is one GET to the address configured for it. What comes back is
//! read up to a fixed length and looked at as text, for the record only: the
//! trigger node acts on nothing that the answer holds.

use crate::config::Config;
use vstd::prelude::*;
use vstd::utf8::encode_utf8;
use vstd::utf8::valid_utf8;

verus! {

/// How much of an answer is read, in bytes.
pub const RESPONSE_BUFFER_LEN: usize = 64;

/// What the trigger node can ask of the actuator node.
#[derive(Clone, Copy, Debug, PartialEq, Eq, Structural)]
pub enum Command {
    /// Run a full opening.
    Open,
    /// Advance the motor controller by one step.
    Step,
}

/// The request did not get through, or its answer could not be read.
#[derive(Clone, Copy, Debug, PartialEq, Eq, Structural)]
pub struct NetworkError;

/// One GET, ready to be sent.
#[derive(Clone, Debug)]
pub struct Request {
    pub url: String,
    /// Name of the one header that is sent.
    pub header_name: String,
    /// Value of that header.
    pub header_value: String,
    /// How many bytes of the answer are read at most.
    pub read_limit: usize,
}

/// The address that a command goes to.
pub open spec fn spec_url(config: Config, command: Command) -> Seq<char> {
    match command {
        Command::Open => config.gate_open_url@,
        Command::Step => config.gate_sbs_url@,
    }
}

/// The part of an answer that is looked at: its first bytes, up to the length
/// of the buffer.
pub open spec fn spec_kept(body: Seq<u8>) -> Seq<u8> {
    if body.len() <= RESPONSE_BUFFER_LEN {
        body
    } else {
        body.take(RESPONSE_BUFFER_LEN as int)
    }
}

impl Command {
    /// The address that this command goes to.
    pub fn url(self, config: &Config) -> (url: &str)
        ensures
            url@ == spec_url(*config, self),
    {
        match self {
            Command::Open => config.gate_open_url.as_str(),
            Command::Step => config.gate_sbs_url.as_str(),
        }
    }
}

/// The GET that is sent to `url`: it asks for JSON and reads no more of the
/// answer than the buffer holds.
pub fn get_request(url: &str) -> (request: Request)
    ensures
        request.url@ == url@,
        request.header_name@ == "accept"@,
        request.header_value@ == "application/json"@,
        request.read_limit == RESPONSE_BUFFER_LEN,
{
    Request {
        url: url.to_owned(),
        header_name: "accept".to_owned(),
        header_value: "application/json".to_owned(),
        read_limit: RESPONSE_BUFFER_LEN,
    }
}

/// Decodes bytes as UTF-8 text with `std::str::from_utf8`. Believed of that
/// function, as its documentation has it: it succeeds on exactly the byte
/// strings that are well-formed UTF-8, and the text that it gives is made of
/// the very bytes that it was given.
#[verifier::external_body]
fn decode_text(bytes: &[u8]) -> (text: Option<String>)
    ensures
        text is Some <==> valid_utf8(bytes@),
        text matches Some(t) ==> encode_utf8(t@) == bytes@,
{
    match std::str::from_utf8(bytes) {
        Ok(text) => Some(text.to_owned()),
        Err(_) => None,
    }
}

/// The text of an answer, for the record: the first bytes of `body`, up to
/// the length of the buffer, where they are well-formed UTF-8, and nothing
/// where they are not.
pub fn response_text(body: &[u8]) -> (text: Option<String>)
    ensures
        text is Some <==> valid_utf8(spec_kept(body@)),
        text matches Some(t) ==> encode_utf8(t@) == spec_kept(body@),
{
    if body.len() <= RESPONSE_BUFFER_LEN {
        decode_text(body)
    } else {
        let kept = vstd::slice::slice_subrange(body, 0, RESPONSE_BUFFER_LEN);
        assert(kept@ =~= spec_kept(body@));
        decode_text(kept)
    }
}

} // verus!
