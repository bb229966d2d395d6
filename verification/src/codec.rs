//! The requests of the single features and what their responses say.

use crate::frame::RequestError;
use crate::AsBytes;
use vstd::prelude::*;

verus! {

/// The request that asks where a feature lives.
pub open spec fn feature_request_bytes(feature: u16) -> Seq<u8> {
    seq![0x11u8, 0xffu8, 0x00u8, 0x01u8, (feature / 256) as u8, (feature % 256) as u8]
}

/// The request that switches the startup effect.
pub open spec fn startup_effect_bytes(enable: bool) -> Seq<u8> {
    seq![0x11u8, 0xffu8, 0x04u8, 0x51u8, 0x00u8, 0x01u8, startup_effect_code(enable)]
}

/// The byte that stands for the startup effect being on or off.
pub open spec fn startup_effect_code(enable: bool) -> u8 {
    if enable {
        0x01
    } else {
        0x02
    }
}

/// The byte that stands for a switch being on or off.
pub open spec fn switch_code(enable: bool) -> u8 {
    if enable {
        1
    } else {
        0
    }
}

/// What an echoed byte decides: nothing to report when it is the byte
/// sent, a mismatch otherwise.
pub open spec fn echo_result(expected: u8, actual: u8) -> Result<(), RequestError> {
    if actual == expected {
        Ok(())
    } else {
        Err(RequestError::ResponseMismatch { expected, actual })
    }
}

/// A byte sequence without the zero bytes at its end.
pub open spec fn trimmed(s: Seq<u8>) -> Seq<u8>
    decreases s.len(),
{
    if s.len() > 0 && s.last() == 0u8 {
        trimmed(s.drop_last())
    } else {
        s
    }
}

/// Compares the byte a response echoes with the byte that was sent.
pub fn confirm_echo(expected: u8, actual: u8) -> (out: Result<(), RequestError>)
    ensures
        out == echo_result(expected, actual),
{
    if actual == expected {
        Ok(())
    } else {
        Err(RequestError::ResponseMismatch { expected, actual })
    }
}

/// The request for index, type and version of `feature`.
pub fn feature_request(feature: u16) -> (out: [u8; 6])
    ensures
        out@ == feature_request_bytes(feature),
{
    let out = [0x11u8, 0xffu8, 0x00u8, 0x01u8, (feature / 256) as u8, (feature % 256) as u8];
    assert(out@ =~= feature_request_bytes(feature));
    out
}

/// Index, type and version of a feature, from the response.
pub fn decode_feature(response: &[u8; 20]) -> (out: (u8, u8, u8))
    ensures
        out == (response@[4], response@[5], response@[6]),
{
    (response[4], response[5], response[6])
}

/// The ping that asks for the protocol version.
pub fn protocol_version_request() -> (out: [u8; 7])
    ensures
        out@ == seq![0x11u8, 0xffu8, 0x00u8, 0x11u8, 0x00u8, 0x00u8, 0xafu8],
{
    let out = [0x11u8, 0xffu8, 0x00u8, 0x11u8, 0x00u8, 0x00u8, 0xafu8];
    assert(out@ =~= seq![0x11u8, 0xffu8, 0x00u8, 0x11u8, 0x00u8, 0x00u8, 0xafu8]);
    out
}

/// Major and minor protocol version, if the response echoes the ping.
pub fn decode_protocol_version(response: &[u8; 20]) -> (out: Result<(u8, u8), RequestError>)
    ensures
        response@[6] == 0xaf ==> out == Ok::<(u8, u8), RequestError>((response@[4], response@[5])),
        response@[6] != 0xaf ==> out == Err::<(u8, u8), RequestError>(
            RequestError::ResponseMismatch { expected: 0xaf, actual: response@[6] },
        ),
{
    match confirm_echo(0xaf, response[6]) {
        Ok(()) => Ok((response[4], response[5])),
        Err(error) => Err(error),
    }
}

/// The request for the device's information block.
pub fn device_info_request() -> (out: [u8; 4])
    ensures
        out@ == seq![0x11u8, 0xffu8, 0x02u8, 0x01u8],
{
    let out = [0x11u8, 0xffu8, 0x02u8, 0x01u8];
    assert(out@ =~= seq![0x11u8, 0xffu8, 0x02u8, 0x01u8]);
    out
}

/// The request for the length of the device's name.
pub fn device_name_request() -> (out: [u8; 4])
    ensures
        out@ == seq![0x11u8, 0xffu8, 0x03u8, 0x01u8],
{
    let out = [0x11u8, 0xffu8, 0x03u8, 0x01u8];
    assert(out@ =~= seq![0x11u8, 0xffu8, 0x03u8, 0x01u8]);
    out
}

/// How many pages the name takes, from the response that gives its length.
pub fn name_page_count(response: &[u8; 20]) -> (pages: u8)
    ensures
        pages == response@[4] / 10,
{
    response[4] / 10
}

/// The request for one page of the device's name.
pub fn name_page_request(page: u8) -> (out: [u8; 5])
    ensures
        out@ == seq![0x11u8, 0xffu8, 0x03u8, 0x11u8, page],
{
    let out = [0x11u8, 0xffu8, 0x03u8, 0x11u8, page];
    assert(out@ =~= seq![0x11u8, 0xffu8, 0x03u8, 0x11u8, page]);
    out
}

/// The bytes of a response behind its header.
pub fn payload(response: &[u8; 20]) -> (out: Vec<u8>)
    ensures
        out@ == response@.subrange(4, 20),
{
    let mut out: Vec<u8> = Vec::new();
    let mut i: usize = 4;
    while i < 20
        invariant
            4 <= i <= 20,
            out@ == response@.subrange(4, i as int),
        decreases 20 - i,
    {
        out.push(response[i]);
        assert(out@ =~= response@.subrange(4, i + 1));
        i += 1;
    }
    out
}

/// Adds the payload of one page to the name read so far.
pub fn append_name_page(name: &mut Vec<u8>, response: &[u8; 20])
    ensures
        final(name)@ == old(name)@ + response@.subrange(4, 20),
{
    let mut page = payload(response);
    name.append(&mut page);
}

/// Takes the zero bytes off the end of a name.
pub fn trim_name(name: &mut Vec<u8>)
    ensures
        final(name)@ == trimmed(old(name)@),
{
    while name.len() > 0 && name[name.len() - 1] == 0u8
        invariant
            trimmed(name@) == trimmed(old(name)@),
        decreases name@.len(),
    {
        name.pop();
    }
}

/// What is left after trimming is the front of the name, ends in no zero
/// byte, and only zero bytes were taken off.
pub proof fn lemma_trimmed_is_longest(s: Seq<u8>)
    ensures
        trimmed(s).len() <= s.len(),
        trimmed(s) == s.subrange(0, trimmed(s).len() as int),
        trimmed(s).len() > 0 ==> trimmed(s).last() != 0u8,
        forall|i: int| trimmed(s).len() <= i < s.len() ==> s[i] == 0u8,
    decreases s.len(),
{
    if s.len() > 0 && s.last() == 0u8 {
        lemma_trimmed_is_longest(s.drop_last());
        let t = trimmed(s);
        assert(t =~= s.subrange(0, t.len() as int));
        assert forall|i: int| t.len() <= i < s.len() implies s[i] == 0u8 by {
            if i < s.len() - 1 {
                assert(s.drop_last()[i] == s[i]);
            }
        }
    } else {
        assert(s =~= s.subrange(0, s.len() as int));
    }
}

/// Reading the device's name page by page: how many pages there are,
/// which comes next, and the bytes read so far.
#[derive(Clone, Debug, PartialEq, Eq)]
pub struct NameReader {
    pub pages: u8,
    pub next: u8,
    pub name: Vec<u8>,
}

impl NameReader {
    /// Starts from the response that gives the name's length.
    pub fn new(response: &[u8; 20]) -> (reader: NameReader)
        ensures
            reader.pages == response@[4] / 10,
            reader.next == 0,
            reader.name@ == Seq::<u8>::empty(),
    {
        NameReader { pages: name_page_count(response), next: 0, name: Vec::new() }
    }

    /// The request for the next page, or nothing when all pages are read.
    pub fn next_request(&self) -> (out: Option<[u8; 5]>)
        ensures
            self.next < self.pages ==> out is Some && out->Some_0@ == seq![
                0x11u8,
                0xffu8,
                0x03u8,
                0x11u8,
                self.next,
            ],
            self.next >= self.pages ==> out is None,
    {
        if self.next < self.pages {
            Some(name_page_request(self.next))
        } else {
            None
        }
    }

    /// Takes in the response to the request last handed out. When all
    /// pages are read already, nothing changes.
    pub fn accept(&mut self, response: &[u8; 20])
        ensures
            final(self).pages == old(self).pages,
            old(self).next < old(self).pages ==> final(self).next == old(self).next + 1
                && final(self).name@ == old(self).name@ + response@.subrange(4, 20),
            old(self).next >= old(self).pages ==> final(self).next == old(self).next
                && final(self).name@ == old(self).name@,
    {
        if self.next < self.pages {
            append_name_page(&mut self.name, response);
            self.next = self.next + 1;
        }
    }

    /// The name as read so far, without the zero bytes at its end.
    pub fn finish(self) -> (name: Vec<u8>)
        ensures
            name@ == trimmed(self.name@),
    {
        let mut name = self.name;
        trim_name(&mut name);
        name
    }
}

/// The request that writes a light configuration.
pub fn lights_request<C: AsBytes>(config: &C) -> (out: Vec<u8>)
    ensures
        out@ == seq![0x11u8, 0xffu8, 0x04u8, 0x31u8] + config.bytes(),
{
    let mut out: Vec<u8> = Vec::new();
    out.push(0x11u8);
    out.push(0xffu8);
    out.push(0x04u8);
    out.push(0x31u8);
    let mut tail = config.as_bytes();
    out.append(&mut tail);
    assert(out@ =~= seq![0x11u8, 0xffu8, 0x04u8, 0x31u8] + config.bytes());
    out
}

/// The request that switches the startup effect on or off.
pub fn startup_effect_request(enable: bool) -> (out: [u8; 7])
    ensures
        out@ == startup_effect_bytes(enable),
{
    let code: u8 = if enable {
        0x01
    } else {
        0x02
    };
    let out = [0x11u8, 0xffu8, 0x04u8, 0x51u8, 0x00u8, 0x01u8, code];
    assert(out@ =~= startup_effect_bytes(enable));
    out
}

/// Whether the response confirms the startup effect that was asked for.
pub fn decode_startup_effect(enable: bool, response: &[u8; 20]) -> (out: Result<(), RequestError>)
    ensures
        out == echo_result(startup_effect_code(enable), response@[6]),
{
    let code: u8 = if enable {
        0x01
    } else {
        0x02
    };
    confirm_echo(code, response[6])
}

/// The request that switches button reporting on or off.
pub fn buttons_request(enable: bool) -> (out: [u8; 5])
    ensures
        out@ == seq![0x11u8, 0xffu8, 0x05u8, 0x21u8, switch_code(enable)],
{
    let code: u8 = if enable {
        1
    } else {
        0
    };
    let out = [0x11u8, 0xffu8, 0x05u8, 0x21u8, code];
    assert(out@ =~= seq![0x11u8, 0xffu8, 0x05u8, 0x21u8, switch_code(enable)]);
    out
}

/// Whether the response confirms the button reporting that was asked for.
pub fn decode_buttons(enable: bool, response: &[u8; 20]) -> (out: Result<(), RequestError>)
    ensures
        out == echo_result(switch_code(enable), response@[4]),
{
    let code: u8 = if enable {
        1
    } else {
        0
    };
    confirm_echo(code, response[4])
}

/// The request that sets the sidetone volume.
pub fn sidetone_request(volume: u8) -> (out: [u8; 5])
    ensures
        out@ == seq![0x11u8, 0xffu8, 0x07u8, 0x11u8, volume],
{
    let out = [0x11u8, 0xffu8, 0x07u8, 0x11u8, volume];
    assert(out@ =~= seq![0x11u8, 0xffu8, 0x07u8, 0x11u8, volume]);
    out
}

/// Whether the response confirms the sidetone volume that was asked for.
pub fn decode_sidetone(volume: u8, response: &[u8; 20]) -> (out: Result<(), RequestError>)
    ensures
        out == echo_result(volume, response@[4]),
{
    confirm_echo(volume, response[4])
}

/// The request for the battery report.
pub fn battery_request() -> (out: [u8; 4])
    ensures
        out@ == seq![0x11u8, 0xffu8, 0x08u8, 0x01u8],
{
    let out = [0x11u8, 0xffu8, 0x08u8, 0x01u8];
    assert(out@ =~= seq![0x11u8, 0xffu8, 0x08u8, 0x01u8]);
    out
}

} // verus!
