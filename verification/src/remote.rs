//! The remote memory backend, as far as it is decided here: which query goes
//! to which sibling service, and what its answer means. Sending the query and
//! receiving the answer is the caller's part.

use crate::bios::Output;
use crate::codec::{base64_bytes, base64_text, decode, encode};
use crate::config::Config;
use crate::decimal::{decimal, decimal_text};
use crate::error::Error;
use crate::ident::{is_random_version, ComputerId};
use crate::image::{build_image, image_of};
use crate::text::{extract_string, strategies_agree, string_at, text_before_sentinel};
use vstd::prelude::*;
use vstd::string::*;

verus! {

/// The status with which a sibling service acknowledges a call.
pub const STATUS_OK: u16 = 200;

/// What the memory service is sent to initialise a computer: the computer's
/// identifier and its whole address space as base64 text.
#[derive(Clone, Debug, PartialEq, Eq)]
pub struct Rom {
    pub id: String,
    pub program_state: String,
}

/// Where a load stands between its two calls.
#[derive(Clone, Copy, Debug, PartialEq, Eq, Structural)]
pub enum LoadPhase {
    /// The image was sent to the memory service, whose answer is awaited.
    Initialising,
    /// The start call was sent to the execution service, whose
    /// acknowledgement is awaited.
    Starting,
}

/// What an `OUT` trap asks of its caller, with guest memory behind the
/// memory service.
#[derive(Clone, Debug, PartialEq, Eq)]
pub enum OutAction {
    /// Write these bytes to the console.
    Write(Vec<u8>),
    /// Send this read-range query, hand the answer to
    /// [`string_from_response`], and write the string to the console.
    Read(String),
}

/// What a load asks of its caller next.
#[derive(Clone, Debug, PartialEq, Eq)]
pub enum LoadAction {
    /// Post an empty body to this address, then report the status in phase
    /// `Starting`.
    Start(String),
    /// The load is complete: answer with this identifier.
    Finish(String),
}

/// The query that reads a computer's memory from `address` to the end of the
/// address space.
pub open spec fn read_range_query(api: Seq<char>, id: Seq<char>, address: u16) -> Seq<char> {
    api + "?id="@ + id + "&address="@ + decimal(address as nat) + "&length="@ + decimal(
        (0x10000 - address) as nat,
    )
}

/// The call that starts the program of the computer `id`.
pub open spec fn start_query(api: Seq<char>, id: Seq<char>) -> Seq<char> {
    api + "?id="@ + id
}

/// What the answer to a read-range query means for the string that starts at
/// the queried address: the decoded bytes up to their first sentinel, where
/// the status is 200 and the body is base64.
pub open spec fn string_in_response(status: u16, body: Seq<char>) -> Result<Seq<u8>, Error> {
    if status != STATUS_OK {
        Err(Error::ReadRejected(status))
    } else {
        match base64_bytes(body) {
            Some(read) => Ok(text_before_sentinel(read)),
            None => Err(Error::UndecodableMemory),
        }
    }
}

/// Builds the read-range query for the memory of computer `id` from
/// `address` through address 0xFFFF.
pub fn read_range_url(api: &str, id: &str, address: u16) -> (url: String)
    ensures
        url@ == read_range_query(api@, id@, address),
{
    let length: u32 = 0x10000 - address as u32;
    let mut url: String = String::from_str(api);
    url.append("?id=");
    url.append(id);
    url.append("&address=");
    url.append(decimal_text(address as u32).as_str());
    url.append("&length=");
    url.append(decimal_text(length).as_str());
    url
}

/// Builds the call that starts the program of computer `id`.
pub fn start_url(api: &str, id: &str) -> (url: String)
    ensures
        url@ == start_query(api@, id@),
{
    let mut url: String = String::from_str(api);
    url.append("?id=");
    url.append(id);
    url
}

/// Decides what is to be done for the console after an `OUT` trap of the
/// computer `id`: what is known without memory is written as it is, and for a
/// string the memory service is queried from the string's address on.
pub fn out_action(config: &Config, id: &str, output: Output) -> (action: OutAction)
    ensures
        match output {
            Output::StringAt(address) => action matches OutAction::Read(url) && url@
                == read_range_query(config.read_range_api@, id@, address),
            _ => action matches OutAction::Write(bytes) && Some(bytes@) == output.immediate(),
        },
{
    match output {
        Output::Nothing => OutAction::Write(Vec::new()),
        Output::Char(character) => {
            let mut bytes: Vec<u8> = Vec::new();
            bytes.push(character);
            OutAction::Write(bytes)
        },
        Output::StringAt(address) => OutAction::Read(
            read_range_url(config.read_range_api.as_str(), id, address),
        ),
    }
}

/// Reads the string out of the memory service's answer to a read-range
/// query. A status other than 200 and a body that is not base64 are backend
/// failures; otherwise the decoded bytes are cut at their first sentinel.
pub fn string_from_response(status: u16, body: &str) -> (string: Result<Vec<u8>, Error>)
    ensures
        match string_in_response(status, body@) {
            Ok(text) => string matches Ok(bytes) && bytes@ == text,
            Err(error) => string == Err::<Vec<u8>, Error>(error),
        },
{
    if status != STATUS_OK {
        return Err(Error::ReadRejected(status));
    }
    match decode(body) {
        Ok(read) => Ok(extract_string(&read)),
        Err(_) => Err(Error::UndecodableMemory),
    }
}

/// Packs what the memory service needs to initialise the computer `id` with
/// `program`: the identifier's text, and the base64 text of the address space
/// built around the program.
pub fn pack_rom(id: ComputerId, program: Vec<u8>) -> (rom: Rom)
    ensures
        rom.id@ == id.text(),
        rom.program_state@ == base64_text(image_of(program@)),
{
    let image: Vec<u8> = build_image(program);
    Rom { id: id.to_text(), program_state: encode(&image) }
}

/// Starts a load: draws a fresh identifier and packs the address space of
/// `program` under it for the memory service.
pub fn begin_load(program: Vec<u8>) -> (begun: (ComputerId, Rom))
    ensures
        is_random_version(begun.0.value),
        begun.1.id@ == begun.0.text(),
        begun.1.program_state@ == base64_text(image_of(program@)),
{
    let id: ComputerId = ComputerId::generate();
    (id, pack_rom(id, program))
}

/// Takes a load one step on, given the status with which the sibling service
/// answered the call of the current phase.
///
/// Once the memory service acknowledges the image, the execution service is
/// to be asked to start the program; once that is acknowledged, the load is
/// complete and yields the identifier's text. Any status other than 200 ends
/// the load with the error of its phase.
pub fn load_step(config: &Config, id: ComputerId, phase: LoadPhase, status: u16) -> (next: Result<
    LoadAction,
    Error,
>)
    ensures
        phase == LoadPhase::Initialising && status == STATUS_OK ==> (next matches Ok(
            LoadAction::Start(url),
        ) && url@ == start_query(config.start_program_api@, id.text())),
        phase == LoadPhase::Initialising && status != STATUS_OK ==> next == Err::<
            LoadAction,
            Error,
        >(Error::InitialiseRejected(status)),
        phase == LoadPhase::Starting && status == STATUS_OK ==> (next matches Ok(
            LoadAction::Finish(answer),
        ) && answer@ == id.text()),
        phase == LoadPhase::Starting && status != STATUS_OK ==> next == Err::<LoadAction, Error>(
            Error::StartRejected(status),
        ),
{
    match phase {
        LoadPhase::Initialising => {
            if status != STATUS_OK {
                return Err(Error::InitialiseRejected(status));
            }
            let text: String = id.to_text();
            Ok(LoadAction::Start(start_url(config.start_program_api.as_str(), text.as_str())))
        },
        LoadPhase::Starting => {
            if status != STATUS_OK {
                return Err(Error::StartRejected(status));
            }
            Ok(LoadAction::Finish(id.to_text()))
        },
    }
}

/// The remote backend yields the string that the relational backend yields.
/// Where the memory service answers a read from `address` with status 200 and
/// with the base64 text of all that `memory` holds from there to its end, the
/// string read out of the answer is the string that `memory` holds at
/// `address`.
pub proof fn response_holds_string_at(memory: Seq<u8>, address: u16, body: Seq<char>)
    requires
        address as int <= memory.len(),
    ensures
        base64_bytes(body) == Some(memory.skip(address as int)) ==> string_in_response(
            STATUS_OK,
            body,
        ) == Ok::<Seq<u8>, Error>(string_at(memory, address as int)),
{
    strategies_agree(memory, address as int);
}

} // verus!
