//! The service manager, the process that hands out handles to named services.

pub mod message;
pub mod types;

use vstd::prelude::*;
use vstd::bytes::spec_u32_to_le_bytes;
use crate::result::{NxError, NxResult};
use crate::services::message::{encode_request, read_word, request_bytes, result_offset, word_at, zero_bytes};

verus! {

/// The name of a service: up to 8 bytes, padded with zeros.
#[derive(Debug, Copy, Clone)]
pub struct ServiceName {
    bytes: [u8; 8],
}

impl View for ServiceName {
    type V = Seq<u8>;

    closed spec fn view(&self) -> Seq<u8> {
        self.bytes@
    }
}

impl ServiceName {
    /// The name made of `name`, padded with zeros to 8 bytes.
    pub fn from_bytes(name: &[u8]) -> (r: Self)
        requires
            name@.len() <= 8,
        ensures
            r@ == name@ + Seq::new((8 - name@.len()) as nat, |i: int| 0u8),
    {
        let mut bytes = [0u8; 8];
        let mut i: usize = 0;
        while i < name.len()
            invariant
                i <= name@.len() <= 8,
                bytes@.len() == 8,
                forall|k: int| 0 <= k < i ==> bytes@[k] == name@[k],
                forall|k: int| i <= k < 8 ==> bytes@[k] == 0u8,
            decreases name@.len() - i,
        {
            bytes[i] = name[i];
            i = i + 1;
        }
        let r = ServiceName { bytes };
        assert(r@ =~= name@ + Seq::new((8 - name@.len()) as nat, |i: int| 0u8));
        r
    }

    /// The 8 bytes of the name.
    pub fn as_bytes(&self) -> (r: [u8; 8])
        ensures
            r@ == self@,
    {
        self.bytes
    }
}

/// A session with the service manager, by the handle of its port.
#[derive(Debug)]
pub struct ServiceManager {
    handle: u32,
}

impl View for ServiceManager {
    type V = u32;

    closed spec fn view(&self) -> u32 {
        self.handle
    }
}

/// What to do after an attempt to connect to the service manager's port.
#[derive(Debug)]
pub enum ConnectStep {
    /// The port answered: the session is open.
    Connected(ServiceManager),
    /// The port does not exist yet: wait 50 ms and try again.
    Retry,
    /// Connecting failed with this error.
    Failed(NxError),
}

/// Time to wait before trying again to connect, in milliseconds.
pub const CONNECT_RETRY_DELAY_MS: u64 = 50;

impl ServiceManager {
    /// Decides, from the kernel's answer to connecting to the `sm:` port,
    /// whether the session is open, the port must be waited for (it does
    /// not exist yet), or connecting failed.
    pub fn new(connect_result: NxResult<u32>) -> (r: ConnectStep)
        ensures
            connect_result is Ok ==> r is Connected && r->Connected_0@ == connect_result->Ok_0,
            connect_result is Err && connect_result->Err_0@ == crate::result::error_bits(1, crate::result::svc::NOT_FOUND)
                ==> r is Retry,
            connect_result is Err && connect_result->Err_0@ != crate::result::error_bits(1, crate::result::svc::NOT_FOUND)
                ==> r is Failed && r->Failed_0 == connect_result->Err_0,
    {
        match connect_result {
            Ok(handle) => ConnectStep::Connected(ServiceManager { handle }),
            Err(e) => if crate::result::svc::is(e, crate::result::svc::NOT_FOUND) {
                ConnectStep::Retry
            } else {
                ConnectStep::Failed(e)
            },
        }
    }

    /// The handle of the session.
    pub fn handle(&self) -> (r: u32)
        ensures
            r == self@,
    {
        self.handle
    }
}

/// The outcome of a request whose response carries the result code
/// `result`: success with `value` when the code is zero, otherwise the code.
pub open spec fn reply_outcome<T>(result: u32, value: T) -> Result<T, u32> {
    if result == 0 {
        Ok(value)
    } else {
        Err(result)
    }
}

/// The outcome of a request from the result code of its response: success
/// when the code is zero (with `value`), otherwise the code itself.
pub fn response_outcome<T>(result: u32, value: T) -> (r: Result<T, u32>)
    ensures
        r == reply_outcome(result, value),
        result == 0 ==> r == Ok::<T, u32>(value),
        result != 0 ==> r == Err::<T, u32>(result),
{
    if result == 0 {
        Ok(value)
    } else {
        Err(result)
    }
}

/// The service manager's method that registers the calling process as a client.
pub const SM_REGISTER_CLIENT: u32 = 0;

/// The service manager's method that gives a session with a named service.
pub const SM_GET_SERVICE_HANDLE: u32 = 1;

/// The service manager's method that registers a named service.
pub const SM_REGISTER_SERVICE: u32 = 2;

/// The service manager's method that removes a named service.
pub const SM_UNREGISTER_SERVICE: u32 = 3;

/// The service manager's method that ends the calling process's registration.
pub const SM_DETACH_CLIENT: u32 = 4;

/// Offset of the result code in the service manager's responses: with no
/// handle it follows two header words and two padding words; with one moved
/// handle, the header words, the special header and the handle.
pub const RESPONSE_RESULT_OFFSET: usize = 24;

/// Offset of the handle in a response that moves one handle.
pub const RESPONSE_HANDLE_OFFSET: usize = 12;

/// How many bytes of a response are read back: all of the longest one.
pub const RESPONSE_SIZE: usize = 0x30;

/// The service manager's responses carry their result code at the same
/// offset whether they move no handle or one, and the moved handle follows
/// the two header words and the special header.
pub proof fn lemma_response_offsets()
    ensures
        RESPONSE_RESULT_OFFSET == result_offset(false, 0),
        RESPONSE_RESULT_OFFSET == result_offset(true, 1),
        RESPONSE_HANDLE_OFFSET == crate::services::message::header_size(true, 0),
{
}

/// The payload of a registration of a service: the name, whether the
/// service is light (one byte, then three of padding), and the largest
/// number of sessions as a little-endian word.
pub open spec fn register_service_payload(name: Seq<u8>, is_light: bool, max_sessions: i32) -> Seq<u8> {
    name + seq![if is_light { 1u8 } else { 0u8 }, 0u8, 0u8, 0u8] + spec_u32_to_le_bytes(max_sessions as u32)
}

/// The request that registers the calling process as a client of the
/// service manager: it sends the process id, with a zero word pair.
pub fn register_client_request() -> (r: Vec<u8>)
    ensures
        r@ == request_bytes(SM_REGISTER_CLIENT, true, Seq::empty(), Seq::empty(), zero_bytes(8)),
{
    let payload = [0u8; 8];
    assert(payload@ =~= zero_bytes(8));
    encode_request(SM_REGISTER_CLIENT, true, &[], &[], &payload)
}

/// The request for a session with the service `name`.
pub fn get_service_handle_request(name: &ServiceName) -> (r: Vec<u8>)
    ensures
        r@ == request_bytes(SM_GET_SERVICE_HANDLE, false, Seq::empty(), Seq::empty(), name@),
{
    let bytes = name.as_bytes();
    encode_request(SM_GET_SERVICE_HANDLE, false, &[], &[], &bytes)
}

/// The request that registers the service `name`, light or not, taking at
/// most `max_sessions` sessions.
pub fn register_service_request(name: &ServiceName, is_light: bool, max_sessions: i32) -> (r: Vec<u8>)
    ensures
        r@ == request_bytes(
            SM_REGISTER_SERVICE,
            false,
            Seq::empty(),
            Seq::empty(),
            register_service_payload(name@, is_light, max_sessions),
        ),
{
    let bytes = name.as_bytes();
    let sessions = vstd::bytes::u32_to_le_bytes(max_sessions as u32);
    let payload: [u8; 16] = [
        bytes[0],
        bytes[1],
        bytes[2],
        bytes[3],
        bytes[4],
        bytes[5],
        bytes[6],
        bytes[7],
        if is_light { 1 } else { 0 },
        0,
        0,
        0,
        sessions[0],
        sessions[1],
        sessions[2],
        sessions[3],
    ];
    assert(payload@ =~= register_service_payload(name@, is_light, max_sessions));
    encode_request(SM_REGISTER_SERVICE, false, &[], &[], &payload)
}

/// The request that removes the service `name`.
pub fn unregister_service_request(name: &ServiceName) -> (r: Vec<u8>)
    ensures
        r@ == request_bytes(SM_UNREGISTER_SERVICE, false, Seq::empty(), Seq::empty(), name@),
{
    let bytes = name.as_bytes();
    encode_request(SM_UNREGISTER_SERVICE, false, &[], &[], &bytes)
}

/// The request that ends the calling process's registration as a client:
/// it sends the process id, with a zero word pair.
pub fn detach_client_request() -> (r: Vec<u8>)
    ensures
        r@ == request_bytes(SM_DETACH_CLIENT, true, Seq::empty(), Seq::empty(), zero_bytes(8)),
{
    let payload = [0u8; 8];
    assert(payload@ =~= zero_bytes(8));
    encode_request(SM_DETACH_CLIENT, true, &[], &[], &payload)
}

impl ServiceManager {
    /// The outcome of registering as a client, from the response's bytes:
    /// success when its result code is zero, otherwise the code.
    pub fn register_client(&self, response: &[u8]) -> (r: Result<(), u32>)
        requires
            response@.len() >= RESPONSE_RESULT_OFFSET + 4,
        ensures
            r == reply_outcome(word_at(response@, RESPONSE_RESULT_OFFSET as int), ()),
    {
        response_outcome(read_word(response, RESPONSE_RESULT_OFFSET), ())
    }

    /// The session with a named service, from the response's bytes: the
    /// moved handle when the result code is zero, otherwise the code.
    pub fn get_service_handle(&self, response: &[u8]) -> (r: Result<u32, u32>)
        requires
            response@.len() >= RESPONSE_RESULT_OFFSET + 4,
        ensures
            r == reply_outcome(
                word_at(response@, RESPONSE_RESULT_OFFSET as int),
                word_at(response@, RESPONSE_HANDLE_OFFSET as int),
            ),
    {
        let result = read_word(response, RESPONSE_RESULT_OFFSET);
        let handle = read_word(response, RESPONSE_HANDLE_OFFSET);
        response_outcome(result, handle)
    }

    /// The port of a newly registered service, from the response's bytes:
    /// the moved handle when the result code is zero, otherwise the code.
    pub fn register_service(&self, response: &[u8]) -> (r: Result<u32, u32>)
        requires
            response@.len() >= RESPONSE_RESULT_OFFSET + 4,
        ensures
            r == reply_outcome(
                word_at(response@, RESPONSE_RESULT_OFFSET as int),
                word_at(response@, RESPONSE_HANDLE_OFFSET as int),
            ),
    {
        let result = read_word(response, RESPONSE_RESULT_OFFSET);
        let handle = read_word(response, RESPONSE_HANDLE_OFFSET);
        response_outcome(result, handle)
    }

    /// The outcome of removing a service, from the response's bytes: success
    /// when its result code is zero, otherwise the code.
    pub fn unregister_service(&self, response: &[u8]) -> (r: Result<(), u32>)
        requires
            response@.len() >= RESPONSE_RESULT_OFFSET + 4,
        ensures
            r == reply_outcome(word_at(response@, RESPONSE_RESULT_OFFSET as int), ()),
    {
        response_outcome(read_word(response, RESPONSE_RESULT_OFFSET), ())
    }

    /// The outcome of ending the registration as a client, from the
    /// response's bytes: success when its result code is zero, otherwise the code.
    pub fn detach_client(&self, response: &[u8]) -> (r: Result<(), u32>)
        requires
            response@.len() >= RESPONSE_RESULT_OFFSET + 4,
        ensures
            r == reply_outcome(word_at(response@, RESPONSE_RESULT_OFFSET as int), ()),
    {
        response_outcome(read_word(response, RESPONSE_RESULT_OFFSET), ())
    }
}

/// A registration request lays out its arguments after the 32 bytes of
/// headers: the 8 bytes of the name at 0x20, at 0x28 one byte that is 1 for
/// a light service and 0 otherwise, three zero bytes, and at 0x2C the
/// largest number of sessions as a little-endian word; the request is 56
/// bytes long.
pub proof fn lemma_register_service_layout(name: Seq<u8>, is_light: bool, max_sessions: i32)
    requires
        name.len() == 8,
    ensures
        ({
            let r = request_bytes(
                SM_REGISTER_SERVICE,
                false,
                Seq::empty(),
                Seq::empty(),
                register_service_payload(name, is_light, max_sessions),
            );
            &&& r.len() == 56
            &&& r.subrange(0x20, 0x28) == name
            &&& r[0x28] == (if is_light { 1u8 } else { 0u8 })
            &&& r[0x29] == 0 && r[0x2A] == 0 && r[0x2B] == 0
            &&& r.subrange(0x2C, 0x30) == spec_u32_to_le_bytes(max_sessions as u32)
        }),
{
    vstd::bytes::lemma_auto_spec_u32_to_from_le_bytes();
    reveal_with_fuel(crate::services::message::words_le, 5);
    let payload = register_service_payload(name, is_light, max_sessions);
    assert(payload.len() == 16);
    let pre = crate::services::message::pre_padding_words(crate::services::message::header_size(false, 0));
    assert(pre == 2);
    let cmif = crate::services::message::cmif_in_bytes(SM_REGISTER_SERVICE);
    assert(cmif.len() == 16);
    let head = spec_u32_to_le_bytes(crate::services::types::header0_bits(4, 0, 0, 0, 0)) + spec_u32_to_le_bytes(
        crate::services::types::header1_bits(((16 + payload.len()) / 4 + 4) as u32, 0, 0, false),
    ) + Seq::<u8>::empty() + crate::services::message::words_le(Seq::empty()) + crate::services::message::words_le(
        Seq::empty(),
    ) + zero_bytes(8);
    assert(head.len() == 16);
    let r = request_bytes(SM_REGISTER_SERVICE, false, Seq::empty(), Seq::empty(), payload);
    assert(r == head + cmif + payload + zero_bytes(8));
    assert(r.subrange(0x20, 0x30) =~= payload);
    assert(payload.subrange(0, 8) =~= name);
    assert(payload.subrange(12, 16) =~= spec_u32_to_le_bytes(max_sessions as u32));
    assert(r.subrange(0x20, 0x28) =~= payload.subrange(0, 8));
    assert(r.subrange(0x2C, 0x30) =~= payload.subrange(12, 16));
    assert(r[0x28] == payload[8]);
}

/// A request that sends neither the process id nor handles is laid out as
/// two header words (the second giving the size of the data in words), two
/// zero words, the CMIF header ("SFCI", version 1, the method, no token),
/// the payload at offset 0x20, and two zero words after it.
pub proof fn lemma_plain_request_layout(command_id: u32, payload: Seq<u8>)
    requires
        payload.len() % 4 == 0,
        payload.len() <= 0x100,
    ensures
        ({
            let r = request_bytes(command_id, false, Seq::empty(), Seq::empty(), payload);
            &&& r.len() == 0x28 + payload.len()
            &&& r.subrange(0, 4) == spec_u32_to_le_bytes(4)
            &&& r.subrange(4, 8) == spec_u32_to_le_bytes(((16 + payload.len()) / 4 + 4) as u32)
            &&& r.subrange(8, 0x10) == zero_bytes(8)
            &&& r.subrange(0x10, 0x14) == spec_u32_to_le_bytes(crate::services::types::CMIF_IN_SIGNATURE)
            &&& r.subrange(0x14, 0x18) == spec_u32_to_le_bytes(1)
            &&& r.subrange(0x18, 0x1C) == spec_u32_to_le_bytes(command_id)
            &&& r.subrange(0x1C, 0x20) == spec_u32_to_le_bytes(0)
            &&& r.subrange(0x20, 0x20 + payload.len() as int) == payload
            &&& r.subrange(0x20 + payload.len() as int, 0x28 + payload.len() as int) == zero_bytes(8)
        }),
{
    vstd::bytes::lemma_auto_spec_u32_to_from_le_bytes();
    reveal_with_fuel(crate::services::message::words_le, 5);
    let raw = ((16 + payload.len()) / 4 + 4) as u32;
    assert(crate::services::types::header0_bits(4, 0, 0, 0, 0) == 4) by (bit_vector);
    assert(crate::services::types::header1_bits(raw, 0, 0, false) == raw) by (bit_vector)
        requires
            raw < 0x400,
    ;
    let w = seq![crate::services::types::CMIF_IN_SIGNATURE, 1u32, command_id, 0u32];
    let cmif = crate::services::message::cmif_in_bytes(command_id);
    assert(w.drop_last().drop_last().drop_last().drop_last() =~= Seq::<u32>::empty());
    assert(w.drop_last().drop_last().drop_last() =~= seq![crate::services::types::CMIF_IN_SIGNATURE]);
    assert(w.drop_last().drop_last() =~= seq![crate::services::types::CMIF_IN_SIGNATURE, 1u32]);
    assert(w.drop_last() =~= seq![crate::services::types::CMIF_IN_SIGNATURE, 1u32, command_id]);
    assert(cmif =~= spec_u32_to_le_bytes(crate::services::types::CMIF_IN_SIGNATURE) + spec_u32_to_le_bytes(1)
        + spec_u32_to_le_bytes(command_id) + spec_u32_to_le_bytes(0));
    let a = spec_u32_to_le_bytes(4);
    let b = spec_u32_to_le_bytes(raw);
    let r = request_bytes(command_id, false, Seq::empty(), Seq::empty(), payload);
    let pre = crate::services::message::pre_padding_words(crate::services::message::header_size(false, 0));
    assert(pre == 2);
    assert(crate::services::message::words_le(Seq::empty()) =~= Seq::<u8>::empty());
    assert(r =~= a + b + zero_bytes(8) + cmif + payload + zero_bytes(8));
    assert(r.subrange(0, 4) =~= a);
    assert(r.subrange(4, 8) =~= b);
    assert(r.subrange(8, 0x10) =~= zero_bytes(8));
    assert(r.subrange(0x10, 0x14) =~= spec_u32_to_le_bytes(crate::services::types::CMIF_IN_SIGNATURE));
    assert(r.subrange(0x14, 0x18) =~= spec_u32_to_le_bytes(1));
    assert(r.subrange(0x18, 0x1C) =~= spec_u32_to_le_bytes(command_id));
    assert(r.subrange(0x1C, 0x20) =~= spec_u32_to_le_bytes(0));
    assert(r.subrange(0x20, 0x20 + payload.len() as int) =~= payload);
    assert(r.subrange(0x20 + payload.len() as int, 0x28 + payload.len() as int) =~= zero_bytes(8));
}

} // verus!
