//! Encodings of the IPC message headers.

use vstd::prelude::*;

verus! {

/// The first header word of an IPC message: the message tag (bits 0..16)
/// and the counts of pointer (16..20), send (20..24), receive (24..28) and
/// exchange (28..32) buffer descriptors.
#[derive(Debug, Copy, Clone, PartialEq, Eq, Structural)]
pub struct Header0Tag {
    raw: u32,
}

/// The bits of a first header word.
pub open spec fn header0_bits(tag: u32, pointer_count: u32, send_count: u32, receive_count: u32, exchange_count: u32) -> u32 {
    (tag & 0x0000FFFF) | ((pointer_count << 16u32) & 0x000F0000) | ((send_count << 20u32) & 0x00F00000)
        | ((receive_count << 24u32) & 0x0F000000) | ((exchange_count << 28u32) & 0xF0000000)
}

impl View for Header0Tag {
    type V = u32;

    closed spec fn view(&self) -> u32 {
        self.raw
    }
}

impl Header0Tag {
    /// Packs the tag and the counts; each is cut to the width of its field.
    pub fn new(tag: u32, pointer_count: u32, send_count: u32, receive_count: u32, exchange_count: u32) -> (r: Self)
        ensures
            r@ == header0_bits(tag, pointer_count, send_count, receive_count, exchange_count),
            r@ & 0xFFFF == tag & 0xFFFF,
            (r@ >> 16u32) & 0xF == pointer_count & 0xF,
            (r@ >> 20u32) & 0xF == send_count & 0xF,
            (r@ >> 24u32) & 0xF == receive_count & 0xF,
            r@ >> 28u32 == exchange_count & 0xF,
    {
        let mut inner = 0u32;
        inner = inner | (tag & 0x0000FFFF);
        inner = inner | ((pointer_count << 16u32) & 0x000F0000);
        inner = inner | ((send_count << 20u32) & 0x00F00000);
        inner = inner | ((receive_count << 24u32) & 0x0F000000);
        inner = inner | ((exchange_count << 28u32) & 0xF0000000);
        assert(inner == header0_bits(tag, pointer_count, send_count, receive_count, exchange_count)) by (bit_vector)
            requires
                inner == 0u32 | (tag & 0x0000FFFF) | ((pointer_count << 16u32) & 0x000F0000) | ((send_count << 20u32)
                    & 0x00F00000) | ((receive_count << 24u32) & 0x0F000000) | ((exchange_count << 28u32)
                    & 0xF0000000),
        ;
        assert({
            let b = header0_bits(tag, pointer_count, send_count, receive_count, exchange_count);
            &&& b & 0xFFFF == tag & 0xFFFF
            &&& (b >> 16u32) & 0xF == pointer_count & 0xF
            &&& (b >> 20u32) & 0xF == send_count & 0xF
            &&& (b >> 24u32) & 0xF == receive_count & 0xF
            &&& b >> 28u32 == exchange_count & 0xF
        }) by (bit_vector);
        Header0Tag { raw: inner }
    }

    /// The header word.
    pub fn bits(&self) -> (r: u32)
        ensures
            r == self@,
    {
        self.raw
    }
}

/// The second header word of an IPC message: the size of the raw data in
/// words (bits 0..10), the receive list count (10..14), the receive list
/// offset (20..31) and whether a special header follows (bit 31).
#[derive(Debug, Copy, Clone, PartialEq, Eq, Structural)]
pub struct Header1Tag {
    raw: u32,
}

/// The bits of a second header word.
pub open spec fn header1_bits(raw_count: u32, receive_list_count: u32, receive_list_offset: u32, has_special: bool) -> u32 {
    (raw_count & 0x000003FF) | ((receive_list_count << 10u32) & 0x00003C00) | ((receive_list_offset << 20u32)
        & 0x7FF00000) | (if has_special { 0x80000000u32 } else { 0u32 })
}

impl View for Header1Tag {
    type V = u32;

    closed spec fn view(&self) -> u32 {
        self.raw
    }
}

impl Header1Tag {
    /// Packs the counts, the offset and the special-header flag; each number
    /// is cut to the width of its field.
    pub fn new(raw_count: u32, receive_list_count: u32, receive_list_offset: u32, has_special: bool) -> (r: Self)
        ensures
            r@ == header1_bits(raw_count, receive_list_count, receive_list_offset, has_special),
            r@ & 0x3FF == raw_count & 0x3FF,
            (r@ >> 10u32) & 0xF == receive_list_count & 0xF,
            (r@ >> 20u32) & 0x7FF == receive_list_offset & 0x7FF,
            (r@ >> 31u32 == 1) == has_special,
            r@ & 0x000FC000 == 0,
    {
        let special: u32 = if has_special { 1 } else { 0 };
        let mut inner = 0u32;
        inner = inner | (raw_count & 0x000003FF);
        inner = inner | ((receive_list_count << 10u32) & 0x00003C00);
        inner = inner | ((receive_list_offset << 20u32) & 0x7FF00000);
        inner = inner | ((special << 31u32) & 0x80000000);
        assert((special << 31u32) & 0x80000000 == if has_special { 0x80000000u32 } else { 0u32 }) by (bit_vector)
            requires
                special == if has_special { 1u32 } else { 0u32 },
        ;
        assert(inner == header1_bits(raw_count, receive_list_count, receive_list_offset, has_special)) by (bit_vector)
            requires
                inner == 0u32 | (raw_count & 0x000003FF) | ((receive_list_count << 10u32) & 0x00003C00)
                    | ((receive_list_offset << 20u32) & 0x7FF00000) | ((special << 31u32) & 0x80000000),
                (special << 31u32) & 0x80000000 == if has_special { 0x80000000u32 } else { 0u32 },
        ;
        assert({
            let b = header1_bits(raw_count, receive_list_count, receive_list_offset, has_special);
            &&& b & 0x3FF == raw_count & 0x3FF
            &&& (b >> 10u32) & 0xF == receive_list_count & 0xF
            &&& (b >> 20u32) & 0x7FF == receive_list_offset & 0x7FF
            &&& (b >> 31u32 == 1) == has_special
            &&& b & 0x000FC000 == 0
        }) by (bit_vector);
        Header1Tag { raw: inner }
    }

    /// The header word.
    pub fn bits(&self) -> (r: u32)
        ensures
            r == self@,
    {
        self.raw
    }
}

/// The special header of an IPC message: whether the process id is sent
/// (bit 0), and the counts of copied (bits 1..5) and moved (5..9) handles.
#[derive(Debug, Copy, Clone, PartialEq, Eq, Structural)]
pub struct SpecialTag {
    raw: u32,
}

/// The bits of a special header.
pub open spec fn special_bits(send_pid: bool, copy_handle_count: u32, move_handle_count: u32) -> u32 {
    (if send_pid { 1u32 } else { 0u32 }) | ((copy_handle_count << 1u32) & 0x0000001E) | ((move_handle_count << 5u32)
        & 0x000001E0)
}

impl View for SpecialTag {
    type V = u32;

    closed spec fn view(&self) -> u32 {
        self.raw
    }
}

impl SpecialTag {
    /// Packs the flag and the handle counts; each count is cut to 4 bits.
    pub fn new(send_pid: bool, copy_handle_count: u32, move_handle_count: u32) -> (r: Self)
        ensures
            r@ == special_bits(send_pid, copy_handle_count, move_handle_count),
            (r@ & 1 == 1) == send_pid,
            (r@ >> 1u32) & 0xF == copy_handle_count & 0xF,
            (r@ >> 5u32) & 0xF == move_handle_count & 0xF,
            r@ >> 9u32 == 0,
    {
        let pid: u32 = if send_pid { 1 } else { 0 };
        let mut inner = 0u32;
        inner = inner | (pid & 0x00000001);
        inner = inner | ((copy_handle_count << 1u32) & 0x0000001E);
        inner = inner | ((move_handle_count << 5u32) & 0x000001E0);
        assert(inner == special_bits(send_pid, copy_handle_count, move_handle_count)) by (bit_vector)
            requires
                inner == 0u32 | (pid & 0x00000001) | ((copy_handle_count << 1u32) & 0x0000001E) | ((move_handle_count
                    << 5u32) & 0x000001E0),
                pid == if send_pid { 1u32 } else { 0u32 },
        ;
        assert({
            let b = special_bits(send_pid, copy_handle_count, move_handle_count);
            &&& (b & 1 == 1) == send_pid
            &&& (b >> 1u32) & 0xF == copy_handle_count & 0xF
            &&& (b >> 5u32) & 0xF == move_handle_count & 0xF
            &&& b >> 9u32 == 0
        }) by (bit_vector);
        SpecialTag { raw: inner }
    }

    /// The header word.
    pub fn bits(&self) -> (r: u32)
        ensures
            r == self@,
    {
        self.raw
    }
}

/// The signature of a request: the bytes "SFCI" read as a little-endian word.
pub const CMIF_IN_SIGNATURE: u32 = 0x4943_4653;

/// The signature of a response: the bytes "SFCO" read as a little-endian word.
pub const CMIF_OUT_SIGNATURE: u32 = 0x4F43_4653;

/// The header of a request to a service.
#[derive(Debug, Copy, Clone, PartialEq, Eq, Structural)]
pub struct CmifInHeader {
    pub signature: u32,
    pub version: u16,
    pub reserved: u16,
    pub method_id: u32,
    pub token: u32,
}

impl CmifInHeader {
    /// The request header for the method `method_id`: signature "SFCI",
    /// version 1, no token.
    pub fn new(method_id: u32) -> (r: Self)
        ensures
            r == (CmifInHeader { signature: CMIF_IN_SIGNATURE, version: 1, reserved: 0, method_id, token: 0 }),
    {
        CmifInHeader { signature: CMIF_IN_SIGNATURE, version: 1, reserved: 0, method_id, token: 0 }
    }
}

/// The header of a service's response.
#[derive(Debug, Copy, Clone, PartialEq, Eq, Structural)]
pub struct CmifOutHeader {
    pub signature: u32,
    pub version: u16,
    pub reserved: u16,
    pub result: u32,
    pub interface_id: u32,
}

impl CmifOutHeader {
    /// The response header with a result code and an interface id:
    /// signature "SFCO", version 0.
    pub fn new(result: u32, interface_id: u32) -> (r: Self)
        ensures
            r == (CmifOutHeader { signature: CMIF_OUT_SIGNATURE, version: 0, reserved: 0, result, interface_id }),
    {
        CmifOutHeader { signature: CMIF_OUT_SIGNATURE, version: 0, reserved: 0, result, interface_id }
    }

    /// The result code of the response.
    pub fn result(&self) -> (r: u32)
        ensures
            r == self.result,
    {
        self.result
    }
}

} // verus!
