//! The fixed-capacity text buffers in which outgoing commands and messages
//! are assembled, held in heapless strings so that an overflow is reported,
//! never allocated.
use vstd::prelude::*;
use vstd::string::StringSliceAdditionalSpecFns;

verus! {

/// Capacity of a PDU message buffer, in bytes.
pub const MESSAGE_CAPACITY: usize = 200;

/// Capacity of a text-mode send header buffer, in bytes.
pub const HEADER_CAPACITY: usize = 50;

/// Capacity of a text-mode message buffer, in bytes.
pub const TEXT_CAPACITY: usize = 100;

#[verifier::external_type_specification]
#[verifier::external_body]
pub struct ExHeaplessString<const N: usize>(heapless::String<N>);

/// The bytes that a message buffer holds.
pub uninterp spec fn message_bytes(s: heapless::String<MESSAGE_CAPACITY>) -> Seq<u8>;

/// Relies on heapless::String::new: a new string is empty.
#[verifier::external_body]
pub(crate) fn empty_message() -> (r: heapless::String<MESSAGE_CAPACITY>)
    ensures
        message_bytes(r) == Seq::<u8>::empty(),
{
    heapless::String::new()
}

/// Relies on heapless::String::push_str: the text's bytes are appended when
/// the result fits in the capacity; otherwise it returns `Err` and the string
/// is left as it was.
#[verifier::external_body]
pub(crate) fn push_message(s: &mut heapless::String<MESSAGE_CAPACITY>, t: &str) -> (r: Result<(), ()>)
    ensures
        message_bytes(*old(s)).len() + t.spec_bytes().len() <= MESSAGE_CAPACITY ==> r is Ok
            && message_bytes(*final(s)) == message_bytes(*old(s)) + t.spec_bytes(),
        message_bytes(*old(s)).len() + t.spec_bytes().len() > MESSAGE_CAPACITY ==> r is Err
            && message_bytes(*final(s)) == message_bytes(*old(s)),
{
    s.push_str(t)
}

/// Relies on heapless::String::as_str: the text that the string holds.
#[verifier::external_body]
pub(crate) fn message_to_vec(s: &heapless::String<MESSAGE_CAPACITY>) -> (r: Vec<u8>)
    ensures
        r@ == message_bytes(*s),
{
    s.as_str().as_bytes().to_vec()
}

/// The bytes that a header buffer holds.
pub uninterp spec fn header_bytes(s: heapless::String<HEADER_CAPACITY>) -> Seq<u8>;

/// Relies on heapless::String::new: a new string is empty.
#[verifier::external_body]
pub(crate) fn empty_header() -> (r: heapless::String<HEADER_CAPACITY>)
    ensures
        header_bytes(r) == Seq::<u8>::empty(),
{
    heapless::String::new()
}

/// Relies on heapless::String::push_str: the text's bytes are appended when
/// the result fits in the capacity; otherwise it returns `Err` and the string
/// is left as it was.
#[verifier::external_body]
pub(crate) fn push_header(s: &mut heapless::String<HEADER_CAPACITY>, t: &str) -> (r: Result<(), ()>)
    ensures
        header_bytes(*old(s)).len() + t.spec_bytes().len() <= HEADER_CAPACITY ==> r is Ok
            && header_bytes(*final(s)) == header_bytes(*old(s)) + t.spec_bytes(),
        header_bytes(*old(s)).len() + t.spec_bytes().len() > HEADER_CAPACITY ==> r is Err
            && header_bytes(*final(s)) == header_bytes(*old(s)),
{
    s.push_str(t)
}

/// Relies on heapless::String::as_str: the text that the string holds.
#[verifier::external_body]
pub(crate) fn header_to_vec(s: &heapless::String<HEADER_CAPACITY>) -> (r: Vec<u8>)
    ensures
        r@ == header_bytes(*s),
{
    s.as_str().as_bytes().to_vec()
}

/// The bytes that a text-mode message buffer holds.
pub uninterp spec fn text_bytes(s: heapless::String<TEXT_CAPACITY>) -> Seq<u8>;

/// Relies on heapless::String::new: a new string is empty.
#[verifier::external_body]
pub(crate) fn empty_text() -> (r: heapless::String<TEXT_CAPACITY>)
    ensures
        text_bytes(r) == Seq::<u8>::empty(),
{
    heapless::String::new()
}

/// Relies on heapless::String::push_str: the text's bytes are appended when
/// the result fits in the capacity; otherwise it returns `Err` and the string
/// is left as it was.
#[verifier::external_body]
pub(crate) fn push_text(s: &mut heapless::String<TEXT_CAPACITY>, t: &str) -> (r: Result<(), ()>)
    ensures
        text_bytes(*old(s)).len() + t.spec_bytes().len() <= TEXT_CAPACITY ==> r is Ok
            && text_bytes(*final(s)) == text_bytes(*old(s)) + t.spec_bytes(),
        text_bytes(*old(s)).len() + t.spec_bytes().len() > TEXT_CAPACITY ==> r is Err
            && text_bytes(*final(s)) == text_bytes(*old(s)),
{
    s.push_str(t)
}

/// Relies on heapless::String::as_str: the text that the string holds.
#[verifier::external_body]
pub(crate) fn text_to_vec(s: &heapless::String<TEXT_CAPACITY>) -> (r: Vec<u8>)
    ensures
        r@ == text_bytes(*s),
{
    s.as_str().as_bytes().to_vec()
}

} // verus!
