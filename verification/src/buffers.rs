//! Fixed-capacity text buffers for Wi-Fi credentials.
//!
//! An SSID fits in 32 bytes of UTF-8 and a password in 64, as the
//! station configuration of the radio driver demands. The buffers are
//! `heapless::String`s; their capacity check is the one the library relies on.
use vstd::prelude::*;
use vstd::utf8::encode_utf8;

verus! {

#[verifier::external_type_specification]
#[verifier::external_body]
pub struct ExHeaplessString<const N: usize>(heapless::String<N>);

/// Bytes that an SSID buffer holds at most.
pub const SSID_CAPACITY: usize = 32;

/// Bytes that a password buffer holds at most.
pub const PASSWORD_CAPACITY: usize = 64;

/// Number of bytes that `text` takes in UTF-8.
pub open spec fn utf8_len(text: Seq<char>) -> nat {
    encode_utf8(text).len()
}

/// The characters that an SSID buffer holds.
pub uninterp spec fn ssid_buffer_text(s: heapless::String<32>) -> Seq<char>;

/// The characters that a password buffer holds.
pub uninterp spec fn password_buffer_text(s: heapless::String<64>) -> Seq<char>;

/// `heapless::String::<32>::new`: an empty buffer.
#[verifier::external_body]
fn empty_ssid_buffer() -> (r: heapless::String<32>)
    ensures
        ssid_buffer_text(r) == Seq::<char>::empty(),
{
    heapless::String::new()
}

/// `heapless::String::<64>::new`: an empty buffer.
#[verifier::external_body]
fn empty_password_buffer() -> (r: heapless::String<64>)
    ensures
        password_buffer_text(r) == Seq::<char>::empty(),
{
    heapless::String::new()
}

/// `heapless::String::<32>::push_str`: appends the UTF-8 bytes of `s` when they
/// fit in the 32 bytes with what is already there (`Ok`), and otherwise leaves
/// the buffer as it was (`Err`).
#[verifier::external_body]
fn push_ssid_text(buf: &mut heapless::String<32>, s: &str) -> (r: Result<(), ()>)
    ensures
        utf8_len(ssid_buffer_text(*old(buf))) + utf8_len(s@) <= 32 ==> {
            &&& r is Ok
            &&& ssid_buffer_text(*final(buf)) == ssid_buffer_text(*old(buf)) + s@
        },
        utf8_len(ssid_buffer_text(*old(buf))) + utf8_len(s@) > 32 ==> {
            &&& r is Err
            &&& ssid_buffer_text(*final(buf)) == ssid_buffer_text(*old(buf))
        },
{
    buf.push_str(s)
}

/// `heapless::String::<64>::push_str`: appends the UTF-8 bytes of `s` when they
/// fit in the 64 bytes with what is already there (`Ok`), and otherwise leaves
/// the buffer as it was (`Err`).
#[verifier::external_body]
fn push_password_text(buf: &mut heapless::String<64>, s: &str) -> (r: Result<(), ()>)
    ensures
        utf8_len(password_buffer_text(*old(buf))) + utf8_len(s@) <= 64 ==> {
            &&& r is Ok
            &&& password_buffer_text(*final(buf)) == password_buffer_text(*old(buf)) + s@
        },
        utf8_len(password_buffer_text(*old(buf))) + utf8_len(s@) > 64 ==> {
            &&& r is Err
            &&& password_buffer_text(*final(buf)) == password_buffer_text(*old(buf))
        },
{
    buf.push_str(s)
}

/// Why a credential was refused.
#[derive(Debug, Clone, Copy, PartialEq, Eq)]
pub enum CredentialError {
    /// The SSID takes more than 32 bytes.
    SsidTooLong,
    /// The password takes more than 64 bytes.
    PasswordTooLong,
}

/// Copies an SSID into a fresh 32-byte buffer; refused when it does not fit.
pub fn bounded_ssid(ssid: &str) -> (r: Result<heapless::String<32>, CredentialError>)
    ensures
        utf8_len(ssid@) <= 32 <==> r is Ok,
        r matches Ok(b) ==> ssid_buffer_text(b) == ssid@,
        r matches Err(e) ==> e == CredentialError::SsidTooLong,
{
    let mut buf = empty_ssid_buffer();
    assert(Seq::<char>::empty() + ssid@ == ssid@);
    match push_ssid_text(&mut buf, ssid) {
        Ok(()) => Ok(buf),
        Err(()) => Err(CredentialError::SsidTooLong),
    }
}

/// Copies a password into a fresh 64-byte buffer; refused when it does not fit.
pub fn bounded_password(pwd: &str) -> (r: Result<heapless::String<64>, CredentialError>)
    ensures
        utf8_len(pwd@) <= 64 <==> r is Ok,
        r matches Ok(b) ==> password_buffer_text(b) == pwd@,
        r matches Err(e) ==> e == CredentialError::PasswordTooLong,
{
    let mut buf = empty_password_buffer();
    assert(Seq::<char>::empty() + pwd@ == pwd@);
    match push_password_text(&mut buf, pwd) {
        Ok(()) => Ok(buf),
        Err(()) => Err(CredentialError::PasswordTooLong),
    }
}

} // verus!
