//! The AT-command grammar of the module: the bytes of each request and the
//! replies that confirm it.
use vstd::prelude::*;
use crate::rates::{BaudRate, TransmissionMode, baud_value, mode_digit};
use crate::text::{
    decimal, push_decimal, index_of, trim, numeral_u32, find_byte, trim_bounds, parse_numeral,
};

verus! {

/// The byte that separates the fields of a reply.
pub const COMMA: u8 = 44;

/// `AT`
pub open spec fn test_request() -> Seq<u8> {
    seq![65u8, 84u8]
}

/// `OK\r\n`
pub open spec fn ok_reply() -> Seq<u8> {
    seq![79u8, 75u8, 13u8, 10u8]
}

/// `\r\n`
pub open spec fn line_end() -> Seq<u8> {
    seq![13u8, 10u8]
}

/// `AT+B<numeral>`
pub open spec fn baud_request(rate: BaudRate) -> Seq<u8> {
    seq![65u8, 84u8, 43u8, 66u8] + decimal(baud_value(rate))
}

/// `OK+B<numeral>\r\n`
pub open spec fn baud_reply(rate: BaudRate) -> Seq<u8> {
    seq![79u8, 75u8, 43u8, 66u8] + decimal(baud_value(rate)) + line_end()
}

/// `AT+FU<digit>`
pub open spec fn mode_request(mode: TransmissionMode) -> Seq<u8> {
    seq![65u8, 84u8, 43u8, 70u8, 85u8] + decimal(mode_digit(mode))
}

/// `OK+FU<digit>`, which a reply to a mode change must contain.
pub open spec fn mode_marker(mode: TransmissionMode) -> Seq<u8> {
    seq![79u8, 75u8, 43u8, 70u8, 85u8] + decimal(mode_digit(mode))
}

/// `AT+DEFAULT`
pub open spec fn default_request() -> Seq<u8> {
    seq![65u8, 84u8, 43u8, 68u8, 69u8, 70u8, 65u8, 85u8, 76u8, 84u8]
}

/// `OK+DEFAULT\r\n`
pub open spec fn default_reply() -> Seq<u8> {
    seq![79u8, 75u8, 43u8, 68u8, 69u8, 70u8, 65u8, 85u8, 76u8, 84u8, 13u8, 10u8]
}

/// The rate that a reply to a mode change forces: its second comma-separated
/// field, without its first byte (a separator) and without surrounding white
/// space, where that is a decimal numeral that fits in 32 bits.
pub open spec fn forced_rate(reply: Seq<u8>) -> Option<nat> {
    let a = index_of(reply, COMMA, 0);
    if a >= reply.len() {
        None
    } else {
        let b = index_of(reply, COMMA, a + 1);
        if b <= a + 1 {
            None
        } else {
            numeral_u32(trim(reply.subrange(a + 2, b)))
        }
    }
}

fn append(out: &mut Vec<u8>, bytes: &[u8])
    ensures
        final(out)@ == old(out)@ + bytes@,
{
    let mut i: usize = 0;
    while i < bytes.len()
        invariant
            i <= bytes@.len(),
            out@ == old(out)@ + bytes@.subrange(0, i as int),
        decreases bytes@.len() - i,
    {
        out.push(bytes[i]);
        assert(bytes@.subrange(0, i + 1) =~= bytes@.subrange(0, i as int).push(bytes@[i as int]));
        i = i + 1;
    }
    assert(bytes@.subrange(0, i as int) =~= bytes@);
}

/// Whether two byte strings are equal.
pub fn bytes_equal(a: &[u8], b: &[u8]) -> (r: bool)
    ensures
        r == (a@ == b@),
{
    if a.len() != b.len() {
        return false;
    }
    let mut i: usize = 0;
    while i < a.len()
        invariant
            a@.len() == b@.len(),
            i <= a@.len(),
            forall|k: int| 0 <= k < i ==> a@[k] == b@[k],
        decreases a@.len() - i,
    {
        if a[i] != b[i] {
            return false;
        }
        i = i + 1;
    }
    assert(a@ =~= b@);
    true
}

/// The request that tests the link: `AT`.
pub fn test_command() -> (r: Vec<u8>)
    ensures
        r@ == test_request(),
{
    let mut r: Vec<u8> = Vec::new();
    append(&mut r, &[65u8, 84u8]);
    assert(r@ =~= test_request());
    r
}

/// The reply that confirms a test: `OK\r\n`.
pub fn ok_text() -> (r: Vec<u8>)
    ensures
        r@ == ok_reply(),
{
    let mut r: Vec<u8> = Vec::new();
    append(&mut r, &[79u8, 75u8, 13u8, 10u8]);
    assert(r@ =~= ok_reply());
    r
}

/// The request that sets the module's rate: `AT+B<numeral>`.
pub fn baud_command(rate: BaudRate) -> (r: Vec<u8>)
    ensures
        r@ == baud_request(rate),
{
    let mut r: Vec<u8> = Vec::new();
    append(&mut r, &[65u8, 84u8, 43u8, 66u8]);
    push_decimal(&mut r, rate.numeral());
    assert(r@ =~= baud_request(rate));
    r
}

/// The reply that confirms a rate change: `OK+B<numeral>\r\n`.
pub fn baud_confirmation(rate: BaudRate) -> (r: Vec<u8>)
    ensures
        r@ == baud_reply(rate),
{
    let mut r: Vec<u8> = Vec::new();
    append(&mut r, &[79u8, 75u8, 43u8, 66u8]);
    push_decimal(&mut r, rate.numeral());
    append(&mut r, &[13u8, 10u8]);
    assert(r@ =~= baud_reply(rate));
    r
}

/// The request that sets the transmission mode: `AT+FU<digit>`.
pub fn mode_command(mode: TransmissionMode) -> (r: Vec<u8>)
    ensures
        r@ == mode_request(mode),
{
    let mut r: Vec<u8> = Vec::new();
    append(&mut r, &[65u8, 84u8, 43u8, 70u8, 85u8]);
    push_decimal(&mut r, mode.digit());
    assert(r@ =~= mode_request(mode));
    r
}

/// The text that a reply to a mode change must contain: `OK+FU<digit>`.
pub fn mode_confirmation(mode: TransmissionMode) -> (r: Vec<u8>)
    ensures
        r@ == mode_marker(mode),
{
    let mut r: Vec<u8> = Vec::new();
    append(&mut r, &[79u8, 75u8, 43u8, 70u8, 85u8]);
    push_decimal(&mut r, mode.digit());
    assert(r@ =~= mode_marker(mode));
    r
}

/// The request that restores the factory settings: `AT+DEFAULT`.
pub fn default_command() -> (r: Vec<u8>)
    ensures
        r@ == default_request(),
{
    let mut r: Vec<u8> = Vec::new();
    append(&mut r, &[65u8, 84u8, 43u8, 68u8, 69u8, 70u8, 65u8, 85u8, 76u8, 84u8]);
    assert(r@ =~= default_request());
    r
}

/// The reply that confirms a factory reset: `OK+DEFAULT\r\n`.
pub fn default_confirmation() -> (r: Vec<u8>)
    ensures
        r@ == default_reply(),
{
    let mut r: Vec<u8> = Vec::new();
    append(&mut r, &[79u8, 75u8, 43u8, 68u8, 69u8, 70u8, 65u8, 85u8, 76u8, 84u8, 13u8, 10u8]);
    assert(r@ =~= default_reply());
    r
}

/// The rate that a reply to a mode change forces, if any.
pub fn forced_rate_of(reply: &[u8]) -> (r: Option<u32>)
    ensures
        match forced_rate(reply@) {
            Some(v) => r == Some(v as u32),
            None => r.is_none(),
        },
{
    let a = find_byte(reply, COMMA, 0);
    if a >= reply.len() {
        return None;
    }
    let b = find_byte(reply, COMMA, a + 1);
    if b <= a + 1 {
        return None;
    }
    let (lo, hi) = trim_bounds(reply, a + 2, b);
    parse_numeral(reply, lo, hi)
}

} // verus!
