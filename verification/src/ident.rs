//! Token identifiers: sixteen random bytes, written as thirty-two hex digits.

use crate::error::Error;
use crate::error::ErrorKind;
use vstd::prelude::*;

verus! {

/// The number of random bytes in a token identifier.
pub const ID_BYTES: usize = 16;

/// The hex digit for a number below sixteen, in lower case.
pub open spec fn hex_digit(n: nat) -> char {
    if n < 10 {
        (48 + n) as u8 as char
    } else {
        (87 + n) as u8 as char
    }
}

/// The two hex digits of a byte, the high one first.
pub open spec fn hex_byte(b: u8) -> Seq<char> {
    seq![hex_digit((b / 16) as nat), hex_digit((b % 16) as nat)]
}

/// The hex digits of a sequence of bytes.
pub open spec fn hex(bytes: Seq<u8>) -> Seq<char>
    decreases bytes.len(),
{
    if bytes.len() == 0 {
        Seq::empty()
    } else {
        hex(bytes.drop_last()) + hex_byte(bytes.last())
    }
}

/// `rand::RngCore::try_fill_bytes` on `rand::rngs::OsRng`: overwrites the
/// bytes with random ones and says whether the system's random source gave
/// them. Nothing is known of the bytes but their number.
#[verifier::external_body]
fn fill_random(dest: &mut Vec<u8>) -> (ok: bool)
    ensures
        final(dest)@.len() == old(dest)@.len(),
{
    rand::RngCore::try_fill_bytes(&mut rand::rngs::OsRng, dest.as_mut_slice()).is_ok()
}

/// One hex digit as a string.
fn digit_text(n: u8) -> (s: &'static str)
    requires
        n < 16,
    ensures
        s@ == seq![hex_digit(n as nat)],
{
    proof {
        reveal_strlit("0");
        reveal_strlit("1");
        reveal_strlit("2");
        reveal_strlit("3");
        reveal_strlit("4");
        reveal_strlit("5");
        reveal_strlit("6");
        reveal_strlit("7");
        reveal_strlit("8");
        reveal_strlit("9");
        reveal_strlit("a");
        reveal_strlit("b");
        reveal_strlit("c");
        reveal_strlit("d");
        reveal_strlit("e");
        reveal_strlit("f");
    }
    let s = match n {
        0 => "0",
        1 => "1",
        2 => "2",
        3 => "3",
        4 => "4",
        5 => "5",
        6 => "6",
        7 => "7",
        8 => "8",
        9 => "9",
        10 => "a",
        11 => "b",
        12 => "c",
        13 => "d",
        14 => "e",
        _ => "f",
    };
    s
}

/// The identifier made of the given bytes: their hex digits.
pub fn token_id_of(bytes: &Vec<u8>) -> (id: String)
    ensures
        id@ == hex(bytes@),
{
    let mut id = String::new();
    let mut i: usize = 0;
    while i < bytes.len()
        invariant
            i <= bytes.len(),
            id@ == hex(bytes@.subrange(0, i as int)),
        decreases bytes.len() - i,
    {
        let b = bytes[i];
        id.append(digit_text(b / 16));
        id.append(digit_text(b % 16));
        proof {
            let upto = bytes@.subrange(0, i + 1);
            assert(upto.drop_last() =~= bytes@.subrange(0, i as int));
        }
        i += 1;
    }
    assert(bytes@.subrange(0, bytes.len() as int) =~= bytes@);
    id
}

/// A fresh token identifier: the hex digits of [`ID_BYTES`] bytes from the
/// system's random source. Which bytes depends on chance. The only failure,
/// where the source gives none, is of the kind [`ErrorKind::KeyFailure`].
pub fn mint_token_id() -> (r: Result<String, Error>)
    ensures
        r matches Ok(id) ==> exists|bytes: Seq<u8>|
            bytes.len() == ID_BYTES && id@ == #[trigger] hex(bytes),
        r matches Err(e) ==> e.kind_spec() == ErrorKind::KeyFailure,
{
    let mut bytes: Vec<u8> = Vec::new();
    let mut i: usize = 0;
    while i < ID_BYTES
        invariant
            i <= ID_BYTES,
            bytes@.len() == i,
        decreases ID_BYTES - i,
    {
        bytes.push(0u8);
        i += 1;
    }
    if fill_random(&mut bytes) {
        Ok(token_id_of(&bytes))
    } else {
        Err(Error::of_kind(ErrorKind::KeyFailure))
    }
}

} // verus!
