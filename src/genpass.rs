//! Random passwords drawn from a chosen union of character classes.

use vstd::prelude::*;
use crate::primitives::random_below;

verus! {

/// Why no password could be drawn.
#[derive(Clone, Copy, Debug, PartialEq, Eq, Structural)]
pub enum PassError {
    /// No character class was selected, so there is nothing to draw from.
    NoCharacterClass,
}

/// `n` consecutive byte values starting at `lo`.
pub open spec fn byte_run(lo: u8, n: nat) -> Seq<u8> {
    Seq::new(n, |i: int| (lo + i) as u8)
}

/// The punctuation class: `!@#$%^&*_`.
pub open spec fn symbol_class() -> Seq<u8> {
    seq![33u8, 64u8, 35u8, 36u8, 37u8, 94u8, 38u8, 42u8, 95u8]
}

/// The characters a password may hold, given which classes are selected:
/// upper-case letters, lower-case letters, digits, punctuation.
pub open spec fn charset(upper: bool, lower: bool, number: bool, symbol: bool) -> Seq<u8> {
    (if upper { byte_run(65, 26) } else { Seq::empty() }) + (if lower {
        byte_run(97, 26)
    } else {
        Seq::empty()
    }) + (if number { byte_run(48, 10) } else { Seq::empty() }) + (if symbol {
        symbol_class()
    } else {
        Seq::empty()
    })
}

/// Whether every byte is an ASCII character.
pub open spec fn all_ascii(b: Seq<u8>) -> bool {
    forall|i: int| 0 <= i < b.len() ==> #[trigger] b[i] < 128
}

fn push_run(v: &mut Vec<u8>, lo: u8, n: u8)
    requires
        lo as int + n as int <= 128,
        all_ascii(old(v)@),
    ensures
        final(v)@ == old(v)@ + byte_run(lo, n as nat),
        all_ascii(final(v)@),
{
    let ghost start = v@;
    let mut i: u8 = 0;
    while i < n
        invariant
            i <= n,
            lo as int + n as int <= 128,
            v@ == start + byte_run(lo, i as nat),
            all_ascii(v@),
        decreases n - i,
    {
        v.push(lo + i);
        i = i + 1;
        assert(v@ =~= start + byte_run(lo, i as nat));
    }
}

fn charset_vec(upper: bool, lower: bool, number: bool, symbol: bool) -> (r: Vec<u8>)
    ensures
        r@ == charset(upper, lower, number, symbol),
        all_ascii(r@),
{
    let mut v: Vec<u8> = Vec::new();
    if upper {
        push_run(&mut v, 65, 26);
    }
    let ghost a = v@;
    if lower {
        push_run(&mut v, 97, 26);
    }
    let ghost b = v@;
    if number {
        push_run(&mut v, 48, 10);
    }
    let ghost c = v@;
    if symbol {
        let mut s: Vec<u8> = vec![33u8, 64u8, 35u8, 36u8, 37u8, 94u8, 38u8, 42u8, 95u8];
        assert(s@ =~= symbol_class());
        v.append(&mut s);
    }
    assert(v@ =~= charset(upper, lower, number, symbol));
    v
}

/// Draws `length` characters, each uniformly from the selected classes.
pub fn gen_password(length: u8, upper: bool, lower: bool, number: bool, symbol: bool) -> (r: Result<
    Vec<u8>,
    PassError,
>)
    ensures
        r is Ok <==> charset(upper, lower, number, symbol).len() > 0,
        r is Ok ==> r->Ok_0@.len() == length,
        r is Ok ==> all_ascii(r->Ok_0@),
        r is Ok ==> forall|i: int|
            0 <= i < r->Ok_0@.len() ==> charset(upper, lower, number, symbol).contains(
                #[trigger] r->Ok_0@[i],
            ),
        r is Err ==> r->Err_0 == PassError::NoCharacterClass,
{
    let chars = charset_vec(upper, lower, number, symbol);
    if chars.len() == 0 {
        return Err(PassError::NoCharacterClass);
    }
    let mut password: Vec<u8> = Vec::new();
    let mut i: u8 = 0;
    while i < length
        invariant
            i <= length,
            chars@ == charset(upper, lower, number, symbol),
            chars@.len() > 0,
            password@.len() == i,
            forall|j: int| 0 <= j < password@.len() ==> chars@.contains(#[trigger] password@[j]),
            all_ascii(chars@),
            all_ascii(password@),
        decreases length - i,
    {
        let k = random_below(chars.len());
        password.push(chars[k]);
        assert(chars@[k as int] == password@[i as int]);
        i = i + 1;
    }
    Ok(password)
}

/// The text of ASCII bytes, one character per byte.
pub open spec fn ascii_text(b: Seq<u8>) -> Seq<char> {
    Seq::new(b.len(), |i: int| b[i] as char)
}

/// Relies on `String::from_utf8`: ASCII bytes are valid UTF-8, and each
/// byte becomes the character of the same code.
#[verifier::external_body]
fn ascii_to_string(b: Vec<u8>) -> (r: String)
    requires
        all_ascii(b@),
    ensures
        r@ == ascii_text(b@),
{
    String::from_utf8(b).unwrap_or_default()
}

/// A password of `length` characters drawn from the selected classes.
pub fn process_genpass(length: u8, upper: bool, lower: bool, number: bool, symbol: bool) -> (r:
    Result<String, PassError>)
    ensures
        r is Ok <==> charset(upper, lower, number, symbol).len() > 0,
        r is Ok ==> r->Ok_0@.len() == length,
        r is Ok ==> forall|i: int|
            0 <= i < r->Ok_0@.len() ==> ascii_text(charset(upper, lower, number, symbol)).contains(
                #[trigger] r->Ok_0@[i],
            ),
        r is Err ==> r->Err_0 == PassError::NoCharacterClass,
{
    match gen_password(length, upper, lower, number, symbol) {
        Ok(b) => {
            let ghost bytes = b@;
            let ghost cs = charset(upper, lower, number, symbol);
            let s = ascii_to_string(b);
            assert forall|i: int| 0 <= i < s@.len() implies ascii_text(cs).contains(
                #[trigger] s@[i],
            ) by {
                assert(cs.contains(bytes[i]));
                let j = choose|j: int| 0 <= j < cs.len() && cs[j] == bytes[i];
                assert(ascii_text(cs)[j] == s@[i]);
            }
            Ok(s)
        },
        Err(e) => Err(e),
    }
}

} // verus!
