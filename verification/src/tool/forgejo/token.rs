//! Basic sign-in for the token verbs: `user:password` in standard Base64.
use vstd::prelude::*;

use crate::text::{owned, push_char};

verus! {

/// The standard Base64 alphabet: `A-Z`, `a-z`, `0-9`, `+`, `/`.
pub open spec fn alpha(i: nat) -> char {
    if i < 26 {
        (65 + i) as char
    } else if i < 52 {
        (97 + (i - 26)) as char
    } else if i < 62 {
        (48 + (i - 52)) as char
    } else if i == 62 {
        '+'
    } else {
        '/'
    }
}

/// The four six-bit groups of a 24-bit block, from the top.
pub open spec fn sextet(packed: nat, slot: nat) -> nat {
    if slot == 0 {
        (packed / 262144) % 64
    } else if slot == 1 {
        (packed / 4096) % 64
    } else if slot == 2 {
        (packed / 64) % 64
    } else {
        packed % 64
    }
}

/// Base64 of one block of one to three bytes, padded with `=` to four
/// characters.
pub open spec fn chunk(bs: Seq<u8>) -> Seq<char> {
    let b1: nat = if bs.len() > 1 { bs[1] as nat } else { 0 };
    let b2: nat = if bs.len() > 2 { bs[2] as nat } else { 0 };
    let p = bs[0] as nat * 65536 + b1 * 256 + b2;
    seq![
        alpha(sextet(p, 0)),
        alpha(sextet(p, 1)),
        if bs.len() > 1 { alpha(sextet(p, 2)) } else { '=' },
        if bs.len() > 2 { alpha(sextet(p, 3)) } else { '=' },
    ]
}

/// Standard Base64 with `=` padding: blocks of three bytes, the last one
/// shorter.
pub open spec fn armour_of(bs: Seq<u8>) -> Seq<char>
    decreases bs.len(),
{
    if bs.len() == 0 {
        seq![]
    } else if bs.len() <= 3 {
        chunk(bs)
    } else {
        chunk(bs.take(3)) + armour_of(bs.skip(3))
    }
}

/// One Base64 character.
fn letter(i: u32) -> (c: char)
    requires
        i < 64,
    ensures
        c == alpha(i as nat),
{
    if i < 26 {
        ((65 + i) as u8) as char
    } else if i < 52 {
        ((97 + (i - 26)) as u8) as char
    } else if i < 62 {
        ((48 + (i - 52)) as u8) as char
    } else if i == 62 {
        '+'
    } else {
        '/'
    }
}

/// Appends the Base64 of the block of `left` (one to three) bytes at `i`.
fn block(held: &mut String, bytes: &[u8], i: usize, left: usize)
    requires
        1 <= left <= 3,
        i + left <= bytes@.len(),
    ensures
        final(held)@ == old(held)@ + chunk(bytes@.subrange(i as int, i + left)),
{
    let ghost bs = bytes@.subrange(i as int, i + left);
    let b0 = bytes[i] as u32;
    let b1 = if left > 1 { bytes[i + 1] as u32 } else { 0 };
    let b2 = if left > 2 { bytes[i + 2] as u32 } else { 0 };
    assert(bs[0] == bytes@[i as int]);
    if left > 1 {
        assert(bs[1] == bytes@[i + 1]);
    }
    if left > 2 {
        assert(bs[2] == bytes@[i + 2]);
    }
    let packed = b0 * 65536 + b1 * 256 + b2;
    push_char(held, letter((packed / 262144) % 64));
    push_char(held, letter((packed / 4096) % 64));
    if left > 1 {
        push_char(held, letter((packed / 64) % 64));
    } else {
        push_char(held, '=');
    }
    if left > 2 {
        push_char(held, letter(packed % 64));
    } else {
        push_char(held, '=');
    }
    assert(final(held)@ =~= old(held)@ + chunk(bs));
}

/// Standard Base64 with `=` padding.
pub fn armour(bytes: &[u8]) -> (r: String)
    ensures
        r@ == armour_of(bytes@),
{
    let mut held = String::new();
    let mut i: usize = 0;
    let n = bytes.len();
    assert(bytes@.skip(0) =~= bytes@);
    assert(held@ + armour_of(bytes@) =~= armour_of(bytes@));
    while i < n
        invariant
            n == bytes@.len(),
            i <= n,
            armour_of(bytes@) == held@ + armour_of(bytes@.skip(i as int)),
        decreases n - i,
    {
        let ghost rest = bytes@.skip(i as int);
        let left = n - i;
        if left <= 3 {
            block(&mut held, bytes, i, left);
            assert(bytes@.subrange(i as int, i + left) =~= rest);
            assert(bytes@.skip(n as int) =~= seq![]);
            i = n;
        } else {
            block(&mut held, bytes, i, 3);
            assert(bytes@.subrange(i as int, i + 3) =~= rest.take(3));
            assert(rest.skip(3) =~= bytes@.skip((i + 3) as int));
            i = i + 3;
        }
    }
    assert(bytes@.skip(n as int) =~= seq![]);
    assert(held@ + seq![] =~= held@);
    held
}

/// Base64 output is four characters for every started block of three bytes.
pub proof fn lemma_armour_len(bs: Seq<u8>)
    ensures
        armour_of(bs).len() == 4 * ((bs.len() + 2) / 3),
    decreases bs.len(),
{
    if bs.len() > 3 {
        lemma_armour_len(bs.skip(3));
        assert((bs.len() + 2) / 3 == (bs.skip(3).len() + 2) / 3 + 1);
    }
}

/// The `Authorization` value of Basic sign-in.
pub open spec fn basic_of(user: Seq<char>, password: Seq<char>) -> Seq<char> {
    "Basic "@ + armour_of(vstd::utf8::encode_utf8(user + ":"@ + password))
}

/// The `Authorization` value of Basic sign-in: `user:password`, UTF-8, in
/// Base64.
pub fn basic(user: &str, password: &str) -> (r: String)
    ensures
        r@ == basic_of(user@, password@),
{
    let mut pair = owned(user);
    pair.append(":");
    pair.append(password);
    let code = armour(pair.as_str().as_bytes());
    let mut out = owned("Basic ");
    out.append(code.as_str());
    out
}

} // verus!
