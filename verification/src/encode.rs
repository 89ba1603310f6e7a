//! The `application/x-www-form-urlencoded` encoding of a parameter list.
//!
//! Mutating requests carry their parameters in this encoding in the
//! request body.  The encoding is the standard byte serializer: bytes in
//! the unreserved set pass unchanged, a space becomes `+`, and every other
//! byte becomes `%` followed by two uppercase hexadecimal digits; pairs
//! are joined with `=` and separated by `&`.

use vstd::prelude::*;

use vstd::utf8::encode_utf8;

verus! {

/// Holds for the bytes the encoding passes through unchanged: the ASCII
/// alphanumerics and `*`, `-`, `.`, `_`.
pub open spec fn form_safe_byte(b: u8) -> bool {
    ||| b == 42u8
    ||| b == 45u8
    ||| b == 46u8
    ||| 48u8 <= b <= 57u8
    ||| 65u8 <= b <= 90u8
    ||| b == 95u8
    ||| 97u8 <= b <= 122u8
}

/// The uppercase hexadecimal digit for one value below sixteen.
pub open spec fn hex_digit_byte(d: u8) -> u8 {
    if d < 10 {
        (48u8 + d) as u8
    } else {
        (65u8 + (d - 10)) as u8
    }
}

/// The encoding of one byte.
pub open spec fn encoded_byte(b: u8) -> Seq<u8> {
    if form_safe_byte(b) {
        seq![b]
    } else if b == 32u8 {
        seq![43u8]
    } else {
        seq![37u8, hex_digit_byte(b / 16), hex_digit_byte(b % 16)]
    }
}

/// The encoding of a byte sequence, byte by byte.
pub open spec fn form_encoded_bytes(bs: Seq<u8>) -> Seq<u8>
    decreases bs.len(),
{
    if bs.len() == 0 {
        Seq::empty()
    } else {
        form_encoded_bytes(bs.drop_last()) + encoded_byte(bs.last())
    }
}

/// The encoding of one key/value pair: the encoded key, `=`, the encoded
/// value.
pub open spec fn form_encoded_pair(p: (String, String)) -> Seq<u8> {
    form_encoded_bytes(encode_utf8(p.0@)) + seq![61u8] + form_encoded_bytes(encode_utf8(p.1@))
}

/// The encoding of a parameter list: the encoded pairs in order,
/// separated by `&`.
pub open spec fn form_encoded_params(ps: Seq<(String, String)>) -> Seq<u8>
    decreases ps.len(),
{
    if ps.len() == 0 {
        Seq::empty()
    } else if ps.len() == 1 {
        form_encoded_pair(ps[0])
    } else {
        form_encoded_params(ps.drop_last()) + seq![38u8] + form_encoded_pair(ps.last())
    }
}

/// Holds when every byte of `bs` is ASCII.
pub open spec fn ascii_bytes(bs: Seq<u8>) -> bool {
    forall|i: int| 0 <= i < bs.len() ==> bs[i] < 128
}

/// Law: the encoding of one component is ASCII throughout and never
/// contains the pair separator `=` or the list separator `&`, so an
/// encoded parameter list frames its components unambiguously.
pub proof fn lemma_encoded_component_framing(bs: Seq<u8>)
    ensures
        ascii_bytes(form_encoded_bytes(bs)),
        forall|i: int|
            0 <= i < form_encoded_bytes(bs).len() ==> form_encoded_bytes(bs)[i] != 61u8
                && form_encoded_bytes(bs)[i] != 38u8,
    decreases bs.len(),
{
    if bs.len() != 0 {
        lemma_encoded_component_framing(bs.drop_last());
        let prefix = form_encoded_bytes(bs.drop_last());
        let e = encoded_byte(bs.last());
        assert(forall|i: int|
            0 <= i < e.len() ==> e[i] < 128 && e[i] != 61u8 && e[i] != 38u8);
        assert forall|i: int|
            0 <= i < form_encoded_bytes(bs).len() implies form_encoded_bytes(bs)[i] < 128
            && form_encoded_bytes(bs)[i] != 61u8 && form_encoded_bytes(bs)[i] != 38u8 by {
            if i < prefix.len() {
                assert(form_encoded_bytes(bs)[i] == prefix[i]);
            } else {
                assert(form_encoded_bytes(bs)[i] == e[i - prefix.len()]);
            }
        }
    }
}

/// Law: the encoded form of any parameter list is ASCII throughout, so it
/// is valid UTF-8 and survives any byte transport unchanged.
pub proof fn lemma_form_encoding_ascii(ps: Seq<(String, String)>)
    ensures
        ascii_bytes(form_encoded_params(ps)),
    decreases ps.len(),
{
    if ps.len() == 0 {
    } else if ps.len() == 1 {
        lemma_encoded_component_framing(encode_utf8(ps[0].0@));
        lemma_encoded_component_framing(encode_utf8(ps[0].1@));
        let k = form_encoded_bytes(encode_utf8(ps[0].0@));
        let v = form_encoded_bytes(encode_utf8(ps[0].1@));
        assert forall|i: int|
            0 <= i < form_encoded_pair(ps[0]).len() implies form_encoded_pair(ps[0])[i]
            < 128 by {
            if i < k.len() {
                assert(form_encoded_pair(ps[0])[i] == k[i]);
            } else if i == k.len() {
                assert(form_encoded_pair(ps[0])[i] == 61u8);
            } else {
                assert(form_encoded_pair(ps[0])[i] == v[i - k.len() - 1]);
            }
        }
    } else {
        lemma_form_encoding_ascii(ps.drop_last());
        lemma_form_encoding_ascii(seq![ps.last()]);
        let prefix = form_encoded_params(ps.drop_last());
        let last = form_encoded_pair(ps.last());
        assert(form_encoded_params(seq![ps.last()]) == last);
        assert forall|i: int|
            0 <= i < form_encoded_params(ps).len() implies form_encoded_params(ps)[i] < 128 by {
            if i < prefix.len() {
                assert(form_encoded_params(ps)[i] == prefix[i]);
            } else if i == prefix.len() {
                assert(form_encoded_params(ps)[i] == 38u8);
            } else {
                assert(form_encoded_params(ps)[i] == last[i - prefix.len() - 1]);
            }
        }
    }
}

/// The uppercase hexadecimal digit for one value below sixteen.
fn hex_digit(d: u8) -> (r: u8)
    requires
        d < 16,
    ensures
        r == hex_digit_byte(d),
{
    if d < 10 {
        48u8 + d
    } else {
        65u8 + (d - 10)
    }
}

/// Decides whether a byte passes through the encoding unchanged.
fn is_form_safe_byte(b: u8) -> (r: bool)
    ensures
        r == form_safe_byte(b),
{
    b == 42u8 || b == 45u8 || b == 46u8 || (48u8 <= b && b <= 57u8) || (65u8 <= b && b <= 90u8)
        || b == 95u8 || (97u8 <= b && b <= 122u8)
}

/// Appends the encoding of a byte sequence.
fn append_encoded_bytes(out: &mut Vec<u8>, input: &[u8])
    ensures
        final(out)@ == old(out)@ + form_encoded_bytes(input@),
{
    let ghost start = out@;
    let n = input.len();
    let mut i: usize = 0;
    proof {
        assert(out@ =~= start + form_encoded_bytes(input@.take(0)));
    }
    while i < n
        invariant
            i <= n,
            n == input@.len(),
            out@ == start + form_encoded_bytes(input@.take(i as int)),
        decreases n - i,
    {
        let b = input[i];
        if is_form_safe_byte(b) {
            out.push(b);
        } else if b == 32u8 {
            out.push(43u8);
        } else {
            out.push(37u8);
            out.push(hex_digit(b / 16));
            out.push(hex_digit(b % 16));
        }
        proof {
            assert(input@.take(i + 1int).drop_last() =~= input@.take(i as int));
            assert(input@.take(i + 1int).last() == input@[i as int]);
            assert(out@ =~= start + form_encoded_bytes(input@.take(i + 1int)));
        }
        i += 1;
    }
    assert(input@.take(n as int) =~= input@);
}

/// Encodes a parameter list as `application/x-www-form-urlencoded` bytes.
pub fn form_urlencode(params: &Vec<(String, String)>) -> (r: Vec<u8>)
    ensures
        r@ == form_encoded_params(params@),
{
    let mut out: Vec<u8> = Vec::new();
    let n = params.len();
    let mut i: usize = 0;
    proof {
        assert(out@ =~= form_encoded_params(params@.take(0)));
    }
    while i < n
        invariant
            i <= n,
            n == params@.len(),
            out@ == form_encoded_params(params@.take(i as int)),
        decreases n - i,
    {
        if i > 0 {
            out.push(38u8);
        }
        append_encoded_bytes(&mut out, params[i].0.as_str().as_bytes());
        out.push(61u8);
        append_encoded_bytes(&mut out, params[i].1.as_str().as_bytes());
        proof {
            assert(params@.take(i + 1int).drop_last() =~= params@.take(i as int));
            assert(params@.take(i + 1int).last() == params@[i as int]);
            assert(out@ =~= form_encoded_params(params@.take(i + 1int)));
        }
        i += 1;
    }
    assert(params@.take(n as int) =~= params@);
    out
}

} // verus!
