//! The framing of git's smart HTTP protocol: pkt-lines, the service
//! advertisement, and the response headers of the git routes.
use vstd::prelude::*;
use crate::text::str_eq;
use vstd::utf8::encode_utf8;
use vstd::string::StringSliceAdditionalSpecFns;
use vstd::string::StrSliceExecFns;
use vstd::string::StringExecFns;

verus! {

/// The name of a git service in the smart HTTP protocol: `git-upload-pack`
/// names `upload-pack`. Anything not starting with `git-` names nothing.
pub open spec fn spec_git_service(service: Seq<char>) -> Seq<char> {
    if service.len() >= 4 && service.take(4) == seq!['g', 'i', 't', '-'] {
        service.skip(4)
    } else {
        Seq::empty()
    }
}

pub fn get_git_service(service: &str) -> (r: String)
    ensures
        r@ == spec_git_service(service@),
{
    let n = service.unicode_len();
    if n >= 4 && service.get_char(0) == 'g' && service.get_char(1) == 'i' && service.get_char(2)
        == 't' && service.get_char(3) == '-' {
        let r = service.substring_char(4, n);
        assert(service@.take(4) =~= seq!['g', 'i', 't', '-']);
        r.to_owned()
    } else {
        proof {
            if service@.len() >= 4 && service@.take(4) == seq!['g', 'i', 't', '-'] {
                assert(service@[0] == service@.take(4)[0]);
                assert(service@[1] == service@.take(4)[1]);
                assert(service@[2] == service@.take(4)[2]);
                assert(service@[3] == service@.take(4)[3]);
            }
        }
        String::new()
    }
}

/// The ASCII byte of the hexadecimal digit `d` (`0 <= d < 16`), lower case.
pub open spec fn hex_digit_byte(d: nat) -> u8 {
    if d < 10 {
        (48 + d) as u8
    } else {
        (87 + d) as u8
    }
}

/// The lower-case hexadecimal digits of `n` as ASCII bytes, with no
/// leading zero (`0` is written `0`), as `format!("{:x}", n)` writes them.
pub open spec fn hex_bytes(n: nat) -> Seq<u8>
    decreases n,
{
    if n < 16 {
        seq![hex_digit_byte(n)]
    } else {
        hex_bytes(n / 16).push(hex_digit_byte(n % 16))
    }
}

/// `k` ASCII zeros.
pub open spec fn zeros(k: nat) -> Seq<u8> {
    Seq::new(k, |i: int| 48u8)
}

/// The hexadecimal digits of `n`, padded on the left with zeros to a
/// length that is a multiple of four.
pub open spec fn padded_hex(n: nat) -> Seq<u8> {
    let h = hex_bytes(n);
    zeros(((4 - h.len() % 4) % 4) as nat) + h
}

/// The pkt-line that carries `payload`: its length plus four, in padded
/// hexadecimal, then the payload.
pub open spec fn pkt_line(payload: Seq<u8>) -> Seq<u8> {
    padded_hex(payload.len() + 4) + payload
}

/// The value of a hexadecimal ASCII digit (lower case).
pub open spec fn hex_digit_value(b: u8) -> int {
    if 48 <= b <= 57 {
        b - 48
    } else {
        b - 87
    }
}

/// The number written by hexadecimal ASCII digits.
pub open spec fn hex_value(bs: Seq<u8>) -> int
    decreases bs.len(),
{
    if bs.len() == 0 {
        0
    } else {
        hex_value(bs.drop_last()) * 16 + hex_digit_value(bs.last())
    }
}

fn hex_digit(d: u64) -> (b: u8)
    requires
        d < 16,
    ensures
        b == hex_digit_byte(d as nat),
{
    if d < 10 {
        (48 + d) as u8
    } else {
        (87 + d) as u8
    }
}

fn hex_bytes_exec(n: u64) -> (r: Vec<u8>)
    ensures
        r@ == hex_bytes(n as nat),
    decreases n,
{
    if n < 16 {
        let mut r: Vec<u8> = Vec::new();
        r.push(hex_digit(n));
        assert(r@ =~= seq![hex_digit_byte(n as nat)]);
        r
    } else {
        let mut r = hex_bytes_exec(n / 16);
        r.push(hex_digit(n % 16));
        r
    }
}

/// A pkt-line carrying `s`, as git's smart HTTP protocol frames it.
pub fn packet_write(s: &str) -> (r: Vec<u8>)
    requires
        s.spec_bytes().len() + 4 <= u64::MAX,
    ensures
        r@ == pkt_line(s.spec_bytes()),
{
    let bytes = s.as_bytes();
    let length = bytes.len() as u64 + 4;
    let h = hex_bytes_exec(length);
    let pad = (4 - h.len() % 4) % 4;
    let mut r: Vec<u8> = Vec::new();
    let mut i: usize = 0;
    while i < pad
        invariant
            i <= pad,
            r@ == zeros(i as nat),
        decreases pad - i,
    {
        r.push(48u8);
        i = i + 1;
        assert(r@ =~= zeros(i as nat));
    }
    let ghost r0 = r@;
    let mut j: usize = 0;
    while j < h.len()
        invariant
            j <= h@.len(),
            r@ == r0 + h@.take(j as int),
        decreases h.len() - j,
    {
        r.push(h[j]);
        j = j + 1;
        assert(r@ =~= r0 + h@.take(j as int));
    }
    assert(h@.take(h@.len() as int) =~= h@);
    let ghost r1 = r@;
    let mut k: usize = 0;
    while k < bytes.len()
        invariant
            k <= bytes@.len(),
            r@ == r1 + bytes@.take(k as int),
        decreases bytes.len() - k,
    {
        r.push(bytes[k]);
        k = k + 1;
        assert(r@ =~= r1 + bytes@.take(k as int));
    }
    assert(bytes@.take(bytes@.len() as int) =~= bytes@);
    r
}

/// The flush-pkt that ends a section of pkt-lines.
pub fn packet_flush() -> (r: Vec<u8>)
    ensures
        r@ == seq![48u8, 48u8, 48u8, 48u8],
{
    let mut r: Vec<u8> = Vec::new();
    r.push(48u8);
    r.push(48u8);
    r.push(48u8);
    r.push(48u8);
    assert(r@ =~= seq![48u8, 48u8, 48u8, 48u8]);
    r
}

proof fn lemma_hex_bytes_value(n: nat)
    ensures
        hex_value(hex_bytes(n)) == n,
        n < 16 ==> hex_bytes(n).len() == 1,
        n < 256 ==> hex_bytes(n).len() <= 2,
        n < 4096 ==> hex_bytes(n).len() <= 3,
        n < 65536 ==> hex_bytes(n).len() <= 4,
        hex_bytes(n).len() >= 1,
    decreases n,
{
    if n >= 16 {
        lemma_hex_bytes_value(n / 16);
        let h = hex_bytes(n);
        assert(h.drop_last() =~= hex_bytes(n / 16));
        assert(n == (n / 16) * 16 + n % 16) by (nonlinear_arith);
        lemma_hex_digit_value(n % 16);
        assert(hex_value(h) == hex_value(h.drop_last()) * 16 + hex_digit_value(h.last()));
    } else {
        assert(hex_bytes(n).drop_last() =~= Seq::<u8>::empty());
        assert(hex_value(Seq::<u8>::empty()) == 0);
        lemma_hex_digit_value(n);
    }
}

proof fn lemma_hex_digit_value(d: nat)
    requires
        d < 16,
    ensures
        hex_digit_value(hex_digit_byte(d)) == d,
{
    if d < 10 {
        assert((48 + d) as u8 == 48 + d);
    } else {
        assert((87 + d) as u8 == 87 + d);
    }
}

proof fn lemma_leading_zeros(k: nat, h: Seq<u8>)
    ensures
        hex_value(zeros(k) + h) == hex_value(h) + hex_value(zeros(k)) * pow16(h.len()),
        hex_value(zeros(k)) == 0,
    decreases h.len() + k,
{
    if h.len() == 0 {
        assert(zeros(k) + h =~= zeros(k));
        if k > 0 {
            assert(zeros(k).drop_last() =~= zeros((k - 1) as nat));
            lemma_leading_zeros((k - 1) as nat, h);
        }
    } else {
        assert((zeros(k) + h).drop_last() =~= zeros(k) + h.drop_last());
        lemma_leading_zeros(k, h.drop_last());
    }
}

spec fn pow16(n: nat) -> int
    decreases n,
{
    if n == 0 { 1 } else { 16 * pow16((n - 1) as nat) }
}

/// A pkt-line of a payload shorter than 65532 bytes starts with four
/// hexadecimal digits that give the length of the whole line.
pub proof fn pkt_line_length_prefix(payload: Seq<u8>)
    requires
        payload.len() + 4 < 65536,
    ensures
        pkt_line(payload).len() == payload.len() + 4,
        hex_value(pkt_line(payload).take(4)) == pkt_line(payload).len(),
        pkt_line(payload).skip(4) == payload,
{
    let n = payload.len() + 4;
    lemma_hex_bytes_value(n);
    let h = hex_bytes(n);
    let k = ((4 - h.len() % 4) % 4) as nat;
    assert(k + h.len() == 4);
    lemma_leading_zeros(k, h);
    assert(pkt_line(payload).take(4) =~= zeros(k) + h);
    assert(pkt_line(payload).skip(4) =~= payload);
}

/// The first line of the answer to `info/refs` for a smart service: the
/// service announcement as a pkt-line, a flush-pkt, then what
/// `git <service> --advertise-refs` printed.
pub open spec fn spec_advertisement(service: Seq<char>, refs: Seq<u8>) -> Seq<u8> {
    pkt_line(encode_utf8(seq!['#', ' ', 's', 'e', 'r', 'v', 'i', 'c', 'e', '=', 'g', 'i', 't', '-'] + service + seq!['\n']))
        + seq![48u8, 48u8, 48u8, 48u8] + refs
}

/// The body of a smart `info/refs` answer.
pub fn service_advertisement(service: &str, refs: &[u8]) -> (r: Vec<u8>)
    requires
        service.spec_bytes().len() + 64 <= u64::MAX,
    ensures
        r@ == spec_advertisement(service@, refs@),
{
    let mut line = String::from_str("# service=git-");
    line.append(service);
    line.append("\n");
    let ls = line.as_str();
    proof {
        reveal_strlit("# service=git-");
        reveal_strlit("\n");
        assert("# service=git-"@ =~= seq!['#', ' ', 's', 'e', 'r', 'v', 'i', 'c', 'e', '=', 'g', 'i', 't', '-']);
        assert("\n"@ =~= seq!['\n']);
        assert(ls.spec_bytes().len() + 4 <= u64::MAX) by {
            let a = "# service=git-"@;
            lemma_encode_concat(a + service@, "\n"@);
            lemma_encode_concat(a, service@);
            lemma_encode_len(a);
            lemma_encode_len("\n"@);
        }
    }
    let mut body = packet_write(ls);
    let mut flush = packet_flush();
    body.append(&mut flush);
    let ghost b0 = body@;
    let mut k: usize = 0;
    while k < refs.len()
        invariant
            k <= refs@.len(),
            body@ == b0 + refs@.take(k as int),
        decreases refs.len() - k,
    {
        body.push(refs[k]);
        k = k + 1;
        assert(body@ =~= b0 + refs@.take(k as int));
    }
    assert(refs@.take(refs@.len() as int) =~= refs@);
    body
}

/// The UTF-8 encoding of a concatenation is the concatenation of the
/// encodings.
pub proof fn lemma_encode_concat(a: Seq<char>, b: Seq<char>)
    ensures
        encode_utf8(a + b) == encode_utf8(a) + encode_utf8(b),
    decreases a.len(),
{
    if a.len() == 0 {
        assert(a + b =~= b);
    } else {
        assert((a + b).drop_first() =~= a.drop_first() + b);
        lemma_encode_concat(a.drop_first(), b);
    }
}

/// Bounds on the length of the UTF-8 encoding of a text.
pub proof fn lemma_encode_len(s: Seq<char>)
    ensures
        s.len() <= encode_utf8(s).len() <= 4 * s.len(),
    decreases s.len(),
{
    if s.len() > 0 {
        lemma_encode_len(s.drop_first());
    }
}

/// Whether a service asked of `info/refs` is one of the two smart
/// services; any other is answered by the dumb protocol.
pub open spec fn spec_is_smart_service(service: Seq<char>) -> bool {
    service == seq!['r', 'e', 'c', 'e', 'i', 'v', 'e', '-', 'p', 'a', 'c', 'k']
        || service == seq!['u', 'p', 'l', 'o', 'a', 'd', '-', 'p', 'a', 'c', 'k']
}

pub fn is_smart_service(service: &str) -> (r: bool)
    ensures
        r == spec_is_smart_service(service@),
{
    proof {
        reveal_strlit("receive-pack");
        reveal_strlit("upload-pack");
    }
    let a = str_eq(service, "receive-pack");
    let b = str_eq(service, "upload-pack");
    assert("receive-pack"@ =~= seq!['r', 'e', 'c', 'e', 'i', 'v', 'e', '-', 'p', 'a', 'c', 'k']);
    assert("upload-pack"@ =~= seq!['u', 'p', 'l', 'o', 'a', 'd', '-', 'p', 'a', 'c', 'k']);
    a || b
}

} // verus!
