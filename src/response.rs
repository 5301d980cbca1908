use vstd::prelude::*;
use vstd::slice::slice_to_vec;
use vstd::string::StringSliceAdditionalSpecFns;

verus! {

/// Digits `0`..`9` as ASCII bytes.
pub open spec fn is_digit(b: u8) -> bool {
    48 <= b <= 57
}

pub open spec fn all_digits(s: Seq<u8>) -> bool {
    forall|i: int| 0 <= i < s.len() ==> is_digit(#[trigger] s[i])
}

/// Decimal rendering of `n` in ASCII, most significant digit first.
pub open spec fn decimal(n: nat) -> Seq<u8>
    decreases n,
{
    if n < 10 {
        seq![(48 + n) as u8]
    } else {
        decimal(n / 10).push((48 + n % 10) as u8)
    }
}

/// The number that a run of ASCII digits denotes.
pub open spec fn decimal_value(s: Seq<u8>) -> nat
    decreases s.len(),
{
    if s.len() == 0 {
        0
    } else {
        decimal_value(s.drop_last()) * 10 + (s.last() - 48) as nat
    }
}

pub proof fn lemma_decimal_digits(n: nat)
    ensures
        all_digits(decimal(n)),
        decimal(n).len() > 0,
    decreases n,
{
    if n >= 10 {
        lemma_decimal_digits(n / 10);
    }
}

/// Reading back a rendered number gives the number.
pub proof fn lemma_decimal_round_trip(n: nat)
    ensures
        decimal_value(decimal(n)) == n,
    decreases n,
{
    if n >= 10 {
        lemma_decimal_round_trip(n / 10);
        assert(decimal(n).drop_last() =~= decimal(n / 10));
        assert(decimal(n).last() == (48 + n % 10) as u8);
        assert(n == (n / 10) * 10 + n % 10) by (nonlinear_arith);
    } else {
        assert(decimal(n).drop_last() =~= Seq::<u8>::empty());
        assert(decimal_value(Seq::<u8>::empty()) == 0);
    }
}

/// Renders `n` in decimal ASCII.
pub fn render_decimal(n: usize) -> (r: Vec<u8>)
    ensures
        r@ == decimal(n as nat),
    decreases n,
{
    if n < 10 {
        let mut v: Vec<u8> = Vec::new();
        v.push((48 + n) as u8);
        assert(v@ =~= decimal(n as nat));
        v
    } else {
        let mut v = render_decimal(n / 10);
        v.push((48 + n % 10) as u8);
        v
    }
}

/// Status line and the name of the length header of the callback reply.
pub open spec fn status_and_length_name() -> Seq<u8> {
    "HTTP/1.1 200 OK\r\nContent-Length: ".spec_bytes()
}

/// End of the header block.
pub open spec fn header_end() -> Seq<u8> {
    "\r\n\r\n".spec_bytes()
}

/// The page shown in the browser once a callback has been received.
pub open spec fn confirmation_body() -> Seq<u8> {
    "You're connected, you can close this tab now!".spec_bytes()
}

/// A reply whose `Content-Length` header holds `digits`, followed by `body`.
pub open spec fn frame(digits: Seq<u8>, body: Seq<u8>) -> Seq<u8> {
    status_and_length_name() + digits + header_end() + body
}

/// The reply written on every handled connection: its declared length is
/// computed from its body.
pub open spec fn callback_reply() -> Seq<u8> {
    frame(decimal(confirmation_body().len()), confirmation_body())
}

/// Builds the bytes of the reply written on every handled connection.
pub fn callback_response() -> (r: Vec<u8>)
    ensures
        r@ == callback_reply(),
{
    let body = "You're connected, you can close this tab now!".as_bytes();
    let mut r = slice_to_vec("HTTP/1.1 200 OK\r\nContent-Length: ".as_bytes());
    let mut digits = render_decimal(body.len());
    r.append(&mut digits);
    let mut end = slice_to_vec("\r\n\r\n".as_bytes());
    r.append(&mut end);
    let mut b = slice_to_vec(body);
    r.append(&mut b);
    r
}

/// However the reply is split into a header value made of digits and a
/// body, the declared value equals the byte length of the body.
pub proof fn lemma_declared_length_is_body_length(digits: Seq<u8>, body: Seq<u8>)
    requires
        all_digits(digits),
        frame(digits, body) == callback_reply(),
    ensures
        decimal_value(digits) == body.len(),
        body == confirmation_body(),
{
    let n = confirmation_body().len();
    let d = decimal(n);
    let h: int = status_and_length_name().len() as int;
    lemma_decimal_digits(n);
    lemma_decimal_round_trip(n);
    reveal_strlit("\r\n\r\n");
    vstd::string::is_ascii_spec_bytes("\r\n\r\n");
    assert(header_end()[0] == 13u8);
    let r = callback_reply();
    assert(r == frame(d, confirmation_body()));
    if digits.len() < d.len() {
        assert(frame(digits, body)[h + digits.len()] == 13u8);
        assert(r[h + digits.len()] == d[digits.len() as int]);
        assert(false);
    }
    if digits.len() > d.len() {
        assert(r[h + d.len()] == 13u8);
        assert(frame(digits, body)[h + d.len()] == digits[d.len() as int]);
        assert(false);
    }
    assert(digits =~= r.subrange(h, h + d.len()));
    assert(d =~= r.subrange(h, h + d.len()));
    let t: int = h + d.len() + header_end().len();
    assert(body =~= r.subrange(t, r.len() as int));
    assert(confirmation_body() =~= r.subrange(t, r.len() as int));
}

} // verus!
