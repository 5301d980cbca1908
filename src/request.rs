use vstd::prelude::*;
use vstd::slice::slice_subrange;
use vstd::slice::slice_to_vec;
use vstd::string::StringSliceAdditionalSpecFns;

verus! {

/// The two OAuth providers whose redirects reach the local listener.
#[derive(Clone, Copy, Debug, PartialEq, Eq, Structural)]
pub enum Provider {
    Deezer,
    Spotify,
}

/// A recognised callback: which provider it came from and the code it carried.
pub struct Callback {
    pub provider: Provider,
    pub code: Vec<u8>,
}

impl Callback {
    pub open spec fn view(&self) -> (Provider, Seq<u8>) {
        (self.provider, self.code@)
    }
}

pub open spec fn newline() -> u8 {
    10u8
}

pub open spec fn carriage_return() -> u8 {
    13u8
}

/// Request-line start that routes a callback to Spotify.
pub open spec fn spotify_route() -> Seq<u8> {
    "GET /Spotify".spec_bytes()
}

/// Request-line start that routes a callback to Deezer.
pub open spec fn deezer_route() -> Seq<u8> {
    "GET /Deezer".spec_bytes()
}

/// Text stripped in front of a Spotify code.
pub open spec fn spotify_code_prefix() -> Seq<u8> {
    "GET /Spotify?code=".spec_bytes()
}

/// Text stripped in front of a Deezer code.
pub open spec fn deezer_code_prefix() -> Seq<u8> {
    "GET /Deezer?code=".spec_bytes()
}

/// Protocol token stripped at the end of a request line.
pub open spec fn protocol_suffix() -> Seq<u8> {
    " HTTP/1.1".spec_bytes()
}

pub open spec fn starts_with(s: Seq<u8>, p: Seq<u8>) -> bool {
    p.len() <= s.len() && s.take(p.len() as int) == p
}

pub open spec fn ends_with(s: Seq<u8>, p: Seq<u8>) -> bool {
    p.len() <= s.len() && s.skip(s.len() - p.len()) == p
}

/// `s` with every leading repetition of `p` removed.
pub open spec fn trim_start_all(s: Seq<u8>, p: Seq<u8>) -> Seq<u8>
    decreases s.len(),
{
    if p.len() > 0 && starts_with(s, p) {
        trim_start_all(s.skip(p.len() as int), p)
    } else {
        s
    }
}

/// `s` with every trailing repetition of `p` removed.
pub open spec fn trim_end_all(s: Seq<u8>, p: Seq<u8>) -> Seq<u8>
    decreases s.len(),
{
    if p.len() > 0 && ends_with(s, p) {
        trim_end_all(s.take(s.len() - p.len()), p)
    } else {
        s
    }
}

/// The code carried by a request line whose route prefix is `prefix`.
pub open spec fn extract_code(line: Seq<u8>, prefix: Seq<u8>) -> Seq<u8> {
    trim_end_all(trim_start_all(line, prefix), protocol_suffix())
}

/// Which provider a single request line belongs to, and its code.
pub open spec fn route_line(line: Seq<u8>) -> Option<(Provider, Seq<u8>)> {
    if starts_with(line, spotify_route()) {
        Some((Provider::Spotify, extract_code(line, spotify_code_prefix())))
    } else if starts_with(line, deezer_route()) {
        Some((Provider::Deezer, extract_code(line, deezer_code_prefix())))
    } else {
        None
    }
}

/// Index of the first line feed at or after `i`, or the length of `s`.
pub open spec fn line_end(s: Seq<u8>, i: int) -> int
    decreases s.len() - i,
{
    if i < 0 || i >= s.len() || s[i] == newline() {
        i
    } else {
        line_end(s, i + 1)
    }
}

/// The line that starts at `i`: a carriage return before its line feed is dropped.
pub open spec fn line_at(s: Seq<u8>, i: int) -> Seq<u8> {
    let e = line_end(s, i);
    if e < s.len() && e > i && s[e - 1] == carriage_return() {
        s.subrange(i, e - 1)
    } else {
        s.subrange(i, e)
    }
}

/// The first callback found among the lines of `s` that start at or after `i`.
pub open spec fn callback_from(s: Seq<u8>, i: int) -> Option<(Provider, Seq<u8>)>
    decreases s.len() - i,
    via callback_from_decreases
{
    if i < 0 || i >= s.len() {
        None
    } else {
        match route_line(line_at(s, i)) {
            Some(c) => Some(c),
            None => if line_end(s, i) < s.len() {
                callback_from(s, line_end(s, i) + 1)
            } else {
                None
            },
        }
    }
}

#[via_fn]
proof fn callback_from_decreases(s: Seq<u8>, i: int) {
    if 0 <= i < s.len() {
        lemma_line_end_bounds(s, i);
    }
}

/// The callback that a raw request carries: the first of its lines that routes.
pub open spec fn request_callback(s: Seq<u8>) -> Option<(Provider, Seq<u8>)> {
    callback_from(s, 0)
}

pub proof fn lemma_line_end_bounds(s: Seq<u8>, i: int)
    requires
        0 <= i <= s.len(),
    ensures
        i <= line_end(s, i) <= s.len(),
        line_end(s, i) < s.len() ==> s[line_end(s, i)] == newline(),
        forall|j: int| i <= j < line_end(s, i) ==> s[j] != newline(),
    decreases s.len() - i,
{
    if i < s.len() && s[i] != newline() {
        lemma_line_end_bounds(s, i + 1);
    }
}

/// Whether `s[a..b]` starts with `p`.
fn has_prefix_at(s: &[u8], a: usize, b: usize, p: &[u8]) -> (r: bool)
    requires
        a <= b <= s@.len(),
    ensures
        r == starts_with(s@.subrange(a as int, b as int), p@),
{
    if p.len() > b - a {
        return false;
    }
    let mut k: usize = 0;
    while k < p.len()
        invariant
            a <= b <= s@.len(),
            p@.len() <= b - a,
            k <= p@.len(),
            forall|j: int| 0 <= j < k ==> s@[a + j] == p@[j],
        decreases p@.len() - k,
    {
        if s[a + k] != p[k] {
            assert(s@.subrange(a as int, b as int).take(p@.len() as int)[k as int] != p@[k as int]);
            return false;
        }
        k = k + 1;
    }
    assert(s@.subrange(a as int, b as int).take(p@.len() as int) =~= p@);
    true
}

/// Whether `s[a..b]` ends with `p`.
fn has_suffix_at(s: &[u8], a: usize, b: usize, p: &[u8]) -> (r: bool)
    requires
        a <= b <= s@.len(),
    ensures
        r == ends_with(s@.subrange(a as int, b as int), p@),
{
    if p.len() > b - a {
        return false;
    }
    let start = b - p.len();
    let mut k: usize = 0;
    while k < p.len()
        invariant
            a <= start <= b <= s@.len(),
            start + p@.len() == b,
            k <= p@.len(),
            forall|j: int| 0 <= j < k ==> s@[start + j] == p@[j],
        decreases p@.len() - k,
    {
        if s[start + k] != p[k] {
            assert(s@.subrange(a as int, b as int).skip(b - a - p@.len())[k as int] != p@[k as int]);
            return false;
        }
        k = k + 1;
    }
    assert(s@.subrange(a as int, b as int).skip(b - a - p@.len()) =~= p@);
    true
}

/// Start of `s[a..b]` once every leading repetition of `p` is removed.
fn skip_leading(s: &[u8], a: usize, b: usize, p: &[u8]) -> (r: usize)
    requires
        a <= b <= s@.len(),
    ensures
        a <= r <= b,
        s@.subrange(r as int, b as int) == trim_start_all(s@.subrange(a as int, b as int), p@),
{
    let mut i = a;
    while p.len() > 0 && has_prefix_at(s, i, b, p)
        invariant
            a <= i <= b <= s@.len(),
            trim_start_all(s@.subrange(i as int, b as int), p@) == trim_start_all(
                s@.subrange(a as int, b as int),
                p@,
            ),
        decreases b - i,
    {
        assert(s@.subrange(i as int, b as int).skip(p@.len() as int) =~= s@.subrange(
            i + p@.len(),
            b as int,
        ));
        i = i + p.len();
    }
    i
}

/// End of `s[a..b]` once every trailing repetition of `p` is removed.
fn drop_trailing(s: &[u8], a: usize, b: usize, p: &[u8]) -> (r: usize)
    requires
        a <= b <= s@.len(),
    ensures
        a <= r <= b,
        s@.subrange(a as int, r as int) == trim_end_all(s@.subrange(a as int, b as int), p@),
{
    let mut e = b;
    while p.len() > 0 && has_suffix_at(s, a, e, p)
        invariant
            a <= e <= b <= s@.len(),
            trim_end_all(s@.subrange(a as int, e as int), p@) == trim_end_all(
                s@.subrange(a as int, b as int),
                p@,
            ),
        decreases e - a,
    {
        assert(s@.subrange(a as int, e as int).take(e - a - p@.len()) =~= s@.subrange(
            a as int,
            e - p@.len(),
        ));
        e = e - p.len();
    }
    e
}

/// The code of the request line `s[a..b]` behind the route prefix `prefix`.
fn code_of_line(s: &[u8], a: usize, b: usize, prefix: &[u8]) -> (r: Vec<u8>)
    requires
        a <= b <= s@.len(),
    ensures
        r@ == trim_end_all(trim_start_all(s@.subrange(a as int, b as int), prefix@), protocol_suffix()),
{
    let start = skip_leading(s, a, b, prefix);
    let suffix = " HTTP/1.1".as_bytes();
    let end = drop_trailing(s, start, b, suffix);
    slice_to_vec(slice_subrange(s, start, end))
}

/// Routes the request line `s[a..b]` to its provider and extracts its code.
fn route_line_at(s: &[u8], a: usize, b: usize) -> (r: Option<Callback>)
    requires
        a <= b <= s@.len(),
    ensures
        match r {
            Some(c) => route_line(s@.subrange(a as int, b as int)) == Some(c.view()),
            None => route_line(s@.subrange(a as int, b as int)).is_none(),
        },
{
    if has_prefix_at(s, a, b, "GET /Spotify".as_bytes()) {
        let code = code_of_line(s, a, b, "GET /Spotify?code=".as_bytes());
        Some(Callback { provider: Provider::Spotify, code })
    } else if has_prefix_at(s, a, b, "GET /Deezer".as_bytes()) {
        let code = code_of_line(s, a, b, "GET /Deezer?code=".as_bytes());
        Some(Callback { provider: Provider::Deezer, code })
    } else {
        None
    }
}

/// Finds the provider callback in the raw bytes of an HTTP request.
///
/// The lines are scanned in order and the first one that starts with
/// `GET /Spotify` or `GET /Deezer` decides; its code is what remains once the
/// `GET /<Provider>?code=` prefix and the ` HTTP/1.1` suffix are stripped.
pub fn parse_callback(request: &[u8]) -> (r: Option<Callback>)
    ensures
        match r {
            Some(c) => request_callback(request@) == Some(c.view()),
            None => request_callback(request@).is_none(),
        },
{
    let mut i: usize = 0;
    while i < request.len()
        invariant
            i <= request@.len(),
            callback_from(request@, i as int) == request_callback(request@),
        decreases request@.len() - i,
    {
        let mut e = i;
        while e < request.len() && request[e] != 10u8
            invariant
                i <= e <= request@.len(),
                line_end(request@, i as int) == line_end(request@, e as int),
            decreases request@.len() - e,
        {
            e = e + 1;
        }
        assert(line_end(request@, e as int) == e);
        let stop = if e < request.len() && e > i && request[e - 1] == 13u8 {
            e - 1
        } else {
            e
        };
        let found = route_line_at(request, i, stop);
        if found.is_some() {
            return found;
        }
        if e == request.len() {
            return None;
        }
        i = e + 1;
    }
    None
}

/// A code as it can travel in a request line: no space, carriage return or line feed.
pub open spec fn plain_code(x: Seq<u8>) -> bool {
    forall|i: int| 0 <= i < x.len() ==> #[trigger] x[i] != 32u8 && x[i] != 10u8 && x[i] != 13u8
}

pub open spec fn code_prefix(p: Provider) -> Seq<u8> {
    match p {
        Provider::Deezer => deezer_code_prefix(),
        Provider::Spotify => spotify_code_prefix(),
    }
}

/// The request line of a callback from `p` that carries the code `x`.
pub open spec fn callback_line(p: Provider, x: Seq<u8>) -> Seq<u8> {
    code_prefix(p) + x + protocol_suffix()
}

/// The line break of HTTP.
pub open spec fn crlf() -> Seq<u8> {
    "\r\n".spec_bytes()
}

proof fn lemma_line_end_exact(s: Seq<u8>, i: int, k: int)
    requires
        0 <= i <= k <= s.len(),
        forall|j: int| i <= j < k ==> s[j] != newline(),
        k == s.len() || s[k] == newline(),
    ensures
        line_end(s, i) == k,
    decreases k - i,
{
    if i < k {
        lemma_line_end_exact(s, i + 1, k);
    }
}

proof fn reveal_request_literals()
    ensures
        spotify_route() == seq![71u8, 69, 84, 32, 47, 83, 112, 111, 116, 105, 102, 121],
        deezer_route() == seq![71u8, 69, 84, 32, 47, 68, 101, 101, 122, 101, 114],
        spotify_code_prefix() == spotify_route() + seq![63u8, 99, 111, 100, 101, 61],
        deezer_code_prefix() == deezer_route() + seq![63u8, 99, 111, 100, 101, 61],
        protocol_suffix() == seq![32u8, 72, 84, 84, 80, 47, 49, 46, 49],
        crlf() == seq![13u8, 10],
{
    reveal_strlit("GET /Spotify");
    reveal_strlit("GET /Deezer");
    reveal_strlit("GET /Spotify?code=");
    reveal_strlit("GET /Deezer?code=");
    reveal_strlit(" HTTP/1.1");
    reveal_strlit("\r\n");
    vstd::string::is_ascii_spec_bytes("GET /Spotify");
    vstd::string::is_ascii_spec_bytes("GET /Deezer");
    vstd::string::is_ascii_spec_bytes("GET /Spotify?code=");
    vstd::string::is_ascii_spec_bytes("GET /Deezer?code=");
    vstd::string::is_ascii_spec_bytes(" HTTP/1.1");
    vstd::string::is_ascii_spec_bytes("\r\n");
    assert(spotify_route() =~= seq![71u8, 69, 84, 32, 47, 83, 112, 111, 116, 105, 102, 121]);
    assert(deezer_route() =~= seq![71u8, 69, 84, 32, 47, 68, 101, 101, 122, 101, 114]);
    assert(spotify_code_prefix() =~= spotify_route() + seq![63u8, 99, 111, 100, 101, 61]);
    assert(deezer_code_prefix() =~= deezer_route() + seq![63u8, 99, 111, 100, 101, 61]);
    assert(protocol_suffix() =~= seq![32u8, 72, 84, 84, 80, 47, 49, 46, 49]);
    assert(crlf() =~= seq![13u8, 10]);
}

proof fn lemma_callback_line_alone(p: Provider, x: Seq<u8>, rest: Seq<u8>)
    requires
        plain_code(x),
        rest.len() == 0 || starts_with(rest, crlf()),
    ensures
        line_at(callback_line(p, x) + rest, 0) == callback_line(p, x),
{
    reveal_request_literals();
    let pre = code_prefix(p);
    let suf = protocol_suffix();
    let line = callback_line(p, x);
    let s = line + rest;
    let k = line.len() as int;
    assert forall|j: int| 0 <= j < k implies s[j] != newline() by {
        if j < pre.len() {
            assert(s[j] == pre[j]);
        } else if j < pre.len() + x.len() {
            assert(s[j] == x[j - pre.len()]);
        } else {
            assert(s[j] == suf[j - pre.len() - x.len()]);
        }
    }
    if rest.len() > 0 {
        assert(rest.take(2)[0] == crlf()[0]);
        assert(rest.take(2)[1] == crlf()[1]);
        assert(s[k] == 13u8);
        assert(s[k + 1] == 10u8);
        lemma_line_end_exact(s, 0, k + 1);
        assert(line_at(s, 0) =~= line);
    } else {
        lemma_line_end_exact(s, 0, k);
        assert(line_at(s, 0) =~= line);
    }
}

proof fn lemma_code_of_callback_line(p: Provider, x: Seq<u8>)
    requires
        plain_code(x),
    ensures
        extract_code(callback_line(p, x), code_prefix(p)) == x,
{
    reveal_request_literals();
    let pre = code_prefix(p);
    let suf = protocol_suffix();
    let line = callback_line(p, x);
    let xs = x + suf;
    assert(line =~= pre + xs);
    assert(line.take(pre.len() as int) =~= pre);
    assert(line.skip(pre.len() as int) =~= xs);
    if xs.len() >= pre.len() {
        if x.len() >= 4 {
            assert(xs.take(pre.len() as int)[3] != pre[3]);
        } else if x.len() == 3 {
            assert(xs.take(pre.len() as int)[4] != pre[4]);
        } else {
            assert(xs.take(pre.len() as int)[3] != pre[3]);
        }
    }
    assert(!starts_with(xs, pre));
    assert(trim_start_all(xs, pre) == xs);
    assert(trim_start_all(line, pre) == xs);
    assert(xs.skip(xs.len() - suf.len()) =~= suf);
    assert(xs.take(xs.len() - suf.len()) =~= x);
    if x.len() >= suf.len() {
        assert(x.skip(x.len() - suf.len())[0] != suf[0]);
    }
    assert(!ends_with(x, suf));
    assert(trim_end_all(x, suf) == x);
    assert(trim_end_all(xs, suf) == x);
}

proof fn lemma_route_callback_line(p: Provider, x: Seq<u8>)
    requires
        plain_code(x),
    ensures
        route_line(callback_line(p, x)) == Some((p, x)),
{
    reveal_request_literals();
    lemma_code_of_callback_line(p, x);
    let line = callback_line(p, x);
    match p {
        Provider::Spotify => {
            assert(line.take(12) =~= spotify_route());
        },
        Provider::Deezer => {
            assert(line.take(12)[5] != spotify_route()[5]);
            assert(line.take(11) =~= deezer_route());
        },
    }
}

/// A callback request line `GET /<Provider>?code=X HTTP/1.1`, alone or
/// followed by a line break and more of the request, is routed to its
/// provider with exactly `X` as its code.
pub proof fn lemma_callback_request(p: Provider, x: Seq<u8>, rest: Seq<u8>)
    requires
        plain_code(x),
        rest.len() == 0 || starts_with(rest, crlf()),
    ensures
        request_callback(callback_line(p, x) + rest) == Some((p, x)),
{
    lemma_callback_line_alone(p, x, rest);
    lemma_route_callback_line(p, x);
    reveal_request_literals();
    assert((callback_line(p, x) + rest).len() > 0);
}

} // verus!
