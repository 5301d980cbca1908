use vstd::prelude::*;
use vstd::string::StringSliceAdditionalSpecFns;

use crate::request::parse_callback;
use crate::request::request_callback;
use crate::request::callback_line;
use crate::request::crlf;
use crate::request::lemma_callback_request;
use crate::request::plain_code;
use crate::request::starts_with;
use crate::request::Provider;
use crate::response::callback_reply;
use crate::response::callback_response;
use crate::slot::CodeSlot;

verus! {

/// What the listener holds: the code captured for each provider, if any.
/// A provider's flag is set exactly when its code is present.
pub struct ListenerView {
    pub deezer: Option<Seq<u8>>,
    pub spotify: Option<Seq<u8>>,
}

/// The state after one recognised (or unrecognised) callback: the code goes to
/// its provider's slot unless that slot already holds one.
pub open spec fn after_callback(v: ListenerView, c: Option<(Provider, Seq<u8>)>) -> ListenerView {
    match c {
        Some((Provider::Deezer, code)) => ListenerView {
            deezer: if v.deezer.is_none() {
                Some(code)
            } else {
                v.deezer
            },
            spotify: v.spotify,
        },
        Some((Provider::Spotify, code)) => ListenerView {
            deezer: v.deezer,
            spotify: if v.spotify.is_none() {
                Some(code)
            } else {
                v.spotify
            },
        },
        None => v,
    }
}

/// The accept loop ends once both providers' codes have been captured.
pub open spec fn finished(v: ListenerView) -> bool {
    v.deezer.is_some() && v.spotify.is_some()
}

pub open spec fn empty_listener() -> ListenerView {
    ListenerView { deezer: None, spotify: None }
}

/// What the accept loop does after a connection has been read.
pub struct Step {
    /// The bytes to write back on the connection, if any.
    pub reply: Option<Vec<u8>>,
    /// Whether the accept loop must stop and release the socket.
    pub stop: bool,
}

/// The decisions of the local OAuth callback listener.
///
/// The accept loop hands it the bytes of each connection and performs the
/// returned `Step`; the code slots are read by the login waiters.
pub struct Server {
    deezer: CodeSlot,
    spotify: CodeSlot,
}

impl View for Server {
    type V = ListenerView;

    closed spec fn view(&self) -> ListenerView {
        ListenerView { deezer: self.deezer@, spotify: self.spotify@ }
    }
}

impl Server {
    pub fn new() -> (r: Server)
        ensures
            r@ == empty_listener(),
    {
        Server { deezer: CodeSlot::new(), spotify: CodeSlot::new() }
    }

    /// Handles the bytes read from one connection.
    ///
    /// An empty read gets no reply and changes nothing. Any other request gets
    /// the fixed confirmation reply, and a recognised callback publishes its
    /// code into its provider's slot when that slot is still empty (a repeated
    /// callback is ignored). `stop` tells whether both codes are now held.
    pub fn on_request(&mut self, request: &[u8]) -> (step: Step)
        ensures
            request@.len() == 0 ==> final(self)@ == old(self)@ && step.reply.is_none(),
            request@.len() > 0 ==> final(self)@ == after_callback(
                old(self)@,
                request_callback(request@),
            ),
            request@.len() > 0 ==> (match step.reply {
                Some(r) => r@ == callback_reply(),
                None => false,
            }),
            step.stop == finished(final(self)@),
    {
        if request.len() == 0 {
            return Step { reply: None, stop: self.is_finished() };
        }
        match parse_callback(request) {
            Some(c) => {
                match c.provider {
                    Provider::Deezer => {
                        self.deezer.set(c.code);
                    },
                    Provider::Spotify => {
                        self.spotify.set(c.code);
                    },
                }
            },
            None => {},
        }
        let reply = callback_response();
        Step { reply: Some(reply), stop: self.is_finished() }
    }

    /// Whether both providers' codes have been captured.
    pub fn is_finished(&self) -> (r: bool)
        ensures
            r == finished(self@),
    {
        self.deezer.is_set() && self.spotify.is_set()
    }

    /// The flag of the Deezer callback.
    pub fn deezer_received(&self) -> (r: bool)
        ensures
            r == self@.deezer.is_some(),
    {
        self.deezer.is_set()
    }

    /// The flag of the Spotify callback.
    pub fn spotify_received(&self) -> (r: bool)
        ensures
            r == self@.spotify.is_some(),
    {
        self.spotify.is_set()
    }

    /// The Deezer authorization code, once captured.
    pub fn deezer_code(&self) -> (r: Option<Vec<u8>>)
        ensures
            match r {
                Some(c) => self@.deezer == Some(c@),
                None => self@.deezer.is_none(),
            },
    {
        self.deezer.read()
    }

    /// The Spotify authorization code, once captured.
    pub fn spotify_code(&self) -> (r: Option<Vec<u8>>)
        ensures
            match r {
                Some(c) => self@.spotify == Some(c@),
                None => self@.spotify.is_none(),
            },
    {
        self.spotify.read()
    }
}

/// The slot of provider `p` in a listener state.
pub open spec fn slot_of(v: ListenerView, p: Provider) -> Option<Seq<u8>> {
    match p {
        Provider::Deezer => v.deezer,
        Provider::Spotify => v.spotify,
    }
}

pub open spec fn other(p: Provider) -> Provider {
    match p {
        Provider::Deezer => Provider::Spotify,
        Provider::Spotify => Provider::Deezer,
    }
}

/// A valid callback `GET /<Provider>?code=X` received while that provider's
/// flag is unset leaves exactly `X` in its slot (so its flag becomes true),
/// and leaves the other provider's slot and flag as they were.
pub proof fn lemma_callback_fills_its_slot(v: ListenerView, p: Provider, x: Seq<u8>, rest: Seq<u8>)
    requires
        slot_of(v, p).is_none(),
        plain_code(x),
        rest.len() == 0 || starts_with(rest, crlf()),
    ensures
        slot_of(after_callback(v, request_callback(callback_line(p, x) + rest)), p) == Some(x),
        slot_of(after_callback(v, request_callback(callback_line(p, x) + rest)), other(p))
            == slot_of(v, other(p)),
{
    lemma_callback_request(p, x, rest);
}

/// A single request never completes both providers: the accept loop only
/// stops after a request when the other provider's code was already held.
pub proof fn lemma_one_request_completes_one_provider(v: ListenerView, request: Seq<u8>)
    ensures
        finished(after_callback(v, request_callback(request))) ==> finished(v) || v.deezer.is_some()
            || v.spotify.is_some(),
        !finished(after_callback(empty_listener(), request_callback(request))),
{
}

/// Whatever the order in which the two callbacks arrive, the loop keeps
/// listening after the first and stops after the second, and the slots hold
/// the codes that each provider sent.
pub proof fn lemma_both_callbacks_in_any_order(
    d: Seq<u8>,
    s: Seq<u8>,
    rest_d: Seq<u8>,
    rest_s: Seq<u8>,
)
    requires
        plain_code(d),
        plain_code(s),
        rest_d.len() == 0 || starts_with(rest_d, crlf()),
        rest_s.len() == 0 || starts_with(rest_s, crlf()),
    ensures
        ({
            let cd = request_callback(callback_line(Provider::Deezer, d) + rest_d);
            let cs = request_callback(callback_line(Provider::Spotify, s) + rest_s);
            let both = ListenerView { deezer: Some(d), spotify: Some(s) };
            &&& !finished(after_callback(empty_listener(), cd))
            &&& after_callback(after_callback(empty_listener(), cd), cs) == both
            &&& !finished(after_callback(empty_listener(), cs))
            &&& after_callback(after_callback(empty_listener(), cs), cd) == both
            &&& finished(both)
        }),
{
    lemma_callback_request(Provider::Deezer, d, rest_d);
    lemma_callback_request(Provider::Spotify, s, rest_s);
}

} // verus!
