//! A deterministic, authority-free host model for unit tests.
use std::collections::{BTreeMap, BTreeSet};

use vstd::prelude::*;

verus! {

/// The severity of one log line.
#[derive(Clone, Copy, Debug, PartialEq, Eq, Structural)]
pub enum LogLevel {
    Debug,
    Info,
    Warn,
}

/// A closed host: it knows only the secrets, endpoints and random bytes it
/// was built with, and keeps every log line in order.
#[derive(Clone, Debug, Default)]
pub struct TestHost {
    pub secrets: BTreeMap<String, Vec<u8>>,
    pub endpoints: BTreeSet<String>,
    pub random: Vec<u8>,
    pub logs: Vec<(LogLevel, String)>,
}

/// Calls `BTreeMap::get` with a borrowed `str` key. A `String` key is found
/// exactly when its text equals `name`, since `String` orders and compares by
/// its text; the contract says so over the map's deep view.
#[verifier::external_body]
fn stored_secret<'a>(secrets: &'a BTreeMap<String, Vec<u8>>, name: &str) -> (r: Option<&'a Vec<u8>>)
    ensures
        r is Some <==> secrets.deep_view().contains_key(name@),
        r matches Some(v) ==> v@ == secrets.deep_view()[name@],
{
    secrets.get(name)
}

/// Calls `BTreeSet::contains` with a borrowed `str` key: true exactly when
/// the set holds a `String` whose text equals `name`.
#[verifier::external_body]
fn holds_endpoint(endpoints: &BTreeSet<String>, name: &str) -> (r: bool)
    ensures
        r == endpoints.deep_view().contains(name@),
{
    endpoints.contains(name)
}

/// What `deterministic_bytes` returns: the first `count` random bytes, when
/// there are that many.
pub open spec fn spec_deterministic_bytes(random: Seq<u8>, count: int) -> Option<Seq<u8>> {
    if count <= random.len() {
        Some(random.take(count))
    } else {
        None
    }
}

impl TestHost {
    /// The bytes stored under `name`, if any.
    pub fn secret(&self, name: &str) -> (r: Option<&[u8]>)
        ensures
            r is Some <==> self.secrets.deep_view().contains_key(name@),
            r matches Some(v) ==> v@ == self.secrets.deep_view()[name@],
    {
        match stored_secret(&self.secrets, name) {
            Some(value) => Some(value.as_slice()),
            None => None,
        }
    }

    /// Whether the host grants the logical endpoint `name`.
    pub fn endpoint_granted(&self, name: &str) -> (r: bool)
        ensures
            r == self.endpoints.deep_view().contains(name@),
    {
        holds_endpoint(&self.endpoints, name)
    }

    /// The first `count` bytes of the fixed random stream, or `None` when the
    /// stream is shorter.
    pub fn deterministic_bytes(&self, count: usize) -> (r: Option<&[u8]>)
        ensures
            match r {
                Some(bytes) => spec_deterministic_bytes(self.random@, count as int) == Some(bytes@),
                None => spec_deterministic_bytes(self.random@, count as int) is None,
            },
    {
        if count <= self.random.len() {
            Some(vstd::slice::slice_subrange(self.random.as_slice(), 0, count))
        } else {
            None
        }
    }

    /// Appends one log line and changes nothing else.
    pub fn log(&mut self, level: LogLevel, message: &str)
        ensures
            final(self).logs@.len() == old(self).logs@.len() + 1,
            final(self).logs@.take(old(self).logs@.len() as int) == old(self).logs@,
            final(self).logs@.last().0 == level,
            final(self).logs@.last().1@ == message@,
            final(self).secrets == old(self).secrets,
            final(self).endpoints == old(self).endpoints,
            final(self).random == old(self).random,
    {
        self.logs.push((level, message.to_owned()));
    }
}

/// The host hands out exactly `count` bytes, the first ones of its stream,
/// whenever the stream has that many, and nothing otherwise.
pub proof fn law_deterministic_bytes_are_the_stream_prefix(random: Seq<u8>, count: int)
    requires
        0 <= count,
    ensures
        count <= random.len() ==> (spec_deterministic_bytes(random, count) matches Some(b) && b.len()
            == count && forall|i: int| 0 <= i < count ==> b[i] == random[i]),
        count > random.len() ==> spec_deterministic_bytes(random, count) is None,
{
}

/// A prefix of the random stream is deterministic: asking for fewer bytes
/// yields a prefix of what asking for more yields.
pub proof fn law_deterministic_bytes_prefix(random: Seq<u8>, small: int, large: int)
    requires
        0 <= small <= large,
        spec_deterministic_bytes(random, large) is Some,
    ensures
        spec_deterministic_bytes(random, small) is Some,
        spec_deterministic_bytes(random, small)->0 == spec_deterministic_bytes(random, large)->0.take(
            small,
        ),
{
    assert(random.take(large).take(small) =~= random.take(small));
}

} // verus!
