use vstd::prelude::*;
use crate::errors::ProxyError;

verus! {

/// The key a client receives when its session starts and presents later,
/// on a separate short-lived connection, to cancel an in-flight query.
#[derive(Clone, Copy, Debug, PartialEq, Eq, Structural)]
pub struct CancelKeyData {
    pub backend_pid: i32,
    pub cancel_key: i32,
}

/// Connection parameters from the client's startup message: an ordered
/// list of key/value pairs (for example `user`, `database`,
/// `application_name`). Read-only after the handshake.
#[derive(Clone, Debug, PartialEq)]
pub struct StartupParams {
    pub entries: Vec<(String, String)>,
}

/// The value of the first entry with the given key, if any.
pub open spec fn spec_lookup(s: Seq<(Seq<char>, Seq<char>)>, key: Seq<char>) -> Option<Seq<char>>
    decreases s.len(),
{
    if s.len() == 0 {
        None
    } else if s[0].0 == key {
        Some(s[0].1)
    } else {
        spec_lookup(s.drop_first(), key)
    }
}

impl View for StartupParams {
    type V = Seq<(Seq<char>, Seq<char>)>;

    open spec fn view(&self) -> Seq<(Seq<char>, Seq<char>)> {
        self.entries@.map(|i: int, e: (String, String)| (e.0@, e.1@))
    }
}

impl StartupParams {
    pub fn new() -> (p: Self)
        ensures
            p@ =~= Seq::<(Seq<char>, Seq<char>)>::empty(),
    {
        StartupParams { entries: Vec::new() }
    }

    /// Append one key/value pair; later entries never shadow earlier ones.
    pub fn push(&mut self, key: String, value: String)
        ensures
            final(self)@ =~= old(self)@.push((key@, value@)),
    {
        self.entries.push((key, value));
    }

    /// The value bound to `key`, taking the first entry when a key repeats.
    pub fn get(&self, key: &String) -> (r: Option<&String>)
        ensures
            match r {
                Some(v) => spec_lookup(self@, key@) == Some(v@),
                None => spec_lookup(self@, key@) is None,
            },
    {
        let n = self.entries.len();
        let mut i: usize = 0;
        proof {
            assert(self@.skip(0) =~= self@);
            assert(self@.len() == n as int);
        }
        while i < n
            invariant
                n == self.entries.len(),
                self@.len() == n as int,
                i <= n,
                spec_lookup(self@, key@) == spec_lookup(self@.skip(i as int), key@),
            decreases n - i,
        {
            proof {
                assert(self@[i as int] == (self.entries@[i as int].0@, self.entries@[i as int].1@));
                assert(self@.skip(i as int).len() == n - i);
                assert(self@.skip(i as int)[0] == self@[i as int]);
            }
            if self.entries[i].0.eq(key) {
                proof {
                    assert(self@.skip(i as int)[0].0 == key@);
                    assert(spec_lookup(self@.skip(i as int), key@) == Some(self@[i as int].1));
                }
                return Some(&self.entries[i].1);
            }
            proof {
                assert(self@.skip(i as int)[0].0 != key@);
                assert(self@.skip(i as int).drop_first() =~= self@.skip(i + 1));
            }
            i = i + 1;
        }
        proof {
            assert(self@.skip(n as int) =~= Seq::<(Seq<char>, Seq<char>)>::empty());
        }
        None
    }
}

/// A client message of the startup phase, already decoded from the wire
/// by the framing collaborator.
#[derive(Clone, Debug)]
pub enum FeStartupMessage {
    /// Request to upgrade the channel to TLS.
    SslRequest,
    /// Request to upgrade the channel to GSS encryption.
    GssEncRequest,
    /// The startup message proper, carrying the connection parameters.
    StartupMessage { params: StartupParams },
    /// An out-of-band request to cancel the session that owns this key.
    CancelRequest(CancelKeyData),
}

/// A backend message the proxy sends to the client, to be encoded to the
/// wire by the framing collaborator.
#[derive(Clone, Debug, PartialEq)]
pub enum BeMessage {
    /// Answer to an SSL or GSS request: whether the upgrade will happen.
    EncryptionResponse(bool),
    /// Authentication has succeeded.
    AuthenticationOk,
    /// The baseline parameter-status message (client encoding).
    ParameterStatusEncoding,
    /// The server-version parameter status, advertised by the compute node.
    ParameterStatusServerVersion(String),
    /// Hands the session's cancel key to the client.
    BackendKeyData(CancelKeyData),
    /// The session is ready for its first query; the relay starts after this.
    ReadyForQuery,
    /// An error reported to the client before the connection closes.
    ErrorResponse(ProxyError),
}

} // verus!
