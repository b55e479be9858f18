use vstd::prelude::*;
use vstd::string::StringExecFns;

use crate::caching::local::DEFAULT_TTL_SECS;
use crate::caching::messages::{CacheEntry, CacheError, GetCacheEntry, PutCacheEntry};

verus! {

/// The first part of every key this proxy writes to a remote store, so that its keys stand
/// apart from those of other users of the store.
pub const KEY_PREFIX: &'static str = "cloud_storage_proxy";

/// How long, in milliseconds, a reply of the remote store is waited for before the read
/// counts as failed and the request goes to the origin store.
pub const REPLY_TIMEOUT_MILLIS: u64 = 2000;

/// The decimal digit `d`.
pub open spec fn digit_char(d: nat) -> char {
    seq!['0', '1', '2', '3', '4', '5', '6', '7', '8', '9'][d as int]
}

/// The decimal notation of `n`, with no sign and no leading zero.
pub open spec fn decimal_of(n: nat) -> Seq<char>
    decreases n,
{
    if n < 10 {
        seq![digit_char(n)]
    } else {
        decimal_of(n / 10) + seq![digit_char(n % 10)]
    }
}

/// The key under which a remote store keeps the object `key` of `bucket`.
pub open spec fn namespaced_key_of(bucket: Seq<char>, key: Seq<char>) -> Seq<char> {
    KEY_PREFIX@ + ":"@ + bucket + ":"@ + key
}

/// The arguments of a command, as character sequences.
pub open spec fn args_view(args: Seq<String>) -> Seq<Seq<char>> {
    args.map_values(|a: String| a@)
}

fn digit_str(d: u64) -> (r: &'static str)
    requires
        d < 10,
    ensures
        r@ == seq![digit_char(d as nat)],
{
    proof {
        reveal_strlit("0");
        reveal_strlit("1");
        reveal_strlit("2");
        reveal_strlit("3");
        reveal_strlit("4");
        reveal_strlit("5");
        reveal_strlit("6");
        reveal_strlit("7");
        reveal_strlit("8");
        reveal_strlit("9");
    }
    if d == 0 {
        "0"
    } else if d == 1 {
        "1"
    } else if d == 2 {
        "2"
    } else if d == 3 {
        "3"
    } else if d == 4 {
        "4"
    } else if d == 5 {
        "5"
    } else if d == 6 {
        "6"
    } else if d == 7 {
        "7"
    } else if d == 8 {
        "8"
    } else {
        "9"
    }
}

fn append_decimal(s: &mut String, n: u64)
    ensures
        final(s)@ == old(s)@ + decimal_of(n as nat),
    decreases n,
{
    if n >= 10 {
        append_decimal(s, n / 10);
    }
    s.append(digit_str(n % 10));
    assert(final(s)@ =~= old(s)@ + decimal_of(n as nat));
}

/// The decimal notation of `n`.
pub fn decimal_string(n: u64) -> (r: String)
    ensures
        r@ == decimal_of(n as nat),
{
    let mut r = String::new();
    append_decimal(&mut r, n);
    assert(r@ =~= decimal_of(n as nat));
    r
}

/// A cache kept in a remote key-value store. The connection itself is held by the caller;
/// this type decides the commands sent over it and reads the replies.
pub struct RedisCache {
    pub host: String,
    pub port: u16,
    /// The time to live, in seconds, given to each entry stored.
    pub ttl: u64,
}

impl RedisCache {
    pub fn new(host: String, port: u16, ttl: Option<u64>) -> (r: Self)
        ensures
            r.host@ == host@,
            r.port == port,
            r.ttl == (match ttl { Some(t) => t, None => DEFAULT_TTL_SECS }),
    {
        let ttl = match ttl {
            Some(t) => t,
            None => DEFAULT_TTL_SECS,
        };
        RedisCache { host, port, ttl }
    }

    /// A copy of these settings.
    pub fn duplicate(&self) -> (r: Self)
        ensures
            r.host@ == self.host@,
            r.port == self.port,
            r.ttl == self.ttl,
    {
        RedisCache { host: self.host.clone(), port: self.port, ttl: self.ttl }
    }

    /// The key of the object `key` of `bucket`: prefix, bucket and key joined by colons.
    pub fn key_for(bucket: &str, key: &str) -> (r: String)
        ensures
            r@ == namespaced_key_of(bucket@, key@),
    {
        let mut r = String::from_str(KEY_PREFIX);
        r.append(":");
        r.append(bucket);
        r.append(":");
        r.append(key);
        r
    }

    /// The commands that store the message's entry, whose encoding is `payload`: a `SET` of
    /// the namespaced key to the payload, then an `EXPIRE` of that key after the time to live.
    /// Both are sent without waiting for an answer.
    pub fn put_commands(&self, msg: &PutCacheEntry, payload: String) -> (r: Vec<Vec<String>>)
        ensures
            r@.len() == 2,
            args_view(r@[0]@) == seq!["SET"@, namespaced_key_of(msg.bucket@, msg.key@), payload@],
            args_view(r@[1]@) == seq!["EXPIRE"@, namespaced_key_of(msg.bucket@, msg.key@), decimal_of(self.ttl as nat)],
    {
        let key = Self::key_for(msg.bucket.as_str(), msg.key.as_str());
        let mut set: Vec<String> = Vec::new();
        set.push(String::from_str("SET"));
        set.push(key.clone());
        set.push(payload);
        let mut expire: Vec<String> = Vec::new();
        expire.push(String::from_str("EXPIRE"));
        expire.push(key);
        expire.push(decimal_string(self.ttl));
        let mut r: Vec<Vec<String>> = Vec::new();
        r.push(set);
        r.push(expire);
        assert(args_view(r@[0]@) =~= seq!["SET"@, namespaced_key_of(msg.bucket@, msg.key@), payload@]);
        assert(args_view(r@[1]@) =~= seq!["EXPIRE"@, namespaced_key_of(msg.bucket@, msg.key@), decimal_of(self.ttl as nat)]);
        r
    }

    /// The command that reads the message's entry: a `GET` of the namespaced key.
    pub fn get_command(&self, msg: &GetCacheEntry) -> (r: Vec<String>)
        ensures
            args_view(r@) == seq!["GET"@, namespaced_key_of(msg.bucket@, msg.key@)],
    {
        let mut r: Vec<String> = Vec::new();
        r.push(String::from_str("GET"));
        r.push(Self::key_for(msg.bucket.as_str(), msg.key.as_str()));
        assert(args_view(r@) =~= seq!["GET"@, namespaced_key_of(msg.bucket@, msg.key@)]);
        r
    }

    /// Reads the reply to a `GET`: the payload, or `FailedToGetKey` when the command failed
    /// or the reply is empty.
    pub fn read_reply(reply: Result<String, String>) -> (r: Result<String, CacheError>)
        ensures
            (match reply {
                Ok(p) => if p@.len() > 0 {
                    r matches Ok(q) && q@ == p@
                } else {
                    r matches Err(CacheError::FailedToGetKey { .. })
                },
                Err(m) => r matches Err(CacheError::FailedToGetKey { reason }) && reason@ == m@,
            }),
    {
        match reply {
            Ok(p) => {
                if p.as_str().unicode_len() == 0 {
                    Err(CacheError::FailedToGetKey { reason: String::from_str("Key not present") })
                } else {
                    Ok(p)
                }
            },
            Err(m) => Err(CacheError::FailedToGetKey { reason: m }),
        }
    }

    /// The failure of a read whose reply did not come in time.
    pub fn timed_out() -> (r: CacheError)
        ensures
            r is FailedToGetKey,
    {
        CacheError::FailedToGetKey { reason: String::from_str("no reply in time") }
    }

    /// The entry decoded from a payload, or `SerdeError` with the decoder's message.
    pub fn decoded_entry(decoded: Result<CacheEntry, String>) -> (r: Result<CacheEntry, CacheError>)
        ensures
            (match decoded {
                Ok(e) => r matches Ok(f) && f@ == e@,
                Err(m) => r matches Err(CacheError::SerdeError { reason }) && reason@ == m@,
            }),
    {
        match decoded {
            Ok(e) => Ok(e),
            Err(m) => Err(CacheError::SerdeError { reason: m }),
        }
    }
}

} // verus!
