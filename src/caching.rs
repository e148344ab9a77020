use vstd::prelude::*;
use crate::error::{decimal, push_decimal};

verus! {

/// The port a Redis result cache listens on when none is configured.
pub const DEFAULT_REDIS_PORT: u16 = 6379;

/// The connection URL of a Redis result cache: the `rediss` scheme for TLS and
/// `redis` otherwise, then an empty user name, the password (empty when none),
/// the host and the port.
pub open spec fn redis_url_of(host: Seq<char>, port: u16, password: Seq<char>, use_tls: bool) -> Seq<
    char,
> {
    (if use_tls {
        "rediss"@
    } else {
        "redis"@
    }) + "://:"@ + password + "@"@ + host + ":"@ + decimal(port as nat)
}

/// Builds the connection URL of a Redis result cache.
pub fn redis_url(host: &str, port: u16, password: &Option<String>, use_tls: bool) -> (r: String)
    ensures
        r@ == redis_url_of(
            host@,
            port,
            match password {
                Some(p) => p@,
                None => Seq::empty(),
            },
            use_tls,
        ),
{
    let mut r = if use_tls {
        "rediss".to_owned()
    } else {
        "redis".to_owned()
    };
    r.append("://:");
    match password {
        Some(p) => r.append(p.as_str()),
        None => {},
    }
    r.append("@");
    r.append(host);
    r.append(":");
    push_decimal(&mut r, port);
    proof {
        if password is None {
            assert(r@ =~= redis_url_of(host@, port, Seq::empty(), use_tls));
        }
    }
    r
}

} // verus!
