//! The sink connection settings taken from the parts of a connection URL.
use crate::schema::text_eq;
use vstd::prelude::*;

verus! {

/// Where and how to reach the sink.
#[derive(Debug, PartialEq, Eq)]
pub struct ConnectionSettings {
    /// Encrypted transport.
    pub secure: bool,
    pub host: String,
    pub port: u16,
    pub user: String,
    pub password: String,
    pub database: String,
}

/// Why a connection URL cannot be used.
#[derive(Clone, Copy, Debug, PartialEq, Eq)]
pub enum ConnectionError {
    NoHost,
    NoPort,
}

/// Whether transport is encrypted: the first `secure` query parameter decides
/// (`true` for yes, any other value for no); without one, the `https` scheme does.
pub open spec fn secure_from(scheme: Seq<char>, query: Seq<(String, String)>) -> bool
    decreases query.len(),
{
    if query.len() == 0 {
        scheme == "https"@
    } else if query[0].0@ == "secure"@ {
        query[0].1@ == "true"@
    } else {
        secure_from(scheme, query.skip(1))
    }
}

/// The database named by the URL's first path segment, `default` where it
/// names none.
pub open spec fn database_from(segment: Option<Seq<char>>) -> Seq<char> {
    match segment {
        Some(s) => if s.len() > 0 { s } else { "default"@ },
        None => "default"@,
    }
}

fn uses_encryption(scheme: &str, query: &Vec<(String, String)>) -> (r: bool)
    ensures
        r == secure_from(scheme@, query@),
{
    proof {
        reveal_strlit("secure");
        reveal_strlit("true");
        reveal_strlit("https");
    }
    let mut i: usize = 0;
    assert(query@.skip(0) =~= query@);
    while i < query.len()
        invariant
            i <= query@.len(),
            secure_from(scheme@, query@) == secure_from(scheme@, query@.skip(i as int)),
        decreases query@.len() - i,
    {
        assert(query@.skip(i as int)[0] == query@[i as int]);
        if text_eq(query[i].0.as_str(), "secure") {
            return text_eq(query[i].1.as_str(), "true");
        }
        assert(query@.skip(i as int).skip(1) =~= query@.skip(i + 1));
        i = i + 1;
    }
    text_eq(scheme, "https")
}

/// Settings from the parts of a connection URL: its scheme, host, port, user
/// name, password, first path segment and query parameters, in order. A
/// missing password is empty.
pub fn connection_settings(
    scheme: &str,
    host: Option<&str>,
    port: Option<u16>,
    user: &str,
    password: Option<&str>,
    first_segment: Option<&str>,
    query: &Vec<(String, String)>,
) -> (r: Result<ConnectionSettings, ConnectionError>)
    ensures
        host is None ==> r == Err::<ConnectionSettings, ConnectionError>(ConnectionError::NoHost),
        host is Some && port is None ==> r == Err::<ConnectionSettings, ConnectionError>(
            ConnectionError::NoPort,
        ),
        host is Some && port is Some ==> (r matches Ok(c) && {
            &&& c.secure == secure_from(scheme@, query@)
            &&& c.host@ == host->0@
            &&& c.port == port->0
            &&& c.user@ == user@
            &&& c.password@ == match password {
                Some(p) => p@,
                None => Seq::empty(),
            }
            &&& c.database@ == database_from(
                match first_segment {
                    Some(s) => Some(s@),
                    None => None,
                },
            )
        }),
{
    let host = match host {
        Some(h) => h,
        None => return Err(ConnectionError::NoHost),
    };
    let port = match port {
        Some(p) => p,
        None => return Err(ConnectionError::NoPort),
    };
    let password = match password {
        Some(p) => String::from_str(p),
        None => String::new(),
    };
    proof {
        reveal_strlit("default");
    }
    let database = match first_segment {
        Some(s) => if s.unicode_len() > 0 {
            String::from_str(s)
        } else {
            String::from_str("default")
        },
        None => String::from_str("default"),
    };
    Ok(
        ConnectionSettings {
            secure: uses_encryption(scheme, query),
            host: String::from_str(host),
            port,
            user: String::from_str(user),
            password,
            database,
        },
    )
}

} // verus!
