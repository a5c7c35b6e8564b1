//! Connection settings of the backend.
use crate::text::{decimal, decimal_text, join2, join3, parse_u64, parsed_u64};
use vstd::prelude::*;

verus! {

/// The port used when none is configured or the configured one is not a
/// valid port number.
pub const DEFAULT_PORT: u16 = 6379;

/// Host, port and optional password of the backend, with the connection URL
/// composed from them.
#[derive(Clone, Debug)]
pub struct RedisConfig {
    pub url: String,
    pub hostname: String,
    pub port: u16,
    pub password: Option<String>,
}

/// The connection URL for the given settings.
pub open spec fn connection_url(hostname: Seq<char>, port: u16, password: Option<Seq<char>>) -> Seq<
    char,
> {
    match password {
        Some(p) => "redis://:"@ + p + "@"@ + hostname + ":"@ + decimal(port as nat),
        None => "redis://"@ + hostname + ":"@ + decimal(port as nat),
    }
}

/// The port that a configured port text selects.
pub open spec fn configured_port(text: Option<Seq<char>>) -> u16 {
    match text {
        Some(t) => match parsed_u64(t) {
            Some(v) => if v <= u16::MAX {
                v as u16
            } else {
                DEFAULT_PORT
            },
            None => DEFAULT_PORT,
        },
        None => DEFAULT_PORT,
    }
}

/// The view of an optional text.
pub open spec fn opt_view(o: Option<String>) -> Option<Seq<char>> {
    match o {
        Some(s) => Some(s@),
        None => None,
    }
}

impl RedisConfig {
    /// Whether `url` is the URL composed from the other fields.
    pub open spec fn wf(&self) -> bool {
        self.url@ == connection_url(self.hostname@, self.port, opt_view(self.password))
    }

    /// A configuration for the given host, port and password.
    pub fn new(hostname: &str, port: u16, password: Option<&str>) -> (r: Self)
        ensures
            r.wf(),
            r.hostname@ == hostname@,
            r.port == port,
            r.password is Some <==> password is Some,
            password matches Some(p) ==> r.password == Some(r.password->0) && r.password->0@
                == p@,
    {
        let port_text = decimal_text(port as u64);
        let tail = join3(hostname, ":", port_text.as_str());
        let (url, stored) = match password {
            Some(pass) => (
                join3("redis://:", pass, "@").concat(tail.as_str()),
                Some(String::from_str(pass)),
            ),
            None => (join2("redis://", tail.as_str()), None),
        };
        proof {
            match password {
                Some(p) => {
                    assert(url@ =~= "redis://:"@ + p@ + "@"@ + hostname@ + ":"@ + decimal(
                        port as nat,
                    ));
                },
                None => {
                    assert(url@ =~= "redis://"@ + hostname@ + ":"@ + decimal(port as nat));
                },
            }
        }
        RedisConfig { url, hostname: String::from_str(hostname), port, password: stored }
    }

    /// A configuration from settings that may be missing: the host defaults
    /// to `localhost`, and a missing or invalid port to 6379.
    pub fn from_values(hostname: Option<String>, port: Option<String>, password: Option<String>) -> (r:
        Self)
        ensures
            r.wf(),
            r.hostname@ == (match hostname {
                Some(h) => h@,
                None => "localhost"@,
            }),
            r.port == configured_port(opt_view(port)),
            opt_view(r.password) == opt_view(password),
    {
        let host = match hostname {
            Some(h) => h,
            None => String::from_str("localhost"),
        };
        let p: u16 = match &port {
            Some(t) => match parse_u64(t.as_str()) {
                Some(v) => if v <= 65535 {
                    v as u16
                } else {
                    DEFAULT_PORT
                },
                None => DEFAULT_PORT,
            },
            None => DEFAULT_PORT,
        };
        let r = match &password {
            Some(pass) => Self::new(host.as_str(), p, Some(pass.as_str())),
            None => Self::new(host.as_str(), p, None),
        };
        r
    }

    /// The connection URL.
    pub fn get_url(&self) -> (r: &str)
        ensures
            r@ == self.url@,
    {
        self.url.as_str()
    }
}

/// The URL, host, port and password of the configuration built from the
/// given settings, as `RedisConfig::from_values` builds it.
pub fn get_redis_config(hostname: Option<String>, port: Option<String>, password: Option<String>) -> (r:
    (String, String, u16, Option<String>))
    ensures
        r.0@ == connection_url(r.1@, r.2, opt_view(r.3)),
        r.1@ == (match hostname {
            Some(h) => h@,
            None => "localhost"@,
        }),
        r.2 == configured_port(opt_view(port)),
        opt_view(r.3) == opt_view(password),
{
    let config = RedisConfig::from_values(hostname, port, password);
    (config.url, config.hostname, config.port, config.password)
}

} // verus!
