//! Process configuration from its three settings.

use vstd::prelude::*;
use vstd::string::*;
use crate::text::chars_of;

verus! {

/// The settings the service runs with.
pub struct Config {
    /// Whether new users may sign up (`SIGNUPS_ENABLED`, default true).
    pub signups_enabled: bool,
    /// `DATABASE_URL`.
    pub database_url: String,
    /// The bytes of `JWT_SECRET`.
    pub jwt_secret: Vec<u8>,
}

/// Why the settings were refused.
#[derive(Clone, Copy, Debug, PartialEq, Eq, Structural)]
pub enum ConfigError {
    /// `SIGNUPS_ENABLED` is neither `true` nor `false`.
    InvalidSignupsEnabled,
    /// `DATABASE_URL` is not set.
    MissingDatabaseUrl,
    /// `JWT_SECRET` is not set.
    MissingJwtSecret,
}

/// The boolean that a text spells: exactly `true` or `false`.
pub open spec fn bool_text(s: Seq<char>) -> Option<bool> {
    if s == seq!['t', 'r', 'u', 'e'] {
        Some(true)
    } else if s == seq!['f', 'a', 'l', 's', 'e'] {
        Some(false)
    } else {
        None
    }
}

/// Reads `true` or `false`.
pub fn parse_bool(s: &str) -> (r: Option<bool>)
    ensures
        r == bool_text(s@),
{
    let v = chars_of(s);
    if v.len() == 4 && v[0] == 't' && v[1] == 'r' && v[2] == 'u' && v[3] == 'e' {
        assert(s@ =~= seq!['t', 'r', 'u', 'e']);
        Some(true)
    } else if v.len() == 5 && v[0] == 'f' && v[1] == 'a' && v[2] == 'l' && v[3] == 's' && v[4]
        == 'e' {
        assert(s@ =~= seq!['f', 'a', 'l', 's', 'e']);
        Some(false)
    } else {
        proof {
            if s@ == seq!['t', 'r', 'u', 'e'] {
                assert(v@[0] == 't' && v@[1] == 'r' && v@[2] == 'u' && v@[3] == 'e');
            }
            if s@ == seq!['f', 'a', 'l', 's', 'e'] {
                assert(v@[0] == 'f' && v@[1] == 'a' && v@[2] == 'l' && v@[3] == 's' && v@[4]
                    == 'e');
            }
        }
        None
    }
}

impl Config {
    /// The configuration from the three settings as read (`None`: unset),
    /// checked in the order `SIGNUPS_ENABLED`, `DATABASE_URL`, `JWT_SECRET`.
    pub fn new(signups_enabled: Option<&str>, database_url: Option<&str>, jwt_secret: Option<&str>) -> (r:
        Result<Config, ConfigError>)
        ensures
            match r {
                Ok(c) => {
                    &&& c.signups_enabled == (match signups_enabled {
                        None => true,
                        Some(s) => bool_text(s@) == Some(true),
                    })
                    &&& (signups_enabled matches Some(s) ==> bool_text(s@) is Some)
                    &&& database_url matches Some(d) && c.database_url@ == d@
                    &&& jwt_secret matches Some(j) && c.jwt_secret@ == j.spec_bytes()
                },
                Err(e) => e == (if signups_enabled matches Some(s) && bool_text(s@) is None {
                    ConfigError::InvalidSignupsEnabled
                } else if database_url is None {
                    ConfigError::MissingDatabaseUrl
                } else {
                    ConfigError::MissingJwtSecret
                }) && (signups_enabled matches Some(s) && bool_text(s@) is None || database_url is None
                    || jwt_secret is None),
            },
    {
        let signups = match signups_enabled {
            None => true,
            Some(s) => match parse_bool(s) {
                Some(b) => b,
                None => return Err(ConfigError::InvalidSignupsEnabled),
            },
        };
        let database_url = match database_url {
            Some(d) => String::from_str(d),
            None => return Err(ConfigError::MissingDatabaseUrl),
        };
        let jwt_secret = match jwt_secret {
            Some(j) => j.as_bytes_vec(),
            None => return Err(ConfigError::MissingJwtSecret),
        };
        Ok(Config { signups_enabled: signups, database_url, jwt_secret })
    }
}

} // verus!
