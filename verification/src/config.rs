//! The settings of the server.

use vstd::prelude::*;
use crate::text::opt_text;

verus! {

/// Where the server listens if nothing else is set.
pub const DEFAULT_ADDR: &'static str = "127.0.0.1:8080";

/// The settings of the server.
#[derive(Clone, Debug)]
pub struct AppConfig {
    pub database_url: String,
    pub server_addr: String,
    pub auth_secret: String,
    pub auth_cookie_name: String,
}

/// The first of two optional texts that is present.
pub open spec fn first_of(a: Option<Seq<char>>, b: Option<Seq<char>>) -> Option<Seq<char>> {
    if a is Some {
        a
    } else {
        b
    }
}

/// `value` where it is present, else `fallback`.
pub open spec fn value_or(value: Option<Seq<char>>, fallback: Seq<char>) -> Seq<char> {
    match value {
        Some(v) => v,
        None => fallback,
    }
}

fn text_or(value: Option<String>, fallback: &str) -> (r: String)
    ensures
        r@ == value_or(opt_text(value), fallback@),
{
    match value {
        Some(v) => v,
        None => fallback.to_string(),
    }
}

impl AppConfig {
    /// The settings made from what the environment holds under
    /// `DATABASE_URL`, `DATABASE_URI`, `SERVER_ADDR`, `AUTH_SECRET` and
    /// `AUTH_COOKIE_NAME`. The address of the database is needed, under
    /// either of its names; everything else has a default.
    pub fn from_values(
        database_url: Option<String>,
        database_uri: Option<String>,
        server_addr: Option<String>,
        auth_secret: Option<String>,
        auth_cookie_name: Option<String>,
    ) -> (r: Option<Self>)
        ensures
            r is Some <==> database_url is Some || database_uri is Some,
            r matches Some(cfg) ==> {
                &&& Some(cfg.database_url@) == first_of(
                    opt_text(database_url),
                    opt_text(database_uri),
                )
                &&& cfg.server_addr@ == value_or(opt_text(server_addr), DEFAULT_ADDR@)
                &&& cfg.auth_secret@ == value_or(opt_text(auth_secret), "dev_secret_change_me"@)
                &&& cfg.auth_cookie_name@ == value_or(opt_text(auth_cookie_name), "ba_session"@)
            },
    {
        let database_url = match database_url {
            Some(url) => url,
            None => match database_uri {
                Some(uri) => uri,
                None => {
                    return None;
                },
            },
        };
        Some(
            AppConfig {
                database_url,
                server_addr: text_or(server_addr, DEFAULT_ADDR),
                auth_secret: text_or(auth_secret, "dev_secret_change_me"),
                auth_cookie_name: text_or(auth_cookie_name, "ba_session"),
            },
        )
    }
}

} // verus!
