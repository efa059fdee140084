//! The credential gate: basic-auth credentials against the configured ones.

use vstd::prelude::*;

verus! {

/// Settings read once at startup and shared, unchanged, by every request.
pub struct Config {
    pub connection_url: String,
    pub username: String,
    pub password: String,
    pub port: u32,
}

/// The password a request presents: a missing one counts as empty.
pub open spec fn presented_password(password: Option<Seq<char>>) -> Seq<char> {
    match password {
        Some(p) => p,
        None => Seq::empty(),
    }
}

/// Exact, case-sensitive match of both user name and password.
pub open spec fn credentials_match(
    config: &Config,
    username: Seq<char>,
    password: Option<Seq<char>>,
) -> bool {
    username == config.username@ && presented_password(password) == config.password@
}

pub open spec fn option_view(o: Option<String>) -> Option<Seq<char>> {
    match o {
        Some(s) => Some(s@),
        None => None,
    }
}

/// Decides whether the presented credentials are the configured ones.
pub fn check_credentials(config: &Config, username: &String, password: &Option<String>) -> (r:
    bool)
    ensures
        r == credentials_match(config, username@, option_view(*password)),
{
    if *username != config.username {
        return false;
    }
    match password {
        Some(p) => {
            let same: bool = *p == config.password;
            same
        },
        None => {
            let empty: bool = config.password.as_str().is_empty();
            assert(empty ==> config.password@ =~= Seq::<char>::empty());
            empty
        },
    }
}

} // verus!
