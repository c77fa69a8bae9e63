use vstd::prelude::*;
use crate::meta::MetaStore;

verus! {

/// The server's settings.
#[derive(Clone, Debug)]
pub struct Config {
    pub general: GeneralConfig,
    pub users: Vec<UserConfig>,
}

#[derive(Clone, Debug)]
pub struct GeneralConfig {
    pub hostname: String,
    pub listen: String,
    pub data_dir: String,
    pub gc_interval_s: u64,
}

/// Someone who may upload, and the token that shows it.
#[derive(Clone, Debug)]
pub struct UserConfig {
    pub username: String,
    pub token: String,
}

/// What a request handler works with.
#[derive(Clone, Debug)]
pub struct AppState {
    pub config: Config,
    pub meta: MetaStore,
}

pub fn default_servername() -> (s: String)
    ensures
        s@ == "localhost"@,
{
    "localhost".to_owned()
}

pub fn default_listen() -> (s: String)
    ensures
        s@ == "[::1]:8000"@,
{
    "[::1]:8000".to_owned()
}

/// One hour, in seconds.
pub fn default_gc_interval_s() -> (s: u64)
    ensures
        s == 3600,
{
    60 * 60
}

pub fn default_data_dir() -> (s: String)
    ensures
        s@ == "./data"@,
{
    "./data".to_owned()
}

impl Config {
    /// The first user whose token is `token`: its index in `users`.
    pub fn user_by_token(&self, token: &str) -> (r: Option<usize>)
        ensures
            match r {
                Some(i) => i < self.users@.len() && self.users@[i as int].token@ == token@
                    && forall|j: int| 0 <= j < i ==> self.users@[j].token@ != token@,
                None => forall|j: int| 0 <= j < self.users@.len() ==> self.users@[j].token@
                    != token@,
            },
    {
        let wanted = token.to_owned();
        let mut i: usize = 0;
        while i < self.users.len()
            invariant
                i <= self.users@.len(),
                wanted@ == token@,
                forall|j: int| 0 <= j < i ==> self.users@[j].token@ != token@,
            decreases self.users@.len() - i,
        {
            if self.users[i].token == wanted {
                return Some(i);
            }
            i += 1;
        }
        None
    }
}

} // verus!
