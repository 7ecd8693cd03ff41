use vstd::prelude::*;

use crate::paths::{join_path, joined_path};
use crate::token::{expired_at, opt_view, CopilotToken, TokenView};

verus! {

/// Name of the directory under the home directory that holds the credential.
pub const HOME_SUBDIR: &'static str = ".codex";

/// Name of the credential file.
pub const TOKEN_FILE_NAME: &'static str = "copilot_token.json";

/// Environment variable that overrides where the credential directory is.
pub const HOME_ENV_VAR: &'static str = "CODEX_HOME";

/// Environment variable that holds a credential set by hand, and into which a
/// stored credential is exported.
pub const TOKEN_ENV_VAR: &'static str = "COPILOT_TOKEN";

/// Why the store could not be set up.
#[derive(Debug, Clone, Copy, PartialEq, Eq, Structural)]
pub enum StoreError {
    /// Neither an override nor a home directory is known.
    NoHomeDirectory,
}

impl StoreError {
    pub fn message(&self) -> (r: String)
        ensures
            r@ == "Could not find home directory"@,
    {
        String::from_str("Could not find home directory")
    }
}

/// Relies on `dirs::home_dir`: the user's home directory when the platform
/// knows one. What it returns depends on the environment.
#[verifier::external_body]
fn home_dir() -> (r: Option<String>) {
    match dirs::home_dir() {
        Some(p) => Some(p.to_string_lossy().into_owned()),
        None => None,
    }
}

/// The credential directory and file: the override where it is set, else the
/// `.codex` directory under the home directory.
pub open spec fn store_paths(codex_home: Option<Seq<char>>, home_dir: Option<Seq<char>>) -> Option<
    (Seq<char>, Seq<char>),
> {
    let home = match codex_home {
        Some(h) => Some(h),
        None => match home_dir {
            Some(d) => Some(joined_path(d, ".codex"@)),
            None => None,
        },
    };
    match home {
        Some(h) => Some((h, joined_path(h, "copilot_token.json"@))),
        None => None,
    }
}

/// Where a stored credential was read, what to do with it.
#[derive(Debug, Clone)]
pub enum LoadedToken {
    /// Still valid: hand it out.
    Valid(CopilotToken),
    /// Expired: delete the file and report no credential.
    Expired,
}

/// The secret to use: the stored credential's while it is valid, else the
/// one set by hand in the environment, else none.
pub open spec fn valid_token_of(stored: Option<TokenView>, env_token: Option<Seq<char>>, now: u64) -> Option<
    Seq<char>,
> {
    match stored {
        Some(t) => if !expired_at(t, now) {
            Some(t.token)
        } else {
            env_token
        },
        None => env_token,
    }
}

pub open spec fn opt_token_view(o: Option<CopilotToken>) -> Option<TokenView> {
    match o {
        Some(t) => Some(t@),
        None => None,
    }
}

/// The file-backed home of the one credential.
#[derive(Debug, Clone)]
pub struct CopilotTokenStore {
    home: String,
    token_file: String,
}

impl CopilotTokenStore {
    pub closed spec fn home_view(&self) -> Seq<char> {
        self.home@
    }

    pub closed spec fn token_file_view(&self) -> Seq<char> {
        self.token_file@
    }

    /// A store under the override `codex_home`, or under `home_dir`.
    pub fn new_in(codex_home: Option<String>, home_dir: Option<String>) -> (r: Result<
        CopilotTokenStore,
        StoreError,
    >)
        ensures
            match store_paths(opt_view(codex_home), opt_view(home_dir)) {
                Some((h, f)) => r matches Ok(s) && s.home_view() == h && s.token_file_view() == f,
                None => r == Err::<CopilotTokenStore, StoreError>(StoreError::NoHomeDirectory),
            },
    {
        let home = match codex_home {
            Some(h) => h,
            None => match home_dir {
                Some(d) => join_path(d.as_str(), HOME_SUBDIR),
                None => {
                    return Err(StoreError::NoHomeDirectory);
                },
            },
        };
        let token_file = join_path(home.as_str(), TOKEN_FILE_NAME);
        Ok(CopilotTokenStore { home, token_file })
    }

    /// A store under the override `codex_home`, or under the user's home
    /// directory as the platform reports it.
    pub fn new(codex_home: Option<String>) -> (r: Result<CopilotTokenStore, StoreError>)
        ensures
            codex_home matches Some(h) ==> (r matches Ok(s) && s.home_view() == h@
                && s.token_file_view() == joined_path(h@, "copilot_token.json"@)),
            codex_home is None ==> match r {
                Ok(s) => exists|d: Seq<char>|
                    store_paths(None, Some(d)) == Some((s.home_view(), s.token_file_view())),
                Err(e) => e == StoreError::NoHomeDirectory,
            },
    {
        match codex_home {
            Some(h) => Self::new_in(Some(h), None),
            None => {
                let d = home_dir();
                let r = Self::new_in(None, d);
                proof {
                    if r is Ok {
                        assert(store_paths(None, Some(opt_view(d)->Some_0)) == Some(
                            (r->Ok_0.home_view(), r->Ok_0.token_file_view()),
                        ));
                    }
                }
                r
            },
        }
    }

    /// The directory that holds the credential file.
    pub fn home(&self) -> (r: &str)
        ensures
            r@ == self.home_view(),
    {
        self.home.as_str()
    }

    /// The credential file.
    pub fn token_file(&self) -> (r: &str)
        ensures
            r@ == self.token_file_view(),
    {
        self.token_file.as_str()
    }

    /// Decides on a credential just read from the file at `now`: an expired
    /// one is evicted, a valid one handed out unchanged.
    pub fn check_loaded(token: CopilotToken, now: u64) -> (r: LoadedToken)
        ensures
            expired_at(token@, now) ==> r is Expired,
            !expired_at(token@, now) ==> (r matches LoadedToken::Valid(t) && t@ == token@),
    {
        if token.is_expired_at(now) {
            LoadedToken::Expired
        } else {
            LoadedToken::Valid(token)
        }
    }

    /// The secret to use, from what the file held (`None` where there was no
    /// file or it could not be read) and the environment's override.
    pub fn select_valid_token(stored: Option<CopilotToken>, env_token: Option<String>, now: u64) -> (r:
        Option<String>)
        ensures
            opt_view(r) == valid_token_of(opt_token_view(stored), opt_view(env_token), now),
    {
        match stored {
            Some(t) => if !t.is_expired_at(now) {
                Some(t.token)
            } else {
                env_token
            },
            None => env_token,
        }
    }
}

/// An expired credential is never handed out: reading it back evicts it, and
/// the secret in use is then only what the environment supplies.
pub proof fn lemma_expired_never_returned(t: TokenView, env_token: Option<Seq<char>>, now: u64)
    requires
        expired_at(t, now),
    ensures
        valid_token_of(Some(t), env_token, now) == env_token,
        t.expires_at matches Some(e) && e <= now,
{
}

/// With no stored credential, the secret set in the environment is the one in
/// use.
pub proof fn lemma_env_token_without_store(env_token: Seq<char>, now: u64)
    ensures
        valid_token_of(None, Some(env_token), now) == Some(env_token),
{
}

} // verus!
