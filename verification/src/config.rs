//! The accounts the crawler signs in with.
use vstd::prelude::*;

verus! {

/// One LinkedIn account and the proxy it is reached through.
pub struct SessionConfig {
    pub username: String,
    pub password: String,
    pub proxy: String,
    pub proxy_username: String,
    pub proxy_password: String,
}

/// The crawler's configuration: one entry per account.
pub struct Config {
    pub sessions: Vec<SessionConfig>,
}

/// Entry `n` of the example configuration: every field holds a placeholder
/// `<field n>`.
pub open spec fn example_session_spec(s: SessionConfig, n: Seq<char>) -> bool {
    &&& s.proxy@ == "<proxy"@ + n + ">"@
    &&& s.username@ == "<username"@ + n + ">"@
    &&& s.proxy_password@ == "<proxy_password"@ + n + ">"@
    &&& s.proxy_username@ == "<proxy_username"@ + n + ">"@
    &&& s.password@ == "<password"@ + n + ">"@
}

impl Config {
    /// The configuration written out for a user to fill in: two accounts
    /// whose fields are placeholders numbered 1 and 2.
    pub fn example() -> (res: Config)
        ensures
            res.sessions@.len() == 2,
            example_session_spec(res.sessions@[0], "1"@),
            example_session_spec(res.sessions@[1], "2"@),
    {
        let first = SessionConfig {
            proxy: "<proxy1>".to_owned(),
            username: "<username1>".to_owned(),
            proxy_password: "<proxy_password1>".to_owned(),
            proxy_username: "<proxy_username1>".to_owned(),
            password: "<password1>".to_owned(),
        };
        let second = SessionConfig {
            proxy: "<proxy2>".to_owned(),
            username: "<username2>".to_owned(),
            proxy_password: "<proxy_password2>".to_owned(),
            proxy_username: "<proxy_username2>".to_owned(),
            password: "<password2>".to_owned(),
        };
        proof {
            reveal_strlit("<proxy1>");
            reveal_strlit("<username1>");
            reveal_strlit("<proxy_password1>");
            reveal_strlit("<proxy_username1>");
            reveal_strlit("<password1>");
            reveal_strlit("<proxy2>");
            reveal_strlit("<username2>");
            reveal_strlit("<proxy_password2>");
            reveal_strlit("<proxy_username2>");
            reveal_strlit("<password2>");
            reveal_strlit("<proxy");
            reveal_strlit("<username");
            reveal_strlit("<proxy_password");
            reveal_strlit("<proxy_username");
            reveal_strlit("<password");
            reveal_strlit(">");
            reveal_strlit("1");
            reveal_strlit("2");
            assert(first.proxy@ =~= "<proxy"@ + "1"@ + ">"@);
            assert(first.username@ =~= "<username"@ + "1"@ + ">"@);
            assert(first.proxy_password@ =~= "<proxy_password"@ + "1"@ + ">"@);
            assert(first.proxy_username@ =~= "<proxy_username"@ + "1"@ + ">"@);
            assert(first.password@ =~= "<password"@ + "1"@ + ">"@);
            assert(second.proxy@ =~= "<proxy"@ + "2"@ + ">"@);
            assert(second.username@ =~= "<username"@ + "2"@ + ">"@);
            assert(second.proxy_password@ =~= "<proxy_password"@ + "2"@ + ">"@);
            assert(second.proxy_username@ =~= "<proxy_username"@ + "2"@ + ">"@);
            assert(second.password@ =~= "<password"@ + "2"@ + ">"@);
        }
        let mut sessions: Vec<SessionConfig> = Vec::new();
        sessions.push(first);
        sessions.push(second);
        Config { sessions }
    }
}

} // verus!
