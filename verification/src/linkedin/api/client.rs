//! The decisions of the LinkedIn API client: which addresses it calls, what
//! it sends, and what each answer means. The HTTP exchanges themselves, and
//! the cookie store, live outside the library; they hand their outcome back
//! as an `Exchange`.
use vstd::prelude::*;
use crate::errors::CrawlerError;
use crate::exchange::{body_text, Exchange};
use crate::linkedin::api::json::{AuthenticateResponse, FetchCookiesResponse, Profile, SkillView};
use crate::linkedin::api::json::response::{Signup, SignupChallenge};
use crate::linkedin::api::search::VOYAGER_URL;
use crate::linkedin::api::tracking_client::{
    create_default_headers, default_headers_spec, headers_view, valid_header_value,
};
use crate::text::{joined, remove_char, split, split_spec, without_char};
use crate::outside::{
    cookie_entries, cookie_get, cookie_parse, cookie_parse_effect, cookie_store_step, linkedin_origin, plain_cookie,
};
use reqwest_cookie_store::CookieStore;

verus! {

/// The site the client talks to.
pub const API_DOMAIN: &'static str = "https://www.linkedin.com";
/// The domain the session cookies belong to.
pub const COOKIE_DOMAIN: &'static str = "www.linkedin.com";
/// Where the cookies of each account are kept.
pub const COOKIE_FOLDER: &'static str = "cookies/";

/// The file the cookies of `username` are kept in.
pub fn cookie_path(username: &str) -> (res: String)
    ensures
        res@ == COOKIE_FOLDER@ + username@,
{
    let mut out = COOKIE_FOLDER.to_owned();
    out.append(username);
    out
}

/// The sign-in address.
pub fn authenticate_url() -> (res: String)
    ensures
        res@ == API_DOMAIN@ + "/uas/authenticate"@,
{
    let mut out = API_DOMAIN.to_owned();
    out.append("/uas/authenticate");
    out
}

/// The address of a profile's full view.
pub fn profile_endpoint(profile_id: &str) -> (res: String)
    ensures
        res@ == VOYAGER_URL@ + "/identity/profiles/"@ + profile_id@ + "/profileView"@,
{
    let mut out = VOYAGER_URL.to_owned();
    out.append("/identity/profiles/");
    out.append(profile_id);
    out.append("/profileView");
    out
}

/// The address of a profile's skills, up to a hundred.
pub fn skills_endpoint(profile_id: &str) -> (res: String)
    ensures
        res@ == VOYAGER_URL@ + "/identity/profiles/"@ + profile_id@ + "/skills?count=100&start=0"@,
{
    let mut out = VOYAGER_URL.to_owned();
    out.append("/identity/profiles/");
    out.append(profile_id);
    out.append("/skills?count=100&start=0");
    out
}

/// The device tracking address.
pub fn tracking_url() -> (res: String)
    ensures
        res@ == API_DOMAIN@ + "/mob/tracking"@,
{
    let mut out = API_DOMAIN.to_owned();
    out.append("/mob/tracking");
    out
}

/// The account creation address.
pub fn signup_url() -> (res: String)
    ensures
        res@ == API_DOMAIN@ + "/signup/api/createAccount?trk=native_voyager_join"@,
{
    let mut out = API_DOMAIN.to_owned();
    out.append("/signup/api/createAccount?trk=native_voyager_join");
    out
}

/// The address of the challenge an account creation asked for.
pub fn challenge_url(challenge: &SignupChallenge) -> (res: String)
    ensures
        res@ == API_DOMAIN@ + challenge.challenge_url@,
{
    let mut out = API_DOMAIN.to_owned();
    out.append(challenge.challenge_url.as_str());
    out
}

/// The session id held by a `JSESSIONID` cookie value: the value without
/// its quotes.
pub fn session_id_from_cookie(raw: &str) -> (res: String)
    ensures
        res@ == without_char(raw@, '"'),
{
    remove_char(raw, '"')
}

/// The cookies stored for an account, one per `;`-separated piece, each to
/// be handed to the cookie store.
pub fn cookie_pieces(cookies: &str) -> (res: Vec<String>)
    ensures
        res@.map_values(|x: String| x@) == split_spec(cookies@, ";"@),
{
    proof {
        reveal_strlit(";");
    }
    split(cookies, ";")
}

/// Where the store keeps the session cookie: the site's domain, the root
/// path, the name `JSESSIONID`.
pub open spec fn session_cookie_key() -> (Seq<char>, Seq<char>, Seq<char>) {
    (COOKIE_DOMAIN@, "/"@, "JSESSIONID"@)
}

/// The error given when the store holds no usable session cookie.
pub open spec fn missing_session_cookie() -> Seq<char> {
    "Failed to find JSESSIONID"@
}

/// The `JSESSIONID` value that a run of cookie pieces leaves, as far as
/// plain pieces decide it: the value of the last plain piece named
/// `JSESSIONID`, where every piece after it is plain too; `None` where the
/// pieces do not decide it.
pub open spec fn session_cookie_set(pieces: Seq<Seq<char>>) -> Option<Seq<char>>
    decreases pieces.len(),
{
    if pieces.len() == 0 {
        None
    } else {
        match plain_cookie(pieces.last()) {
            Some((name, value)) => if name == "JSESSIONID"@ {
                Some(value)
            } else {
                session_cookie_set(pieces.drop_last())
            },
            None => None,
        }
    }
}

/// Law: handing a run of cookie pieces from the LinkedIn site to a store,
/// one after the other, leaves the session cookie that the pieces decide,
/// stored to last the session.
pub proof fn lemma_session_cookie_run(
    pieces: Seq<Seq<char>>,
    run: Seq<Map<(Seq<char>, Seq<char>, Seq<char>), (Seq<char>, bool)>>,
    k: int,
)
    requires
        run.len() == pieces.len() + 1,
        forall|j: int| 0 <= j < pieces.len() ==> #[trigger] cookie_parse_effect(linkedin_origin(), pieces[j], run[j], run[j + 1]),
        0 <= k <= pieces.len(),
    ensures
        session_cookie_set(pieces.subrange(0, k)) matches Some(v) ==> run[k].contains_key(session_cookie_key())
            && run[k][session_cookie_key()] == (v, true),
    decreases k,
{
    if k > 0 {
        lemma_session_cookie_run(pieces, run, k - 1);
        let t = pieces.subrange(0, k);
        assert(t.drop_last() =~= pieces.subrange(0, k - 1));
        assert(t.last() == pieces[k - 1]);
        assert(cookie_parse_effect(linkedin_origin(), pieces[k - 1], run[k - 1], run[(k - 1) + 1]));
    }
}

/// Hands each `;`-separated piece of the stored cookie text to `store`, in
/// order and as received from the site, then reads the session id back from
/// the `JSESSIONID` cookie: its value without quotes, or a session error
/// where the store gives no such cookie. A plain `JSESSIONID=<value>` piece
/// that no later piece can override always gives its value.
pub fn session_id_from_cookie_text(store: &mut CookieStore, cookies: &str) -> (res: Result<String, CrawlerError>)
    ensures
        exists|run: Seq<Map<(Seq<char>, Seq<char>, Seq<char>), (Seq<char>, bool)>>| {
            &&& run.len() == split_spec(cookies@, ";"@).len() + 1
            &&& run[0] == cookie_entries(*old(store))
            &&& run.last() == cookie_entries(*final(store))
            &&& forall|j: int| 0 <= j < run.len() - 1 ==> #[trigger] cookie_store_step(run[j], run[j + 1])
            &&& forall|j: int|
                0 <= j < run.len() - 1 ==> #[trigger] cookie_parse_effect(
                    API_DOMAIN@,
                    split_spec(cookies@, ";"@)[j],
                    run[j],
                    run[j + 1],
                )
        },
        cookie_entries(*old(store)).dom().subset_of(cookie_entries(*final(store)).dom()),
        match res {
            Ok(id) => {
                &&& cookie_entries(*final(store)).contains_key(session_cookie_key())
                &&& id@ == without_char(cookie_entries(*final(store))[session_cookie_key()].0, '"')
            },
            Err(e) => e matches CrawlerError::SessionError(m) && m@ == missing_session_cookie(),
        },
        !cookie_entries(*final(store)).contains_key(session_cookie_key()) ==> res is Err,
        session_cookie_set(split_spec(cookies@, ";"@)) matches Some(v) ==> (res matches Ok(id) && id@
            == without_char(v, '"')),
{
    let pieces = cookie_pieces(cookies);
    let ghost texts = split_spec(cookies@, ";"@);
    let ghost before = cookie_entries(*store);
    let ghost mut run: Seq<Map<(Seq<char>, Seq<char>, Seq<char>), (Seq<char>, bool)>> = seq![before];
    assert(API_DOMAIN@ == linkedin_origin());
    let mut i: usize = 0;
    while i < pieces.len()
        invariant
            i <= pieces.len(),
            texts == split_spec(cookies@, ";"@),
            pieces@.map_values(|x: String| x@) == texts,
            API_DOMAIN@ == linkedin_origin(),
            run.len() == i + 1,
            run[0] == before,
            run.last() == cookie_entries(*store),
            forall|j: int| 0 <= j < i ==> #[trigger] cookie_store_step(run[j], run[j + 1]),
            forall|j: int| 0 <= j < i ==> #[trigger] cookie_parse_effect(API_DOMAIN@, texts[j], run[j], run[j + 1]),
            before.dom().subset_of(cookie_entries(*store).dom()),
        decreases pieces.len() - i,
    {
        let ghost prev = cookie_entries(*store);
        cookie_parse(store, pieces[i].as_str(), API_DOMAIN);
        proof {
            let next = cookie_entries(*store);
            assert(texts[i as int] == pieces@[i as int]@);
            if next != prev {
                let (k, v) = choose|k: (Seq<char>, Seq<char>, Seq<char>), v: (Seq<char>, bool)| #[trigger] prev.insert(k, v) == next;
                assert(prev.dom().subset_of(next.dom()));
            }
            let old_run = run;
            run = run.push(next);
            assert forall|j: int| 0 <= j < i + 1 implies #[trigger] cookie_store_step(run[j], run[j + 1]) by {
                if j < i {
                    assert(run[j] == old_run[j] && run[j + 1] == old_run[j + 1]);
                } else {
                    assert(run[j] == prev);
                }
            }
            assert forall|j: int| 0 <= j < i + 1 implies #[trigger] cookie_parse_effect(API_DOMAIN@, texts[j], run[j], run[j + 1]) by {
                if j < i {
                    assert(run[j] == old_run[j] && run[j + 1] == old_run[j + 1]);
                } else {
                    assert(run[j] == prev);
                }
            }
        }
        i = i + 1;
    }
    proof {
        assert(pieces@.len() == texts.len());
        lemma_session_cookie_run(texts, run, texts.len() as int);
        assert(texts.subrange(0, texts.len() as int) =~= texts);
        reveal_strlit("/");
        reveal_strlit("JSESSIONID");
        reveal_strlit("Failed to find JSESSIONID");
    }
    match cookie_get(store, COOKIE_DOMAIN, "/", "JSESSIONID") {
        Some(value) => Ok(session_id_from_cookie(value.as_str())),
        None => Err(CrawlerError::SessionError("Failed to find JSESSIONID".to_owned())),
    }
}

/// Law: the pieces handed to the cookie store, joined again with `;`, are
/// the stored cookie text: nothing is lost or added by the split.
pub proof fn lemma_cookie_pieces_rejoin(cookies: Seq<char>)
    ensures
        joined(split_spec(cookies, ";"@), ";"@) == cookies,
{
    reveal_strlit(";");
    crate::text::lemma_split_rejoins(cookies, ";"@);
}

/// The sign-in form: the user name, the password and the quoted session id.
pub open spec fn login_form_spec(username: Seq<char>, password: Seq<char>, session_id: Seq<char>) -> Seq<
    (Seq<char>, Seq<char>),
> {
    seq![
        ("session_key"@, username),
        ("session_password"@, password),
        ("JSESSIONID"@, "\""@ + session_id + "\""@),
    ]
}

/// The sign-in form for `username` with the session id just obtained.
pub fn login_form(username: &str, password: &str, session_id: &str) -> (res: Vec<(String, String)>)
    ensures
        headers_view(res@) == login_form_spec(username@, password@, session_id@),
{
    let mut quoted = "\"".to_owned();
    quoted.append(session_id);
    quoted.append("\"");
    let mut form: Vec<(String, String)> = Vec::new();
    form.push(("session_key".to_owned(), username.to_owned()));
    form.push(("session_password".to_owned(), password.to_owned()));
    form.push(("JSESSIONID".to_owned(), quoted));
    assert(headers_view(form@) =~= login_form_spec(username@, password@, session_id@));
    form
}

/// What asking for a session id gives: the session id, or the error that
/// stops the sign-in.
pub open spec fn session_id_outcome_spec(reply: Exchange<(FetchCookiesResponse, Option<String>)>) -> Result<
    Seq<char>,
    Seq<char>,
> {
    match reply {
        Exchange::NotSent(e) => Err(e@),
        Exchange::Rejected { status, body } => Err(
            "Failed to obtain linkedin set-cookies "@ + status@ + " "@ + match body {
                Ok(t) => t@,
                Err(t) => t@,
            },
        ),
        Exchange::Unparsed(e) => Err("Failed to parse auth response "@ + e@),
        Exchange::Answered((response, cookie)) => if response.status@ == "success"@ {
            match cookie {
                Some(c) => Ok(without_char(c@, '"')),
                None => Err(Seq::empty()),
            }
        } else {
            Err("Failed to obtain session_id "@ + response.status@)
        },
    }
}

/// Whether the library can decide a session id answer: the request was
/// sent, a rejection's body was read, and a successful answer came with
/// its `JSESSIONID` cookie.
pub open spec fn session_reply_complete(reply: Exchange<(FetchCookiesResponse, Option<String>)>) -> bool {
    match reply {
        Exchange::NotSent(_) => false,
        Exchange::Rejected { body, .. } => body is Ok,
        Exchange::Unparsed(_) => true,
        Exchange::Answered((response, cookie)) => response.status@ == "success"@ ==> cookie is Some,
    }
}

/// Reads the answer to the session id request: the cookie's value without
/// quotes when the service reports success, a session error otherwise.
pub fn session_id_outcome(reply: Exchange<(FetchCookiesResponse, Option<String>)>) -> (res: Result<
    String,
    CrawlerError,
>)
    requires
        session_reply_complete(reply),
    ensures
        match session_id_outcome_spec(reply) {
            Ok(id) => res matches Ok(s) && s@ == id,
            Err(m) => res matches Err(CrawlerError::SessionError(t)) && t@ == m,
        },
{
    match reply {
        Exchange::NotSent(e) => Err(CrawlerError::SessionError(e)),
        Exchange::Rejected { status, body } => {
            let text = match body {
                Ok(t) => t,
                Err(t) => t,
            };
            let mut msg = "Failed to obtain linkedin set-cookies ".to_owned();
            msg.append(status.as_str());
            msg.append(" ");
            msg.append(text.as_str());
            Err(CrawlerError::SessionError(msg))
        },
        Exchange::Unparsed(e) => {
            let mut msg = "Failed to parse auth response ".to_owned();
            msg.append(e.as_str());
            Err(CrawlerError::SessionError(msg))
        },
        Exchange::Answered((response, cookie)) => {
            proof {
                reveal_strlit("success");
            }
            if crate::text::str_equal(response.status.as_str(), "success") {
                match cookie {
                    Some(c) => Ok(session_id_from_cookie(c.as_str())),
                    None => Err(CrawlerError::SessionError(String::new())),
                }
            } else {
                let mut msg = "Failed to obtain session_id ".to_owned();
                msg.append(response.status.as_str());
                Err(CrawlerError::SessionError(msg))
            }
        },
    }
}

fn message(prefix: &str, a: &str) -> (res: String)
    ensures
        res@ == prefix@ + a@,
{
    let mut out = prefix.to_owned();
    out.append(a);
    out
}

fn message2(prefix: &str, a: &str, b: &str) -> (res: String)
    ensures
        res@ == prefix@ + a@ + " "@ + b@,
{
    proof {
        reveal_strlit(" ");
    }
    let mut out = prefix.to_owned();
    out.append(a);
    out.append(" ");
    out.append(b);
    out
}

/// What the sign-in answer means: nothing when the service let the account
/// in, otherwise the text of the session error.
pub open spec fn login_outcome_spec(reply: Exchange<AuthenticateResponse>) -> Result<(), Seq<char>> {
    match reply {
        Exchange::NotSent(e) => Err("Failed authenticate request "@ + e@),
        Exchange::Rejected { status, body } => Err("Failed to authenticate "@ + status@ + " "@ + body_text(body)),
        Exchange::Unparsed(e) => Err("Failed to parse authenticate response "@ + e@),
        Exchange::Answered(r) => if r.login_result@ == "PASS"@ {
            Ok(())
        } else {
            Err("Failed to authenticate "@ + r.login_result@ + " "@ + r.challenge_url@)
        },
    }
}

/// The library can decide a sign-in answer once a rejection's body was read.
pub open spec fn login_reply_complete(reply: Exchange<AuthenticateResponse>) -> bool {
    reply matches Exchange::Rejected { body, .. } ==> body is Ok
}

/// Reads the answer to the sign-in request: it passed only when the
/// service's login result is `PASS`.
pub fn login_outcome(reply: Exchange<AuthenticateResponse>) -> (res: Result<(), CrawlerError>)
    requires
        login_reply_complete(reply),
    ensures
        match login_outcome_spec(reply) {
            Ok(()) => res is Ok,
            Err(m) => res matches Err(CrawlerError::SessionError(t)) && t@ == m,
        },
{
    match reply {
        Exchange::NotSent(e) => Err(CrawlerError::SessionError(message("Failed authenticate request ", e.as_str()))),
        Exchange::Rejected { status, body } => {
            let text = crate::exchange::take_body(body);
            Err(CrawlerError::SessionError(message2("Failed to authenticate ", status.as_str(), text.as_str())))
        },
        Exchange::Unparsed(e) => Err(
            CrawlerError::SessionError(message("Failed to parse authenticate response ", e.as_str())),
        ),
        Exchange::Answered(r) => {
            proof {
                reveal_strlit("PASS");
            }
            if crate::text::str_equal(r.login_result.as_str(), "PASS") {
                Ok(())
            } else {
                Err(
                    CrawlerError::SessionError(
                        message2("Failed to authenticate ", r.login_result.as_str(), r.challenge_url.as_str()),
                    ),
                )
            }
        },
    }
}

/// What the account creation answer means.
pub open spec fn signup_outcome_spec(reply: Exchange<Signup>) -> Result<Signup, Seq<char>> {
    match reply {
        Exchange::NotSent(e) => Err("Failed to send signup request "@ + e@),
        Exchange::Answered(s) => Ok(s),
        Exchange::Unparsed(e) => Err("Failed to parse signup response "@ + e@),
        Exchange::Rejected { status, body } => match body {
            Ok(t) => Err("Failed to signup "@ + status@ + " "@ + t@),
            Err(e) => Err("Failed to get signup response "@ + e@),
        },
    }
}

/// Reads the answer to an account creation: the service's answer when the
/// status was OK, a LinkedIn error otherwise.
pub fn signup_outcome(reply: Exchange<Signup>) -> (res: Result<Signup, CrawlerError>)
    ensures
        match signup_outcome_spec(reply) {
            Ok(s) => res == Ok::<Signup, CrawlerError>(s),
            Err(m) => res matches Err(CrawlerError::LinkedinError(t)) && t@ == m,
        },
{
    match reply {
        Exchange::NotSent(e) => Err(CrawlerError::LinkedinError(message("Failed to send signup request ", e.as_str()))),
        Exchange::Answered(s) => Ok(s),
        Exchange::Unparsed(e) => Err(
            CrawlerError::LinkedinError(message("Failed to parse signup response ", e.as_str())),
        ),
        Exchange::Rejected { status, body } => match body {
            Ok(t) => Err(CrawlerError::LinkedinError(message2("Failed to signup ", status.as_str(), t.as_str()))),
            Err(e) => Err(CrawlerError::LinkedinError(message("Failed to get signup response ", e.as_str()))),
        },
    }
}

/// What the challenge page answer means.
pub open spec fn challenge_outcome_spec(reply: Exchange<String>) -> Result<Seq<char>, Seq<char>> {
    match reply {
        Exchange::NotSent(e) => Err("Failed to send challenge request "@ + e@),
        Exchange::Answered(text) => Ok(text@),
        Exchange::Unparsed(e) => Err("Failed to get challenge text "@ + e@),
        Exchange::Rejected { status, body } => match body {
            Ok(t) => Err("Failed to challenge "@ + status@ + " "@ + t@),
            Err(e) => Err("Failed to get challenge response "@ + e@),
        },
    }
}

/// Reads the answer to a challenge request: the page's text when the status
/// was OK, a LinkedIn error otherwise.
pub fn challenge_outcome(reply: Exchange<String>) -> (res: Result<String, CrawlerError>)
    ensures
        match challenge_outcome_spec(reply) {
            Ok(text) => res matches Ok(t) && t@ == text,
            Err(m) => res matches Err(CrawlerError::LinkedinError(t)) && t@ == m,
        },
{
    match reply {
        Exchange::NotSent(e) => Err(
            CrawlerError::LinkedinError(message("Failed to send challenge request ", e.as_str())),
        ),
        Exchange::Answered(text) => Ok(text),
        Exchange::Unparsed(e) => Err(CrawlerError::LinkedinError(message("Failed to get challenge text ", e.as_str()))),
        Exchange::Rejected { status, body } => match body {
            Ok(t) => Err(CrawlerError::LinkedinError(message2("Failed to challenge ", status.as_str(), t.as_str()))),
            Err(e) => Err(CrawlerError::LinkedinError(message("Failed to get challenge response ", e.as_str()))),
        },
    }
}

/// Reads the answer to a profile request: the profile, a LinkedIn error
/// carrying the body of a rejection, or a session error.
pub fn profile_outcome(reply: Exchange<Profile>) -> (res: Result<Profile, CrawlerError>)
    requires
        reply matches Exchange::Rejected { body, .. } ==> body is Ok,
    ensures
        match reply {
            Exchange::NotSent(e) => res matches Err(CrawlerError::SessionError(t)) && t@ == "Failed to get profile "@
                + e@,
            Exchange::Rejected { body, .. } => res matches Err(CrawlerError::LinkedinError(t)) && t@
                == "Failed to get profile "@ + body_text(body),
            Exchange::Unparsed(e) => res matches Err(CrawlerError::SessionError(t)) && t@
                == "Failed to parse profile "@ + e@,
            Exchange::Answered(p) => res == Ok::<Profile, CrawlerError>(p),
        },
{
    match reply {
        Exchange::NotSent(e) => Err(CrawlerError::SessionError(message("Failed to get profile ", e.as_str()))),
        Exchange::Rejected { body, .. } => {
            let text = crate::exchange::take_body(body);
            Err(CrawlerError::LinkedinError(message("Failed to get profile ", text.as_str())))
        },
        Exchange::Unparsed(e) => Err(CrawlerError::SessionError(message("Failed to parse profile ", e.as_str()))),
        Exchange::Answered(p) => Ok(p),
    }
}

/// Reads the answer to a skills request: the skills, or a session error.
/// Any status is read as skills.
pub fn skills_outcome(reply: Exchange<SkillView>) -> (res: Result<SkillView, CrawlerError>)
    requires
        !(reply is Rejected),
    ensures
        match reply {
            Exchange::NotSent(e) => res matches Err(CrawlerError::SessionError(t)) && t@ == "Failed to get skills "@
                + e@,
            Exchange::Unparsed(e) => res matches Err(CrawlerError::SessionError(t)) && t@
                == "Failed to parse skills "@ + e@,
            Exchange::Answered(v) => res == Ok::<SkillView, CrawlerError>(v),
            Exchange::Rejected { .. } => false,
        },
{
    match reply {
        Exchange::NotSent(e) => Err(CrawlerError::SessionError(message("Failed to get skills ", e.as_str()))),
        Exchange::Unparsed(e) => Err(CrawlerError::SessionError(message("Failed to parse skills ", e.as_str()))),
        Exchange::Answered(v) => Ok(v),
        Exchange::Rejected { .. } => Err(CrawlerError::SessionError(String::new())),
    }
}

/// Where a sign-in stands.
#[derive(PartialEq, Eq, Structural)]
pub enum AuthStage {
    LoadingCookies,
    ObtainingSessionId,
    LoggingIn,
    SavingCookies,
    Finished,
}

/// What the caller does next for a sign-in.
pub enum AuthStep {
    /// Read the stored cookies of the account from this file and try them.
    LoadCookies(String),
    /// Ask the service for a new session id.
    ObtainSessionId,
    /// Wait a second, then post this form with these headers to the sign-in address.
    Login { headers: Vec<(String, String)>, form: Vec<(String, String)> },
    /// Store the session's cookies in this file.
    SaveCookies(String),
    /// The sign-in is over.
    Done(Result<(), CrawlerError>),
}

/// The stage the caller is in after being told `step`.
pub open spec fn stage_after(step: AuthStep) -> AuthStage {
    match step {
        AuthStep::LoadCookies(_) => AuthStage::LoadingCookies,
        AuthStep::ObtainSessionId => AuthStage::ObtainingSessionId,
        AuthStep::Login { .. } => AuthStage::LoggingIn,
        AuthStep::SaveCookies(_) => AuthStage::SavingCookies,
        AuthStep::Done(_) => AuthStage::Finished,
    }
}

/// How far along a stage is; every step moves strictly forward.
pub open spec fn stage_rank(stage: AuthStage) -> nat {
    match stage {
        AuthStage::LoadingCookies => 0,
        AuthStage::ObtainingSessionId => 1,
        AuthStage::LoggingIn => 2,
        AuthStage::SavingCookies => 3,
        AuthStage::Finished => 4,
    }
}

/// The steps a sign-in may take from `stage`.
pub open spec fn step_allowed(stage: AuthStage, step: AuthStep) -> bool {
    match stage {
        AuthStage::LoadingCookies => step matches AuthStep::Done(Ok(())) || step is ObtainSessionId,
        AuthStage::ObtainingSessionId => step is Login || step matches AuthStep::Done(Err(_)),
        AuthStage::LoggingIn => step is SaveCookies || step matches AuthStep::Done(Err(_)),
        AuthStage::SavingCookies => step is Done,
        AuthStage::Finished => false,
    }
}

/// Law: every step of a sign-in moves it to a later stage, so a sign-in is
/// over after at most four answers.
pub proof fn lemma_sign_in_advances(stage: AuthStage, step: AuthStep)
    requires
        step_allowed(stage, step),
    ensures
        stage_rank(stage_after(step)) > stage_rank(stage),
        stage_rank(stage_after(step)) <= 4,
{
}

/// Law: cookies are only ever stored right after a login that passed, and a
/// sign-in that ends at the login or before it ends without storing any.
pub proof fn lemma_cookies_saved_only_after_login(stage: AuthStage, step: AuthStep)
    requires
        step_allowed(stage, step),
        step is SaveCookies,
    ensures
        stage == AuthStage::LoggingIn,
{
}

/// Signing an account in: reuse its stored cookies when they hold a
/// session, otherwise obtain a session id, log in with it and store the
/// cookies the service set.
pub struct Authentication {
    username: String,
    password: String,
    cookie_path: String,
    stage: AuthStage,
}

impl Authentication {
    pub closed spec fn stage(&self) -> AuthStage {
        self.stage
    }

    pub closed spec fn username_view(&self) -> Seq<char> {
        self.username@
    }

    pub closed spec fn password_view(&self) -> Seq<char> {
        self.password@
    }

    /// The file the account's cookies are read from and written to.
    pub closed spec fn cookie_path_view(&self) -> Seq<char> {
        self.cookie_path@
    }

    /// Starts signing `username` in; stored cookies are tried first unless
    /// `ignore_cookies` is set.
    pub fn begin(username: &str, password: &str, ignore_cookies: bool) -> (res: (Authentication, AuthStep))
        ensures
            res.0.username_view() == username@,
            res.0.password_view() == password@,
            res.0.cookie_path_view() == COOKIE_FOLDER@ + username@,
            res.0.stage() == stage_after(res.1),
            res.0.stage() == AuthStage::LoadingCookies || res.0.stage() == AuthStage::ObtainingSessionId,
            ignore_cookies ==> res.1 is ObtainSessionId,
            !ignore_cookies ==> (res.1 matches AuthStep::LoadCookies(p) && p@ == COOKIE_FOLDER@ + username@),
    {
        let path = cookie_path(username);
        let step = if ignore_cookies {
            AuthStep::ObtainSessionId
        } else {
            AuthStep::LoadCookies(path.clone())
        };
        let stage = if ignore_cookies {
            AuthStage::ObtainingSessionId
        } else {
            AuthStage::LoadingCookies
        };
        (Authentication { username: username.to_owned(), password: password.to_owned(), cookie_path: path, stage }, step)
    }

    /// Takes in what trying the stored cookies gave: `None` when there was no
    /// cookie file, otherwise the session id the cookies hold or the error
    /// met looking for it. A session ends the sign-in; anything else moves
    /// on to a fresh session id.
    pub fn cookies_loaded(&mut self, stored: Option<Result<String, CrawlerError>>) -> (res: AuthStep)
        requires
            old(self).stage() == AuthStage::LoadingCookies,
        ensures
            step_allowed(old(self).stage(), res),
            final(self).stage() == stage_after(res),
            final(self).username_view() == old(self).username_view(),
            final(self).password_view() == old(self).password_view(),
            final(self).cookie_path_view() == old(self).cookie_path_view(),
            (stored matches Some(Ok(_))) ==> (res matches AuthStep::Done(r) && r is Ok),
            !(stored matches Some(Ok(_))) ==> res is ObtainSessionId,
    {
        match stored {
            Some(Ok(_)) => {
                self.stage = AuthStage::Finished;
                AuthStep::Done(Ok(()))
            },
            _ => {
                self.stage = AuthStage::ObtainingSessionId;
                AuthStep::ObtainSessionId
            },
        }
    }

    /// Takes in the answer to the session id request. With a session id the
    /// login form is posted, carrying the id as CSRF token; otherwise the
    /// sign-in fails with the answer's error.
    pub fn session_id_received(&mut self, reply: Exchange<(FetchCookiesResponse, Option<String>)>) -> (res:
        AuthStep)
        requires
            old(self).stage() == AuthStage::ObtainingSessionId,
            session_reply_complete(reply),
            session_id_outcome_spec(reply) matches Ok(id) ==> valid_header_value(id),
        ensures
            step_allowed(old(self).stage(), res),
            final(self).stage() == stage_after(res),
            final(self).username_view() == old(self).username_view(),
            final(self).password_view() == old(self).password_view(),
            final(self).cookie_path_view() == old(self).cookie_path_view(),
            match session_id_outcome_spec(reply) {
                Ok(id) => res matches AuthStep::Login { headers, form } && headers_view(headers@)
                    == default_headers_spec(Some(id)) && headers_view(form@) == login_form_spec(
                    old(self).username_view(),
                    old(self).password_view(),
                    id,
                ),
                Err(m) => res matches AuthStep::Done(Err(CrawlerError::SessionError(t))) && t@ == m,
            },
    {
        match session_id_outcome(reply) {
            Ok(id) => {
                let headers = create_default_headers(Some(id.as_str()));
                let form = login_form(self.username.as_str(), self.password.as_str(), id.as_str());
                self.stage = AuthStage::LoggingIn;
                AuthStep::Login { headers, form }
            },
            Err(e) => {
                self.stage = AuthStage::Finished;
                AuthStep::Done(Err(e))
            },
        }
    }

    /// Takes in the answer to the login. A passed login has the cookies
    /// stored; any other answer ends the sign-in with its error.
    pub fn login_answered(&mut self, reply: Exchange<AuthenticateResponse>) -> (res: AuthStep)
        requires
            old(self).stage() == AuthStage::LoggingIn,
            login_reply_complete(reply),
        ensures
            step_allowed(old(self).stage(), res),
            final(self).stage() == stage_after(res),
            final(self).username_view() == old(self).username_view(),
            final(self).password_view() == old(self).password_view(),
            final(self).cookie_path_view() == old(self).cookie_path_view(),
            match login_outcome_spec(reply) {
                Ok(()) => res matches AuthStep::SaveCookies(p) && p@ == old(self).cookie_path_view(),
                Err(m) => res matches AuthStep::Done(Err(CrawlerError::SessionError(t))) && t@ == m,
            },
    {
        match login_outcome(reply) {
            Ok(()) => {
                self.stage = AuthStage::SavingCookies;
                AuthStep::SaveCookies(self.cookie_path.clone())
            },
            Err(e) => {
                self.stage = AuthStage::Finished;
                AuthStep::Done(Err(e))
            },
        }
    }

    /// Takes in how storing the cookies went; that ends the sign-in.
    pub fn cookies_saved(&mut self, saved: Result<(), CrawlerError>) -> (res: AuthStep)
        requires
            old(self).stage() == AuthStage::SavingCookies,
        ensures
            step_allowed(old(self).stage(), res),
            final(self).stage() == stage_after(res),
            final(self).username_view() == old(self).username_view(),
            final(self).password_view() == old(self).password_view(),
            final(self).cookie_path_view() == old(self).cookie_path_view(),
            res == AuthStep::Done(saved),
    {
        self.stage = AuthStage::Finished;
        AuthStep::Done(saved)
    }
}

} // verus!
