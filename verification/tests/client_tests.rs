use omicron_crawler::errors::CrawlerError;
use omicron_crawler::exchange::Exchange;
use omicron_crawler::linkedin::api::client::{
    authenticate_url, challenge_outcome, challenge_url, cookie_path, cookie_pieces, login_form, login_outcome,
    profile_endpoint, session_id_from_cookie, session_id_from_cookie_text, session_id_outcome, signup_outcome, signup_url, skills_endpoint,
    skills_outcome, tracking_url, AuthStep, Authentication,
};
use omicron_crawler::linkedin::api::json::response::{Signup, SignupChallenge, SignupSuccess};
use omicron_crawler::linkedin::api::json::{AuthenticateResponse, FetchCookiesResponse, SkillView};

fn session_error(e: CrawlerError) -> String {
    match e {
        CrawlerError::SessionError(m) => m,
        _ => panic!("expected a session error"),
    }
}

fn linkedin_error(e: CrawlerError) -> String {
    match e {
        CrawlerError::LinkedinError(m) => m,
        _ => panic!("expected a linkedin error"),
    }
}

fn pairs(v: &[(String, String)]) -> Vec<(&str, &str)> {
    v.iter().map(|(a, b)| (a.as_str(), b.as_str())).collect()
}

#[test]
fn addresses_of_the_api() {
    assert_eq!(cookie_path("jan@example.com"), "cookies/jan@example.com");
    assert_eq!(authenticate_url(), "https://www.linkedin.com/uas/authenticate");
    assert_eq!(
        profile_endpoint("jan-novak"),
        "https://www.linkedin.com/voyager/api/identity/profiles/jan-novak/profileView"
    );
    assert_eq!(
        skills_endpoint("jan-novak"),
        "https://www.linkedin.com/voyager/api/identity/profiles/jan-novak/skills?count=100&start=0"
    );
    assert_eq!(tracking_url(), "https://www.linkedin.com/mob/tracking");
    assert_eq!(signup_url(), "https://www.linkedin.com/signup/api/createAccount?trk=native_voyager_join");
    let c = SignupChallenge { submission_id: "s".to_string(), challenge_url: "/checkpoint/x".to_string() };
    assert_eq!(challenge_url(&c), "https://www.linkedin.com/checkpoint/x");
}

#[test]
fn session_id_drops_the_cookie_quotes() {
    assert_eq!(session_id_from_cookie("\"ajax:123\""), "ajax:123");
    assert_eq!(session_id_from_cookie("ajax:1"), "ajax:1");
}

#[test]
fn stored_cookies_are_split_at_semicolons() {
    assert_eq!(cookie_pieces("a=1;b=2; c=3"), vec!["a=1".to_string(), "b=2".to_string(), " c=3".to_string()]);
    assert_eq!(cookie_pieces(""), vec!["".to_string()]);
}

#[test]
fn login_form_quotes_the_session_id() {
    let form = login_form("jan", "secret", "ajax:1");
    assert_eq!(
        pairs(&form),
        vec![("session_key", "jan"), ("session_password", "secret"), ("JSESSIONID", "\"ajax:1\"")]
    );
}

#[test]
fn session_id_outcome_covers_each_answer() {
    let ok = session_id_outcome(Exchange::Answered((
        FetchCookiesResponse { status: "success".to_string() },
        Some("\"ajax:42\"".to_string()),
    )));
    assert_eq!(ok.ok().unwrap(), "ajax:42");
    let failed = session_id_outcome(Exchange::Answered((FetchCookiesResponse { status: "fail".to_string() }, None)));
    assert_eq!(session_error(failed.err().unwrap()), "Failed to obtain session_id fail");
    let rejected = session_id_outcome(Exchange::Rejected { status: "403 Forbidden".to_string(), body: Ok("no".to_string()) });
    assert_eq!(session_error(rejected.err().unwrap()), "Failed to obtain linkedin set-cookies 403 Forbidden no");
    let unparsed = session_id_outcome(Exchange::Unparsed("bad json".to_string()));
    assert_eq!(session_error(unparsed.err().unwrap()), "Failed to parse auth response bad json");
}

#[test]
fn login_passes_only_with_pass() {
    let ok = login_outcome(Exchange::Answered(AuthenticateResponse {
        login_result: "PASS".to_string(),
        challenge_url: "".to_string(),
    }));
    assert!(ok.is_ok());
    let challenged = login_outcome(Exchange::Answered(AuthenticateResponse {
        login_result: "CHALLENGE".to_string(),
        challenge_url: "https://c".to_string(),
    }));
    assert_eq!(session_error(challenged.err().unwrap()), "Failed to authenticate CHALLENGE https://c");
    let not_sent = login_outcome(Exchange::NotSent("timeout".to_string()));
    assert_eq!(session_error(not_sent.err().unwrap()), "Failed authenticate request timeout");
    let rejected = login_outcome(Exchange::Rejected { status: "401 Unauthorized".to_string(), body: Ok("x".to_string()) });
    assert_eq!(session_error(rejected.err().unwrap()), "Failed to authenticate 401 Unauthorized x");
    let unparsed = login_outcome(Exchange::Unparsed("eof".to_string()));
    assert_eq!(session_error(unparsed.err().unwrap()), "Failed to parse authenticate response eof");
}

#[test]
fn signup_and_challenge_outcomes() {
    let success = Signup::Success(SignupSuccess {
        submission_id: "1".to_string(),
        redirect_url: "r".to_string(),
        member_urn: "m".to_string(),
    });
    match signup_outcome(Exchange::Answered(success)) {
        Ok(Signup::Success(s)) => assert_eq!(s.member_urn, "m"),
        _ => panic!("expected the success"),
    }
    let m = linkedin_error(signup_outcome(Exchange::NotSent("dns".to_string())).err().unwrap());
    assert_eq!(m, "Failed to send signup request dns");
    let m = linkedin_error(signup_outcome(Exchange::Unparsed("eof".to_string())).err().unwrap());
    assert_eq!(m, "Failed to parse signup response eof");
    let m = linkedin_error(
        signup_outcome(Exchange::Rejected { status: "400 Bad Request".to_string(), body: Ok("bad".to_string()) })
            .err()
            .unwrap(),
    );
    assert_eq!(m, "Failed to signup 400 Bad Request bad");
    let m = linkedin_error(
        signup_outcome(Exchange::Rejected { status: "500".to_string(), body: Err("reset".to_string()) }).err().unwrap(),
    );
    assert_eq!(m, "Failed to get signup response reset");

    assert_eq!(challenge_outcome(Exchange::Answered("<html>".to_string())).ok().unwrap(), "<html>");
    let m = linkedin_error(challenge_outcome(Exchange::NotSent("dns".to_string())).err().unwrap());
    assert_eq!(m, "Failed to send challenge request dns");
    let m = linkedin_error(challenge_outcome(Exchange::Unparsed("cut".to_string())).err().unwrap());
    assert_eq!(m, "Failed to get challenge text cut");
    let m = linkedin_error(
        challenge_outcome(Exchange::Rejected { status: "404 Not Found".to_string(), body: Ok("gone".to_string()) })
            .err()
            .unwrap(),
    );
    assert_eq!(m, "Failed to challenge 404 Not Found gone");
    let m = linkedin_error(
        challenge_outcome(Exchange::Rejected { status: "404".to_string(), body: Err("cut".to_string()) }).err().unwrap(),
    );
    assert_eq!(m, "Failed to get challenge response cut");
}

#[test]
fn skills_outcome_keeps_the_skills() {
    let ok = skills_outcome(Exchange::Answered(SkillView { elements: vec![] }));
    assert_eq!(ok.ok().unwrap().elements.len(), 0);
    let m = session_error(skills_outcome(Exchange::NotSent("dns".to_string())).err().unwrap());
    assert_eq!(m, "Failed to get skills dns");
    let m = session_error(skills_outcome(Exchange::Unparsed("eof".to_string())).err().unwrap());
    assert_eq!(m, "Failed to parse skills eof");
}

#[test]
fn stored_session_ends_sign_in_without_a_request() {
    let (mut auth, step) = Authentication::begin("jan", "pw", false);
    match step {
        AuthStep::LoadCookies(path) => assert_eq!(path, "cookies/jan"),
        _ => panic!("expected the cookies to be read first"),
    }
    match auth.cookies_loaded(Some(Ok("ajax:1".to_string()))) {
        AuthStep::Done(Ok(())) => {}
        _ => panic!("expected the sign-in to be over"),
    }
}

#[test]
fn full_sign_in_posts_the_form_and_saves_cookies() {
    let (mut auth, step) = Authentication::begin("jan", "pw", false);
    assert!(matches!(step, AuthStep::LoadCookies(_)));
    assert!(matches!(auth.cookies_loaded(None), AuthStep::ObtainSessionId));
    let step = auth.session_id_received(Exchange::Answered((
        FetchCookiesResponse { status: "success".to_string() },
        Some("\"ajax:7\"".to_string()),
    )));
    match step {
        AuthStep::Login { headers, form } => {
            let last = headers.last().unwrap();
            assert_eq!((last.0.as_str(), last.1.as_str()), ("csrf-token", "ajax:7"));
            assert_eq!(headers.len(), 6);
            assert_eq!(form[2].1, "\"ajax:7\"");
            assert_eq!(form[0].1, "jan");
        }
        _ => panic!("expected the login"),
    }
    let step = auth.login_answered(Exchange::Answered(AuthenticateResponse {
        login_result: "PASS".to_string(),
        challenge_url: "".to_string(),
    }));
    match step {
        AuthStep::SaveCookies(path) => assert_eq!(path, "cookies/jan"),
        _ => panic!("expected the cookies to be saved"),
    }
    assert!(matches!(auth.cookies_saved(Ok(())), AuthStep::Done(Ok(()))));
}

#[test]
fn refused_login_ends_without_saving_cookies() {
    let (mut auth, step) = Authentication::begin("jan", "pw", true);
    assert!(matches!(step, AuthStep::ObtainSessionId));
    let step = auth.session_id_received(Exchange::Answered((
        FetchCookiesResponse { status: "success".to_string() },
        Some("ajax:7".to_string()),
    )));
    assert!(matches!(step, AuthStep::Login { .. }));
    match auth.login_answered(Exchange::Answered(AuthenticateResponse {
        login_result: "BAD_PASSWORD".to_string(),
        challenge_url: "c".to_string(),
    })) {
        AuthStep::Done(Err(e)) => assert_eq!(session_error(e), "Failed to authenticate BAD_PASSWORD c"),
        _ => panic!("expected the sign-in to fail"),
    }
}

#[test]
fn failed_session_request_ends_sign_in() {
    let (mut auth, _) = Authentication::begin("jan", "pw", true);
    match auth.session_id_received(Exchange::Unparsed("eof".to_string())) {
        AuthStep::Done(Err(e)) => assert_eq!(session_error(e), "Failed to parse auth response eof"),
        _ => panic!("expected the sign-in to fail"),
    }
}

#[test]
fn stored_cookies_give_the_session_id_without_quotes() {
    let mut store = reqwest_cookie_store::CookieStore::default();
    let id = session_id_from_cookie_text(&mut store, "JSESSIONID=\"ajax:123\"; li_at=abc").ok().unwrap();
    assert_eq!(id, "ajax:123");
    assert_eq!(store.get("www.linkedin.com", "/", "li_at").map(|c| c.value().to_string()), Some("abc".to_string()));
}

#[test]
fn stored_cookies_without_a_session_cookie_are_an_error() {
    let mut store = reqwest_cookie_store::CookieStore::default();
    let e = session_id_from_cookie_text(&mut store, "li_at=abc; lang=v=2&lang=en-us").err().unwrap();
    assert_eq!(session_error(e), "Failed to find JSESSIONID");
}

#[test]
fn an_empty_cookie_text_finds_no_session() {
    let mut store = reqwest_cookie_store::CookieStore::default();
    let e = session_id_from_cookie_text(&mut store, "").err().unwrap();
    assert_eq!(session_error(e), "Failed to find JSESSIONID");
}
