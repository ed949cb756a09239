use jicloud_logic::pages::{cors_policy, route_page, CorsOrigins, DirectPage, HttpMethod, PageRoute, SpaPage};
use jicloud_logic::signin::{signin_google_start, signin_google_step, SigninAction, SigninEvent, SigninStatus};

fn segs(parts: &[&str]) -> Vec<String> {
    parts.iter().map(|s| s.to_string()).collect()
}

#[test]
fn routes_in_order() {
    assert_eq!(route_page(&segs(&[]), false, true), PageRoute::Direct(DirectPage::Home));
    assert_eq!(route_page(&segs(&["no-auth"]), false, true), PageRoute::Direct(DirectPage::NoAuth));
    assert_eq!(route_page(&segs(&["user", "profile"]), true, false), PageRoute::Spa(SpaPage::User));
    assert_eq!(route_page(&segs(&["user", "settings", "x"]), false, true), PageRoute::Spa(SpaPage::User));
    assert_eq!(route_page(&segs(&["css", "main.css"]), false, true), PageRoute::PublicFile);
    assert_eq!(route_page(&segs(&["epoch"]), false, false), PageRoute::Epoch);
    assert_eq!(route_page(&segs(&["epoch"]), false, true), PageRoute::PublicFile);
    assert_eq!(route_page(&segs(&["no-auth", "x"]), false, false), PageRoute::Rejected);
    assert_eq!(route_page(&segs(&["missing"]), true, false), PageRoute::Rejected);
}

#[test]
fn unauthorized_profile_still_gets_the_user_app() {
    for auth in [true, false] {
        assert_eq!(route_page(&segs(&["user", "profile"]), auth, false), PageRoute::Spa(SpaPage::User));
    }
}

#[test]
fn cors_policy_on_local_and_deployed_setups() {
    let origins = vec!["https://jicloud.org".to_string()];
    let local = cors_policy(true, origins.clone());
    assert_eq!(local.methods, vec![HttpMethod::Get, HttpMethod::Post, HttpMethod::Delete, HttpMethod::Options]);
    assert_eq!(local.headers, vec!["Authorization".to_string(), "Content-Type".to_string(), "X-CSRF".to_string()]);
    assert!(local.allow_credentials);
    assert!(matches!(local.origins, CorsOrigins::Any));
    let deployed = cors_policy(false, origins.clone());
    match deployed.origins {
        CorsOrigins::List(list) => assert_eq!(list, origins),
        CorsOrigins::Any => panic!("deployed setups list their origins"),
    }
}

#[test]
fn signin_google_flow() {
    assert!(matches!(signin_google_start(), SigninAction::RequestGoogleToken));
    match signin_google_step(SigninEvent::GoogleToken(Some("tok".to_string()))) {
        SigninAction::FetchSignin(t) => assert_eq!(t, "tok"),
        other => panic!("unexpected {:?}", other),
    }
    assert!(matches!(signin_google_step(SigninEvent::GoogleToken(None)), SigninAction::SetStatus(None)));
    match signin_google_step(SigninEvent::ServerSignin(Some("csrf".to_string()))) {
        SigninAction::Succeed(c) => assert_eq!(c, "csrf"),
        other => panic!("unexpected {:?}", other),
    }
    assert!(matches!(
        signin_google_step(SigninEvent::ServerSignin(None)),
        SigninAction::SetStatus(Some(SigninStatus::NoSuchUser))
    ));
}
