use oscbot::http::{status_is_success, Reply};
use oscbot::mirror::{
    after_reply, first_provider, provider_url, CascadeOutcome, CascadeStep, Provider,
    REDIRECT_LIMIT,
};

fn http(status: u16, body: &[u8]) -> Reply {
    Reply::Response { status, body: body.to_vec() }
}

fn run(replies: Vec<Reply>) -> (CascadeOutcome, Vec<Provider>) {
    let mut asked = Vec::new();
    let mut provider = first_provider();
    let mut replies = replies.into_iter();
    loop {
        asked.push(provider);
        let reply = replies.next().expect("a request was made that no reply was scripted for");
        match after_reply(provider, reply) {
            CascadeStep::Try(next) => provider = next,
            CascadeStep::Done(outcome) => return (outcome, asked),
        }
    }
}

#[test]
fn mirrors_are_asked_in_order() {
    assert_eq!(first_provider(), Provider::Nerinyan);
    let (_, asked) = run(vec![http(404, b""), http(500, b""), http(404, b"")]);
    assert_eq!(asked, vec![Provider::Nerinyan, Provider::Catboy, Provider::Sayobot]);
}

#[test]
fn first_mirror_hit_asks_nobody_else() {
    let (outcome, asked) = run(vec![http(200, b"A")]);
    assert_eq!(outcome, CascadeOutcome::Found { provider: Provider::Nerinyan, bytes: b"A".to_vec() });
    assert_eq!(asked.len(), 1);
}

#[test]
fn second_mirror_hit_skips_the_third() {
    let (outcome, asked) = run(vec![http(404, b"not here"), http(200, b"X")]);
    assert_eq!(outcome, CascadeOutcome::Found { provider: Provider::Catboy, bytes: b"X".to_vec() });
    assert_eq!(asked, vec![Provider::Nerinyan, Provider::Catboy]);
}

#[test]
fn third_mirror_hit() {
    let (outcome, asked) = run(vec![http(404, b""), http(503, b""), http(204, b"Z")]);
    assert_eq!(outcome, CascadeOutcome::Found { provider: Provider::Sayobot, bytes: b"Z".to_vec() });
    assert_eq!(asked.len(), 3);
}

#[test]
fn all_mirrors_missing_is_unavailable() {
    let (outcome, asked) = run(vec![http(404, b""), http(404, b""), http(404, b"")]);
    assert_eq!(outcome, CascadeOutcome::Unavailable);
    assert_eq!(asked.len(), 3);
    let (outcome, _) = run(vec![http(500, b""), http(301, b""), http(100, b"")]);
    assert_eq!(outcome, CascadeOutcome::Unavailable);
}

#[test]
fn transport_failure_is_an_error_of_its_own() {
    let (outcome, asked) =
        run(vec![http(404, b""), Reply::Transport { detail: "dns error".to_string() }]);
    assert_eq!(
        outcome,
        CascadeOutcome::TransportError { provider: Provider::Catboy, detail: "dns error".to_string() }
    );
    assert_eq!(asked.len(), 2);
}

#[test]
fn success_is_the_two_hundreds() {
    assert!(!status_is_success(199));
    assert!(status_is_success(200));
    assert!(status_is_success(204));
    assert!(status_is_success(299));
    assert!(!status_is_success(300));
    assert!(!status_is_success(404));
    assert!(!status_is_success(0));
    assert!(!status_is_success(u16::MAX));
}

#[test]
fn mirror_addresses() {
    assert_eq!(provider_url(Provider::Nerinyan, 12345), "https://api.nerinyan.moe/d/12345");
    assert_eq!(provider_url(Provider::Catboy, 1), "https://catboy.best/d/1");
    assert_eq!(
        provider_url(Provider::Sayobot, u32::MAX),
        "https://txy1.sayobot.cn/beatmaps/download/full/4294967295?server=auto"
    );
    assert_eq!(REDIRECT_LIMIT, 10);
}
