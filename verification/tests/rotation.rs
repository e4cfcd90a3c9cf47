use turtle::auth::AuthContext;
use turtle::auth::Keypair;
use turtle::auth::Token;
use turtle::claims::AdditionalData;
use turtle::claims::Claims;
use turtle::error::Error;
use turtle::error::ErrorKind;
use turtle::message::Message;
use turtle::message::Method;
use turtle::message::Response;
use turtle::rotation::answer;
use turtle::rotation::answered;
use turtle::rotation::arrival;
use turtle::rotation::arrived;
use turtle::rotation::begin;
use turtle::rotation::body_of;
use turtle::rotation::compare;
use turtle::rotation::conclude;
use turtle::rotation::mint;
use turtle::rotation::proceed;
use turtle::rotation::reject;
use turtle::rotation::sign_in;
use turtle::rotation::same_text;
use turtle::rotation::step;
use turtle::rotation::Action;
use turtle::rotation::Event;
use turtle::rotation::Fetched;
use turtle::rotation::Outcome;
use turtle::rotation::Rotation;
use turtle::rotation::Stored;

/// The numbers of an RSA key that is used by these tests alone: two primes
/// and the private exponent, in hex digits.
const ACCESS_P: &str = "ef98469f546b2aca38a64c75c60c956ca285fdba45a6455ce8c22ef89139cb3da458268ae6af6be6ae5a02631486cf42244cf09a32c7cc69885dbfc699b40db61571bacc3d03a328d8d9b333db129891de2b649e185c8100a2b8bb8a2896e0b66de73e7a7477067da8a27295a8e08b443152600c7f059d3c2b979698117e75b1";
const ACCESS_Q: &str = "d29dff872d96b12cc2437be1da2b98b189d32ca8b080d7dc0015025cbc92b65d97e09134ccf9d9aeb44c519e1b5af8aa00790dd4692101f488d4e1dc04b43b7ca9cdd885347f62fd64573d9a83bbb98e93b84e0b0a480677168375da8a60536c8f9345795c37174abc39f3a0bc9fe6520561c774e7bb88e0155790035efd8f69";
const ACCESS_D: &str = "2968e78179d441214ca1a718f0714a33d4d1c169c9b22912ece13812a2b7e2a35a37f28d2a7bf52b2ffcaf1c3309be54aa14ac1404c861ccf93537768a8fa607ff51a85a9ccc84b04de952e1ca4fcad301f158627febe1014e422e3c034d667f0ca914d7b92387898f18613a2ca00145819d47c404c30a1fca10a59b2e224cbceb5ff4344711d745593dfe8696443b2182bc82e6efa5f650629fe5db464073a60ed4dbfb6d59e2721b65f4c808d77a1922a44fcb275633cc39bd21e3acb9b4d179c557732ee9fb9b3ce97cd7bbe172441d9c9e20461ff19856c260d09dd26bcb3f143c6d8a9136ec4d114d9057d59b6172379273d0833a97d4b8b04f297da91";

/// The numbers of a second such key.
const REFRESH_P: &str = "da2e482fc2e2274aa9eed74b4c29e5334657999560228f32bcf276407a883ab5f7ef21c0074498bb1fd34b503fecdd04bf46b8b87830761e57a1dedb8713f6f69dbb0933cc1323e3279d8faa02730e4aae74096b20f0cbfb2ebb824779837e88054eb11137603eb93a4b98ebd4e0c9b25d8c42db6ce27fa6c6bf5ff0765625b7";
const REFRESH_Q: &str = "bb9e0429f56017da4881f793966f896cfc9605d87b52c50ad15fb8e7539a7b6b2defbafbfc606f84c18832fb783db75a8899136c13e968908d5dbbb38546026f2a2e98024b1e0830b72201a89081f50adf63eacb336ec9c3247ea97a51579c92289a7a917dd96c8e45362e81044dd760e58c9fd87b5f64dd884f92250066e751";
const REFRESH_D: &str = "1217855f08a2cd92a9192507da1b94492d9c007fdf1aac6790bda86fb05655f6b5edc3fbfc21054359b250c44cea4a2715527c2eb1eb708805b59f25edd907f257d49edde4013eccf46ef88573250bd66330117a744943cbd17c31830c7b9329f025686712cda7d3340ac41050f47ef8e0fdda34089810a83b716bb8eeba1b8356232ef19e9f39593611fe298a8cc4becbdd396cca34cfcbcd95e3ddfa0088cbc8ed599cb157921efe00ea84c2bdb3f687d195278f2159d63e65fdb020f7564d4ef7db929fd9b137da860659c4e8d26fd32c06c274e169f1a205479bda182e9cd8e65c080c96b623b8699d8d3834968dcae389128063628907b4e54b55c71bf1";

fn pair(p: &str, q: &str, d: &str) -> Keypair {
    let p = rsa::BigUint::parse_bytes(p.as_bytes(), 16).unwrap();
    let q = rsa::BigUint::parse_bytes(q.as_bytes(), 16).unwrap();
    let d = rsa::BigUint::parse_bytes(d.as_bytes(), 16).unwrap();
    let n = &p * &q;
    let e = rsa::BigUint::from(65537u32);
    let key = rsa::RsaPrivateKey::from_components(n, e, d, vec![p, q]);
    let private = rsa::pkcs8::ToPrivateKey::to_pkcs8_pem(&key).unwrap().to_string();
    let public = rsa::pkcs8::ToPublicKey::to_public_key_pem(&rsa::RsaPublicKey::from(&key)).unwrap();
    Keypair::from_pem(private, public)
}

fn access_pair() -> Keypair {
    pair(ACCESS_P, ACCESS_Q, ACCESS_D)
}

fn refresh_pair() -> Keypair {
    pair(REFRESH_P, REFRESH_Q, REFRESH_D)
}

fn context() -> AuthContext {
    AuthContext::with_keypairs(access_pair(), refresh_pair())
}

const CLEARED: &str = "refresh=; HttpOnly; SameSite=Strict; Secure; Path=/jwt/refresh; Max-Age=0";

fn claims(sub: &str, jti: Option<&str>) -> Claims {
    Claims {
        sub: sub.to_string(),
        exp: 0,
        ajd: AdditionalData { email: format!("{}@example.org", sub) },
        jti: jti.map(|s| s.to_string()),
    }
}

fn request(token: Option<&str>) -> Message {
    let headers = match token {
        Some(t) => vec![format!("theme=dark; refresh={}", t)],
        None => vec!["theme=dark".to_string()],
    };
    Message::new(Method::Post, "/jwt/refresh".to_string(), None, &headers)
}

/// A store that counts how often it is read and written.
struct Store {
    record: Option<Claims>,
    available: bool,
    reads: usize,
    writes: usize,
}

impl Store {
    fn holding(record: Option<Claims>) -> Store {
        Store { record, available: true, reads: 0, writes: 0 }
    }

    fn token_id(&self) -> Option<String> {
        self.record.as_ref().and_then(|r| r.jti.clone())
    }
}

/// Drives the machine as a server would, against the given store.
fn serve(context: &AuthContext, store: &mut Store, mut message: Message, now: usize, token_id: &str) -> (Outcome, Response) {
    let mut state = Rotation::Start;
    let mut event = Event::Request { now };
    let mut steps = 0;
    loop {
        steps += 1;
        assert!(steps <= 3);
        let (next, action) = step(context, state, event, &mut message);
        state = next;
        match action {
            Action::Respond => break,
            Action::Fetch(subject) => {
                store.reads += 1;
                let fetched = if !store.available {
                    Fetched::Unavailable
                } else {
                    match &store.record {
                        Some(record) if record.sub == subject => Fetched::Found(record.copy()),
                        _ => Fetched::Missing,
                    }
                };
                event = Event::Record { fetched, now, token_id: token_id.to_string() };
            }
            Action::Store(subject, record) => {
                store.writes += 1;
                assert_eq!(subject, record.sub);
                if store.available {
                    store.record = Some(record);
                    event = Event::Written(Stored::Written);
                } else {
                    event = Event::Written(Stored::Unavailable);
                }
            }
        }
    }
    match state {
        Rotation::Done(outcome) => (outcome, message.done()),
        _ => panic!("the machine told the server to respond before it was done"),
    }
}

fn refresh_token_of(response: &Response) -> String {
    assert_eq!(response.set_cookie.len(), 1);
    let line = &response.set_cookie[0];
    let rest = line.strip_prefix("refresh=").unwrap();
    let token = rest.strip_suffix("; HttpOnly; SameSite=Strict; Secure; Path=/jwt/refresh").unwrap();
    token.to_string()
}

fn access_token_of(response: &Response) -> String {
    let body: serde_json::Value = serde_json::from_str(&response.body).unwrap();
    let members = body.as_object().unwrap();
    assert_eq!(members.len(), 1);
    members.get("access_token").unwrap().as_str().unwrap().to_string()
}

#[test]
fn refresh_token_rotates_once() {
    let context = context();
    let t1 = context.refresh.issue(claims("u1", Some("A")), 100).unwrap();
    let mut store = Store::holding(Some(claims("u1", Some("A"))));

    let (outcome, response) = serve(&context, &mut store, request(Some(&t1)), 200, "B");
    assert_eq!(outcome, Outcome::Rotated);
    assert_eq!(response.status, 200);
    assert_eq!(store.token_id(), Some("B".to_string()));
    assert_eq!(store.record.as_ref().unwrap().exp, 200 + 604_800);
    assert_eq!((store.reads, store.writes), (1, 1));
    let t2 = refresh_token_of(&response);
    let second = context.refresh.verify_at(&t2, 201).unwrap();
    assert_eq!(second.sub, "u1");
    assert_eq!(second.jti, Some("B".to_string()));
    assert_eq!(second.exp, 200 + 604_800);
    assert_eq!(second.ajd.email, "u1@example.org");
    let access = context.access.verify_at(&access_token_of(&response), 201).unwrap();
    assert_eq!(access.sub, "u1");
    assert_eq!(access.jti, None);
    assert_eq!(access.exp, 200 + 900);
    assert_eq!(access.ajd.email, "u1@example.org");

    let (outcome, response) = serve(&context, &mut store, request(Some(&t1)), 300, "X");
    assert_eq!(outcome, Outcome::IdMismatch);
    assert_eq!(outcome.failure(), Some(ErrorKind::RevocationMismatch));
    assert_eq!(response.status, 401);
    assert_eq!(response.body, "");
    assert_eq!(response.set_cookie, vec![CLEARED.to_string()]);
    assert_eq!(store.token_id(), Some("B".to_string()));
    assert_eq!((store.reads, store.writes), (2, 1));

    let (outcome, response) = serve(&context, &mut store, request(Some(&t2)), 400, "C");
    assert_eq!(outcome, Outcome::Rotated);
    assert_eq!(response.status, 200);
    assert_eq!(store.token_id(), Some("C".to_string()));
    assert_eq!((store.reads, store.writes), (3, 2));
}

#[test]
fn request_without_cookie_is_rejected_without_a_read() {
    let context = context();
    let mut store = Store::holding(Some(claims("u1", Some("A"))));
    let (outcome, response) = serve(&context, &mut store, request(None), 200, "B");
    assert_eq!(outcome, Outcome::NoCookie);
    assert_eq!(response.status, 401);
    assert_eq!(response.body, "");
    assert_eq!(response.set_cookie, vec![CLEARED.to_string()]);
    assert_eq!((store.reads, store.writes), (0, 0));
    assert_eq!(store.token_id(), Some("A".to_string()));
}

#[test]
fn token_that_fails_is_rejected_without_a_read() {
    let context = context();
    let token = context.refresh.issue(claims("u1", Some("A")), 100).unwrap();
    let by_access = context.access.issue(claims("u1", Some("A")), 100).unwrap();
    let mut store = Store::holding(Some(claims("u1", Some("A"))));
    let expired = serve(&context, &mut store, request(Some(&token)), 100 + 604_800, "B");
    let garbled = serve(&context, &mut store, request(Some("x.y.z")), 200, "B");
    let wrong_key = serve(&context, &mut store, request(Some(&by_access)), 200, "B");
    let empty = serve(&context, &mut store, request(Some("")), 200, "B");
    for (outcome, response) in [expired, garbled, wrong_key, empty] {
        assert_eq!(outcome, Outcome::VerifyFailed);
        assert_eq!(outcome.failure(), None);
        assert_eq!(response.status, 401);
        assert_eq!(response.body, "");
        assert_eq!(response.set_cookie, vec![CLEARED.to_string()]);
    }
    assert_eq!((store.reads, store.writes), (0, 0));
}

#[test]
fn store_that_does_not_answer_the_read_fails_the_request() {
    let context = context();
    let token = context.refresh.issue(claims("u1", Some("A")), 100).unwrap();
    let mut store = Store::holding(Some(claims("u1", Some("A"))));
    store.available = false;
    let (outcome, response) = serve(&context, &mut store, request(Some(&token)), 200, "B");
    assert_eq!(outcome, Outcome::StoreUnavailable);
    assert_eq!(outcome.failure(), Some(ErrorKind::StoreUnavailable));
    assert_eq!(response.status, 401);
    assert_eq!(response.body, "");
    assert_eq!(response.set_cookie, vec![CLEARED.to_string()]);
    assert_eq!((store.reads, store.writes), (1, 0));
    assert_eq!(store.token_id(), Some("A".to_string()));
}

#[test]
fn store_that_does_not_answer_the_write_fails_the_request() {
    let context = context();
    let token = context.refresh.issue(claims("u1", Some("A")), 100).unwrap();
    let mut message = request(Some(&token));
    let (state, action) = step(&context, Rotation::Start, Event::Request { now: 200 }, &mut message);
    assert!(matches!(action, Action::Fetch(ref subject) if subject == "u1"));
    let found = Event::Record { fetched: Fetched::Found(claims("u1", Some("A"))), now: 200, token_id: "B".to_string() };
    let (state, action) = step(&context, state, found, &mut message);
    assert!(matches!(action, Action::Store(ref subject, ref record) if subject == "u1" && record.jti == Some("B".to_string())));
    assert_eq!(message.status, 200);
    assert_eq!(message.cookies.delta().count(), 0);
    let (state, action) = step(&context, state, Event::Written(Stored::Unavailable), &mut message);
    assert!(matches!(action, Action::Respond));
    assert!(matches!(state, Rotation::Done(Outcome::StoreUnavailable)));
    let response = message.done();
    assert_eq!(response.status, 401);
    assert_eq!(response.body, "");
    assert_eq!(response.set_cookie, vec![CLEARED.to_string()]);
}

#[test]
fn record_that_is_missing_or_differs_is_a_mismatch() {
    let context = context();
    let token = context.refresh.issue(claims("u1", Some("A")), 100).unwrap();
    let bare = context.refresh.issue(claims("u1", None), 100).unwrap();
    let cases = vec![
        (token.clone(), None),
        (token.clone(), Some(claims("u1", None))),
        (token.clone(), Some(claims("u1", Some("a")))),
        (token.clone(), Some(claims("u1", Some("")))),
        (bare.clone(), Some(claims("u1", None))),
        (bare.clone(), Some(claims("u1", Some("A")))),
        (bare, None),
    ];
    for (presented, record) in cases {
        let mut store = Store::holding(record);
        let (outcome, response) = serve(&context, &mut store, request(Some(&presented)), 200, "B");
        assert_eq!(outcome, Outcome::IdMismatch);
        assert_eq!(response.status, 401);
        assert_eq!(response.set_cookie, vec![CLEARED.to_string()]);
        assert_eq!((store.reads, store.writes), (1, 0));
    }
}

#[test]
fn other_methods_are_not_allowed() {
    let context = context();
    let token = context.refresh.issue(claims("u1", Some("A")), 100).unwrap();
    for method in [Method::Get, Method::Other] {
        let mut message =
            Message::new(method, "/jwt/refresh".to_string(), None, &vec![format!("refresh={}", token)]);
        message.body = "left over".to_string();
        let (state, action) = begin(&context, 200, &mut message);
        assert!(matches!(state, Rotation::Done(Outcome::MethodNotAllowed)));
        assert!(matches!(action, Action::Respond));
        assert_eq!(Outcome::MethodNotAllowed.status(), 405);
        let response = message.done();
        assert_eq!(response.status, 405);
        assert_eq!(response.body, "");
        assert!(response.set_cookie.is_empty());
    }
}

#[test]
fn report_out_of_turn_ends_in_a_rejection() {
    let context = context();
    let token = context.refresh.issue(claims("u1", Some("A")), 100).unwrap();

    let mut message = request(Some(&token));
    let (state, action) = step(&context, Rotation::Start, Event::Written(Stored::Written), &mut message);
    assert!(matches!(state, Rotation::Done(Outcome::OutOfTurn)));
    assert!(matches!(action, Action::Respond));
    assert_eq!(message.done().set_cookie, vec![CLEARED.to_string()]);

    let mut message = request(Some(&token));
    let (state, _) = step(&context, Rotation::Start, Event::Request { now: 200 }, &mut message);
    assert!(matches!(state, Rotation::Verified(_)));
    let (state, action) = step(&context, state, Event::Written(Stored::Written), &mut message);
    assert!(matches!(state, Rotation::Done(Outcome::OutOfTurn)));
    assert!(matches!(action, Action::Respond));
    let response = message.done();
    assert_eq!(response.status, 401);
    assert_eq!(response.set_cookie, vec![CLEARED.to_string()]);

    let mut message = request(Some(&token));
    let minted = mint(&context, &claims("u1", Some("A")), 200, "B").unwrap();
    let (state, _) = step(&context, Rotation::Minted(minted), Event::Request { now: 200 }, &mut message);
    assert!(matches!(state, Rotation::Done(Outcome::OutOfTurn)));
    assert_eq!(message.done().status, 401);
}

#[test]
fn decided_response_stays_as_it_is() {
    let context = context();
    for outcome in [Outcome::Rotated, Outcome::NoCookie, Outcome::IdMismatch, Outcome::MethodNotAllowed] {
        let mut message = request(None);
        message.status = 299;
        message.body = "kept".to_string();
        let (state, action) = step(&context, Rotation::Done(outcome), Event::Request { now: 1 }, &mut message);
        assert!(matches!(state, Rotation::Done(o) if o == outcome));
        assert!(matches!(action, Action::Respond));
        let (state, _) = step(&context, state, Event::Written(Stored::Unavailable), &mut message);
        assert!(matches!(state, Rotation::Done(o) if o == outcome));
        let response = message.done();
        assert_eq!(response.status, 299);
        assert_eq!(response.body, "kept");
        assert!(response.set_cookie.is_empty());
    }
}

#[test]
fn minted_tokens_carry_the_new_identifier_and_expiry() {
    let context = context();
    let mut given = claims("u1", Some("A"));
    given.exp = 77;
    let minted = mint(&context, &given, 1_000, "B").unwrap();
    assert_eq!(minted.record.sub, "u1");
    assert_eq!(minted.record.jti, Some("B".to_string()));
    assert_eq!(minted.record.exp, 1_000 + 604_800);
    assert_eq!(minted.record.ajd.email, "u1@example.org");
    let refresh = context.refresh.verify_at(&minted.refresh, 1_001).unwrap();
    assert_eq!(refresh.jti, Some("B".to_string()));
    assert_eq!(refresh.exp, 1_000 + 604_800);
    let access = context.access.verify_at(&minted.access, 1_001).unwrap();
    assert_eq!(access.jti, None);
    assert_eq!(access.exp, 1_000 + 900);
    assert!(mint(&context, &given, usize::MAX - 10, "B").is_none());
}

#[test]
fn the_three_steps_do_what_the_machine_does() {
    let context = context();
    let token = context.refresh.issue(claims("u1", Some("A")), 100).unwrap();
    let mut message = request(Some(&token));
    let (state, action) = begin(&context, 200, &mut message);
    let verified = match state {
        Rotation::Verified(c) => c,
        _ => panic!("the token did not verify"),
    };
    assert!(matches!(action, Action::Fetch(ref s) if s == "u1"));
    assert_eq!(verified.jti, Some("A".to_string()));
    let (state, action) =
        compare(&context, verified, Fetched::Found(claims("u1", Some("A"))), 210, "B".to_string(), &mut message);
    let minted = match state {
        Rotation::Minted(m) => m,
        _ => panic!("nothing was minted"),
    };
    assert!(matches!(action, Action::Store(ref s, ref r) if s == "u1" && r.exp == 210 + 604_800));
    let refresh = minted.refresh.clone();
    let access = minted.access.clone();
    let (state, action) = conclude(&context, minted, Stored::Written, &mut message);
    assert!(matches!(state, Rotation::Done(Outcome::Rotated)));
    assert!(matches!(action, Action::Respond));
    assert_eq!(message.cookie("refresh"), Some(refresh.clone()));
    assert_eq!(message.cookie("theme"), Some("dark".to_string()));
    let response = message.done();
    assert_eq!(response.status, 200);
    assert_eq!(response.body, format!("{{\"access_token\":\"{}\"}}", access));
    assert_eq!(
        response.set_cookie,
        vec![format!("refresh={}; HttpOnly; SameSite=Strict; Secure; Path=/jwt/refresh", refresh)]
    );
}

#[test]
fn reject_answers_401_and_clears_the_cookie() {
    let context = context();
    let mut message = request(Some("anything"));
    message.body = "left over".to_string();
    let (state, action) = reject(&context, &mut message, Outcome::VerifyFailed);
    assert!(matches!(state, Rotation::Done(Outcome::VerifyFailed)));
    assert!(matches!(action, Action::Respond));
    assert_eq!(message.cookie("refresh"), Some(String::new()));
    let response = message.done();
    assert_eq!(response.status, 401);
    assert_eq!(response.body, "");
    assert_eq!(response.set_cookie, vec![CLEARED.to_string()]);
}

#[test]
fn outcomes_have_their_statuses() {
    assert_eq!(Outcome::Rotated.status(), 200);
    assert_eq!(Outcome::MethodNotAllowed.status(), 405);
    for outcome in [
        Outcome::NoCookie,
        Outcome::VerifyFailed,
        Outcome::IdMismatch,
        Outcome::StoreUnavailable,
        Outcome::IssueFailed,
        Outcome::OutOfTurn,
        Outcome::Unable,
    ] {
        assert_eq!(outcome.status(), 401);
    }
    assert_eq!(Outcome::Rotated.failure(), None);
    assert_eq!(Outcome::NoCookie.failure(), None);
}

#[test]
fn body_is_a_json_object_with_the_access_token() {
    assert_eq!(body_of("abc"), "{\"access_token\":\"abc\"}");
    assert_eq!(body_of(""), "{\"access_token\":\"\"}");
    assert_eq!(body_of("a\"b\\c"), "{\"access_token\":\"a\\\"b\\\\c\"}");
}

#[test]
fn optional_texts_are_compared_by_their_characters() {
    let a = Some("A".to_string());
    assert!(same_text(&a, &Some("A".to_string())));
    assert!(!same_text(&a, &Some("B".to_string())));
    assert!(!same_text(&a, &None));
    assert!(!same_text(&None, &a));
    assert!(same_text(&None, &None));
}

#[test]
fn identifier_that_is_not_new_is_refused() {
    let context = context();
    let token = context.refresh.issue(claims("u1", Some("A")), 100).unwrap();
    let mut store = Store::holding(Some(claims("u1", Some("A"))));
    let (outcome, response) = serve(&context, &mut store, request(Some(&token)), 200, "A");
    assert_eq!(outcome, Outcome::IssueFailed);
    assert_eq!(response.status, 401);
    assert_eq!(response.body, "");
    assert_eq!(response.set_cookie, vec![CLEARED.to_string()]);
    assert_eq!((store.reads, store.writes), (1, 0));
    assert_eq!(store.token_id(), Some("A".to_string()));
    let (outcome, _) = serve(&context, &mut store, request(Some(&token)), 200, "a");
    assert_eq!(outcome, Outcome::Rotated);
    assert_eq!(store.token_id(), Some("a".to_string()));
}

#[test]
fn server_that_cannot_go_on_ends_in_a_rejection() {
    let context = context();
    let token = context.refresh.issue(claims("u1", Some("A")), 100).unwrap();

    let mut message = request(Some(&token));
    let (state, action) = step(&context, Rotation::Start, Event::Unable, &mut message);
    assert!(matches!(state, Rotation::Done(Outcome::Unable)));
    assert!(matches!(action, Action::Respond));
    let response = message.done();
    assert_eq!(response.status, 401);
    assert_eq!(response.set_cookie, vec![CLEARED.to_string()]);

    let mut message = request(Some(&token));
    let (state, _) = step(&context, Rotation::Start, Event::Request { now: 200 }, &mut message);
    let (state, action) = step(&context, state, Event::Unable, &mut message);
    assert!(matches!(state, Rotation::Done(Outcome::Unable)));
    assert!(matches!(action, Action::Respond));
    assert_eq!(message.done().set_cookie, vec![CLEARED.to_string()]);

    let mut message = request(Some(&token));
    let minted = mint(&context, &claims("u1", Some("A")), 200, "B").unwrap();
    let (state, _) = step(&context, Rotation::Minted(minted), Event::Unable, &mut message);
    assert!(matches!(state, Rotation::Done(Outcome::Unable)));
    let response = message.done();
    assert_eq!(response.status, 401);
    assert_eq!(response.set_cookie, vec![CLEARED.to_string()]);

    let mut message = request(None);
    let (state, _) = step(&context, Rotation::Done(Outcome::Rotated), Event::Unable, &mut message);
    assert!(matches!(state, Rotation::Done(Outcome::Rotated)));
    assert!(message.done().set_cookie.is_empty());
}

#[test]
fn reports_are_made_of_what_the_server_has() {
    assert!(matches!(arrived(Ok(7)), Event::Request { now: 7 }));
    assert!(matches!(arrived(Err(Error::of_kind(ErrorKind::ClockError))), Event::Unable));
    let full = answered(Fetched::Missing, Ok(9), Ok("id".to_string()));
    assert!(matches!(full, Event::Record { fetched: Fetched::Missing, now: 9, ref token_id } if token_id == "id"));
    let found = answered(Fetched::Found(claims("u1", Some("A"))), Ok(9), Ok("id".to_string()));
    assert!(matches!(found, Event::Record { fetched: Fetched::Found(ref c), .. } if c.sub == "u1"));
    let no_time = answered(Fetched::Missing, Err(Error::of_kind(ErrorKind::ClockError)), Ok("id".to_string()));
    assert!(matches!(no_time, Event::Unable));
    let no_id = answered(Fetched::Missing, Ok(9), Err(Error::of_kind(ErrorKind::KeyFailure)));
    assert!(matches!(no_id, Event::Unable));
}

#[test]
fn reports_by_the_clock_carry_the_time_and_an_identifier() {
    let before = turtle::clock::now().unwrap();
    let came = arrival();
    let told = answer(Fetched::Unavailable);
    let after = turtle::clock::now().unwrap();
    assert!(matches!(came, Event::Request { now } if before <= now && now <= after));
    match told {
        Event::Record { fetched: Fetched::Unavailable, now, token_id } => {
            assert!(before <= now && now <= after);
            assert_eq!(token_id.len(), 32);
        }
        _ => panic!("the answer was not reported"),
    }
}

#[test]
fn verification_leads_on_or_ends_in_a_rejection() {
    let context = context();
    let mut message = request(Some("anything"));
    let (state, action) = proceed(&context, Ok(claims("u1", Some("A"))), &mut message);
    assert!(matches!(state, Rotation::Verified(ref c) if c.sub == "u1"));
    assert!(matches!(action, Action::Fetch(ref s) if s == "u1"));
    assert_eq!(message.status, 200);
    assert!(message.done().set_cookie.is_empty());
    let failures = [
        (ErrorKind::Expired, Outcome::VerifyFailed),
        (ErrorKind::InvalidSignature, Outcome::VerifyFailed),
        (ErrorKind::MalformedToken, Outcome::VerifyFailed),
        (ErrorKind::ClockError, Outcome::Unable),
    ];
    for (kind, outcome) in failures {
        let mut message = request(Some("anything"));
        let (state, action) = proceed(&context, Err(Error::of_kind(kind)), &mut message);
        assert!(matches!(state, Rotation::Done(o) if o == outcome));
        assert!(matches!(action, Action::Respond));
        let response = message.done();
        assert_eq!(response.status, 401);
        assert_eq!(response.body, "");
        assert_eq!(response.set_cookie, vec![CLEARED.to_string()]);
    }
}

#[test]
fn sign_in_hands_out_tokens_after_the_write_only() {
    let context = context();
    let minted = mint(&context, &claims("u1", None), 100, "A").unwrap();
    let refresh = minted.refresh.clone();
    let access = minted.access.clone();
    let mut message = request(None);
    assert_eq!(sign_in(&context, minted, Stored::Written, &mut message), Some(access));
    assert_eq!(message.cookie("refresh"), Some(refresh.clone()));
    assert_eq!(
        message.done().set_cookie,
        vec![format!("refresh={}; HttpOnly; SameSite=Strict; Secure; Path=/jwt/refresh", refresh)]
    );
    let minted = mint(&context, &claims("u1", None), 100, "A").unwrap();
    let mut message = request(None);
    assert_eq!(sign_in(&context, minted, Stored::Unavailable, &mut message), None);
    assert_eq!(message.cookie("refresh"), None);
    assert!(message.done().set_cookie.is_empty());
}

#[test]
fn wrong_method_is_refused_whatever_the_server_reports() {
    let context = context();
    let token = context.refresh.issue(claims("u1", Some("A")), 100).unwrap();
    for method in [Method::Get, Method::Other] {
        for with_cookie in [true, false] {
            let events = vec![
                Event::Unable,
                Event::Request { now: 200 },
                Event::Written(Stored::Written),
                Event::Record { fetched: Fetched::Missing, now: 200, token_id: "B".to_string() },
            ];
            for event in events {
                let headers = if with_cookie { vec![format!("refresh={}", token)] } else { vec![] };
                let mut message = Message::new(method, "/jwt/refresh".to_string(), None, &headers);
                message.body = "left over".to_string();
                let (state, action) = step(&context, Rotation::Start, event, &mut message);
                assert!(matches!(state, Rotation::Done(Outcome::MethodNotAllowed)));
                assert!(matches!(action, Action::Respond));
                let response = message.done();
                assert_eq!(response.status, 405);
                assert_eq!(response.body, "");
                assert!(response.set_cookie.is_empty());
            }
        }
    }
}

#[test]
fn refuse_answers_405_and_leaves_the_cookies() {
    let mut message = request(Some("anything"));
    message.body = "left over".to_string();
    let (state, action) = turtle::rotation::refuse(&mut message);
    assert!(matches!(state, Rotation::Done(Outcome::MethodNotAllowed)));
    assert!(matches!(action, Action::Respond));
    assert_eq!(message.cookie("refresh"), Some("anything".to_string()));
    let response = message.done();
    assert_eq!(response.status, 405);
    assert_eq!(response.body, "");
    assert!(response.set_cookie.is_empty());
}
