use authcore::auth::{login, CredentialPair, LoginOutcome, LoginPayload};
use authcore::error::AppError;
use authcore::middleware::{authenticate, plan_protected_request, strip_bearer, RequestPlan};
use authcore::routes::{greeting, rows_to_outcome, NewTodo, UpdateTodo};
use authcore::token::{TokenService, TOKEN_LIFETIME_SECONDS};
use authcore::{AuthUser, Claims};

const NOW: u64 = 1_700_000_000;

fn service() -> TokenService {
    TokenService::new("test-secret-0123456789".to_string())
}

fn issue(svc: &TokenService, subject: &str, now: u64) -> String {
    svc.issue(&subject.to_string(), now)
}

fn config() -> CredentialPair {
    CredentialPair {
        email: "thor@techthor.com".to_string(),
        password: "secret123".to_string(),
    }
}

fn payload(email: &str, password: &str) -> LoginPayload {
    LoginPayload { email: email.to_string(), password: password.to_string() }
}

#[test]
fn round_trip_returns_subject() {
    let svc = service();
    let token = issue(&svc, "thor@techthor.com", NOW);
    let verified = svc.verify(&token, NOW);
    assert_eq!(verified.ok(), Some("thor@techthor.com".to_string()));
}

#[test]
fn round_trip_empty_subject() {
    let svc = service();
    let token = issue(&svc, "", NOW);
    assert_eq!(svc.verify(&token, NOW).ok(), Some(String::new()));
}

#[test]
fn expiry_boundary() {
    let svc = service();
    let token = issue(&svc, "thor@techthor.com", NOW);
    let just_late = svc.verify(&token, NOW + TOKEN_LIFETIME_SECONDS + 1);
    assert!(matches!(just_late, Err(AppError::Unauthorized)));
    let just_in_time = svc.verify(&token, NOW + TOKEN_LIFETIME_SECONDS - 1);
    assert_eq!(just_in_time.ok(), Some("thor@techthor.com".to_string()));
    let exactly = svc.verify(&token, NOW + TOKEN_LIFETIME_SECONDS);
    assert!(matches!(exactly, Err(AppError::Unauthorized)));
}

#[test]
fn tampered_signature_rejected() {
    let svc = service();
    let token = issue(&svc, "thor@techthor.com", NOW);
    let dot = token.rfind('.').expect("compact token has a signature segment");
    let (head, signature) = token.split_at(dot + 1);
    assert!(!signature.is_empty());
    for i in 0..signature.len() {
        let mut bytes = signature.as_bytes().to_vec();
        bytes[i] = if bytes[i] == b'A' { b'B' } else { b'A' };
        let forged = format!("{}{}", head, String::from_utf8(bytes).unwrap());
        let r = svc.verify(&forged, NOW);
        assert!(matches!(r, Err(AppError::Unauthorized)));
    }
}

#[test]
fn wrong_secret_rejected() {
    let issuer = TokenService::new("secret-one".to_string());
    let verifier = TokenService::new("secret-two".to_string());
    let token = issue(&issuer, "thor@techthor.com", NOW);
    assert!(matches!(verifier.verify(&token, NOW), Err(AppError::Unauthorized)));
}

#[test]
fn token_is_not_the_subject() {
    let svc = service();
    let token = issue(&svc, "thor@techthor.com", NOW);
    assert!(!token.is_empty());
    assert_ne!(token, "thor@techthor.com");
    assert_eq!(token.chars().filter(|c| *c == '.').count(), 2);
    assert!(matches!(svc.verify("thor@techthor.com", NOW), Err(AppError::Unauthorized)));
}

#[test]
fn strip_bearer_exact_prefix() {
    assert_eq!(strip_bearer("Bearer abc"), Some("abc"));
    assert_eq!(strip_bearer("Bearer "), Some(""));
    assert_eq!(strip_bearer("bearer abc"), None);
    assert_eq!(strip_bearer("Bearerabc"), None);
    assert_eq!(strip_bearer("Token abc"), None);
    assert_eq!(strip_bearer(""), None);
}

#[test]
fn header_format_gate_rejects_identically() {
    let svc = service();
    let cases: Vec<Option<&str>> =
        vec![None, Some("Token abc"), Some("bearer abc"), Some("Bearer"), Some("Bearer ")];
    let mut responses: Vec<(u16, String)> = Vec::new();
    for header in cases {
        match authenticate(&svc, header, NOW) {
            Ok(_) => panic!("malformed header must not authenticate"),
            Err(e) => responses.push(e.into_response()),
        }
    }
    for response in &responses {
        assert_eq!(response, &responses[0]);
    }
    assert_eq!(responses[0].0, 401);
    assert_eq!(responses[0].1, "Missing or invalid authorization token.");
}

#[test]
fn gate_accepts_valid_token() {
    let svc = service();
    let token = issue(&svc, "thor@techthor.com", NOW);
    let header = format!("Bearer {}", token);
    match authenticate(&svc, Some(&header), NOW) {
        Ok(AuthUser(email)) => assert_eq!(email, "thor@techthor.com"),
        Err(_) => panic!("valid token must authenticate"),
    }
}

fn run_protected(
    svc: &TokenService,
    header: Option<&str>,
    now: u64,
    store_calls: &mut u32,
) -> (u16, String) {
    match plan_protected_request(svc, header, now) {
        RequestPlan::Proceed(user) => {
            *store_calls += 1;
            (200, greeting(&user))
        }
        RequestPlan::Reject(status, message) => (status, message),
    }
}

#[test]
fn fail_closed_never_reaches_collaborators() {
    let svc = service();
    let mut store_calls: u32 = 0;
    let (status, _) = run_protected(&svc, None, NOW, &mut store_calls);
    assert_eq!(status, 401);
    let (status, _) = run_protected(&svc, Some("Token abc"), NOW, &mut store_calls);
    assert_eq!(status, 401);
    let expired = issue(&svc, "thor@techthor.com", NOW);
    let header = format!("Bearer {}", expired);
    let (status, _) =
        run_protected(&svc, Some(&header), NOW + TOKEN_LIFETIME_SECONDS + 1, &mut store_calls);
    assert_eq!(status, 401);
    assert_eq!(store_calls, 0);
    let (status, body) = run_protected(&svc, Some(&header), NOW, &mut store_calls);
    assert_eq!(status, 200);
    assert_eq!(store_calls, 1);
    assert_eq!(body, "Welcome, thor@techthor.com! You have access to this protected route.");
}

#[test]
fn error_opacity() {
    let store_cause = "connection refused: postgres at 10.0.0.7 rejected role todo_app";
    let (status, message) = AppError::StoreFailure(store_cause.to_string()).into_response();
    assert_eq!(status, 500);
    assert_eq!(message, "A database error occurred.");
    assert!(!message.contains("postgres"));
    assert!(!message.contains("10.0.0.7"));
    assert!(!message.contains("todo_app"));

    let upstream_cause = "scoring service panicked: index out of bounds at scorer.jl:42";
    let (status, message) = AppError::UpstreamFailure(upstream_cause.to_string()).into_response();
    assert_eq!(status, 502);
    assert_eq!(message, "External service failed.");
    assert!(!message.contains("scorer"));
    assert!(!message.contains("panicked"));
}

#[test]
fn classifier_maps_every_variant() {
    assert_eq!(
        AppError::Unauthorized.into_response(),
        (401, "Missing or invalid authorization token.".to_string())
    );
    assert_eq!(AppError::NotFound.into_response(), (404, "Resource not found".to_string()));
    assert_eq!(
        AppError::BadRequest("title must not be empty".to_string()).into_response(),
        (400, "title must not be empty".to_string())
    );
    assert_eq!(
        AppError::StoreFailure("driver detail".to_string()).into_response().0,
        500
    );
    assert_eq!(
        AppError::UpstreamFailure("upstream detail".to_string()).into_response().0,
        502
    );
}

#[test]
fn login_scenario() {
    let svc = service();
    let cfg = config();
    let outcome = login(&cfg, &svc, &payload("thor@techthor.com", "secret123"), NOW);
    assert_eq!(outcome.status(), 200);
    assert!(outcome.error_message().is_none());
    match outcome {
        LoginOutcome::Granted(token) => {
            assert_eq!(svc.verify(&token, NOW).ok(), Some("thor@techthor.com".to_string()));
        }
        _ => panic!("the configured pair must log in"),
    }
    let wrong = [
        ("thor@techthor.com", "wrong"),
        ("loki@techthor.com", "secret123"),
        ("", ""),
        ("thor@techthor.com", ""),
    ];
    for (email, password) in wrong {
        let outcome = login(&cfg, &svc, &payload(email, password), NOW);
        assert!(matches!(outcome, LoginOutcome::InvalidCredentials));
        assert_eq!(outcome.status(), 401);
        assert_eq!(outcome.error_message(), Some("Invalid credentials".to_string()));
    }
}

#[test]
fn login_token_passes_the_gate() {
    let svc = service();
    let cfg = config();
    match login(&cfg, &svc, &payload("thor@techthor.com", "secret123"), NOW) {
        LoginOutcome::Granted(token) => {
            let header = format!("Bearer {}", token);
            let mut store_calls: u32 = 0;
            let (status, _) = run_protected(&svc, Some(&header), NOW, &mut store_calls);
            assert_eq!(status, 200);
            assert_eq!(store_calls, 1);
        }
        _ => panic!("the configured pair must log in"),
    }
}

#[test]
fn write_outcome_rule() {
    assert!(rows_to_outcome(1).is_ok());
    assert!(rows_to_outcome(7).is_ok());
    match rows_to_outcome(0) {
        Err(AppError::NotFound) => {}
        _ => panic!("zero affected rows must address a missing resource"),
    }
}

#[test]
fn todo_inputs_hold_their_fields() {
    let new = NewTodo { title: "write the report".to_string() };
    assert_eq!(new.title, "write the report");
    let update = UpdateTodo { title: "file the report".to_string(), done: true };
    assert_eq!(update.title, "file the report");
    assert!(update.done);
}

#[test]
fn accept_claims_boundary() {
    let claims = Claims { sub: "a@b.c".to_string(), exp: 10 };
    assert_eq!(TokenService::accept_claims(Some(claims), 9).ok(), Some("a@b.c".to_string()));
    let claims = Claims { sub: "a@b.c".to_string(), exp: 10 };
    assert!(matches!(TokenService::accept_claims(Some(claims), 10), Err(AppError::Unauthorized)));
    assert!(matches!(TokenService::accept_claims(None, 0), Err(AppError::Unauthorized)));
}

#[test]
fn unicode_headers_fail_closed() {
    let svc = service();
    assert!(matches!(authenticate(&svc, Some("Bëarer abc"), NOW), Err(AppError::Unauthorized)));
    assert!(matches!(authenticate(&svc, Some("Bearer éé"), NOW), Err(AppError::Unauthorized)));
    assert_eq!(strip_bearer("Bearer éé"), Some("éé"));
}
