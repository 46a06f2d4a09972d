use argon2::password_hash::PasswordHasher;
use argon2::password_hash::SaltString;
use argon2::Argon2;
use folio_backend::auth::login;
use folio_backend::auth::LoginRequest;
use folio_backend::auth::User;
use folio_backend::content::CreateProjectRequest;
use folio_backend::content::Store;
use folio_backend::error::AppError;
use folio_backend::gateway::cors_headers;
use folio_backend::gateway::guarded_mutation;
use folio_backend::gateway::is_authorized;
use folio_backend::gateway::Authorizer;
use folio_backend::gateway::MutationOutcome;
use folio_backend::gateway::MutationRequest;

const SECRET: &str = "gateway-signing-SECRET-REDACTED";
const ISSUE_AT: u64 = 1_700_000_000;

fn project_payload(title: &str) -> CreateProjectRequest {
    CreateProjectRequest {
        title: title.to_string(),
        description: "desc".to_string(),
        tech_stack: vec!["rust".to_string()],
        image_url: None,
        github_url: None,
        demo_url: None,
    }
}

fn create_req(title: &str, id: u128) -> MutationRequest {
    MutationRequest::CreateProject { payload: project_payload(title), id, created_at: 7 }
}

fn valid_bearer_header() -> String {
    let salt = SaltString::from_b64("c29tZXNhbHRzb21lc2FsdA").unwrap();
    let hash = Argon2::default().hash_password(b"pw-pw-pw-pw", &salt).unwrap().to_string();
    let user = User {
        id: 1,
        username: "admin".to_string(),
        password_hash: hash,
        created_at: 0,
    };
    let req = LoginRequest { username: "admin".to_string(), password: "pw-pw-pw-pw".to_string() };
    let resp = login(Some(&user), &req, SECRET, ISSUE_AT).unwrap();
    format!("Bearer {}", resp.token)
}

#[test]
fn shared_secret_gate_accepts_exact_match() {
    let configured = "s3cr3t".to_string();
    let header = "s3cr3t".to_string();
    assert!(is_authorized(Some(&configured), Some(&header)));
}

#[test]
fn shared_secret_gate_rejects_mismatch_absence_placeholder_and_empty() {
    let configured = "s3cr3t".to_string();
    let wrong = "guess".to_string();
    assert!(!is_authorized(Some(&configured), Some(&wrong)));
    assert!(!is_authorized(Some(&configured), None));
    assert!(!is_authorized(None, Some(&configured)));

    let placeholder = "disable_if_not_set".to_string();
    assert!(!is_authorized(Some(&placeholder), Some(&placeholder)));

    let empty = String::new();
    assert!(!is_authorized(Some(&empty), Some(&empty)));
}

#[test]
fn missing_bearer_header_rejected_before_any_write() {
    let auth = Authorizer::Bearer { secret: SECRET.to_string() };
    let mut store = Store::new();
    let r = guarded_mutation(&auth, None, None, ISSUE_AT, &mut store, create_req("Portfolio", 1));
    assert!(matches!(&r, Err(AppError::Unauthorized(_))));
    // Nothing reached validation or storage.
    assert_eq!(store.projects.len(), 0);
}

#[test]
fn garbage_bearer_token_rejected_before_any_write() {
    let auth = Authorizer::Bearer { secret: SECRET.to_string() };
    let mut store = Store::new();
    let header = "Bearer not.a.token".to_string();
    let r = guarded_mutation(&auth, Some(&header), None, ISSUE_AT + 10, &mut store, create_req("Portfolio", 1));
    assert!(matches!(&r, Err(AppError::Unauthorized(_))));
    assert_eq!(store.projects.len(), 0);
}

#[test]
fn valid_bearer_token_lets_the_mutation_through() {
    let auth = Authorizer::Bearer { secret: SECRET.to_string() };
    let mut store = Store::new();
    let header = valid_bearer_header();
    let r = guarded_mutation(&auth, Some(&header), None, ISSUE_AT + 10, &mut store, create_req("Portfolio", 1));
    match r.unwrap() {
        MutationOutcome::ProjectEntity(p) => assert_eq!(p.title, "Portfolio"),
        _ => panic!("expected a created project"),
    }
    assert_eq!(store.projects.len(), 1);
}

#[test]
fn expired_bearer_token_rejected_before_any_write() {
    let auth = Authorizer::Bearer { secret: SECRET.to_string() };
    let mut store = Store::new();
    let header = valid_bearer_header();
    let r = guarded_mutation(
        &auth,
        Some(&header),
        None,
        ISSUE_AT + 86400,
        &mut store,
        create_req("Portfolio", 1),
    );
    assert!(matches!(&r, Err(AppError::Unauthorized(_))));
    assert_eq!(store.projects.len(), 0);
}

#[test]
fn wrong_shared_secret_rejected_before_any_write() {
    let auth = Authorizer::SharedSecret { secret: "right".to_string() };
    let mut store = Store::new();
    let header = "wrong".to_string();
    let r = guarded_mutation(&auth, None, Some(&header), 0, &mut store, create_req("Portfolio", 1));
    assert!(matches!(&r, Err(AppError::Unauthorized(_))));
    assert_eq!(store.projects.len(), 0);
}

#[test]
fn right_shared_secret_admits_and_invalid_payload_still_writes_nothing() {
    let auth = Authorizer::SharedSecret { secret: "right".to_string() };
    let mut store = Store::new();
    let header = "right".to_string();
    let r = guarded_mutation(&auth, None, Some(&header), 0, &mut store, create_req("", 1));
    assert!(matches!(&r, Err(AppError::ValidationError(m)) if m == "Title cannot be empty"));
    assert_eq!(store.projects.len(), 0);

    let r = guarded_mutation(&auth, None, Some(&header), 0, &mut store, create_req("Ok", 1));
    assert!(r.is_ok());
    assert_eq!(store.projects.len(), 1);
}

#[test]
fn featured_toggle_through_the_gate() {
    let auth = Authorizer::SharedSecret { secret: "right".to_string() };
    let mut store = Store::new();
    let header = "right".to_string();
    guarded_mutation(&auth, None, Some(&header), 0, &mut store, create_req("A", 1)).unwrap();
    guarded_mutation(&auth, None, Some(&header), 0, &mut store, create_req("B", 2)).unwrap();
    let r = guarded_mutation(
        &auth,
        None,
        Some(&header),
        0,
        &mut store,
        MutationRequest::SetFeatured { id: 2 },
    );
    assert!(matches!(r.unwrap(), MutationOutcome::Done));
    let featured: Vec<u128> =
        store.projects.iter().filter(|p| p.is_featured).map(|p| p.id).collect();
    assert_eq!(featured, vec![2]);
}

#[test]
fn cors_header_set_is_complete() {
    let headers = cors_headers();
    assert_eq!(headers.len(), 4);
    assert_eq!(headers[0], ("Access-Control-Allow-Origin".to_string(), "*".to_string()));
    assert_eq!(
        headers[1],
        ("Access-Control-Allow-Methods".to_string(), "GET, POST, PUT, DELETE, OPTIONS".to_string())
    );
    assert_eq!(
        headers[2],
        ("Access-Control-Allow-Headers".to_string(), "Content-Type, x-admin-secret".to_string())
    );
    assert_eq!(headers[3], ("Access-Control-Max-Age".to_string(), "86400".to_string()));
}
