use rust_nexus::domain_service::email_check_outcome;
use rust_nexus::app_service::found;
use rust_nexus::app_service::{page_window, UserApplicationService};
use rust_nexus::domain_service::{needs_email_check, UserDomainService};
use rust_nexus::dto::{ApiResponse, CreateUserDto, UpdateUserDto, UserResponseDto};
use rust_nexus::error::UserError;
use rust_nexus::memory_repository::InMemoryUserRepository;
use rust_nexus::port::UserRepositoryPort;
use rust_nexus::user::{Email, User, UserId, UserName};

fn name(s: &str) -> UserName {
    UserName::new(s.to_string()).unwrap()
}

fn email(s: &str) -> Email {
    Email::new(s.to_string()).unwrap()
}

fn create(app: &mut UserApplicationService<InMemoryUserRepository>, n: &str, e: &str) -> UserResponseDto {
    app.create_user(CreateUserDto { name: n.to_string(), email: e.to_string() }).unwrap()
}

#[test]
fn create_with_held_email_is_refused_without_saving() {
    let mut svc = UserDomainService::new(InMemoryUserRepository::new());
    svc.create_user(name("Ann"), email("ann@example.com")).unwrap();
    let r = svc.create_user(name("Other"), email("ANN@example.com"));
    assert_eq!(r.unwrap_err(), UserError::EmailAlreadyExists);
    assert_eq!(svc.user_repository.len(), 1);
}

#[test]
fn new_user_gets_fresh_id_and_current_time() {
    let a = User::new(name("A"), email("a@x.io"));
    let b = User::new(name("B"), email("b@x.io"));
    assert_ne!(a.id().as_u128(), b.id().as_u128());
    assert!(a.created_at() > 0);
    assert_eq!(a.created_at(), a.updated_at());
}

#[test]
fn update_keeping_own_email_skips_the_check() {
    let mut svc = UserDomainService::new(InMemoryUserRepository::new());
    let mut u = svc.create_user(name("Ann"), email("ann@example.com")).unwrap();
    assert!(!needs_email_check(u.email(), &Some(email("Ann@Example.com"))));
    svc.update_user(&mut u, Some(name("Annie")), Some(email("ann@example.com"))).unwrap();
    assert_eq!(u.name().as_str(), "Annie");
    assert_eq!(u.email().as_str(), "ann@example.com");
    assert!(u.updated_at() >= u.created_at());
}

#[test]
fn needs_email_check_only_for_a_new_address() {
    let cur = email("a@b.co");
    assert!(needs_email_check(&cur, &Some(email("c@d.co"))));
    assert!(!needs_email_check(&cur, &None));
}

#[test]
fn update_to_email_of_other_user_is_refused_and_leaves_user_alone() {
    let mut svc = UserDomainService::new(InMemoryUserRepository::new());
    let mut a = svc.create_user(name("Ann"), email("ann@example.com")).unwrap();
    svc.create_user(name("Bob"), email("bob@example.com")).unwrap();
    let before_updated = a.updated_at();
    let r = svc.update_user(&mut a, Some(name("Changed")), Some(email("BOB@example.com")));
    assert_eq!(r.unwrap_err(), UserError::EmailAlreadyExists);
    assert_eq!(a.name().as_str(), "Ann");
    assert_eq!(a.email().as_str(), "ann@example.com");
    assert_eq!(a.updated_at(), before_updated);
}

#[test]
fn update_at_never_moves_time_backwards() {
    let mut u = User::from_persistence(UserId::from_u128(7), name("A"), email("a@b.c"), 100, 200);
    u.update_at(None, Some(email("z@b.c")), 150);
    assert_eq!(u.updated_at(), 200);
    assert_eq!(u.email().as_str(), "z@b.c");
    u.update_at(Some(name("Q")), None, 300);
    assert_eq!(u.updated_at(), 300);
    assert_eq!(u.created_at(), 100);
    assert_eq!(u.name().as_str(), "Q");
}

#[test]
fn default_window_is_offset_zero_limit_ten() {
    assert_eq!(page_window(None, None), Some((0, 10)));
    assert_eq!(page_window(Some(3), Some(7)), Some((21, 7)));
    assert_eq!(page_window(Some(2), None), Some((20, 10)));
    assert_eq!(page_window(Some(-1), None), None);
    assert_eq!(page_window(None, Some(-5)), None);
    assert_eq!(page_window(Some(i64::MAX), Some(2)), None);
    assert_eq!(page_window(Some(i64::MAX), Some(0)), Some((0, 0)));
}

#[test]
fn listing_defaults_to_first_ten_newest_first() {
    let mut app = UserApplicationService::new(InMemoryUserRepository::new());
    for i in 0..12 {
        create(&mut app, &format!("User {}", i), &format!("u{}@example.com", i));
    }
    let page = app.get_all_users(None, None).unwrap();
    assert_eq!(page.len(), 10);
    assert_eq!(page[0].email, "u11@example.com");
    assert_eq!(page[9].email, "u2@example.com");
    let rest = app.get_all_users(Some(1), None).unwrap();
    assert_eq!(rest.len(), 2);
    assert_eq!(rest[1].email, "u0@example.com");
    assert!(app.get_all_users(Some(5), Some(10)).unwrap().is_empty());
    assert!(matches!(app.get_all_users(Some(-1), None), Err(UserError::StorageError(_))));
}

#[test]
fn end_to_end_create_normalizes_and_refuses_duplicate() {
    let mut app = UserApplicationService::new(InMemoryUserRepository::new());
    let d = create(&mut app, "Ann", " Ann@Example.COM ");
    assert_eq!(d.email, "ann@example.com");
    assert_eq!(d.name, "Ann");
    let stored = app.get_user_by_id(UserId::from_u128(d.id)).unwrap().unwrap();
    assert_eq!(stored.email, "ann@example.com");
    let r = app.create_user(CreateUserDto {
        name: "Ann Two".to_string(),
        email: "ANN@EXAMPLE.com".to_string(),
    });
    assert_eq!(r.unwrap_err(), UserError::EmailAlreadyExists);
}

#[test]
fn end_to_end_missing_id_gives_not_found() {
    let mut app = UserApplicationService::new(InMemoryUserRepository::new());
    create(&mut app, "Ann", "ann@example.com");
    let missing = UserId::from_u128(42);
    let r = app.update_user(missing, UpdateUserDto { name: Some("X".to_string()), email: None });
    assert_eq!(r.unwrap_err(), UserError::NotFound);
    assert_eq!(app.delete_user(missing).unwrap_err(), UserError::NotFound);
    assert!(app.get_user_by_id(missing).unwrap().is_none());
}

#[test]
fn end_to_end_update_and_delete() {
    let mut app = UserApplicationService::new(InMemoryUserRepository::new());
    let d = create(&mut app, "Ann", "ann@example.com");
    let id = UserId::from_u128(d.id);
    let u = app
        .update_user(id, UpdateUserDto { name: None, email: Some(" NEW@Example.com".to_string()) })
        .unwrap();
    assert_eq!(u.email, "new@example.com");
    assert_eq!(u.name, "Ann");
    assert_eq!(u.created_at, d.created_at);
    let bad = app.update_user(id, UpdateUserDto { name: Some("  ".to_string()), email: None });
    assert!(matches!(bad, Err(UserError::InvalidName(_))));
    app.delete_user(id).unwrap();
    assert!(app.get_user_by_id(id).unwrap().is_none());
}

#[test]
fn create_reports_invalid_fields() {
    let mut app = UserApplicationService::new(InMemoryUserRepository::new());
    let r = app.create_user(CreateUserDto { name: " ".to_string(), email: "BAD".to_string() });
    assert!(matches!(r, Err(UserError::InvalidName(_))));
    let r = app.create_user(CreateUserDto { name: "Ann".to_string(), email: "BAD".to_string() });
    assert!(matches!(r, Err(UserError::InvalidEmail(_))));
    assert!(app.get_all_users(None, None).unwrap().is_empty());
}

#[test]
fn update_dto_validates_present_fields_only() {
    let (n, e) = UpdateUserDto { name: None, email: None }.to_domain().unwrap();
    assert!(n.is_none() && e.is_none());
    let (n, e) = UpdateUserDto { name: Some(" Bo ".to_string()), email: Some("B@C.D".to_string()) }
        .to_domain()
        .unwrap();
    assert_eq!(n.unwrap().as_str(), "Bo");
    assert_eq!(e.unwrap().as_str(), "b@c.d");
    let r = UpdateUserDto { name: None, email: Some("nope".to_string()) }.to_domain();
    assert!(matches!(r, Err(UserError::InvalidEmail(_))));
}

#[test]
fn repository_backstops_duplicates() {
    let mut repo = InMemoryUserRepository::new();
    let a = User::new(name("A"), email("a@x.io"));
    repo.save(&a).unwrap();
    let dup_email = User::new(name("B"), email("A@x.io"));
    assert_eq!(repo.save(&dup_email).unwrap_err(), UserError::EmailAlreadyExists);
    let same_id = User::from_persistence(*a.id(), name("C"), email("c@x.io"), 1, 1);
    assert!(matches!(repo.save(&same_id), Err(UserError::StorageError(_))));
    let b = User::new(name("B"), email("b@x.io"));
    repo.save(&b).unwrap();
    let clash = User::from_persistence(*b.id(), name("B"), email("a@x.io"), 1, 2);
    assert_eq!(repo.update(&clash).unwrap_err(), UserError::EmailAlreadyExists);
    assert!(repo.exists_by_email(&email("a@x.io")).unwrap());
    assert!(!repo.exists_by_email(&email("z@x.io")).unwrap());
    assert_eq!(repo.len(), 2);
}

#[test]
fn api_response_envelopes() {
    let ok = ApiResponse::success(5u8);
    assert!(ok.success && ok.data == Some(5) && ok.error.is_none());
    let err: ApiResponse<u8> = ApiResponse::error("User not found".to_string());
    assert!(!err.success && err.data.is_none());
    assert_eq!(err.error.as_deref(), Some("User not found"));
}

#[test]
fn email_check_outcome_maps_each_answer() {
    assert_eq!(email_check_outcome(Ok(true)), Err(UserError::EmailAlreadyExists));
    assert_eq!(email_check_outcome(Ok(false)), Ok(()));
    let r = email_check_outcome(Err(UserError::StorageError("down".to_string())));
    assert_eq!(r, Err(UserError::StorageError("down".to_string())));
}

#[test]
fn found_maps_each_lookup() {
    assert_eq!(found(Ok(None)).unwrap_err(), UserError::NotFound);
    let u = User::from_persistence(UserId::from_u128(3), name("A"), email("a@b.c"), 1, 2);
    let got = found(Ok(Some(u))).unwrap();
    assert_eq!(got.id().as_u128(), 3);
    assert_eq!(got.email().as_str(), "a@b.c");
    let r = found(Err(UserError::StorageError("down".to_string())));
    assert_eq!(r.unwrap_err(), UserError::StorageError("down".to_string()));
}

#[test]
fn invalid_requests_keep_the_constructor_message() {
    let mut app = UserApplicationService::new(InMemoryUserRepository::new());
    let r = app.create_user(CreateUserDto { name: "  ".to_string(), email: "BAD".to_string() });
    assert_eq!(r.unwrap_err(), UserError::InvalidName("Name cannot be empty".to_string()));
    let r = app.create_user(CreateUserDto { name: "Ann".to_string(), email: " ".to_string() });
    assert_eq!(r.unwrap_err(), UserError::InvalidEmail("Email cannot be empty".to_string()));
    let d = create(&mut app, "Ann", "ann@example.com");
    let r = app.update_user(
        UserId::from_u128(d.id),
        UpdateUserDto { name: None, email: Some("nope".to_string()) },
    );
    assert_eq!(r.unwrap_err(), UserError::InvalidEmail("Invalid email format".to_string()));
    let stored = app.get_user_by_id(UserId::from_u128(d.id)).unwrap().unwrap();
    assert_eq!(stored.email, "ann@example.com");
}

#[test]
fn fresh_ids_are_version_four() {
    let id = UserId::new().as_u128();
    assert_eq!((id >> 76) & 0xf, 4);
    assert_eq!((id >> 62) & 0x3, 2);
}
