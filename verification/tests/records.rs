use charity_registry::records::CharityBook;
use charity_registry::records::CharityError;
use charity_registry::records::CharityStatus;
use charity_registry::records::apply_donation;
use charity_registry::records::apply_verification;
use charity_registry::records::make_charity;
use charity_registry::records::record_registration;
use charity_registry::records::sentinel_charity;

#[test]
fn make_charity_starts_unverified_and_unfunded() {
    let c = make_charity(7, "park".to_string(), "benches".to_string(), 123);
    assert_eq!(c.project_id, 7);
    assert_eq!(c.title, "park");
    assert_eq!(c.description, "benches");
    assert_eq!(c.registered_time, 123);
    assert!(!c.verified);
    assert_eq!(c.funds_received, 0);
}

#[test]
fn sentinel_marks_absence() {
    let c = sentinel_charity();
    assert_eq!(c.project_id, 0);
    assert_eq!(c.title, "Not Found");
    assert_eq!(c.description, "Not Found");
    assert_eq!(c.registered_time, 0);
    assert!(!c.verified);
    assert_eq!(c.funds_received, 0);
}

#[test]
fn cloned_record_keeps_every_field() {
    let c = make_charity(3, "bridge".to_string(), "repairs".to_string(), 9);
    let d = c.clone();
    assert_eq!(d.project_id, c.project_id);
    assert_eq!(d.title, c.title);
    assert_eq!(d.description, c.description);
    assert_eq!(d.registered_time, c.registered_time);
    assert_eq!(d.verified, c.verified);
    assert_eq!(d.funds_received, c.funds_received);
}

#[test]
fn default_summary_is_all_zero() {
    let s = CharityStatus::default();
    assert_eq!(s, CharityStatus { registered: 0, verified: 0, total_donations: 0, total_projects: 0 });
}

#[test]
fn record_registration_raises_both_counters() {
    let s = CharityStatus { registered: 4, verified: 2, total_donations: 60, total_projects: 4 };
    let r = record_registration(&s);
    assert_eq!(r, CharityStatus { registered: 5, verified: 2, total_donations: 60, total_projects: 5 });
}

#[test]
fn apply_verification_sets_the_flag_once() {
    let c = make_charity(1, "a".to_string(), "b".to_string(), 5);
    let s = CharityStatus { registered: 1, verified: 0, total_donations: 0, total_projects: 1 };
    let (nc, ns) = apply_verification(&c, &s).expect("an unverified record is verifiable");
    assert!(nc.verified);
    assert_eq!(nc.project_id, 1);
    assert_eq!(nc.funds_received, 0);
    assert_eq!(ns, CharityStatus { registered: 1, verified: 1, total_donations: 0, total_projects: 1 });

    let again = apply_verification(&nc, &ns);
    assert!(matches!(again, Err(CharityError::AlreadyVerified)));
}

#[test]
fn apply_donation_requires_a_verified_record() {
    let c = make_charity(1, "a".to_string(), "b".to_string(), 5);
    let s = CharityStatus { registered: 1, verified: 0, total_donations: 0, total_projects: 1 };
    assert!(matches!(apply_donation(&c, &s, 40), Err(CharityError::NotVerified)));

    let (vc, vs) = apply_verification(&c, &s).expect("an unverified record is verifiable");
    let (dc, ds) = apply_donation(&vc, &vs, 40).expect("a verified record accepts donations");
    assert_eq!(dc.funds_received, 40);
    assert!(dc.verified);
    assert_eq!(ds.total_donations, 40);
    assert_eq!(ds.verified, 1);
}

#[test]
fn charity_book_names_its_project() {
    let key = CharityBook::Project(12);
    assert_eq!(key.project_id(), 12);
    assert_eq!(key, CharityBook::Project(12));
}
