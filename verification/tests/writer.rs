use uart_remote::error::CoreError;
use uart_remote::writer::WriterLease;

#[test]
fn only_one_client_can_claim_writer() {
    let mut lease = WriterLease::default();

    assert!(lease.claim("a").is_ok());
    assert!(lease.claim("b").is_err());
    assert!(lease.can_write("a"));
    assert!(!lease.can_write("b"));
}

#[test]
fn owner_disconnect_releases_writer() {
    let mut lease = WriterLease::default();

    lease.claim("a").unwrap();
    assert!(lease.release_if_owner("a"));
    assert_eq!(lease.owner(), None);
    assert!(lease.claim("b").is_ok());
}

#[test]
fn a_new_lease_is_free() {
    let lease = WriterLease::default();
    assert_eq!(lease.owner(), None);
    assert!(!lease.can_write("a"));
    assert!(!lease.can_write(""));
}

#[test]
fn the_owner_may_claim_again() {
    let mut lease = WriterLease::default();
    lease.claim("a").unwrap();
    lease.claim("a").unwrap();
    assert_eq!(lease.owner(), Some("a"));
}

#[test]
fn a_late_claim_names_the_owner() {
    let mut lease = WriterLease::default();
    lease.claim("a").unwrap();
    let error = lease.claim("b").unwrap_err();
    assert!(matches!(&error, CoreError::WriterAlreadyClaimed(owner) if owner == "a"));
    assert_eq!(error.message(), "writer is already claimed by a");
    assert_eq!(lease.owner(), Some("a"));
}

#[test]
fn release_says_whether_the_lease_was_held() {
    let mut lease = WriterLease::default();
    assert!(!lease.release("a").unwrap());
    lease.claim("a").unwrap();
    assert!(lease.release("a").unwrap());
    assert!(!lease.release("a").unwrap());
    assert_eq!(lease.owner(), None);
}

#[test]
fn only_the_owner_can_release() {
    let mut lease = WriterLease::default();
    lease.claim("a").unwrap();
    let error = lease.release("b").unwrap_err();
    assert!(matches!(&error, CoreError::WriterNotOwned(client) if client == "b"));
    assert_eq!(error.message(), "writer is not owned by b");
    assert!(!lease.release_if_owner("b"));
    assert!(lease.can_write("a"));
}
