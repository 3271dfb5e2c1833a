use typestate::decimal::push_decimal;
use typestate::{Authenticated, Unauthenticated, User};

#[test]
fn demonstration_sequence() {
    let unauthenticated_user: User<Unauthenticated> = User::new(5);
    let hello = unauthenticated_user.hello_message();
    assert!(hello.contains('5'));
    assert_eq!(hello, "User 5 says hello!");
    assert_eq!(unauthenticated_user.id_message(), "Unauthenticated user 5");
    assert_eq!(
        unauthenticated_user.authenticating_message(),
        "Authenticating user 5..."
    );

    let authenticated_user: User<Authenticated> = unauthenticated_user.authenticate();
    assert_eq!(authenticated_user.hello_message(), "User 5 says hello!");
    assert_eq!(authenticated_user.id_message(), "Authenticated user 5");
    assert_eq!(
        authenticated_user.secret_message(),
        "Authenticated user 5 knows a secret!"
    );
    assert_eq!(
        authenticated_user.logging_out_message(),
        "Authenticated user 5 logging out..."
    );

    let logged_out_user: User<Unauthenticated> = authenticated_user.log_out();
    assert_eq!(logged_out_user.id_message(), "Unauthenticated user 5");
}

#[test]
fn authenticate_keeps_identifier() {
    for id in [0usize, 1, 9, 10, 42, 1000, usize::MAX] {
        let a = User::new(id).authenticate();
        assert_eq!(a.id_message(), format!("Authenticated user {}", id));
    }
}

#[test]
fn round_trip_gives_back_new_user() {
    for id in [0usize, 7, 99, 123456789] {
        let back = User::new(id).authenticate().log_out();
        let fresh = User::new(id);
        assert_eq!(back.id_message(), fresh.id_message());
        assert_eq!(back.hello_message(), fresh.hello_message());
        assert_eq!(back.authenticating_message(), fresh.authenticating_message());
    }
}

#[test]
fn round_trip_twice() {
    let u = User::new(31).authenticate().log_out().authenticate().log_out();
    assert_eq!(u.id_message(), "Unauthenticated user 31");
}

#[test]
fn id_wording_depends_on_state() {
    let u = User::new(3);
    let before = u.id_message();
    let after = u.authenticate().id_message();
    assert_ne!(before, after);
    assert!(before.starts_with("Unauthenticated"));
    assert!(after.starts_with("Authenticated"));
}

#[test]
fn zero_identifier() {
    assert_eq!(User::new(0).hello_message(), "User 0 says hello!");
}

#[test]
fn largest_identifier() {
    let u = User::new(usize::MAX);
    assert_eq!(u.hello_message(), format!("User {} says hello!", usize::MAX));
    assert_eq!(
        u.authenticate().secret_message(),
        format!("Authenticated user {} knows a secret!", usize::MAX)
    );
}

#[test]
fn decimal_appends_to_existing_text() {
    let mut s = String::from("n=");
    push_decimal(&mut s, 1090);
    assert_eq!(s, "n=1090");
    let mut t = String::new();
    push_decimal(&mut t, 10);
    assert_eq!(t, "10");
}
