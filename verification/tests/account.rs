use taskflow::account::{Color, Point, User};

#[test]
fn new_user_is_active_with_one_sign_in() {
    let user = User::new(String::from("someone@example.com"), String::from("someusername123"));
    assert!(user.is_active());
    assert_eq!(
        format!("{:?}", user),
        "User { active: true, username: \"someusername123\", email: \"someone@example.com\", sign_in_count: 1 }"
    );
    assert_eq!(user.into_username(), "someusername123");
}

#[test]
fn from_email_names_the_user_after_the_local_part() {
    let user = User::from_email("alice@example.org");
    assert!(user.is_active());
    assert_eq!(user.email_domain(), Some("example.org"));
    assert_eq!(user.into_username(), "alice");
}

#[test]
fn from_email_without_at_sign_takes_everything() {
    let user = User::from_email("alice");
    assert_eq!(user.email_domain(), None);
    assert_eq!(user.into_username(), "alice");
}

#[test]
fn from_email_edge_cases() {
    assert_eq!(User::from_email("").into_username(), "");
    assert_eq!(User::from_email("@example.org").into_username(), "");
    assert_eq!(User::from_email("a@b@c").into_username(), "a");
    assert_eq!(User::from_email("zoë@example.org").into_username(), "zoë");
}

#[test]
fn promote_counts_one_more_sign_in() {
    let mut user = User::new(String::from("a@b.c"), String::from("a"));
    user.promote();
    user.promote();
    assert!(format!("{:?}", user).ends_with("sign_in_count: 3 }"));
    assert!(user.is_active());
}

#[test]
fn activate_and_deactivate_switch_the_flag() {
    let mut user = User::new(String::from("a@b.c"), String::from("a"));
    user.deactivate();
    assert!(!user.is_active());
    user.deactivate();
    assert!(!user.is_active());
    user.activate();
    assert!(user.is_active());
    assert_eq!(user.email_domain(), Some("b.c"));
}

#[test]
fn email_domain_lies_between_the_first_two_at_signs() {
    let domain = |email: &str| {
        User::new(String::from(email), String::new()).email_domain().map(String::from)
    };
    assert_eq!(domain("someone@example.com"), Some(String::from("example.com")));
    assert_eq!(domain("a@b@c"), Some(String::from("b")));
    assert_eq!(domain("a@"), Some(String::new()));
    assert_eq!(domain("@"), Some(String::new()));
    assert_eq!(domain("a@@c"), Some(String::new()));
    assert_eq!(domain("ü@münchen.de"), Some(String::from("münchen.de")));
    assert_eq!(domain("no-at-sign"), None);
    assert_eq!(domain(""), None);
}

#[test]
fn colors_and_points_hold_three_numbers() {
    let black = Color(0, 0, 0);
    let origin = Point(1, 2, 3);
    assert_eq!((black.0, black.1, black.2), (0, 0, 0));
    assert_eq!((origin.0, origin.1, origin.2), (1, 2, 3));
    assert_eq!(format!("{:?}", black), "Color(0, 0, 0)");
}
