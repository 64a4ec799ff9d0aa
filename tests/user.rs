use structures::User;

#[test]
fn email_replaced_other_fields_kept() {
    let mut user1 = User::new(
        String::from("someusername123"),
        String::from("someone@example.com"),
        1,
        true,
    );
    user1.set_email(String::from("anotheremail@example.com"));
    assert_eq!(user1.email, "anotheremail@example.com");
    assert_eq!(user1.username, "someusername123");
    assert_eq!(user1.sign_in_count, 1);
    assert!(user1.active);
}

#[test]
fn new_keeps_every_field() {
    let user = User::new(String::from("u"), String::from("e@x"), u64::MAX, false);
    assert_eq!(user.username, "u");
    assert_eq!(user.email, "e@x");
    assert_eq!(user.sign_in_count, u64::MAX);
    assert!(!user.active);
}

#[test]
fn set_email_to_empty_and_back() {
    let mut user = User::new(String::from("name"), String::from("first@x"), 7, true);
    user.set_email(String::new());
    assert_eq!(user.email, "");
    user.set_email(String::from("second@x"));
    assert_eq!(user.email, "second@x");
    assert_eq!(user.username, "name");
    assert_eq!(user.sign_in_count, 7);
    assert!(user.active);
}
