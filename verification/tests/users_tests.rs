use authnotes::error::{Error, UserError};
use authnotes::users::{UserCreate, UserEdit, UserLogin, UsersService};

fn create(name: &str, nickname: &str, password: &str) -> UserCreate {
    UserCreate {
        name: name.to_string(),
        nickname: nickname.to_string(),
        password: password.to_string(),
    }
}

#[test]
fn created_users_get_increasing_ids() {
    let mut users = UsersService::new();
    let a = users.create_user(create("Alice", "alice1", "pw-a")).unwrap();
    let b = users.create_user(create("Bob", "bob1", "pw-b")).unwrap();
    assert_eq!(a.id, 0);
    assert_eq!(b.id, 1);
    assert_eq!(a.nickname, "alice1");
    assert_eq!(a.name, "Alice");
}

#[test]
fn duplicate_nickname_is_rejected() {
    let mut users = UsersService::new();
    users.create_user(create("Alice", "alice1", "pw-a")).unwrap();
    let err = users.create_user(create("Another", "alice1", "pw-x")).unwrap_err();
    assert_eq!(err, Error::User(UserError::RegisterFailNicknameCaptured));
    assert_eq!(users.len(), 1);
}

#[test]
fn login_finds_the_user_by_nickname() {
    let mut users = UsersService::new();
    users.create_user(create("Alice", "alice1", "pw-a")).unwrap();
    let user = users
        .login(UserLogin { nickname: "alice1".to_string(), password: "pw-a".to_string() })
        .unwrap();
    assert_eq!(user.id, 0);
    assert_eq!(user.name, "Alice");
}

#[test]
fn login_rejects_a_wrong_password_and_an_unknown_nickname() {
    let mut users = UsersService::new();
    users.create_user(create("Alice", "alice1", "pw-a")).unwrap();
    let wrong = users
        .login(UserLogin { nickname: "alice1".to_string(), password: "nope".to_string() })
        .unwrap_err();
    assert_eq!(wrong, Error::User(UserError::LoginFailInvalidParams));
    let unknown = users
        .login(UserLogin { nickname: "carol".to_string(), password: "pw".to_string() })
        .unwrap_err();
    assert_eq!(unknown, Error::User(UserError::UserDoesNotExists));
}

#[test]
fn empty_edit_is_rejected() {
    let mut users = UsersService::new();
    users.create_user(create("Alice", "alice1", "pw-a")).unwrap();
    let err = users
        .edit_user(UserEdit {
            id: 0,
            password: "pw-a".to_string(),
            name: None,
            nickname: None,
            new_password: None,
        })
        .unwrap_err();
    assert_eq!(err, Error::User(UserError::EmptyFieldToEdit));
}

#[test]
fn edit_to_a_nickname_captured_by_another_user_is_rejected() {
    let mut users = UsersService::new();
    users.create_user(create("Alice", "alice1", "pw-a")).unwrap();
    users.create_user(create("Bob", "bob1", "pw-b")).unwrap();
    let err = users
        .edit_user(UserEdit {
            id: 1,
            password: "pw-b".to_string(),
            name: None,
            nickname: Some("alice1".to_string()),
            new_password: None,
        })
        .unwrap_err();
    assert_eq!(err, Error::User(UserError::EditFailNicknameCaptured));
    let unchanged = users
        .login(UserLogin { nickname: "bob1".to_string(), password: "pw-b".to_string() })
        .unwrap();
    assert_eq!(unchanged.id, 1);
}

#[test]
fn keeping_ones_own_nickname_in_an_edit_is_allowed() {
    let mut users = UsersService::new();
    users.create_user(create("Alice", "alice1", "pw-a")).unwrap();
    let edited = users
        .edit_user(UserEdit {
            id: 0,
            password: "pw-a".to_string(),
            name: Some("Alicia".to_string()),
            nickname: Some("alice1".to_string()),
            new_password: None,
        })
        .unwrap();
    assert_eq!(edited.name, "Alicia");
    assert_eq!(edited.nickname, "alice1");
}

#[test]
fn edit_without_new_password_stores_the_supplied_password() {
    let mut users = UsersService::new();
    users.create_user(create("Alice", "alice1", "pw-a")).unwrap();
    users
        .edit_user(UserEdit {
            id: 0,
            password: "sent-along".to_string(),
            name: Some("Alicia".to_string()),
            nickname: None,
            new_password: None,
        })
        .unwrap();
    assert!(users.authenticate(&0, &"sent-along".to_string()).is_ok());
    let edited = users
        .edit_user(UserEdit {
            id: 0,
            password: "sent-along".to_string(),
            name: None,
            nickname: None,
            new_password: Some("fresh".to_string()),
        })
        .unwrap();
    assert_eq!(edited.password, "fresh");
    assert!(users.authenticate(&0, &"fresh".to_string()).is_ok());
}

#[test]
fn edit_of_a_missing_user_is_not_found() {
    let mut users = UsersService::new();
    let err = users
        .edit_user(UserEdit {
            id: 3,
            password: "pw".to_string(),
            name: Some("X".to_string()),
            nickname: None,
            new_password: None,
        })
        .unwrap_err();
    assert_eq!(err, Error::User(UserError::UserDoesNotExists));
}

#[test]
fn delete_removes_the_user_and_frees_nothing_else() {
    let mut users = UsersService::new();
    users.create_user(create("Alice", "alice1", "pw-a")).unwrap();
    users.create_user(create("Bob", "bob1", "pw-b")).unwrap();
    let deleted = users.delete_user(0).unwrap();
    assert_eq!(deleted.nickname, "alice1");
    assert_eq!(users.delete_user(0).unwrap_err(), Error::User(UserError::UserDoesNotExists));
    let still_there = users
        .login(UserLogin { nickname: "bob1".to_string(), password: "pw-b".to_string() })
        .unwrap();
    assert_eq!(still_there.id, 1);
}

#[test]
fn a_freed_nickname_can_be_registered_again() {
    let mut users = UsersService::new();
    users.create_user(create("Alice", "alice1", "pw-a")).unwrap();
    users.delete_user(0).unwrap();
    let again = users.create_user(create("New Alice", "alice1", "pw-n")).unwrap();
    assert_eq!(again.id, 1);
}

#[test]
fn authenticate_checks_password_and_existence() {
    let mut users = UsersService::new();
    users.create_user(create("Alice", "alice1", "pw-a")).unwrap();
    assert!(users.authenticate(&0, &"pw-a".to_string()).is_ok());
    assert_eq!(
        users.authenticate(&0, &"bad".to_string()).unwrap_err(),
        Error::User(UserError::AuthFail)
    );
    assert_eq!(
        users.authenticate(&9, &"pw-a".to_string()).unwrap_err(),
        Error::User(UserError::UserDoesNotExists)
    );
}
