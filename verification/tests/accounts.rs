use civic_graph::accounts::{
    hash_password, AccountError, CreateUserInput, HashFailed, NewUser, Role, StorageFailure,
    UserMutation,
};
use civic_graph::ident::InvalidId;
use civic_graph::office::{OfficeMutation, OfficeTarget};

#[test]
fn a_new_user_is_basic_unless_told_otherwise() {
    assert_eq!(Role::or_basic(None), Role::BASIC);
    assert_eq!(Role::or_basic(Some(Role::STAFF)), Role::STAFF);
    assert_eq!(Role::or_basic(Some(Role::SUPERUSER)), Role::SUPERUSER);
}

#[test]
fn role_names_are_lower_case() {
    assert_eq!(Role::SUPERUSER.name(), "superuser");
    assert_eq!(Role::STAFF.name(), "staff");
    assert_eq!(Role::PREMIUM.name(), "premium");
    assert_eq!(Role::BASIC.name(), "basic");
}

#[test]
fn update_username_outcomes() {
    assert_eq!(UserMutation::update_username(Ok("ann".to_string())), Ok("ann".to_string()));
    assert_eq!(
        UserMutation::update_username(Err(StorageFailure::RowNotFound)),
        Err(AccountError::UserNotFound)
    );
    assert_eq!(
        UserMutation::update_username(Err(StorageFailure::Constraint(
            "populist_user_username_key".to_string()
        ))),
        Err(AccountError::UsernameTaken)
    );
    assert_eq!(
        UserMutation::update_username(Err(StorageFailure::Constraint(
            "populist_user_email_key".to_string()
        ))),
        Err(AccountError::Storage)
    );
    assert_eq!(
        UserMutation::update_username(Err(StorageFailure::Other)),
        Err(AccountError::Storage)
    );
}

#[test]
fn update_email_outcomes() {
    assert_eq!(UserMutation::update_email(Ok("a@b.c".to_string())), Ok("a@b.c".to_string()));
    assert_eq!(
        UserMutation::update_email(Err(StorageFailure::RowNotFound)),
        Err(AccountError::UserNotFound)
    );
    assert_eq!(
        UserMutation::update_email(Err(StorageFailure::Constraint(
            "populist_user_email_key".to_string()
        ))),
        Err(AccountError::UserExistsError)
    );
    assert_eq!(
        UserMutation::update_email(Err(StorageFailure::Constraint(
            "populist_user_username_key".to_string()
        ))),
        Err(AccountError::Storage)
    );
    assert_eq!(UserMutation::update_email(Err(StorageFailure::Other)), Err(AccountError::Storage));
}

#[test]
fn update_name_outcomes() {
    let names = (Some("Ann".to_string()), None);
    assert_eq!(UserMutation::update_first_and_last_name(Ok(names.clone())), Ok(names));
    assert_eq!(
        UserMutation::update_first_and_last_name(Err(StorageFailure::RowNotFound)),
        Err(AccountError::UserNotFound)
    );
    assert_eq!(
        UserMutation::update_first_and_last_name(Err(StorageFailure::Constraint(
            "populist_user_username_key".to_string()
        ))),
        Err(AccountError::Storage)
    );
}

#[test]
fn office_mutations_address_the_parsed_id() {
    let text = "00000000-0000-0000-0000-000000000010";
    assert_eq!(OfficeMutation::update_office(text), Ok(OfficeTarget::Update(16)));
    assert_eq!(OfficeMutation::delete_office(text), Ok(OfficeTarget::Delete(16)));
    assert_eq!(OfficeMutation::update_office("sixteen"), Err(InvalidId));
    assert_eq!(OfficeMutation::delete_office(""), Err(InvalidId));
}

fn ann() -> CreateUserInput {
    CreateUserInput {
        email: "Ann@Example.org".to_string(),
        username: "Ann".to_string(),
        password: "correct horse".to_string(),
        role: None,
        organization_id: Some(7),
    }
}

#[test]
fn a_password_is_stored_as_a_salted_hash() {
    let first = hash_password("correct horse").unwrap();
    let second = hash_password("correct horse").unwrap();
    assert_ne!(first, "correct horse");
    assert_ne!(first, second);
    assert!(first.starts_with("$2"));
    assert_eq!(first.len(), 60);
}

#[test]
fn a_new_user_row_takes_the_hash_it_is_given() {
    let row = NewUser::with_hash(&ann(), Ok("$2b$hash".to_string())).unwrap();
    assert_eq!(
        row,
        NewUser {
            email: "Ann@Example.org".to_string(),
            username: "Ann".to_string(),
            password_hash: "$2b$hash".to_string(),
            role: Role::BASIC,
            organization_id: Some(7),
        }
    );
    assert_eq!(NewUser::with_hash(&ann(), Err(HashFailed)), Err(HashFailed));
}

#[test]
fn a_new_user_row_keeps_the_role_asked_for() {
    let mut input = ann();
    input.role = Some(Role::PREMIUM);
    input.organization_id = None;
    let row = NewUser::prepare(&input).unwrap();
    assert_eq!(row.role, Role::PREMIUM);
    assert_eq!(row.organization_id, None);
    assert_eq!(row.email, "Ann@Example.org");
    assert_eq!(row.username, "Ann");
    assert_ne!(row.password_hash, input.password);
}
