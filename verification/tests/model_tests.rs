use passvault::errors::{APIError, HandlerError};
use passvault::login_model::{
    join_commas, split_commas, validate_user_owns_login, Collection, Login, LoginDto,
};
use passvault::payment_model::{Payment, PaymentDto};
use passvault::secured_note::{validate_user_owns_secured_note, SecuredNote, SecuredNoteDto};

fn login_record() -> Login {
    Login {
        id: 3,
        used_at: "2024-02-02".to_string(),
        username: "u".to_string(),
        password: "p".to_string(),
        note: "n".to_string(),
        email: "e".to_string(),
        linked_websites: vec!["a.example".to_string()],
        collections: vec!["work".to_string()],
    }
}

#[test]
fn login_apply_update_merges_only_present_fields() {
    let update = LoginDto {
        username: None,
        note: Some("n2".to_string()),
        password: Some("p2".to_string()),
        email: None,
        linked_websites: Some(vec!["b.example".to_string(), "c.example".to_string()]),
        collections: None,
    };
    let merged = login_record().apply_update(update);
    assert_eq!(merged.id, 3);
    assert_eq!(merged.used_at, "2024-02-02");
    assert_eq!(merged.username, "u");
    assert_eq!(merged.note, "n2");
    assert_eq!(merged.password, "p2");
    assert_eq!(merged.email, "e");
    assert_eq!(merged.linked_websites, vec!["b.example".to_string(), "c.example".to_string()]);
    assert_eq!(merged.collections, vec!["work".to_string()]);
}

#[test]
fn login_apply_update_with_nothing_changes_nothing() {
    let update = LoginDto {
        username: None,
        note: None,
        password: None,
        email: None,
        linked_websites: None,
        collections: None,
    };
    let merged = login_record().apply_update(update);
    assert_eq!(merged.username, "u");
    assert_eq!(merged.password, "p");
    assert_eq!(merged.collections, vec!["work".to_string()]);
}

#[test]
fn payment_apply_update_merges_only_present_fields() {
    let payment = Payment {
        id: 4,
        card_holder: "Alice Doe".to_string(),
        card_number: "4111".to_string(),
        security_code: 123,
        expiration_month: 1,
        expiration_year: 30,
        name: "personal".to_string(),
        color: "red".to_string(),
        note: "".to_string(),
    };
    let update = PaymentDto {
        card_holder: None,
        card_number: Some("4242".to_string()),
        security_code: Some(999),
        expiration_month: None,
        expiration_year: None,
        name: None,
        color: Some("blue".to_string()),
        note: None,
    };
    let merged = payment.apply_update(update);
    assert_eq!(merged.id, 4);
    assert_eq!(merged.card_holder, "Alice Doe");
    assert_eq!(merged.card_number, "4242");
    assert_eq!(merged.security_code, 999);
    assert_eq!(merged.expiration_month, 1);
    assert_eq!(merged.expiration_year, 30);
    assert_eq!(merged.name, "personal");
    assert_eq!(merged.color, "blue");
    assert_eq!(merged.note, "");
}

#[test]
fn note_apply_update_merges_only_present_fields() {
    let note = SecuredNote {
        id: 5,
        name: "n".to_string(),
        content: "c".to_string(),
        created_at: "t0".to_string(),
        modified_at: "t1".to_string(),
        color: "green".to_string(),
    };
    let update =
        SecuredNoteDto { name: Some("n2".to_string()), content: None, color: None };
    let merged = note.apply_update(update);
    assert_eq!(merged.id, 5);
    assert_eq!(merged.name, "n2");
    assert_eq!(merged.content, "c");
    assert_eq!(merged.created_at, "t0");
    assert_eq!(merged.modified_at, "t1");
    assert_eq!(merged.color, "green");
}

#[test]
fn ownership_checks_pass_only_for_the_owner() {
    assert!(validate_user_owns_login(1, 1).is_ok());
    match validate_user_owns_login(1, 2) {
        Err(APIError::Unauthorized(m)) => assert_eq!(m, "Login doesn't belong to user."),
        _ => panic!("foreign login must be unauthorized"),
    }
    assert!(validate_user_owns_secured_note(1, 1).is_ok());
    match validate_user_owns_secured_note(1, 2) {
        Err(APIError::Unauthorized(m)) => assert_eq!(m, "Note doesn't belong to user."),
        _ => panic!("foreign note must be unauthorized"),
    }
}

#[test]
fn join_and_split_store_lists_as_comma_text() {
    let items = vec!["a.example".to_string(), "b.example".to_string()];
    let joined = join_commas(&items);
    assert_eq!(joined, "a.example,b.example");
    assert_eq!(split_commas(&joined), items);
    assert_eq!(join_commas(&Vec::new()), "");
    assert_eq!(split_commas(""), vec!["".to_string()]);
    assert_eq!(
        split_commas("a,,b"),
        vec!["a".to_string(), "".to_string(), "b".to_string()]
    );
    let single = vec!["only".to_string()];
    assert_eq!(split_commas(&join_commas(&single)), single);
}

#[test]
fn handler_error_maps_into_the_api_error() {
    let bad = APIError::from(HandlerError::BadRequest("no".to_string()));
    match bad {
        APIError::BadRequest(m) => assert_eq!(m, "no"),
        _ => panic!("bad request maps to bad request"),
    }
    let internal = APIError::from(HandlerError::InternalError("oops".to_string()));
    match internal {
        APIError::InternalError(m) => assert_eq!(m, "oops"),
        _ => panic!("internal maps to internal"),
    }
}

#[test]
fn default_internal_error_carries_the_generic_message() {
    match HandlerError::default_internal_error() {
        HandlerError::InternalError(m) => {
            assert_eq!(m, "Something went wrong! Please try again.")
        }
        _ => panic!("default error is internal"),
    }
}

#[test]
fn collection_carries_the_requested_ids() {
    let c = Collection { ids: vec![1, 2, 3] };
    assert_eq!(c.ids.len(), 3);
}
