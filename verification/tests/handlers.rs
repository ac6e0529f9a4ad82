use request_observer::handlers::{
    compute_fib_recursive, compute_fibonacci, create_user, get_user, has_at_sign, health_check,
    list_users, list_users_as, user_of, CreateUserRequest, FibonacciRequest, HandlerError,
    LAST_FIBONACCI_INDEX, MAX_FIBONACCI_INDEX,
};

#[test]
fn fibonacci_numbers_start_with_zero_and_one() {
    let expected = [0u64, 1, 1, 2, 3, 5, 8, 13, 21, 34, 55, 89, 144];
    for (n, value) in expected.iter().enumerate() {
        assert_eq!(compute_fib_recursive(n as u32), *value);
    }
    assert_eq!(compute_fib_recursive(20), 6765);
    assert_eq!(compute_fib_recursive(30), 832040);
}

#[test]
fn fibonacci_numbers_follow_the_recurrence() {
    for n in 2..25u32 {
        assert_eq!(
            compute_fib_recursive(n),
            compute_fib_recursive(n - 1) + compute_fib_recursive(n - 2)
        );
    }
}

#[test]
fn fibonacci_request_is_answered_up_to_the_limit() {
    assert_eq!(compute_fibonacci(&FibonacciRequest { n: 0 }), Ok(0));
    assert_eq!(compute_fibonacci(&FibonacciRequest { n: 10 }), Ok(55));
    assert_eq!(compute_fibonacci(&FibonacciRequest { n: 25 }), Ok(75025));
}

#[test]
fn fibonacci_request_above_the_limit_is_refused() {
    assert_eq!(MAX_FIBONACCI_INDEX, 50);
    assert_eq!(LAST_FIBONACCI_INDEX, 93);
    assert_eq!(compute_fibonacci(&FibonacciRequest { n: 51 }), Err(HandlerError::IndexTooLarge));
    assert_eq!(
        compute_fibonacci(&FibonacciRequest { n: u32::MAX }),
        Err(HandlerError::IndexTooLarge)
    );
    assert_eq!(HandlerError::IndexTooLarge.message_text(), "n too large (max 50)");
}

#[test]
fn user_without_at_sign_is_refused() {
    let request = CreateUserRequest { name: "Carol".to_string(), email: "carol.example.com".to_string() };
    let answer = create_user(&request);
    assert!(matches!(answer, Err(HandlerError::InvalidEmail)));
    assert_eq!(HandlerError::InvalidEmail.message_text(), "Invalid email format");
    let empty = CreateUserRequest { name: "Carol".to_string(), email: String::new() };
    assert!(matches!(create_user(&empty), Err(HandlerError::InvalidEmail)));
}

#[test]
fn user_is_created_under_a_fresh_uuid() {
    let request = CreateUserRequest { name: "Carol".to_string(), email: "carol@example.com".to_string() };
    let first = create_user(&request).unwrap();
    let second = create_user(&request).unwrap();
    assert_eq!(first.name, "Carol");
    assert_eq!(first.email, "carol@example.com");
    assert_eq!(first.id.len(), 36);
    assert_eq!(uuid::Uuid::parse_str(&first.id).unwrap().to_string(), first.id);
    assert_eq!(uuid::Uuid::parse_str(&first.id).unwrap().get_version_num(), 4);
    assert_ne!(first.id, second.id);
    assert_ne!(first.id, request.name);
}

#[test]
fn user_is_made_of_the_request() {
    let request = CreateUserRequest { name: "Dan".to_string(), email: "dan@example.com".to_string() };
    let user = user_of("u-1".to_string(), &request);
    assert_eq!(user.id, "u-1");
    assert_eq!(user.name, "Dan");
    assert_eq!(user.email, "dan@example.com");
}

#[test]
fn at_sign_is_found_anywhere() {
    assert!(has_at_sign("a@b"));
    assert!(has_at_sign("@"));
    assert!(has_at_sign("ab@"));
    assert!(!has_at_sign(""));
    assert!(!has_at_sign("a.b"));
    assert!(!has_at_sign("a\u{ff20}b"));
}

#[test]
fn user_404_is_not_found() {
    assert!(matches!(get_user("404".to_string()), Err(HandlerError::UserNotFound)));
    assert_eq!(HandlerError::UserNotFound.message_text(), "User not found");
}

#[test]
fn other_users_are_john_doe() {
    for id in ["1", "4040", "40", "", "abc"] {
        let user = get_user(id.to_string()).unwrap();
        assert_eq!(user.id, id);
        assert_eq!(user.name, "John Doe");
        assert_eq!(user.email, "john@example.com");
    }
}

#[test]
fn users_are_alice_and_bob() {
    let users = list_users();
    assert_eq!(users.len(), 2);
    assert_eq!(users[0].name, "Alice");
    assert_eq!(users[0].email, "alice@example.com");
    assert_eq!(users[1].name, "Bob");
    assert_eq!(users[1].email, "bob@example.com");
    assert!(uuid::Uuid::parse_str(&users[0].id).is_ok());
    assert!(uuid::Uuid::parse_str(&users[1].id).is_ok());
    assert_eq!(users[0].id.len(), 36);
    assert_eq!(users[0].id, users[0].id.to_lowercase());
    assert_ne!(users[0].id, users[1].id);
}

#[test]
fn users_are_listed_under_given_identifiers() {
    let users = list_users_as("a".to_string(), "b".to_string());
    assert_eq!(users.len(), 2);
    assert_eq!(users[0].id, "a");
    assert_eq!(users[0].name, "Alice");
    assert_eq!(users[1].id, "b");
    assert_eq!(users[1].name, "Bob");
}

#[test]
fn health_is_reported_with_the_version() {
    let report = health_check("1.2.3");
    assert_eq!(report.status, "healthy");
    assert_eq!(report.version, "1.2.3");
}
