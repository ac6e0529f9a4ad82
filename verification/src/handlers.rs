//! What the sample handlers of the service decide: which users they answer with, which
//! requests they refuse, and the Fibonacci numbers.

use vstd::prelude::*;
use vstd::string::*;
use crate::identifier::{is_random_uuid, random_uuid_text};
use crate::text::chars_of;

verus! {

/// A user of the service.
#[derive(Clone, Debug)]
pub struct User {
    pub id: String,
    pub name: String,
    pub email: String,
}

/// The body of a request to create a user.
#[derive(Debug)]
pub struct CreateUserRequest {
    pub name: String,
    pub email: String,
}

/// The body of a request for a Fibonacci number.
#[derive(Debug)]
pub struct FibonacciRequest {
    pub n: u32,
}

/// What the health check reports.
#[derive(Debug)]
pub struct HealthReport {
    pub status: String,
    pub version: String,
}

/// Why a handler refuses a request.
#[derive(Clone, Copy, Debug, PartialEq, Eq, Structural)]
pub enum HandlerError {
    /// The e-mail address holds no `@`.
    InvalidEmail,
    /// No user has the identifier that was asked for.
    UserNotFound,
    /// The index of the Fibonacci number is above `MAX_FIBONACCI_INDEX`.
    IndexTooLarge,
}

/// The largest index for which a Fibonacci number is computed on request.
pub const MAX_FIBONACCI_INDEX: u32 = 50;

/// The largest index whose Fibonacci number fits in 64 bits.
pub const LAST_FIBONACCI_INDEX: u32 = 93;

impl HandlerError {
    /// The message that goes with the refusal.
    pub open spec fn message(self) -> Seq<char> {
        match self {
            HandlerError::InvalidEmail => "Invalid email format"@,
            HandlerError::UserNotFound => "User not found"@,
            HandlerError::IndexTooLarge => "n too large (max 50)"@,
        }
    }

    /// The message that goes with the refusal.
    pub fn message_text(&self) -> (text: String)
        ensures
            text@ == self.message(),
    {
        match self {
            HandlerError::InvalidEmail => "Invalid email format".to_owned(),
            HandlerError::UserNotFound => "User not found".to_owned(),
            HandlerError::IndexTooLarge => "n too large (max 50)".to_owned(),
        }
    }
}

/// The Fibonacci numbers: 0, 1, 1, 2, 3, 5, ...
pub open spec fn fib(n: nat) -> nat
    decreases n,
{
    if n <= 1 {
        n
    } else {
        fib((n - 1) as nat) + fib((n - 2) as nat)
    }
}

/// The Fibonacci numbers never fall.
pub proof fn lemma_fib_is_monotonic(i: nat, j: nat)
    requires
        i <= j,
    ensures
        fib(i) <= fib(j),
    decreases j,
{
    if i < j {
        if j >= 2 {
            lemma_fib_is_monotonic(i, (j - 1) as nat);
        }
    }
}

/// Eight steps along the Fibonacci numbers at once.
proof fn lemma_fib_eight_on(n: nat)
    ensures
        fib(n + 8) == 21 * fib(n + 1) + 13 * fib(n),
        fib(n + 9) == 34 * fib(n + 1) + 21 * fib(n),
{
    reveal_with_fuel(fib, 10);
}

/// The last Fibonacci number that fits in 64 bits.
pub proof fn lemma_fib_last()
    ensures
        fib(LAST_FIBONACCI_INDEX as nat) == 12200160415121876738,
{
    lemma_fib_eight_on(0);
    lemma_fib_eight_on(8);
    lemma_fib_eight_on(16);
    lemma_fib_eight_on(24);
    lemma_fib_eight_on(32);
    lemma_fib_eight_on(40);
    lemma_fib_eight_on(48);
    lemma_fib_eight_on(56);
    lemma_fib_eight_on(64);
    lemma_fib_eight_on(72);
    lemma_fib_eight_on(80);
    assert(fib(88) == 1100087778366101931 && fib(89) == 1779979416004714189);
    assert(fib(93) == 5 * fib(89) + 3 * fib(88)) by {
        reveal_with_fuel(fib, 6);
    }
}

/// Computes the Fibonacci number of index `n` by the recurrence itself.
pub fn compute_fib_recursive(n: u32) -> (value: u64)
    requires
        n <= LAST_FIBONACCI_INDEX,
    ensures
        value == fib(n as nat),
    decreases n,
{
    if n <= 1 {
        return n as u64;
    }
    proof {
        lemma_fib_last();
        lemma_fib_is_monotonic(n as nat, LAST_FIBONACCI_INDEX as nat);
    }
    let result = compute_fib_recursive(n - 1) + compute_fib_recursive(n - 2);
    result
}

/// Answers a request for a Fibonacci number: the number itself, or a refusal if the index is
/// above `MAX_FIBONACCI_INDEX`.
pub fn compute_fibonacci(request: &FibonacciRequest) -> (answer: Result<u64, HandlerError>)
    ensures
        answer == (if request.n > MAX_FIBONACCI_INDEX {
            Err::<u64, HandlerError>(HandlerError::IndexTooLarge)
        } else {
            Ok(fib(request.n as nat) as u64)
        }),
        request.n <= MAX_FIBONACCI_INDEX ==> fib(request.n as nat) <= u64::MAX,
{
    if request.n > MAX_FIBONACCI_INDEX {
        return Err(HandlerError::IndexTooLarge);
    }
    Ok(compute_fib_recursive(request.n))
}

/// Whether an e-mail address has the one thing that is asked of it: an `@`.
pub open spec fn is_email(address: Seq<char>) -> bool {
    address.contains('@')
}

/// Whether `address` holds an `@`.
pub fn has_at_sign(address: &str) -> (found: bool)
    ensures
        found == is_email(address@),
{
    let chars = chars_of(address);
    let mut i: usize = 0;
    while i < chars.len()
        invariant
            i <= chars.len(),
            chars@ == address@,
            forall|j: int| 0 <= j < i ==> address@[j] != '@',
        decreases chars.len() - i,
    {
        if chars[i] == '@' {
            return true;
        }
        i += 1;
    }
    false
}

/// The user that is made of a request under a given identifier.
pub open spec fn is_created(user: User, id: Seq<char>, request: CreateUserRequest) -> bool {
    &&& user.id@ == id
    &&& user.name@ == request.name@
    &&& user.email@ == request.email@
}

/// Makes the user that a request asks for, under a given identifier.
pub fn user_of(id: String, request: &CreateUserRequest) -> (user: User)
    ensures
        is_created(user, id@, *request),
{
    User { id, name: request.name.clone(), email: request.email.clone() }
}

/// Creates a user under a fresh random identifier, unless the e-mail address is refused.
pub fn create_user(request: &CreateUserRequest) -> (answer: Result<User, HandlerError>)
    ensures
        is_email(request.email@) ==> answer is Ok && is_random_uuid(answer->Ok_0.id@)
            && is_created(answer->Ok_0, answer->Ok_0.id@, *request),
        !is_email(request.email@) ==> answer == Err::<User, HandlerError>(
            HandlerError::InvalidEmail,
        ),
{
    if !has_at_sign(request.email.as_str()) {
        return Err(HandlerError::InvalidEmail);
    }
    Ok(user_of(random_uuid_text(), request))
}

/// The user who answers to every identifier that is known.
pub open spec fn is_john_doe(user: User, id: Seq<char>) -> bool {
    &&& user.id@ == id
    &&& user.name@ == "John Doe"@
    &&& user.email@ == "john@example.com"@
}

/// Looks a user up: every identifier is known but `404`.
pub fn get_user(user_id: String) -> (answer: Result<User, HandlerError>)
    ensures
        user_id@ != "404"@ ==> answer is Ok && is_john_doe(answer->Ok_0, user_id@),
        user_id@ == "404"@ ==> answer == Err::<User, HandlerError>(HandlerError::UserNotFound),
{
    if user_id == "404".to_owned() {
        return Err(HandlerError::UserNotFound);
    }
    Ok(User { id: user_id, name: "John Doe".to_owned(), email: "john@example.com".to_owned() })
}

/// The two users that the service lists, under given identifiers.
pub open spec fn is_listing(users: Seq<User>, first_id: Seq<char>, second_id: Seq<char>) -> bool {
    &&& users.len() == 2
    &&& users[0].id@ == first_id
    &&& users[0].name@ == "Alice"@
    &&& users[0].email@ == "alice@example.com"@
    &&& users[1].id@ == second_id
    &&& users[1].name@ == "Bob"@
    &&& users[1].email@ == "bob@example.com"@
}

/// Lists the users under given identifiers.
pub fn list_users_as(first_id: String, second_id: String) -> (users: Vec<User>)
    ensures
        is_listing(users@, first_id@, second_id@),
{
    let mut users: Vec<User> = Vec::new();
    users.push(
        User { id: first_id, name: "Alice".to_owned(), email: "alice@example.com".to_owned() },
    );
    users.push(
        User { id: second_id, name: "Bob".to_owned(), email: "bob@example.com".to_owned() },
    );
    users
}

/// Lists the users, each under a fresh random identifier.
pub fn list_users() -> (users: Vec<User>)
    ensures
        users@.len() == 2,
        is_random_uuid(users@[0].id@),
        is_random_uuid(users@[1].id@),
        is_listing(users@, users@[0].id@, users@[1].id@),
{
    let first_id = random_uuid_text();
    let second_id = random_uuid_text();
    list_users_as(first_id, second_id)
}

/// Reports that the service is healthy, and in which version it runs.
pub fn health_check(version: &str) -> (report: HealthReport)
    ensures
        report.status@ == "healthy"@,
        report.version@ == version@,
{
    HealthReport { status: "healthy".to_owned(), version: version.to_owned() }
}

} // verus!
