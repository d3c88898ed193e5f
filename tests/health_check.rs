use zero2prod::routes::health_check::{health_check, Status};
use zero2prod::routes::subscriptions::{
    finish_subscribe, parse_form, subscribe, FormData, FormError, FormField, SubscribeStep,
};
use zero2prod::startup::{route, Route};

const FORM: &str = "application/x-www-form-urlencoded";

fn inserted_row(body: &str) -> (String, String, u128) {
    let form = parse_form(FORM, body.as_bytes());
    match subscribe(form) {
        SubscribeStep::Insert(row) => (row.name, row.email, row.id),
        SubscribeStep::Respond(reply) => panic!("rejected with {}", reply.status.code()),
    }
}

fn rejection_code(body: &str) -> u16 {
    match subscribe(parse_form(FORM, body.as_bytes())) {
        SubscribeStep::Respond(reply) => {
            assert!(reply.body.is_empty());
            reply.status.code()
        }
        SubscribeStep::Insert(_) => panic!("a row would be inserted"),
    }
}

#[test]
fn subscribe_returns_a_200_for_valid_form_data() {
    let body = "name=foo%20bar&email=foobar%40baz.mail";
    let (name, email, _) = inserted_row(body);
    let reply = finish_subscribe(true);
    assert_eq!(200, reply.status.code());
    assert_eq!(name, "foo bar");
    assert_eq!(email, "foobar@baz.mail");
}

#[test]
fn subscribe_returns_a_400_for_missing_form_data() {
    let invalid_bodies = vec![
        ("name=foo%20bar", "missing email"),
        ("email=foobar%40baz.mail", "missing name"),
        ("", "missing name and email"),
    ];
    for (invalid_body, error_message) in invalid_bodies {
        assert_eq!(
            400,
            rejection_code(invalid_body),
            "The API did not fail with 400 Bad Request when the payload was {}",
            error_message
        );
    }
}

#[test]
fn health_check_works() {
    let reply = health_check();
    assert_eq!(reply.status, Status::Success);
    assert_eq!(200, reply.status.code());
    assert_eq!(0, reply.body.len());
}

#[test]
fn missing_fields_name_the_field() {
    assert_eq!(
        parse_form(FORM, b"name=foo%20bar").err(),
        Some(FormError::MissingField(FormField::Email))
    );
    assert_eq!(
        parse_form(FORM, b"email=foobar%40baz.mail").err(),
        Some(FormError::MissingField(FormField::Name))
    );
    assert_eq!(
        parse_form(FORM, b"").err(),
        Some(FormError::MissingField(FormField::Name))
    );
}

#[test]
fn repeated_fields_are_rejected() {
    assert_eq!(
        parse_form(FORM, b"name=a&name=b&email=c").err(),
        Some(FormError::DuplicateField(FormField::Name))
    );
    assert_eq!(
        parse_form(FORM, b"name=a&email=b&email=c").err(),
        Some(FormError::DuplicateField(FormField::Email))
    );
    assert_eq!(400, rejection_code("name=a&name=b&email=c"));
}

#[test]
fn other_media_types_are_rejected() {
    assert_eq!(
        parse_form("application/json", b"name=a&email=b").err(),
        Some(FormError::ContentType)
    );
    assert_eq!(
        parse_form("", b"name=a&email=b").err(),
        Some(FormError::ContentType)
    );
}

#[test]
fn media_type_case_is_ignored() {
    let form = parse_form("Application/X-WWW-Form-URLEncoded", b"name=a&email=b").unwrap();
    assert_eq!(form.name, "a");
    assert_eq!(form.email, "b");
}

#[test]
fn plus_and_escapes_are_decoded_and_other_keys_ignored() {
    let form = parse_form(FORM, b"email=le%20guin%40ursula.org&x=1&name=Ursula+K.").unwrap();
    assert_eq!(form.name, "Ursula K.");
    assert_eq!(form.email, "le guin@ursula.org");
}

#[test]
fn inserted_row_has_a_random_uuid() {
    let (_, _, id) = inserted_row("name=a&email=b");
    assert_eq!((id >> 76) & 0xf, 4);
    assert_eq!((id >> 62) & 0x3, 2);
    let (_, _, other) = inserted_row("name=a&email=b");
    assert_ne!(id, other);
}

#[test]
fn inserted_row_copies_the_form() {
    let form = FormData { name: "le guin".to_string(), email: "ursula@example.com".to_string() };
    match subscribe(Ok(form)) {
        SubscribeStep::Insert(row) => {
            assert_eq!(row.name, "le guin");
            assert_eq!(row.email, "ursula@example.com");
            assert!(row.subscribed_at.nanos < 1_000_000_000);
            assert!(row.subscribed_at.secs > 1_600_000_000);
        }
        SubscribeStep::Respond(_) => panic!("a valid form was rejected"),
    }
}

#[test]
fn database_failure_gives_500() {
    let reply = finish_subscribe(false);
    assert_eq!(reply.status, Status::InternalServerError);
    assert_eq!(500, reply.status.code());
    assert!(reply.body.is_empty());
}

#[test]
fn routes_are_dispatched_by_method_and_path() {
    assert_eq!(route("GET", "/health_check"), Some(Route::HealthCheck));
    assert_eq!(route("POST", "/subscriptions"), Some(Route::Subscribe));
    assert_eq!(route("POST", "/health_check"), None);
    assert_eq!(route("GET", "/subscriptions"), None);
    assert_eq!(route("GET", "/health_check/"), None);
    assert_eq!(route("GET", "/"), None);
}
