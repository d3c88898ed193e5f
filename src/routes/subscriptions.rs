//! `POST /subscriptions`: decoding of the form, its validation, the row that
//! is inserted and the status of the reply.
use crate::routes::health_check::{Reply, Status, empty_reply, status_code};
use crate::text::{lower_of, lowercase, same_text};
use vstd::prelude::*;

verus! {

/// The media type that a subscription form must have.
pub const FORM_CONTENT_TYPE: &'static str = "application/x-www-form-urlencoded";

/// The statement that stores a subscriber; its parameters are, in order, the
/// id, the name, the email and the time of subscription.
pub const INSERT_SUBSCRIBER_SQL: &'static str = "INSERT INTO subscriptions (id, name, email, subscribed_at) VALUES ($1, $2, $3, $4)";

/// The fields of a subscription form.
pub struct FormData {
    pub name: String,
    pub email: String,
}

/// A field of the form.
#[derive(Clone, Copy, Debug, PartialEq, Eq, Structural)]
pub enum FormField {
    Name,
    Email,
}

/// Why a request body is not a subscription form.
#[derive(Clone, Copy, Debug, PartialEq, Eq, Structural)]
pub enum FormError {
    /// The media type is not `application/x-www-form-urlencoded`.
    ContentType,
    /// The field does not occur.
    MissingField(FormField),
    /// The field occurs more than once.
    DuplicateField(FormField),
}

/// The name of a form field's key.
pub open spec fn field_key(f: FormField) -> Seq<char> {
    match f {
        FormField::Name => "name"@,
        FormField::Email => "email"@,
    }
}

/// The decoded key/value pairs of a urlencoded body, in order, as
/// `serde_urlencoded` produces them.
pub uninterp spec fn form_pairs_of(body: Seq<u8>) -> Seq<(Seq<char>, Seq<char>)>;

/// The characters of a list of decoded pairs.
pub open spec fn pairs_view(v: Seq<(String, String)>) -> Seq<(Seq<char>, Seq<char>)> {
    v.map_values(|p: (String, String)| (p.0@, p.1@))
}

/// Relies on `serde_urlencoded::from_bytes` into a list of string pairs: it
/// splits on `&` and `=`, decodes `+` and percent escapes (invalid UTF-8
/// lossily), yields no pair for an empty body, and does not fail for this
/// target type.
#[verifier::external_body]
fn decode_pairs(body: &[u8]) -> (r: Vec<(String, String)>)
    ensures
        pairs_view(r@) == form_pairs_of(body@),
        body@.len() == 0 ==> r@.len() == 0,
{
    match serde_urlencoded::from_bytes::<Vec<(String, String)>>(body) {
        Ok(pairs) => pairs,
        Err(_) => Vec::new(),
    }
}

/// How many pairs have the key.
pub open spec fn key_count(p: Seq<(Seq<char>, Seq<char>)>, key: Seq<char>) -> nat
    decreases p.len(),
{
    if p.len() == 0 {
        0
    } else {
        key_count(p.drop_last(), key) + if p.last().0 == key {
            1nat
        } else {
            0nat
        }
    }
}

/// The value of the last pair with the key (empty where there is none).
pub open spec fn last_value(p: Seq<(Seq<char>, Seq<char>)>, key: Seq<char>) -> Seq<char>
    decreases p.len(),
{
    if p.len() == 0 {
        Seq::empty()
    } else if p.last().0 == key {
        p.last().1
    } else {
        last_value(p.drop_last(), key)
    }
}

/// What a list of pairs gives: both fields exactly once, or the first of these
/// faults: a repeated name, a repeated email, no name, no email. Other keys are
/// ignored.
pub open spec fn form_of(p: Seq<(Seq<char>, Seq<char>)>) -> Result<(Seq<char>, Seq<char>), FormError> {
    let names = key_count(p, field_key(FormField::Name));
    let emails = key_count(p, field_key(FormField::Email));
    if names >= 2 {
        Err(FormError::DuplicateField(FormField::Name))
    } else if emails >= 2 {
        Err(FormError::DuplicateField(FormField::Email))
    } else if names == 0 {
        Err(FormError::MissingField(FormField::Name))
    } else if emails == 0 {
        Err(FormError::MissingField(FormField::Email))
    } else {
        Ok((last_value(p, field_key(FormField::Name)), last_value(p, field_key(FormField::Email))))
    }
}

/// Whether a form result agrees with its model.
pub open spec fn form_agrees(r: Result<FormData, FormError>, m: Result<(Seq<char>, Seq<char>), FormError>) -> bool {
    match r {
        Ok(f) => m == Ok::<(Seq<char>, Seq<char>), FormError>((f.name@, f.email@)),
        Err(e) => m == Err::<(Seq<char>, Seq<char>), FormError>(e),
    }
}

fn is_key(k: &String, f: FormField) -> (r: bool)
    ensures
        r == (k@ == field_key(f)),
{
    match f {
        FormField::Name => same_text(k.as_str(), "name"),
        FormField::Email => same_text(k.as_str(), "email"),
    }
}

/// Takes the form's fields from decoded pairs.
pub fn form_from_pairs(pairs: &Vec<(String, String)>) -> (r: Result<FormData, FormError>)
    ensures
        form_agrees(r, form_of(pairs_view(pairs@))),
{
    let ghost pv = pairs_view(pairs@);
    let ghost nk = field_key(FormField::Name);
    let ghost ek = field_key(FormField::Email);
    proof {
        reveal_strlit("name");
        reveal_strlit("email");
        assert(nk.len() != ek.len());
    }
    let mut names: usize = 0;
    let mut emails: usize = 0;
    let mut name = String::new();
    let mut email = String::new();
    let mut i: usize = 0;
    while i < pairs.len()
        invariant
            pv == pairs_view(pairs@),
            pv.len() == pairs@.len(),
            nk == field_key(FormField::Name),
            ek == field_key(FormField::Email),
            nk != ek,
            i <= pairs@.len(),
            names <= 2,
            emails <= 2,
            names == (if key_count(pv.take(i as int), nk) >= 2 { 2 } else { key_count(pv.take(i as int), nk) }),
            emails == (if key_count(pv.take(i as int), ek) >= 2 { 2 } else { key_count(pv.take(i as int), ek) }),
            name@ == last_value(pv.take(i as int), nk),
            email@ == last_value(pv.take(i as int), ek),
        decreases pairs@.len() - i,
    {
        let pair = &pairs[i];
        assert(pv.take(i + 1).drop_last() == pv.take(i as int));
        assert(pv.take(i + 1).last() == pv[i as int]);
        assert(pv[i as int] == (pair.0@, pair.1@));
        if is_key(&pair.0, FormField::Name) {
            if names < 2 {
                names = names + 1;
            }
            name = pair.1.clone();
        } else if is_key(&pair.0, FormField::Email) {
            if emails < 2 {
                emails = emails + 1;
            }
            email = pair.1.clone();
        }
        i = i + 1;
    }
    assert(pv.take(pairs@.len() as int) == pv);
    if names >= 2 {
        Err(FormError::DuplicateField(FormField::Name))
    } else if emails >= 2 {
        Err(FormError::DuplicateField(FormField::Email))
    } else if names == 0 {
        Err(FormError::MissingField(FormField::Name))
    } else if emails == 0 {
        Err(FormError::MissingField(FormField::Email))
    } else {
        Ok(FormData { name, email })
    }
}

/// Whether a media type, ignoring case, is that of a urlencoded form.
pub open spec fn is_form_media_type(content_type: Seq<char>) -> bool {
    lower_of(content_type) == FORM_CONTENT_TYPE@
}

/// Decodes a request body into a subscription form. `content_type` is the
/// media type of the request, without its parameters.
pub fn parse_form(content_type: &str, body: &[u8]) -> (r: Result<FormData, FormError>)
    ensures
        !is_form_media_type(content_type@) ==> r == Err::<FormData, FormError>(FormError::ContentType),
        is_form_media_type(content_type@) ==> form_agrees(r, form_of(form_pairs_of(body@))),
        is_form_media_type(content_type@) && body@.len() == 0 ==> r == Err::<FormData, FormError>(
            FormError::MissingField(FormField::Name),
        ),
{
    let lowered = lowercase(content_type);
    if !same_text(lowered.as_str(), FORM_CONTENT_TYPE) {
        return Err(FormError::ContentType);
    }
    let pairs = decode_pairs(body);
    let r = form_from_pairs(&pairs);
    proof {
        if body@.len() == 0 {
            assert(pairs_view(pairs@).len() == 0);
            assert(key_count(pairs_view(pairs@), field_key(FormField::Name)) == 0);
        }
    }
    r
}

/// A point in time: seconds since the Unix epoch and the nanoseconds past
/// that second.
#[derive(Clone, Copy, Debug, PartialEq, Eq, Structural)]
pub struct Timestamp {
    pub secs: i64,
    pub nanos: u32,
}

impl Timestamp {
    pub open spec fn wf(&self) -> bool {
        self.nanos < 1_000_000_000
    }
}

/// Relies on `chrono::Utc::now`, which builds the time from
/// `SystemTime::duration_since(UNIX_EPOCH)`: its sub-second part is below one
/// second.
#[verifier::external_body]
fn utc_now() -> (r: Timestamp)
    ensures
        r.wf(),
{
    let now = chrono::Utc::now();
    Timestamp { secs: now.timestamp(), nanos: now.timestamp_subsec_nanos() }
}

/// Whether a 128-bit value, read big-endian, is a random (version 4, RFC 4122
/// variant) UUID.
pub open spec fn is_random_uuid(id: u128) -> bool {
    (id >> 76u128) & 0xf == 4 && (id >> 62u128) & 0x3 == 2
}

/// Relies on `uuid::Uuid::new_v4`, which masks random bits with the version 4
/// and RFC 4122 variant bits, and `Uuid::as_u128`, which reads the bytes
/// big-endian.
#[verifier::external_body]
fn new_uuid() -> (r: u128)
    ensures
        is_random_uuid(r),
{
    uuid::Uuid::new_v4().as_u128()
}

/// A subscriber row as it is inserted.
pub struct NewSubscriber {
    pub id: u128,
    pub name: String,
    pub email: String,
    pub subscribed_at: Timestamp,
}

/// The row that stores a form, under a fresh random id and the current time.
pub fn insert_subscriber(form: &FormData) -> (r: NewSubscriber)
    ensures
        r.name@ == form.name@,
        r.email@ == form.email@,
        is_random_uuid(r.id),
        r.subscribed_at.wf(),
{
    NewSubscriber {
        id: new_uuid(),
        name: form.name.clone(),
        email: form.email.clone(),
        subscribed_at: utc_now(),
    }
}

/// What the subscription route does next: reply at once, or insert a row.
pub enum SubscribeStep {
    Respond(Reply),
    Insert(NewSubscriber),
}

/// The model of a step: the status of an immediate reply, or the name and
/// email of the row to insert.
pub enum StepView {
    Respond(Status),
    Insert(Seq<char>, Seq<char>),
}

/// The step that a decoded form calls for.
pub open spec fn step_of(form: Result<(Seq<char>, Seq<char>), FormError>) -> StepView {
    match form {
        Ok((name, email)) => StepView::Insert(name, email),
        Err(_) => StepView::Respond(Status::BadRequest),
    }
}

/// The step that a form result calls for: a rejected form is answered with
/// `400` and an empty body, a valid one with the insertion of its row.
pub fn subscribe(form: Result<FormData, FormError>) -> (r: SubscribeStep)
    ensures
        match (form, r) {
            (Ok(f), SubscribeStep::Insert(row)) => step_of(Ok((f.name@, f.email@))) == StepView::Insert(
                row.name@,
                row.email@,
            ) && is_random_uuid(row.id) && row.subscribed_at.wf(),
            (Err(e), SubscribeStep::Respond(reply)) => step_of(Err(e)) == StepView::Respond(reply.status)
                && reply.body@.len() == 0,
            _ => false,
        },
{
    match form {
        Ok(f) => SubscribeStep::Insert(insert_subscriber(&f)),
        Err(_) => SubscribeStep::Respond(empty_reply(Status::BadRequest)),
    }
}

/// The status once the insertion has been tried.
pub open spec fn status_after_insert(inserted: bool) -> Status {
    if inserted {
        Status::Success
    } else {
        Status::InternalServerError
    }
}

/// The reply once the insertion has been tried: `200` when the row was
/// stored, `500` when the database failed; the body is empty.
pub fn finish_subscribe(inserted: bool) -> (r: Reply)
    ensures
        r.status == status_after_insert(inserted),
        r.body@.len() == 0,
{
    if inserted {
        empty_reply(Status::Success)
    } else {
        empty_reply(Status::InternalServerError)
    }
}

/// A form whose pairs hold the name once and the email once is accepted: the
/// route inserts exactly one row, with the decoded name and email, and
/// answers `200` once that row is stored.
pub proof fn lemma_valid_form_inserts_one_row(p: Seq<(Seq<char>, Seq<char>)>)
    requires
        key_count(p, field_key(FormField::Name)) == 1,
        key_count(p, field_key(FormField::Email)) == 1,
    ensures
        step_of(form_of(p)) == StepView::Insert(
            last_value(p, field_key(FormField::Name)),
            last_value(p, field_key(FormField::Email)),
        ),
        status_code(status_after_insert(true)) == 200,
{
}

/// A form without a name, or without an email, is rejected with `400` and
/// nothing is inserted; so is a body of another media type.
pub proof fn lemma_incomplete_form_is_rejected(content_type: Seq<char>, p: Seq<(Seq<char>, Seq<char>)>)
    requires
        key_count(p, field_key(FormField::Name)) == 0 || key_count(p, field_key(FormField::Email)) == 0,
    ensures
        form_of(p) is Err,
        step_of(form_of(p)) == StepView::Respond(Status::BadRequest),
        !is_form_media_type(content_type) ==> step_of(Err(FormError::ContentType)) == StepView::Respond(
            Status::BadRequest,
        ),
        status_code(Status::BadRequest) == 400,
{
}

} // verus!
