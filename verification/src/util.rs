//! Clock readings, e-mail normalisation, random tokens, identifiers and paths.

use vstd::prelude::*;

verus! {

#[verifier::external_type_specification]
#[verifier::external_body]
pub struct ExSystemTime(std::time::SystemTime);

#[verifier::external_type_specification]
#[verifier::external_body]
pub struct ExSystemTimeError(std::time::SystemTimeError);

#[verifier::external_type_specification]
#[verifier::external_body]
pub struct ExThreadRng(rand::rngs::ThreadRng);

/// `std::time::SystemTime::now`: the current reading of the system clock.
/// Nothing is claimed of it.
#[verifier::external_body]
fn system_time_now() -> std::time::SystemTime {
    std::time::SystemTime::now()
}

/// `SystemTime::duration_since(UNIX_EPOCH)`: the time elapsed between the
/// Unix epoch and `time`, or an error when `time` lies before the epoch.
/// Which of the two comes back depends on the clock; nothing is claimed.
#[verifier::external_body]
fn elapsed_since_unix_epoch(time: &std::time::SystemTime) -> Result<
    std::time::Duration,
    std::time::SystemTimeError,
> {
    time.duration_since(std::time::UNIX_EPOCH)
}

/// `Duration::as_secs`: the whole seconds of a duration. The duration is
/// opaque here, so nothing is claimed of the number.
#[verifier::external_body]
fn whole_seconds(duration: &std::time::Duration) -> u64 {
    duration.as_secs()
}

/// The current Unix time in whole seconds, read from the system clock, or
/// `None` when the clock reads a time before the Unix epoch.
pub fn get_unix_epoch_time_as_seconds() -> (seconds: Option<u64>) {
    let now = system_time_now();
    match elapsed_since_unix_epoch(&now) {
        Ok(elapsed) => Some(whole_seconds(&elapsed)),
        Err(_) => None,
    }
}

/// `chrono::Duration::minutes(minutes).num_seconds()`.
///
/// chrono builds a span of `minutes * 60` seconds with overflow checks and
/// panics unless that number of seconds lies within `±(i64::MAX / 1000)`;
/// `num_seconds` of a span with no fraction of a second is its seconds. The
/// contract claims exactly that, and leaves the panicking inputs out.
#[verifier::external_body]
fn minutes_in_seconds(minutes: i64) -> (seconds: i64)
    requires
        -(i64::MAX / 1000) <= minutes * 60 <= i64::MAX / 1000,
    ensures
        seconds == minutes * 60,
{
    chrono::Duration::minutes(minutes).num_seconds()
}

/// The largest number of minutes that chrono turns into a span.
pub open spec fn max_span_minutes() -> int {
    i64::MAX / 60_000
}

/// The Unix time `minus_minutes` minutes before `now_seconds`.
pub fn epoch_seconds_minus_minutes(now_seconds: u64, minus_minutes: i64) -> (earlier: u64)
    requires
        0 <= minus_minutes <= max_span_minutes(),
        minus_minutes * 60 <= now_seconds,
    ensures
        earlier == now_seconds - minus_minutes * 60,
{
    let span = minutes_in_seconds(minus_minutes);
    now_seconds - (span as u64)
}

/// The Unix time, in whole seconds, `minus_minutes` minutes before the clock
/// reading `reading`. `None` when there is no reading (the clock read before
/// the epoch), when the number of minutes is negative or beyond what a span
/// of time can hold, or when the result would lie before the epoch.
pub fn minus_minutes_from_reading(reading: Option<u64>, minus_minutes: i64) -> (earlier: Option<u64>)
    ensures
        match reading {
            Some(now) => if 0 <= minus_minutes <= max_span_minutes() && minus_minutes * 60 <= now {
                earlier == Some((now - minus_minutes * 60) as u64)
            } else {
                earlier is None
            },
            None => earlier is None,
        },
{
    match reading {
        None => None,
        Some(now) => {
            if 0 <= minus_minutes && minus_minutes <= i64::MAX / 60_000 && (minus_minutes as u64)
                * 60 <= now {
                Some(epoch_seconds_minus_minutes(now, minus_minutes))
            } else {
                None
            }
        },
    }
}

/// The Unix time, in whole seconds, `minus_minutes` minutes before the
/// current reading of the system clock. `None` when the clock reads before
/// the epoch, when the number of minutes is negative or beyond what a span
/// of time can hold, or when the result would lie before the epoch. Which of
/// these holds, and the value, depend on the clock.
pub fn get_unix_epoch_time_minus_minutes_as_seconds(minus_minutes: i64) -> (earlier: Option<u64>)
    ensures
        !(0 <= minus_minutes <= max_span_minutes()) ==> earlier is None,
        earlier matches Some(t) ==> t + minus_minutes * 60 <= u64::MAX,
{
    minus_minutes_from_reading(get_unix_epoch_time_as_seconds(), minus_minutes)
}

/// The Unicode lower-case form of a text, as `str::to_lowercase` computes it.
pub uninterp spec fn unicode_lowercase(text: Seq<char>) -> Seq<char>;

/// `str::to_lowercase`: the lower-case equivalent of `text` under Unicode's
/// `Lowercase` property. The mapping is left unstated and named
/// `unicode_lowercase`.
#[verifier::external_body]
fn to_lowercase(text: &str) -> (lower: String)
    ensures
        lower@ == unicode_lowercase(text@),
{
    text.to_lowercase()
}

/// An e-mail address in the form in which addresses are compared and stored:
/// lower case.
pub fn standardize_email(email: &str) -> (standard: String)
    ensures
        standard@ == unicode_lowercase(email@),
{
    to_lowercase(email)
}

/// The number of characters in a random token.
pub const TOKEN_LENGTH: usize = 50;

/// An ASCII letter or digit.
pub open spec fn is_ascii_alphanumeric(c: char) -> bool {
    ||| ('A' <= c && c <= 'Z')
    ||| ('a' <= c && c <= 'z')
    ||| ('0' <= c && c <= '9')
}

/// `rand::thread_rng`: the thread-local generator, seeded by the system.
#[verifier::external_body]
fn thread_rng() -> rand::rngs::ThreadRng {
    rand::thread_rng()
}

/// `Rng::sample` with the `Alphanumeric` distribution, its byte converted by
/// `char::from`. rand draws the byte from `A-Z`, `a-z` and `0-9`; which one
/// depends on chance, so the contract claims only that it is one of those.
#[verifier::external_body]
fn sample_alphanumeric(rng: &mut rand::rngs::ThreadRng) -> (c: char)
    ensures
        is_ascii_alphanumeric(c),
{
    char::from(rand::Rng::sample(rng, rand::distributions::Alphanumeric))
}

/// `String::push`: appends one character.
#[verifier::external_body]
fn push_char(text: &mut String, c: char)
    ensures
        final(text)@ == old(text)@.push(c),
{
    text.push(c)
}

/// A random token of `TOKEN_LENGTH` ASCII letters and digits.
pub fn generate_random_token() -> (token: String)
    ensures
        token@.len() == TOKEN_LENGTH,
        forall|i: int| 0 <= i < token@.len() ==> is_ascii_alphanumeric(#[trigger] token@[i]),
{
    let mut rng = thread_rng();
    let mut token = String::new();
    let mut count: usize = 0;
    while count < TOKEN_LENGTH
        invariant
            count <= TOKEN_LENGTH,
            token@.len() == count,
            forall|i: int| 0 <= i < token@.len() ==> is_ascii_alphanumeric(#[trigger] token@[i]),
        decreases TOKEN_LENGTH - count,
    {
        let c = sample_alphanumeric(&mut rng);
        push_char(&mut token, c);
        count = count + 1;
    }
    token
}

/// The value of the UUID that `text` spells, as `uuid::Uuid::parse_str`
/// reads it, or `None` where it reads none.
pub uninterp spec fn uuid_parse(text: Seq<char>) -> Option<u128>;

/// `uuid::Uuid::parse_str` (which `Uuid::from_str` calls), its result taken
/// by `Uuid::as_u128`. The accepted forms (simple, hyphenated, braced, URN)
/// are left unstated and named `uuid_parse`.
#[verifier::external_body]
fn parse_uuid(text: &str) -> (value: Option<u128>)
    ensures
        value == uuid_parse(text@),
{
    uuid::Uuid::parse_str(text).ok().map(|id| id.as_u128())
}

/// Text that spells no UUID.
#[derive(Debug, Clone, Copy, PartialEq, Eq, Structural)]
pub struct MalformedUuid;

/// The outcome of reading a UUID: its value, or `MalformedUuid` when the text
/// spells none.
pub fn uuid_from_parsed(parsed: Option<u128>) -> (id: Result<u128, MalformedUuid>)
    ensures
        match parsed {
            Some(value) => id == Ok::<u128, MalformedUuid>(value),
            None => id == Err::<u128, MalformedUuid>(MalformedUuid),
        },
{
    match parsed {
        Some(value) => Ok(value),
        None => Err(MalformedUuid),
    }
}

/// Reads an identifier from text; text that spells no UUID is refused.
pub fn from_string_to_uuid(id: &str) -> (parsed: Result<u128, MalformedUuid>)
    ensures
        match uuid_parse(id@) {
            Some(value) => parsed == Ok::<u128, MalformedUuid>(value),
            None => parsed == Err::<u128, MalformedUuid>(MalformedUuid),
        },
{
    uuid_from_parsed(parse_uuid(id))
}

/// Where a file named `file_name` is kept inside the directory `dir`:
/// the directory, a slash, and the name.
pub fn download_path(dir: &str, file_name: &str) -> (path: String)
    ensures
        path@ == dir@ + "/"@ + file_name@,
{
    let mut path = dir.to_owned();
    path.append("/");
    path.append(file_name);
    path
}

} // verus!
