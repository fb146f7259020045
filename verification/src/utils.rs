//! The identity of the caller as it travels with the request: written into
//! the headers by the stage that resolves it, and read from them by the
//! stages that follow.

use crate::errors::{AppError, AppErrorView};
use crate::identity::{
    person_email_header, person_email_header_name, person_id_header, person_id_header_name,
    ActorIdentity,
};
use crate::text::{
    all_digits, chars_of, decimal_string, decimal_text, is_digit, parse_decimal, parse_decimal_spec,
};
use vstd::prelude::*;
use vstd::string::*;

verus! {

broadcast use vstd::string::group_string_axioms;

#[verifier::external_type_specification]
#[verifier::external_body]
#[verifier::reject_recursive_types(T)]
pub struct ExHeaderMap<T>(http::HeaderMap<T>);

#[verifier::external_type_specification]
#[verifier::external_body]
pub struct ExHeaderValue(http::HeaderValue);

#[verifier::external_type_specification]
#[verifier::external_body]
pub struct ExParseIntError(std::num::ParseIntError);

/// The headers of a map: under each name, in lower case, the bytes of its
/// values, the first value first.
pub uninterp spec fn header_entries(headers: http::HeaderMap<http::HeaderValue>) -> Map<
    Seq<char>,
    Seq<Seq<u8>>,
>;

/// The bytes of a header value.
pub uninterp spec fn header_value_bytes(value: http::HeaderValue) -> Seq<u8>;

/// The number of names under which a map holds headers.
pub uninterp spec fn header_count(headers: http::HeaderMap<http::HeaderValue>) -> nat;

/// The number of names below which a map takes a header under one name
/// more, however it was made and filled. A map grows up to 32768 places and
/// refuses to grow further; it asks to grow when three quarters of its
/// places are taken, or a fifth of them after many collisions.
pub const HEADER_ROOM: usize = 1024;

/// What `http::HeaderValue::to_str` says of a value that is no text.
pub open spec fn to_str_failure_text() -> Seq<char> {
    "failed to convert header to a str"@
}

/// The error that std's `str::parse::<u64>` returns for a text that it
/// cannot read.
pub uninterp spec fn parse_failure(text: Seq<char>) -> std::num::ParseIntError;

/// The `Display` text of a `std::num::ParseIntError`.
pub uninterp spec fn int_error_text(error: std::num::ParseIntError) -> Seq<char>;

/// A header name of lower-case letters, digits, hyphens and underscores, of
/// at most 64 characters.
pub open spec fn is_plain_header_name(name: Seq<char>) -> bool {
    &&& 0 < name.len() <= 64
    &&& forall|i: int|
        0 <= i < name.len() ==> {
            let c = #[trigger] name[i];
            ('a' <= c <= 'z') || ('0' <= c <= '9') || c == '_' || c == '-'
        }
}

/// The first value under `name`, if there is one.
pub open spec fn first_value(entries: Map<Seq<char>, Seq<Seq<u8>>>, name: Seq<char>) -> Option<
    Seq<u8>,
> {
    if entries.contains_key(name) && entries[name].len() > 0 {
        Some(entries[name][0])
    } else {
        None
    }
}

/// Whether a byte of a header value is a visible character, a space or a
/// tab.
pub open spec fn is_visible(b: u8) -> bool {
    (32 <= b < 127) || b == 9
}

/// Whether every byte is visible.
pub open spec fn all_visible(bytes: Seq<u8>) -> bool {
    forall|i: int| 0 <= i < bytes.len() ==> is_visible(#[trigger] bytes[i])
}

/// Whether a byte may stand in a header value: any but the control
/// characters, of which only the tab may.
pub open spec fn is_value_byte(b: u8) -> bool {
    (b >= 32 && b != 127) || b == 9
}

/// The bytes of a text.
pub open spec fn text_bytes(text: Seq<char>) -> Seq<u8> {
    vstd::utf8::encode_utf8(text)
}

/// The text of bytes that each stand for one character.
pub open spec fn ascii_text(bytes: Seq<u8>) -> Seq<char> {
    Seq::new(bytes.len(), |i: int| bytes[i] as char)
}

/// `http::HeaderMap::get` with a name given as text. Claimed for a name
/// that is already in lower case: the first value held under that name
/// comes back, and none where the map has no such header.
#[verifier::external_body]
fn header_get<'a>(headers: &'a http::HeaderMap<http::HeaderValue>, name: &str) -> (r: Option<
    &'a http::HeaderValue,
>)
    requires
        is_plain_header_name(name@),
    ensures
        r is Some == first_value(header_entries(*headers), name@) is Some,
        r matches Some(value) ==> header_value_bytes(*value) == first_value(
            header_entries(*headers),
            name@,
        )->0,
{
    headers.get(name)
}

/// `http::HeaderValue::to_str`, with the `Display` text of its error.
/// Claimed: a value whose bytes are all visible is the text of those bytes;
/// any other value is an error, whose text is always the same.
#[verifier::external_body]
fn header_to_str<'a>(value: &'a http::HeaderValue) -> (r: Result<&'a str, String>)
    ensures
        r is Ok == all_visible(header_value_bytes(*value)),
        r matches Ok(text) ==> text@ == ascii_text(header_value_bytes(*value)),
        r matches Err(failure) ==> failure@ == to_str_failure_text(),
{
    value.to_str().map_err(|e| e.to_string())
}

/// `http::HeaderValue::from_str`. Claimed: a text without control
/// characters other than the tab becomes a value of the bytes of the text;
/// any other text is refused.
#[verifier::external_body]
fn header_value_from_str(text: &str) -> (r: Option<http::HeaderValue>)
    ensures
        r is Some == (forall|i: int|
            0 <= i < text_bytes(text@).len() ==> is_value_byte(#[trigger] text_bytes(text@)[i])),
        r matches Some(value) ==> header_value_bytes(value) == text_bytes(text@),
{
    http::HeaderValue::from_str(text).ok()
}

/// `http::HeaderMap::try_insert` with a name given as text. Claimed for a
/// name that is already in lower case: a map that holds headers under fewer
/// than [`HEADER_ROOM`] names takes the value; where the value was taken,
/// it is the only value under that name afterwards, and the other headers
/// are as before; where it was not, the map holds what it held.
#[verifier::external_body]
fn header_insert(
    headers: &mut http::HeaderMap<http::HeaderValue>,
    name: &'static str,
    value: http::HeaderValue,
) -> (r: bool)
    requires
        is_plain_header_name(name@),
    ensures
        header_count(*old(headers)) < HEADER_ROOM ==> r,
        header_entries(*final(headers)) == if r {
            header_entries(*old(headers)).insert(name@, seq![header_value_bytes(value)])
        } else {
            header_entries(*old(headers))
        },
        header_count(*final(headers)) == if r && !header_entries(*old(headers)).contains_key(name@) {
            header_count(*old(headers)) + 1
        } else {
            header_count(*old(headers))
        },
{
    headers.try_insert(name, value).is_ok()
}

/// std's `str::parse::<u64>`. Claimed: a number comes back only for an
/// optional plus sign followed by digits whose value fits, and is that
/// value; where the text is none such, the error comes back.
#[verifier::external_body]
fn std_parse_u64(text: &str) -> (r: Result<u64, std::num::ParseIntError>)
    ensures
        r is Ok == parse_decimal_spec(text@) is Ok,
        r matches Ok(n) ==> n == parse_decimal_spec(text@)->Ok_0,
        r matches Err(e) ==> e == parse_failure(text@),
{
    text.parse::<u64>()
}

/// The `Display` text of a `std::num::ParseIntError`.
#[verifier::external_body]
fn int_error_message(error: &std::num::ParseIntError) -> (r: String)
    ensures
        r@ == int_error_text(*error),
{
    error.to_string()
}

/// The person identifier that a text stands for: the unsigned decimal
/// number that it is, or the reason why it is none.
pub open spec fn person_id_of_text(text: Seq<char>) -> Result<u64, AppErrorView> {
    match parse_decimal_spec(text) {
        Ok(id) => Ok(id),
        Err(_) => Err(
            AppErrorView::ChimithequePersonIdHeaderInvalid(int_error_text(parse_failure(text))),
        ),
    }
}

/// The person identifier that a header value stands for. A value with a
/// byte that is not visible is no text.
pub open spec fn person_id_of_value(value: Option<Seq<u8>>) -> Result<u64, AppErrorView> {
    match value {
        None => Err(AppErrorView::ChimithequePersonIdHeaderMissing),
        Some(bytes) => if all_visible(bytes) {
            person_id_of_text(ascii_text(bytes))
        } else {
            Err(AppErrorView::ChimithequePersonIdHeaderInvalid(to_str_failure_text()))
        },
    }
}

/// Reads the person identifier from the text of its header.
pub fn person_id_from_text(text: &str) -> (r: Result<u64, AppError>)
    ensures
        match person_id_of_text(text@) {
            Ok(id) => r == Ok::<u64, AppError>(id),
            Err(e) => r is Err && r->Err_0@ == e,
        },
{
    let chars = chars_of(text);
    match parse_decimal(&chars) {
        Ok(id) => Ok(id),
        Err(_) => match std_parse_u64(text) {
            Ok(id) => Ok(id),
            Err(e) => Err(AppError::ChimithequePersonIdHeaderInvalid(int_error_message(&e))),
        },
    }
}

/// Reads the person identifier from what was found of its header: nothing,
/// a text, or the reason why the value is no text.
pub fn person_id_from_value(value: Option<Result<&str, String>>) -> (r: Result<u64, AppError>)
    ensures
        match value {
            None => r == Err::<u64, AppError>(AppError::ChimithequePersonIdHeaderMissing),
            Some(Err(failure)) => r == Err::<u64, AppError>(
                AppError::ChimithequePersonIdHeaderInvalid(failure),
            ),
            Some(Ok(text)) => match person_id_of_text(text@) {
                Ok(id) => r == Ok::<u64, AppError>(id),
                Err(e) => r is Err && r->Err_0@ == e,
            },
        },
{
    match value {
        None => Err(AppError::ChimithequePersonIdHeaderMissing),
        Some(Err(failure)) => Err(AppError::ChimithequePersonIdHeaderInvalid(failure)),
        Some(Ok(text)) => person_id_from_text(text),
    }
}

/// Reads the identifier of the person from the headers of a request.
pub fn get_chimitheque_person_id_from_headers(
    headers: &http::HeaderMap<http::HeaderValue>,
) -> (r: Result<u64, AppError>)
    ensures
        match person_id_of_value(first_value(header_entries(*headers), person_id_header())) {
            Ok(id) => r == Ok::<u64, AppError>(id),
            Err(e) => r is Err && r->Err_0@ == e,
        },
{
    let name = person_id_header_name();
    proof {
        lemma_header_names_are_plain();
    }
    let found = match header_get(headers, name) {
        Some(value) => Some(header_to_str(value)),
        None => None,
    };
    person_id_from_value(found)
}

/// The names of the two identity headers are plain, and differ.
pub proof fn lemma_header_names_are_plain()
    ensures
        is_plain_header_name(person_id_header()),
        is_plain_header_name(person_email_header()),
        person_id_header() != person_email_header(),
{
    reveal_strlit("chimitheque_person_id");
    reveal_strlit("chimitheque_person_email");
    assert(person_id_header().len() == 21);
    assert(person_email_header().len() == 24);
}

/// The bytes of the decimal digits of `id`: one byte for each digit.
pub open spec fn person_id_bytes(id: u64) -> Seq<u8> {
    Seq::new(decimal_text(id as nat).len(), |i: int| decimal_text(id as nat)[i] as u8)
}

/// The header value written for an identifier is read back as that
/// identifier.
pub proof fn lemma_person_id_header_round_trip(id: u64)
    ensures
        all_visible(person_id_bytes(id)),
        person_id_of_value(Some(person_id_bytes(id))) == Ok::<u64, AppErrorView>(id),
{
    let text = decimal_text(id as nat);
    let bytes = person_id_bytes(id);
    crate::text::lemma_decimal_text_value(id as nat);
    crate::text::lemma_decimal_round_trip(id);
    assert forall|i: int| 0 <= i < bytes.len() implies is_visible(#[trigger] bytes[i]) by {
        assert(is_digit(text[i]));
    }
    assert(ascii_text(bytes) =~= text) by {
        assert forall|i: int| 0 <= i < bytes.len() implies ascii_text(bytes)[i] == text[i] by {
            assert(is_digit(text[i]));
        }
    }
}

/// The headers after the identity was attached: the identifier of the
/// person, in decimal, as the only value of its header, and the email as
/// the only value of its own.
pub open spec fn with_identity(
    entries: Map<Seq<char>, Seq<Seq<u8>>>,
    id: u64,
    email_bytes: Seq<u8>,
) -> Map<Seq<char>, Seq<Seq<u8>>> {
    entries.insert(person_id_header(), seq![person_id_bytes(id)]).insert(
        person_email_header(),
        seq![email_bytes],
    )
}

/// What is attached is read back: from headers with the identity of a
/// person, the identifier of that person is read.
pub proof fn lemma_attached_identity_is_read_back(
    entries: Map<Seq<char>, Seq<Seq<u8>>>,
    id: u64,
    email_bytes: Seq<u8>,
)
    ensures
        person_id_of_value(first_value(with_identity(entries, id, email_bytes), person_id_header()))
            == Ok::<u64, AppErrorView>(id),
        first_value(with_identity(entries, id, email_bytes), person_email_header()) == Some(
            email_bytes,
        ),
{
    lemma_header_names_are_plain();
    lemma_person_id_header_round_trip(id);
}

/// Whether an email can be the value of a header: none of its bytes is a
/// control character other than the tab.
pub open spec fn is_header_text(email: Seq<char>) -> bool {
    forall|i: int| 0 <= i < text_bytes(email).len() ==> is_value_byte(#[trigger] text_bytes(email)[i])
}

/// The headers with the identifier of a person attached, and nothing else
/// changed.
pub open spec fn with_person_id(entries: Map<Seq<char>, Seq<Seq<u8>>>, id: u64) -> Map<
    Seq<char>,
    Seq<Seq<u8>>,
> {
    entries.insert(person_id_header(), seq![person_id_bytes(id)])
}

/// Attaches the identity of the person to the headers of a request, in
/// place of any identity that they carry: first the identifier, then the
/// email.
///
/// The identity is attached where the email can be the value of a header
/// and the map has room for two names more. An email with a control
/// character is refused before anything is written. A map without room
/// refuses the header that is named in the error, and holds what it held
/// before that header.
pub fn attach_identity(
    headers: &mut http::HeaderMap<http::HeaderValue>,
    identity: &ActorIdentity,
) -> (r: Result<(), AppError>)
    ensures
        is_header_text(identity.email@) && header_count(*old(headers)) + 2 <= HEADER_ROOM ==> r
            is Ok,
        !is_header_text(identity.email@) ==> r is Err && r->Err_0@
            == AppErrorView::IdentityHeaderRejected(person_email_header()) && header_entries(
            *final(headers),
        ) == header_entries(*old(headers)),
        r is Ok ==> header_entries(*final(headers)) == with_identity(
            header_entries(*old(headers)),
            identity.internal_id,
            text_bytes(identity.email@),
        ),
        r is Ok ==> person_id_of_value(
            first_value(header_entries(*final(headers)), person_id_header()),
        ) == Ok::<u64, AppErrorView>(identity.internal_id),
        r matches Err(e) ==> {
            ||| e@ == AppErrorView::IdentityHeaderRejected(person_id_header()) && header_entries(
                *final(headers),
            ) == header_entries(*old(headers))
            ||| e@ == AppErrorView::IdentityHeaderRejected(person_email_header()) && (
            header_entries(*final(headers)) == header_entries(*old(headers)) || header_entries(
                *final(headers),
            ) == with_person_id(header_entries(*old(headers)), identity.internal_id))
        },
{
    proof {
        lemma_header_names_are_plain();
        lemma_person_id_header_round_trip(identity.internal_id);
        crate::text::lemma_decimal_text_value(identity.internal_id as nat);
    }
    let id_string = decimal_string(identity.internal_id);
    let id_text = id_string.as_str();
    let email_value = match header_value_from_str(identity.email.as_str()) {
        Some(value) => value,
        None => {
            return Err(AppError::IdentityHeaderRejected(person_email_header_name().to_owned()));
        },
    };
    proof {
        let digits = decimal_text(identity.internal_id as nat);
        assert(is_ascii(id_text)) by {
            assert forall|i: int| 0 <= i < digits.len() implies '\0' <= #[trigger] digits[i]
                <= '\u{7f}' by {
                assert(is_digit(digits[i]));
            }
        }
        is_ascii_spec_bytes(id_text);
        assert(text_bytes(id_text@) =~= person_id_bytes(identity.internal_id));
        assert forall|i: int| 0 <= i < text_bytes(id_text@).len() implies is_value_byte(
            #[trigger] text_bytes(id_text@)[i],
        ) by {
            assert(is_digit(digits[i]));
        }
    }
    let id_value = match header_value_from_str(id_text) {
        Some(value) => value,
        None => {
            return Err(AppError::IdentityHeaderRejected(person_id_header_name().to_owned()));
        },
    };
    if !header_insert(headers, person_id_header_name(), id_value) {
        return Err(AppError::IdentityHeaderRejected(person_id_header_name().to_owned()));
    }
    if !header_insert(headers, person_email_header_name(), email_value) {
        return Err(AppError::IdentityHeaderRejected(person_email_header_name().to_owned()));
    }
    proof {
        lemma_attached_identity_is_read_back(
            header_entries(*old(headers)),
            identity.internal_id,
            text_bytes(identity.email@),
        );
    }
    Ok(())
}

} // verus!
