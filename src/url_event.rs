use vstd::prelude::*;
use vstd::utf8::{decode_utf8, valid_utf8};

verus! {

/// Event class of internet events (`'GURL'`).
pub const K_INTERNET_EVENT_CLASS: u32 = 0x4755524c;

/// Event id of the "get URL" event (`'GURL'`, the same four characters as the class).
pub const K_AE_GET_URL: u32 = 0x4755524c;

/// Keyword of an event's direct-object parameter (`'----'`).
pub const KEY_DIRECT_OBJECT: u32 = 0x2d2d2d2d;

/// What an incoming event descriptor carries, as plain values: its class and id
/// tags, and the UTF-8 bytes of its direct-object parameter's string value
/// (`None` where that string is null).
#[derive(Clone, Debug, PartialEq, Eq)]
pub struct AppleEventDescriptor {
    pub event_class: u32,
    pub event_id: u32,
    pub direct_object: Option<Vec<u8>>,
}

/// The text that `String::from_utf8_lossy` makes of a byte sequence.
pub uninterp spec fn utf8_lossy_of(b: Seq<u8>) -> Seq<char>;

/// The characters of a sequence of ASCII bytes, one for each byte.
pub open spec fn ascii_chars(b: Seq<u8>) -> Seq<char> {
    b.map_values(|x: u8| x as char)
}

pub open spec fn is_ascii_bytes(b: Seq<u8>) -> bool {
    forall|i: int| 0 <= i < b.len() ==> #[trigger] b[i] < 128
}

/// Relies on `String::from_utf8_lossy`: the result depends on the bytes alone,
/// and valid UTF-8 (ASCII in particular, one character per byte) is decoded
/// unchanged.
#[verifier::external_body]
fn from_utf8_lossy(b: &[u8]) -> (r: String)
    ensures
        r@ == utf8_lossy_of(b@),
        valid_utf8(b@) ==> r@ == decode_utf8(b@),
        is_ascii_bytes(b@) ==> r@ == ascii_chars(b@),
{
    String::from_utf8_lossy(b).into_owned()
}

/// The text of a native string given as its UTF-8 bytes; a null string is empty.
pub open spec fn native_string_text(s: Option<Seq<u8>>) -> Seq<char> {
    match s {
        Some(b) => utf8_lossy_of(b),
        None => Seq::empty(),
    }
}

/// Whether an event with these tags is one to decode; only then is its direct
/// object read.
pub fn is_url_event_tags(event_class: u32, event_id: u32) -> (r: bool)
    ensures
        r == is_url_event(event_class, event_id),
{
    event_class == K_INTERNET_EVENT_CLASS && event_id == K_AE_GET_URL
}

/// Whether the tags are those of the "open URL" event this bridge registers for.
pub open spec fn is_url_event(event_class: u32, event_id: u32) -> bool {
    event_class == K_INTERNET_EVENT_CLASS && event_id == K_AE_GET_URL
}

/// The URL that an event carries: empty for a null event and for any event
/// whose class or id is not the expected pair.
pub open spec fn url_of_event(event: Option<AppleEventDescriptor>) -> Seq<char> {
    match event {
        None => Seq::empty(),
        Some(e) => if is_url_event(e.event_class, e.event_id) {
            native_string_text(
                match e.direct_object {
                    Some(v) => Some(v@),
                    None => None,
                },
            )
        } else {
            Seq::empty()
        },
    }
}

/// The bytes of the direct object of an event that is to be decoded: `None`
/// for a null event, one with other tags, or a null direct object.
pub open spec fn url_payload(event: Option<&AppleEventDescriptor>) -> Option<Seq<u8>> {
    match event {
        Some(e) => if is_url_event(e.event_class, e.event_id) {
            match e.direct_object {
                Some(v) => Some(v@),
                None => None,
            }
        } else {
            None
        },
        None => None,
    }
}

/// Converts a native string, given as its UTF-8 bytes, to a `String`; a null
/// string becomes the empty string.
pub fn nsstring_to_string(s: Option<&[u8]>) -> (r: String)
    ensures
        r@ == native_string_text(
            match s {
                Some(b) => Some(b@),
                None => None,
            },
        ),
        s is Some && valid_utf8(s->0@) ==> r@ == decode_utf8(s->0@),
        s is Some && is_ascii_bytes(s->0@) ==> r@ == ascii_chars(s->0@),
{
    match s {
        Some(b) => from_utf8_lossy(b),
        None => String::new(),
    }
}

/// Decodes an "open URL" event into the URL it carries.
pub fn parse_url_event(event: Option<&AppleEventDescriptor>) -> (r: String)
    ensures
        r@ == url_of_event(
            match event {
                Some(e) => Some(*e),
                None => None,
            },
        ),
        url_payload(event) is Some && valid_utf8(url_payload(event)->0) ==> r@ == decode_utf8(
            url_payload(event)->0,
        ),
        url_payload(event) is Some && is_ascii_bytes(url_payload(event)->0) ==> r@ == ascii_chars(
            url_payload(event)->0,
        ),
{
    match event {
        None => String::new(),
        Some(e) => {
            if !is_url_event_tags(e.event_class, e.event_id) {
                return String::new();
            }
            match &e.direct_object {
                Some(v) => nsstring_to_string(Some(v.as_slice())),
                None => nsstring_to_string(None),
            }
        },
    }
}

/// An event whose class or id differs from the registered pair decodes to
/// the empty string, whatever its direct object holds.
pub proof fn lemma_foreign_event_is_empty(e: AppleEventDescriptor)
    requires
        !is_url_event(e.event_class, e.event_id),
    ensures
        url_of_event(Some(e)) == Seq::<char>::empty(),
{
}

/// A null event decodes to the empty string.
pub proof fn lemma_null_event_is_empty()
    ensures
        url_of_event(None) == Seq::<char>::empty(),
{
}

} // verus!
