//! Wallpaper rules: reading the image address out of Bing's archive answer,
//! and turning the desktop's configured picture into a file path.
use vstd::prelude::*;
use crate::text::{join_text, same_text, strip_leading, strip_prefix};

verus! {

/// A JSON document, as the wallpaper rules read it.
pub enum JsonValue {
    Null,
    Bool(bool),
    /// A number, kept as its JSON text.
    Number(String),
    Str(String),
    Array(Vec<JsonValue>),
    /// An object's members, in document order.
    Object(Vec<(String, JsonValue)>),
}

/// The first member named `key` among `members`.
pub open spec fn member(members: Seq<(String, JsonValue)>, key: Seq<char>) -> Option<JsonValue>
    decreases members.len(),
{
    if members.len() == 0 {
        None
    } else if members[0].0@ == key {
        Some(members[0].1)
    } else {
        member(members.drop_first(), key)
    }
}

/// `v[key]`: the member `key` of an object; nothing for any other value.
pub open spec fn field(v: JsonValue, key: Seq<char>) -> Option<JsonValue> {
    match v {
        JsonValue::Object(members) => member(members@, key),
        _ => None,
    }
}

/// `v[i]`: the element `i` of an array; nothing for any other value.
pub open spec fn element(v: JsonValue, i: int) -> Option<JsonValue> {
    match v {
        JsonValue::Array(items) => if 0 <= i < items@.len() {
            Some(items@[i])
        } else {
            None
        },
        _ => None,
    }
}

/// The text at `images[0].url` of Bing's image-archive answer, if it is text.
pub open spec fn archive_image_path(answer: JsonValue) -> Option<Seq<char>> {
    match field(answer, "images"@) {
        Some(images) => match element(images, 0) {
            Some(image) => match field(image, "url"@) {
                Some(JsonValue::Str(s)) => Some(s@),
                _ => None,
            },
            None => None,
        },
        None => None,
    }
}

/// The base address that Bing's relative image paths hang off.
pub open spec fn bing_base() -> Seq<char> {
    "https://www.bing.com"@
}

/// Why no image address could be read from the archive answer.
#[derive(Debug, PartialEq, Eq, Structural)]
pub enum BingAnswerError {
    /// `images[0].url` is missing or not text.
    MissingUrl,
}

/// The member named `key` of an object, as `v[key]` reads it.
pub fn json_field<'a>(v: &'a JsonValue, key: &str) -> (r: Option<&'a JsonValue>)
    ensures
        r is Some == field(*v, key@) is Some,
        r matches Some(x) ==> field(*v, key@) == Some(*x),
{
    match v {
        JsonValue::Object(members) => {
            let mut i: usize = 0;
            assert(members@.skip(0) =~= members@);
            while i < members.len()
                invariant
                    i <= members@.len(),
                    field(*v, key@) == member(members@, key@),
                    member(members@, key@) == member(members@.skip(i as int), key@),
                decreases members.len() - i,
            {
                assert(members@.skip(i as int).drop_first() =~= members@.skip(i + 1));
                if same_text(members[i].0.as_str(), key) {
                    return Some(&members[i].1);
                }
                i = i + 1;
            }
            None
        },
        _ => None,
    }
}

/// The element at position `i` of an array, as `v[i]` reads it.
pub fn json_element(v: &JsonValue, i: usize) -> (r: Option<&JsonValue>)
    ensures
        r is Some == element(*v, i as int) is Some,
        r matches Some(x) ==> element(*v, i as int) == Some(*x),
{
    match v {
        JsonValue::Array(items) => {
            if i < items.len() {
                Some(&items[i])
            } else {
                None
            }
        },
        _ => None,
    }
}

/// The full address of today's image from Bing's image-archive answer:
/// the base address followed by the text at `images[0].url`.
pub fn bing_image_url(answer: &JsonValue) -> (r: Result<String, BingAnswerError>)
    ensures
        archive_image_path(*answer) is None ==> r == Err::<String, BingAnswerError>(BingAnswerError::MissingUrl),
        archive_image_path(*answer) matches Some(p) ==> (r matches Ok(u) && u@ == bing_base() + p),
{
    let images = match json_field(answer, "images") {
        Some(x) => x,
        None => return Err(BingAnswerError::MissingUrl),
    };
    let image = match json_element(images, 0) {
        Some(x) => x,
        None => return Err(BingAnswerError::MissingUrl),
    };
    match json_field(image, "url") {
        Some(JsonValue::Str(path)) => Ok(join_text("https://www.bing.com", path.as_str())),
        _ => Err(BingAnswerError::MissingUrl),
    }
}

/// The desktop picture that is used: the light-theme address, or the
/// dark-theme one when the light-theme one is empty.
pub open spec fn chosen_picture(picture_uri: Seq<char>, picture_uri_dark: Seq<char>) -> Seq<char> {
    if picture_uri.len() == 0 {
        picture_uri_dark
    } else {
        picture_uri
    }
}

/// The file path for a picture address: without a leading `file://`, or the
/// address itself when it has none.
pub open spec fn picture_path(uri: Seq<char>) -> Seq<char> {
    match strip_prefix(uri, "file://"@) {
        Some(p) => p,
        None => uri,
    }
}

/// The path of the desktop wallpaper file from the two configured picture
/// addresses (light and dark theme).
pub fn wallpaper_path(picture_uri: &str, picture_uri_dark: &str) -> (r: String)
    ensures
        r@ == picture_path(chosen_picture(picture_uri@, picture_uri_dark@)),
{
    let uri = if picture_uri.is_empty() { picture_uri_dark } else { picture_uri };
    match strip_leading(uri, "file://") {
        Some(p) => p,
        None => uri.to_owned(),
    }
}

} // verus!
