//! The QR code that lets a phone open the server: the server address encoded
//! as a QR symbol, rendered to a PNG image and sent as Base64 text.
use base64::engine::general_purpose;
use base64::Engine as _;
use image::{ImageFormat, Luma};
use qrcode::QrCode;
use std::io::Cursor;
use vstd::prelude::*;
use vstd::string::StringSliceAdditionalSpecFns;
use crate::cache::{fresh_value, ResponseCache};

verus! {

/// Whether `QrCode::new` accepts `data` (it refuses data too long for the
/// largest symbol at the medium error-correction level).
pub uninterp spec fn qr_encodable(data: Seq<u8>) -> bool;

/// The PNG file of the grayscale image (with quiet zone) of the smallest QR
/// symbol of `data` at the medium error-correction level.
pub uninterp spec fn qr_png_bytes(data: Seq<u8>) -> Seq<u8>;

/// The symbol of value `i` (0 to 63) in the standard Base64 alphabet.
pub open spec fn base64_symbol(i: int) -> char {
    "ABCDEFGHIJKLMNOPQRSTUVWXYZabcdefghijklmnopqrstuvwxyz0123456789+/"@[i]
}

/// The standard Base64 text of `bytes` (RFC 4648, section 4): every three
/// bytes become four symbols of six bits each; a last group of one or two
/// bytes is padded with `=` to four symbols.
pub open spec fn base64_standard(bytes: Seq<u8>) -> Seq<char>
    decreases bytes.len(),
{
    if bytes.len() == 0 {
        Seq::empty()
    } else if bytes.len() == 1 {
        let b0 = bytes[0] as int;
        seq![base64_symbol(b0 / 4), base64_symbol((b0 % 4) * 16), '=', '=']
    } else if bytes.len() == 2 {
        let b0 = bytes[0] as int;
        let b1 = bytes[1] as int;
        seq![base64_symbol(b0 / 4), base64_symbol((b0 % 4) * 16 + b1 / 16),
            base64_symbol((b1 % 16) * 4), '=']
    } else {
        let b0 = bytes[0] as int;
        let b1 = bytes[1] as int;
        let b2 = bytes[2] as int;
        seq![base64_symbol(b0 / 4), base64_symbol((b0 % 4) * 16 + b1 / 16),
            base64_symbol((b1 % 16) * 4 + b2 / 64), base64_symbol(b2 % 64)]
            + base64_standard(bytes.skip(3))
    }
}

/// The length of the padded Base64 text of `n` bytes.
pub open spec fn base64_len(n: nat) -> nat {
    4 * ((n + 2) / 3)
}

/// The Base64 text of `n` bytes has `4 * ceil(n / 3)` symbols.
pub proof fn lemma_base64_len(bytes: Seq<u8>)
    ensures
        base64_standard(bytes).len() == base64_len(bytes.len()),
    decreases bytes.len(),
{
    if bytes.len() >= 3 {
        lemma_base64_len(bytes.skip(3));
    }
}

/// `qrcode::QrCode::new`, then `QrCode::render::<Luma<u8>>` and
/// `Renderer::build`, then `image::ImageBuffer::write_to` in PNG format into
/// memory. Claimed: a PNG comes back exactly when `QrCode::new` accepts the
/// data (`qr_encodable`); it is `qr_png_bytes(data)`; and, as every `Vec`, it
/// holds at most `isize::MAX` bytes. The PNG encoder fails only on a zero or
/// oversized image or a write error, none of which arises for a rendered
/// symbol written into memory. The steps share one item because the symbol's
/// image type cannot be declared here (its type parameters carry bounds of the
/// `image` crate's traits).
#[verifier::external_body]
fn qr_png(data: &[u8]) -> (r: Option<Vec<u8>>)
    ensures
        r is Some == qr_encodable(data@),
        r matches Some(png) ==> png@ == qr_png_bytes(data@) && png@.len() <= isize::MAX,
{
    let code = QrCode::new(data).ok()?;
    let image = code.render::<Luma<u8>>().build();
    let mut buffer = Cursor::new(Vec::new());
    image.write_to(&mut buffer, ImageFormat::Png).ok()?;
    Some(buffer.into_inner())
}

/// `base64::engine::general_purpose::STANDARD.encode`: the padded standard
/// Base64 text of `bytes`. Claimed: it is `base64_standard(bytes)`. The call
/// panics when the text's length overflows `usize` (`base64::encoded_len`),
/// which `requires` excludes.
#[verifier::external_body]
pub(crate) fn base64_encode(bytes: &[u8]) -> (r: String)
    requires
        base64_len(bytes@.len()) <= usize::MAX,
    ensures
        r@ == base64_standard(bytes@),
{
    general_purpose::STANDARD.encode(bytes)
}

/// Whether the Base64 text of `n` bytes has a length that fits in `usize`.
pub fn base64_fits(n: usize) -> (r: bool)
    ensures
        r == (base64_len(n as nat) <= usize::MAX),
{
    let groups: usize = n / 3 + if n % 3 == 0 { 0 } else { 1 };
    assert((n + 2) / 3 == n / 3 + if n % 3 == 0 { 0int } else { 1int });
    groups <= usize::MAX / 4
}

/// The Base64 text of at most `isize::MAX` bytes fits in `usize`.
proof fn lemma_base64_fits_vec(n: nat)
    requires
        n <= isize::MAX,
    ensures
        base64_len(n) <= usize::MAX,
{
    assert(isize::MAX * 2 + 1 == usize::MAX);
    assert(4 * ((n + 2) / 3) <= usize::MAX) by (nonlinear_arith)
        requires
            n <= isize::MAX,
            isize::MAX * 2 + 1 == usize::MAX,
            isize::MAX >= 100,
    ;
}

/// The image of a message: the Base64 text of the PNG of its QR symbol.
pub open spec fn qr_image_of(d: QrCodeData, message: Seq<u8>) -> bool {
    d.image@ == base64_standard(qr_png_bytes(message))
}

/// With no fresh image kept, an encodable message is answered with the Base64
/// PNG of the QR symbol of all of its bytes, which is then kept; any other
/// message is refused as too long.
pub proof fn lemma_encode_uses_whole_message(
    before: Option<QrCodeData>,
    after: Option<QrCodeData>,
    r: Result<QrCodeData, QrCodeError>,
    message: Seq<u8>,
    age_secs: u64,
)
    requires
        encode_outcome(before, after, r, message, age_secs),
        fresh_value(before, age_secs) is None,
    ensures
        qr_encodable(message) ==> (r matches Ok(d) && d.image@ == base64_standard(qr_png_bytes(message))
            && after == Some(d)),
        !qr_encodable(message) ==> r == Err::<QrCodeData, QrCodeError>(QrCodeError::DataTooLong),
{
}

/// What `encode` answers and keeps when the kept image (if any) is
/// `age_secs` whole seconds old: the kept image while it is fresh; else the
/// image of the message, then kept, when the message fits a QR symbol; else
/// `DataTooLong`, with the cache left as it was.
pub open spec fn encode_outcome(
    before: Option<QrCodeData>,
    after: Option<QrCodeData>,
    r: Result<QrCodeData, QrCodeError>,
    message: Seq<u8>,
    age_secs: u64,
) -> bool {
    match fresh_value(before, age_secs) {
        Some(kept) => r == Ok::<QrCodeData, QrCodeError>(kept) && after == before,
        None => if qr_encodable(message) {
            (r matches Ok(d) && qr_image_of(d, message) && after == Some(d))
        } else {
            r == Err::<QrCodeData, QrCodeError>(QrCodeError::DataTooLong) && after == before
        },
    }
}

/// The QR code image, as Base64 PNG text.
pub struct QrCodeData {
    pub image: String,
}

impl QrCodeData {
    /// A copy of the image data.
    pub fn duplicate(&self) -> (r: QrCodeData)
        ensures
            r == *self,
    {
        QrCodeData { image: self.image.clone() }
    }
}

/// Why no QR code image could be produced.
#[derive(Debug, PartialEq, Eq, Structural)]
pub enum QrCodeError {
    /// The message is too long for any QR symbol.
    DataTooLong,
}

/// Produces the QR code image of a message, keeping the last image for ten
/// minutes.
pub struct QrCodeService {
    cache: ResponseCache<QrCodeData>,
}

impl QrCodeService {
    /// The image that the service keeps, if any.
    pub closed spec fn cached(&self) -> Option<QrCodeData> {
        self.cache.stored()
    }

    /// A service that keeps no image yet.
    pub fn new() -> (r: QrCodeService)
        ensures
            r.cached() is None,
    {
        QrCodeService { cache: ResponseCache::new() }
    }

    /// The Base64 text of PNG bytes.
    pub fn to_base64(bytes: &Vec<u8>) -> (r: String)
        requires
            base64_len(bytes@.len()) <= usize::MAX,
        ensures
            r@ == base64_standard(bytes@),
    {
        base64_encode(bytes.as_slice())
    }

    /// The QR code image of `message` when the kept image is `age_secs`
    /// whole seconds old: the kept image while it is under ten minutes old,
    /// whatever the message; otherwise the message's symbol rendered to PNG and
    /// encoded as Base64, which is then kept; a message too long for any QR
    /// symbol is then answered with `Err(DataTooLong)` (not a panic).
    pub fn encode_at(&mut self, message: &str, age_secs: u64) -> (r: Result<QrCodeData, QrCodeError>)
        ensures
            encode_outcome(old(self).cached(), final(self).cached(), r, message.spec_bytes(), age_secs),
            fresh_value(old(self).cached(), age_secs) is None && qr_encodable(message.spec_bytes())
                ==> (r matches Ok(d) && d.image@ == base64_standard(qr_png_bytes(message.spec_bytes()))
                && final(self).cached() == Some(d)),
            fresh_value(old(self).cached(), age_secs) is None && !qr_encodable(message.spec_bytes())
                ==> r == Err::<QrCodeData, QrCodeError>(QrCodeError::DataTooLong),
    {
        match self.cache.fresh_at(age_secs) {
            Some(d) => {
                return Ok(d.duplicate());
            },
            None => {},
        }
        let png = match qr_png(message.as_bytes()) {
            Some(p) => p,
            None => {
                return Err(QrCodeError::DataTooLong);
            },
        };
        proof {
            lemma_base64_fits_vec(png@.len());
        }
        let data = QrCodeData { image: Self::to_base64(&png) };
        self.cache.store(data.duplicate());
        Ok(data)
    }

    /// The QR code image of `message`. While the kept image is less than ten
    /// minutes old it is answered as it is, whatever the message; otherwise the
    /// message's symbol is rendered to PNG, encoded as Base64, kept, and
    /// answered. The kept image's age comes from the clock: the answer is the
    /// one `encode_at` gives for some age, and with nothing kept it is fixed.
    /// A message too long for any QR symbol, met with no fresh image kept, is
    /// answered with `Err(DataTooLong)` rather than a panic. No `requires` can
    /// exclude those messages instead, since whether
    /// the message is encoded at all depends on the kept image's age, which is
    /// read from the clock.
    pub fn encode(&mut self, message: &str) -> (r: Result<QrCodeData, QrCodeError>)
        ensures
            exists|age: u64| #[trigger] encode_outcome(
                old(self).cached(), final(self).cached(), r, message.spec_bytes(), age),
            old(self).cached() is None ==> encode_outcome(
                old(self).cached(), final(self).cached(), r, message.spec_bytes(), 0),
            old(self).cached() is None && qr_encodable(message.spec_bytes())
                ==> (r matches Ok(d) && d.image@ == base64_standard(qr_png_bytes(message.spec_bytes()))
                && final(self).cached() == Some(d)),
            old(self).cached() is None && !qr_encodable(message.spec_bytes())
                ==> r == Err::<QrCodeData, QrCodeError>(QrCodeError::DataTooLong),
    {
        let age = self.cache.age_secs();
        let ghost before = self.cached();
        let r = self.encode_at(message, age);
        assert(encode_outcome(before, self.cached(), r, message.spec_bytes(), age));
        r
    }
}

} // verus!
