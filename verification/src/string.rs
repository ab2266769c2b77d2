//! Text on its way to and from the native side: NUL-free bytes, UTF-8, and
//! what is shown when decoding must not fail.

use vstd::prelude::*;
use vstd::utf8::*;
use vstd::string::*;

use crate::error::Error;

verus! {

/// No byte of `bytes` is NUL.
pub open spec fn nul_free(bytes: Seq<u8>) -> bool {
    forall|i: int| 0 <= i < bytes.len() ==> bytes[i] != 0u8
}

/// `at` is the offset of the first NUL byte of `bytes`.
pub open spec fn first_nul(bytes: Seq<u8>, at: int) -> bool {
    &&& 0 <= at < bytes.len()
    &&& bytes[at] == 0u8
    &&& forall|i: int| 0 <= i < at ==> bytes[i] != 0u8
}

/// The text that `String::from_utf8_lossy` makes of `bytes`.
pub uninterp spec fn lossy_text(bytes: Seq<u8>) -> Seq<char>;

/// `std::str::from_utf8`: the bytes as text when they are well-formed
/// UTF-8, and nothing otherwise. The claim, which is not proved here, is
/// that the standard library accepts exactly the byte sequences that
/// `valid_utf8` describes, and that the text it returns is made of the
/// very bytes given.
#[verifier::external_body]
fn text_of(bytes: &[u8]) -> (r: Option<&str>)
    ensures
        r is Some <==> valid_utf8(bytes@),
        r matches Some(s) ==> s.spec_bytes() == bytes@,
{
    std::str::from_utf8(bytes).ok()
}

/// `String::from_utf8_lossy`: the bytes as text, with whatever the
/// standard library puts in place of malformed input. The claim, which is
/// not proved here, is only that the outcome depends on nothing but the
/// bytes.
#[verifier::external_body]
fn lossy_text_of(bytes: &[u8]) -> (r: String)
    ensures
        r@ == lossy_text(bytes@),
{
    String::from_utf8_lossy(bytes).into_owned()
}

/// The text that the standard library's `Debug` shows for `text`: quoted,
/// with what cannot be shown as it is escaped.
pub uninterp spec fn quoted_text(text: Seq<char>) -> Seq<char>;

/// `<str as Debug>::fmt`, by way of `format!`: the text quoted and
/// escaped. The claim, which is not proved here, is only that the outcome
/// depends on nothing but the text.
#[verifier::external_body]
fn quoted_text_of(text: &str) -> (r: String)
    ensures
        r@ == quoted_text(text@),
{
    format!("{:?}", text)
}

/// Bytes ready to be handed to the native side as a NUL-terminated string:
/// the terminator is not stored, and no byte held is NUL.
#[derive(Debug, PartialEq, Eq)]
pub struct CText {
    bytes: Vec<u8>,
}

impl View for CText {
    type V = Seq<u8>;

    closed spec fn view(&self) -> Seq<u8> {
        self.bytes@
    }
}

impl Clone for CText {
    fn clone(&self) -> (r: Self)
        ensures
            r@ == self@,
    {
        proof {
            use_type_invariant(self);
        }
        CText { bytes: self.bytes.clone() }
    }
}

impl CText {
    #[verifier::type_invariant]
    spec fn holds_no_nul(self) -> bool {
        nul_free(self.bytes@)
    }

    /// Takes `bytes` as they are, or reports the offset of their first NUL.
    pub fn from_bytes(bytes: Vec<u8>) -> (r: Result<CText, Error>)
        ensures
            match r {
                Ok(c) => c@ == bytes@ && nul_free(bytes@),
                Err(Error::CString(at)) => first_nul(bytes@, at as int),
                Err(_) => false,
            },
    {
        let mut i: usize = 0;
        while i < bytes.len()
            invariant
                i <= bytes.len(),
                forall|j: int| 0 <= j < i ==> bytes@[j] != 0u8,
            decreases bytes.len() - i,
        {
            if bytes[i] == 0 {
                return Err(Error::CString(i));
            }
            i += 1;
        }
        Ok(CText { bytes })
    }

    /// The UTF-8 encoding of `text`, or the offset of its first NUL byte.
    pub fn new(text: &str) -> (r: Result<CText, Error>)
        ensures
            match r {
                Ok(c) => c@ == text.spec_bytes() && nul_free(text.spec_bytes()),
                Err(Error::CString(at)) => first_nul(text.spec_bytes(), at as int),
                Err(_) => false,
            },
    {
        CText::from_bytes(text.as_bytes_vec())
    }

    /// The bytes held, without a terminator.
    pub fn as_bytes(&self) -> (r: &Vec<u8>)
        ensures
            r@ == self@,
            nul_free(self@),
    {
        proof {
            use_type_invariant(self);
        }
        &self.bytes
    }

    /// The bytes read as UTF-8 text.
    pub fn to_str(&self) -> (r: Result<&str, Error>)
        ensures
            match r {
                Ok(s) => valid_utf8(self@) && s@ == decode_utf8(self@),
                Err(e) => !valid_utf8(self@) && e == Error::String,
            },
    {
        match text_of(self.bytes.as_slice()) {
            Some(s) => {
                proof {
                    encode_utf8_decode_utf8(s@);
                }
                Ok(s)
            },
            None => Err(Error::String),
        }
    }

    /// The bytes read as text: exactly, when they are well-formed UTF-8, and
    /// with the standard library's substitutions otherwise.
    pub fn to_string_lossy(&self) -> (r: String)
        ensures
            valid_utf8(self@) ==> r@ == decode_utf8(self@),
            !valid_utf8(self@) ==> r@ == lossy_text(self@),
    {
        match self.to_str() {
            Ok(s) => s.to_owned(),
            Err(_) => lossy_text_of(self.bytes.as_slice()),
        }
    }
}

/// A string on its way to or from the native side: either host text, or
/// bytes that the native side produced.
#[derive(Debug, Clone, PartialEq, Eq)]
pub enum ObsString {
    String(String),
    CString(CText),
}

impl From<String> for ObsString {
    fn from(s: String) -> (r: Self) {
        ObsString::String(s)
    }
}

impl vstd::std_specs::convert::FromSpecImpl<String> for ObsString {
    open spec fn obeys_from_spec() -> bool {
        true
    }

    open spec fn from_spec(s: String) -> Self {
        ObsString::String(s)
    }
}

impl From<CText> for ObsString {
    fn from(s: CText) -> (r: Self) {
        ObsString::CString(s)
    }
}

impl vstd::std_specs::convert::FromSpecImpl<CText> for ObsString {
    open spec fn obeys_from_spec() -> bool {
        true
    }

    open spec fn from_spec(s: CText) -> Self {
        ObsString::CString(s)
    }
}

/// The bytes of the token that stands in for a string the native side did
/// not provide.
pub open spec fn null_token() -> Seq<u8> {
    seq![0x6eu8, 0x75u8, 0x6cu8, 0x6cu8]
}

/// The token `null` is what `null_token` spells.
pub proof fn lemma_null_token_spells_null()
    ensures
        null_token() == "null".spec_bytes(),
        valid_utf8(null_token()),
        decode_utf8(null_token()) == "null"@,
{
    reveal_strlit("null");
    let chars = "null"@;
    assert(is_ascii_chars(chars)) by {
        assert forall|i: int| 0 <= i < chars.len() implies '\0' <= #[trigger] chars[i] <= '\x7f' by {}
    }
    is_ascii_chars_encode_utf8(chars);
    encode_utf8_valid_utf8(chars);
    encode_utf8_decode_utf8(chars);
}

impl ObsString {
    /// The text this string shows when nothing may fail: host text as it
    /// is, native bytes decoded, lossily where they are malformed.
    pub open spec fn lossy(self) -> Seq<char> {
        match self {
            ObsString::String(s) => s@,
            ObsString::CString(c) => if valid_utf8(c@) {
                decode_utf8(c@)
            } else {
                lossy_text(c@)
            },
        }
    }

    /// The text held, or `Error::String` when native bytes are not UTF-8.
    pub fn as_str(&self) -> (r: Result<&str, Error>)
        ensures
            match *self {
                ObsString::String(s) => r matches Ok(t) && t@ == s@,
                ObsString::CString(c) => match r {
                    Ok(t) => valid_utf8(c@) && t@ == decode_utf8(c@),
                    Err(e) => !valid_utf8(c@) && e == Error::String,
                },
            },
    {
        match self {
            ObsString::String(s) => Ok(s.as_str()),
            ObsString::CString(c) => c.to_str(),
        }
    }

    /// The text held; malformed native bytes are decoded lossily.
    pub fn to_string_lossy(&self) -> (r: String)
        ensures
            r@ == self.lossy(),
    {
        match self {
            ObsString::String(s) => s.clone(),
            ObsString::CString(c) => c.to_string_lossy(),
        }
    }

    /// A path, already rendered as text, as host text.
    pub fn from_path(path: &str) -> (r: Result<Self, Error>)
        ensures
            r matches Ok(ObsString::String(s)) && s@ == path@,
    {
        Ok(ObsString::String(path.to_owned()))
    }

    /// Wraps what a native string accessor produced: nothing for a null
    /// pointer, the bytes otherwise.
    pub fn from_raw(text: Option<CText>) -> (r: Option<Self>)
        ensures
            match text {
                None => r is None,
                Some(c) => r == Some(ObsString::CString(c)),
            },
    {
        match text {
            None => None,
            Some(c) => Some(ObsString::CString(c)),
        }
    }

    /// Wraps what a native string accessor produced, with the token `null`
    /// standing in for a null pointer.
    pub fn from_raw_or_null(text: Option<CText>) -> (r: Self)
        ensures
            match text {
                None => r matches ObsString::CString(c) && c@ == null_token(),
                Some(c) => r == ObsString::CString(c),
            },
    {
        match text {
            Some(c) => ObsString::CString(c),
            None => {
                let mut bytes: Vec<u8> = Vec::new();
                bytes.push(0x6e);
                bytes.push(0x75);
                bytes.push(0x6c);
                bytes.push(0x6c);
                assert(bytes@ =~= null_token());
                ObsString::CString(CText { bytes })
            },
        }
    }

    /// Host text with the content of `s`.
    pub fn from_str(s: &str) -> (r: Self)
        ensures
            r matches ObsString::String(t) && t@ == s@,
    {
        ObsString::String(s.to_owned())
    }

    /// The bytes to hand to the native side: native bytes as they are, host
    /// text encoded, unless it holds a NUL.
    pub fn to_cstring(self) -> (r: Result<CText, Error>)
        ensures
            match self {
                ObsString::CString(c) => r == Ok::<CText, Error>(c),
                ObsString::String(s) => match r {
                    Ok(c) => c@ == encode_utf8(s@) && nul_free(c@),
                    Err(Error::CString(at)) => first_nul(encode_utf8(s@), at as int),
                    Err(_) => false,
                },
            },
    {
        match self {
            ObsString::String(s) => CText::new(s.as_str()),
            ObsString::CString(c) => Ok(c),
        }
    }
}

/// A borrowed string, or a borrowed string that may be missing, dressed
/// for showing to a person.
pub struct DisplayStr<'a, T>(pub &'a T);

impl<'a> DisplayStr<'a, ObsString> {
    /// The text shown: the string, decoded lossily where need be.
    pub fn to_string(&self) -> (r: String)
        ensures
            r@ == self.0.lossy(),
    {
        self.0.to_string_lossy()
    }
}

impl<'a> DisplayStr<'a, ObsString> {
    /// The text shown to someone who debugs: the string, decoded lossily
    /// where need be, in quotes.
    pub fn to_debug_string(&self) -> (r: String)
        ensures
            r@ == quoted_text(self.0.lossy()),
    {
        quoted_text_of(self.0.to_string_lossy().as_str())
    }
}

impl<'a> DisplayStr<'a, Option<ObsString>> {
    /// The text shown to someone who debugs: the string, decoded lossily
    /// where need be, in quotes, or `<none>`, without quotes, where there
    /// is no string.
    pub fn to_debug_string(&self) -> (r: String)
        ensures
            r@ == match *self.0 {
                Some(s) => quoted_text(s.lossy()),
                None => "<none>"@,
            },
    {
        match self.0 {
            Some(s) => quoted_text_of(s.to_string_lossy().as_str()),
            None => "<none>".to_owned(),
        }
    }

    /// The text shown: the string, decoded lossily where need be, or
    /// `<none>` where there is no string.
    pub fn to_string(&self) -> (r: String)
        ensures
            r@ == match *self.0 {
                Some(s) => s.lossy(),
                None => "<none>"@,
            },
    {
        match self.0 {
            Some(s) => s.to_string_lossy(),
            None => "<none>".to_owned(),
        }
    }
}

/// Values that can be dressed for showing.
pub trait DisplayExt: Sized {
    /// This value, dressed for showing.
    fn display(&self) -> (r: DisplayStr<'_, Self>)
        ensures
            r.0 == self,
    {
        DisplayStr(self)
    }
}

impl DisplayExt for ObsString {

}

impl DisplayExt for Option<ObsString> {

}

/// Text that is handed to the engine and handed back by it unchanged
/// reads as it was written. So the name a scene is created under is the
/// name its source shows, and a string stored in a data object is the
/// string read from it.
pub proof fn lemma_text_survives_engine(text: Seq<char>, sent: CText, answer: CText)
    requires
        sent@ == encode_utf8(text),
        answer@ == sent@,
    ensures
        valid_utf8(answer@),
        decode_utf8(answer@) == text,
        ObsString::CString(answer).lossy() == text,
{
    encode_utf8_valid_utf8(text);
    encode_utf8_decode_utf8(text);
}

/// The one byte of a one-byte encoding is NUL for the scalar zero alone.
proof fn lemma_single_byte(v: u32)
    by (bit_vector)
    requires
        v <= 0x7F,
    ensures
        ((v & 0x7F) as u8 == 0u8) <==> v == 0,
{
}

/// No byte of an encoding of two or more bytes is NUL.
proof fn lemma_longer_bytes(v: u32)
    by (bit_vector)
    ensures
        0xC0u8 | ((v >> 6) & 0x1F) as u8 != 0u8,
        0xE0u8 | ((v >> 12) & 0x0F) as u8 != 0u8,
        0xF0u8 | ((v >> 18) & 0x7) as u8 != 0u8,
        0x80u8 | (v & 0x3F) as u8 != 0u8,
        0x80u8 | ((v >> 6) & 0x3F) as u8 != 0u8,
        0x80u8 | ((v >> 12) & 0x3F) as u8 != 0u8,
{
}

/// The encoding of one character holds a NUL byte for the character NUL
/// alone.
proof fn lemma_char_bytes(c: char)
    ensures
        nul_free(encode_scalar(c as u32)) <==> c != '\0',
{
    let v = c as u32;
    let bytes = encode_scalar(v);
    char_is_scalar(c);
    lemma_longer_bytes(v);
    if has_width_1_encoding(v) {
        lemma_single_byte(v);
        if c == '\0' {
            assert(bytes[0] == 0u8);
        }
    }
}

/// Text can be handed to the engine exactly when it holds no NUL
/// character: only that character puts a NUL byte into the encoding.
pub proof fn lemma_nul_free_iff_no_nul_char(text: Seq<char>)
    ensures
        nul_free(encode_utf8(text)) <==> !text.contains('\0'),
    decreases text.len(),
{
    if text.len() > 0 {
        let head = encode_scalar(text[0] as u32);
        let rest = text.drop_first();
        let tail = encode_utf8(rest);
        lemma_char_bytes(text[0]);
        lemma_nul_free_iff_no_nul_char(rest);
        if nul_free(head + tail) {
            assert forall|i: int| 0 <= i < head.len() implies head[i] != 0u8 by {
                assert((head + tail)[i] == head[i]);
            }
            assert forall|i: int| 0 <= i < tail.len() implies tail[i] != 0u8 by {
                assert((head + tail)[head.len() + i] == tail[i]);
            }
            assert forall|i: int| 0 <= i < text.len() implies text[i] != '\0' by {
                if i > 0 {
                    assert(rest[i - 1] == text[i]);
                }
            }
        }
        if !text.contains('\0') {
            assert forall|i: int| 0 <= i < rest.len() implies rest[i] != '\0' by {}
        }
    }
}

} // verus!
