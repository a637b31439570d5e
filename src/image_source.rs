//! Image references that an embed may point at.

use vstd::prelude::*;

verus! {

/// Whether `s` begins with `prefix`.
pub open spec fn has_prefix(s: Seq<char>, prefix: Seq<char>) -> bool {
    prefix.len() <= s.len() && s.subrange(0, prefix.len() as int) == prefix
}

/// A URL that an image may be fetched from: one of the web protocols.
pub open spec fn is_web_url(s: Seq<char>) -> bool {
    has_prefix(s, seq!['h', 't', 't', 'p', 's', ':']) || has_prefix(s, seq!['h', 't', 't', 'p', ':'])
}

/// A resolved image reference, holding the URL of the image.
#[derive(Clone, Debug, Eq, PartialEq)]
pub struct ImageSource(String);

impl View for ImageSource {
    type V = Seq<char>;

    closed spec fn view(&self) -> Seq<char> {
        self.0@
    }
}

/// Why a URL could not become an image source.
#[derive(Clone, Debug, Eq, PartialEq)]
pub enum ImageSourceUrlError {
    /// The URL does not use the `http` or `https` protocol.
    ProtocolUnsupported { url: String },
}

/// Whether the characters of `s` begin with those of `prefix`.
fn begins_with(s: &str, prefix: &str) -> (r: bool)
    ensures
        r == has_prefix(s@, prefix@),
{
    let n = s.unicode_len();
    let m = prefix.unicode_len();
    if m > n {
        return false;
    }
    let mut i: usize = 0;
    while i < m
        invariant
            m == prefix@.len(),
            n == s@.len(),
            m <= n,
            i <= m,
            forall|j: int| 0 <= j < i ==> s@[j] == prefix@[j],
        decreases m - i,
    {
        if s.get_char(i) != prefix.get_char(i) {
            assert(s@.subrange(0, m as int)[i as int] != prefix@[i as int]);
            return false;
        }
        i = i + 1;
    }
    assert(s@.subrange(0, m as int) =~= prefix@);
    true
}

impl ImageSource {
    /// An image source for an image on the web; the URL must use `http` or `https`.
    pub fn url(url: &str) -> (r: Result<ImageSource, ImageSourceUrlError>)
        ensures
            r is Ok <==> is_web_url(url@),
            r matches Ok(src) ==> src@ == url@,
            r matches Err(ImageSourceUrlError::ProtocolUnsupported { url: u }) ==> u@ == url@,
    {
        let https = "https:";
        let http = "http:";
        proof {
            reveal_strlit("https:");
            reveal_strlit("http:");
            assert(https@ =~= seq!['h', 't', 't', 'p', 's', ':']);
            assert(http@ =~= seq!['h', 't', 't', 'p', ':']);
        }
        if begins_with(url, https) || begins_with(url, http) {
            Ok(ImageSource(url.to_owned()))
        } else {
            Err(ImageSourceUrlError::ProtocolUnsupported { url: url.to_owned() })
        }
    }

    /// The URL of the image, giving up the source.
    pub fn into_url(self) -> (r: String)
        ensures
            r@ == self@,
    {
        self.0
    }
}

} // verus!
