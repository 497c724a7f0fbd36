use vstd::prelude::*;
use vstd::slice::slice_to_vec;
use vstd::string::StringSliceAdditionalSpecFns;

verus! {

/// The standard request headers this library names, each mapped once to its
/// canonical lower-case wire name.
#[derive(Clone, Copy, Debug, PartialEq, Eq, Structural)]
pub enum HeaderName {
    /// `accept`
    Accept,
    /// `accept-charset`
    AcceptCharset,
    /// `accept-encoding`
    AcceptEncoding,
    /// `accept-language`
    AcceptLanguage,
    /// `accept-ranges`
    AcceptRanges,
    /// `authorization`
    Authorization,
    /// `content-type`
    ContentType,
}

/// The canonical wire name of each standard header.
pub open spec fn header_name_chars(name: HeaderName) -> Seq<char> {
    match name {
        HeaderName::Accept => "accept"@,
        HeaderName::AcceptCharset => "accept-charset"@,
        HeaderName::AcceptEncoding => "accept-encoding"@,
        HeaderName::AcceptLanguage => "accept-language"@,
        HeaderName::AcceptRanges => "accept-ranges"@,
        HeaderName::Authorization => "authorization"@,
        HeaderName::ContentType => "content-type"@,
    }
}

/// The canonical wire name of each standard header, as bytes.
pub open spec fn header_name_bytes(name: HeaderName) -> Seq<u8> {
    match name {
        HeaderName::Accept => "accept".spec_bytes(),
        HeaderName::AcceptCharset => "accept-charset".spec_bytes(),
        HeaderName::AcceptEncoding => "accept-encoding".spec_bytes(),
        HeaderName::AcceptLanguage => "accept-language".spec_bytes(),
        HeaderName::AcceptRanges => "accept-ranges".spec_bytes(),
        HeaderName::Authorization => "authorization".spec_bytes(),
        HeaderName::ContentType => "content-type".spec_bytes(),
    }
}

impl HeaderName {
    /// The header's wire name.
    pub fn as_str(self) -> (r: &'static str)
        ensures
            r@ == header_name_chars(self),
            r.spec_bytes() == header_name_bytes(self),
    {
        match self {
            HeaderName::Accept => "accept",
            HeaderName::AcceptCharset => "accept-charset",
            HeaderName::AcceptEncoding => "accept-encoding",
            HeaderName::AcceptLanguage => "accept-language",
            HeaderName::AcceptRanges => "accept-ranges",
            HeaderName::Authorization => "authorization",
            HeaderName::ContentType => "content-type",
        }
    }

    /// The header's wire name as owned bytes, paired with a value, as a
    /// name/value entry ready for a raw header map.
    pub fn with_value(self, value: String) -> (r: (Vec<u8>, String))
        ensures
            r.0@ == header_name_bytes(self),
            r.1 == value,
    {
        (slice_to_vec(self.as_str().as_bytes()), value)
    }
}

} // verus!
