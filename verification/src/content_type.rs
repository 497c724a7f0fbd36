use vstd::prelude::*;

use crate::headers::{header_name_chars, HeaderName};

verus! {

/// The media types this library knows by name, each standing for one
/// canonical MIME string.
#[derive(Clone, Copy, Debug, PartialEq, Eq, Structural)]
pub enum MediaKind {
    /// `application/json`
    Json,
    /// `text/html`
    Html,
    /// `text/plain`
    Text,
    /// `application/x-www-form-urlencoded`
    Form,
    /// `multipart/form-data`
    Multipart,
    /// `text/xml`
    Xml,
    /// `application/javascript`
    Javascript,
    /// `text/css`
    Css,
    /// `application/pdf`
    Pdf,
    /// `image/png`
    Png,
    /// `image/jpeg`
    Jpeg,
    /// `image/gif`
    Gif,
    /// `image/svg+xml`
    Svg,
    /// `application/octet-stream`
    OctetStream,
    /// `*/*`, the wildcard range
    Any,
}

/// The canonical MIME string of each media kind.
pub open spec fn media_kind_str(kind: MediaKind) -> Seq<char> {
    match kind {
        MediaKind::Json => "application/json"@,
        MediaKind::Html => "text/html"@,
        MediaKind::Text => "text/plain"@,
        MediaKind::Form => "application/x-www-form-urlencoded"@,
        MediaKind::Multipart => "multipart/form-data"@,
        MediaKind::Xml => "text/xml"@,
        MediaKind::Javascript => "application/javascript"@,
        MediaKind::Css => "text/css"@,
        MediaKind::Pdf => "application/pdf"@,
        MediaKind::Png => "image/png"@,
        MediaKind::Jpeg => "image/jpeg"@,
        MediaKind::Gif => "image/gif"@,
        MediaKind::Svg => "image/svg+xml"@,
        MediaKind::OctetStream => "application/octet-stream"@,
        MediaKind::Any => "*/*"@,
    }
}

/// A content type: one of the known media types, ready to be rendered as a
/// MIME string or attached as an HTTP header.
#[derive(Clone, Copy, Debug)]
pub struct ContentType {
    kind: MediaKind,
}

impl ContentType {
    /// The media kind this content type stands for.
    pub closed spec fn spec_kind(self) -> MediaKind {
        self.kind
    }

    /// `application/json`
    pub fn json() -> (r: Self)
        ensures
            r.spec_kind() == MediaKind::Json,
    {
        ContentType { kind: MediaKind::Json }
    }

    /// `text/html`
    pub fn html() -> (r: Self)
        ensures
            r.spec_kind() == MediaKind::Html,
    {
        ContentType { kind: MediaKind::Html }
    }

    /// `text/plain`
    pub fn text() -> (r: Self)
        ensures
            r.spec_kind() == MediaKind::Text,
    {
        ContentType { kind: MediaKind::Text }
    }

    /// `application/x-www-form-urlencoded`
    pub fn form() -> (r: Self)
        ensures
            r.spec_kind() == MediaKind::Form,
    {
        ContentType { kind: MediaKind::Form }
    }

    /// `multipart/form-data`
    pub fn multipart() -> (r: Self)
        ensures
            r.spec_kind() == MediaKind::Multipart,
    {
        ContentType { kind: MediaKind::Multipart }
    }

    /// `text/xml`
    pub fn xml() -> (r: Self)
        ensures
            r.spec_kind() == MediaKind::Xml,
    {
        ContentType { kind: MediaKind::Xml }
    }

    /// `application/javascript`
    pub fn javascript() -> (r: Self)
        ensures
            r.spec_kind() == MediaKind::Javascript,
    {
        ContentType { kind: MediaKind::Javascript }
    }

    /// `text/css`
    pub fn css() -> (r: Self)
        ensures
            r.spec_kind() == MediaKind::Css,
    {
        ContentType { kind: MediaKind::Css }
    }

    /// `application/pdf`
    pub fn pdf() -> (r: Self)
        ensures
            r.spec_kind() == MediaKind::Pdf,
    {
        ContentType { kind: MediaKind::Pdf }
    }

    /// `image/png`
    pub fn png() -> (r: Self)
        ensures
            r.spec_kind() == MediaKind::Png,
    {
        ContentType { kind: MediaKind::Png }
    }

    /// `image/jpeg`
    pub fn jpeg() -> (r: Self)
        ensures
            r.spec_kind() == MediaKind::Jpeg,
    {
        ContentType { kind: MediaKind::Jpeg }
    }

    /// `image/gif`
    pub fn gif() -> (r: Self)
        ensures
            r.spec_kind() == MediaKind::Gif,
    {
        ContentType { kind: MediaKind::Gif }
    }

    /// `image/svg+xml`
    pub fn svg() -> (r: Self)
        ensures
            r.spec_kind() == MediaKind::Svg,
    {
        ContentType { kind: MediaKind::Svg }
    }

    /// `application/octet-stream`
    pub fn octet_stream() -> (r: Self)
        ensures
            r.spec_kind() == MediaKind::OctetStream,
    {
        ContentType { kind: MediaKind::OctetStream }
    }

    /// The canonical MIME string of this content type.
    pub fn as_str(&self) -> (r: &'static str)
        ensures
            r@ == media_kind_str(self.spec_kind()),
    {
        match self.kind {
            MediaKind::Json => "application/json",
            MediaKind::Html => "text/html",
            MediaKind::Text => "text/plain",
            MediaKind::Form => "application/x-www-form-urlencoded",
            MediaKind::Multipart => "multipart/form-data",
            MediaKind::Xml => "text/xml",
            MediaKind::Javascript => "application/javascript",
            MediaKind::Css => "text/css",
            MediaKind::Pdf => "application/pdf",
            MediaKind::Png => "image/png",
            MediaKind::Jpeg => "image/jpeg",
            MediaKind::Gif => "image/gif",
            MediaKind::Svg => "image/svg+xml",
            MediaKind::OctetStream => "application/octet-stream",
            MediaKind::Any => "*/*",
        }
    }

    /// Renders this content type as the `content-type` HTTP header.
    pub fn to_header(&self) -> (h: Header)
        ensures
            h.name@ == header_name_chars(HeaderName::ContentType),
            h.name@ == "content-type"@,
            h.value.spec_kind() == self.spec_kind(),
    {
        Header::new(HeaderName::ContentType.as_str(), *self)
    }
}

/// An HTTP header as a name together with a media-typed value.
#[derive(Clone, Copy, Debug)]
pub struct Header {
    /// The header's lower-case name.
    pub name: &'static str,
    /// The header's value, as a media type.
    pub value: ContentType,
}

impl Header {
    /// Creates a header from its name and value.
    pub fn new(name: &'static str, value: ContentType) -> (h: Self)
        ensures
            h.name == name,
            h.value == value,
    {
        Header { name, value }
    }
}

/// The `authorization` header family.
#[derive(Clone, Copy, Debug)]
pub struct Authorization;

impl Authorization {
    /// The `authorization` header with the wildcard media range as its
    /// placeholder value.
    pub fn bearer() -> (h: Header)
        ensures
            h.name@ == "authorization"@,
            h.value.spec_kind() == MediaKind::Any,
    {
        Header::new("authorization", ContentType { kind: MediaKind::Any })
    }
}

} // verus!
