use viz_core::content_type::{Authorization, ContentType, Header};
use viz_core::headers::HeaderName;

#[test]
fn content_type_strings_match_the_mime_crate_constants() {
    let pairs: Vec<(&str, mime::Mime)> = vec![
        (ContentType::json().as_str(), mime::APPLICATION_JSON),
        (ContentType::html().as_str(), mime::TEXT_HTML),
        (ContentType::text().as_str(), mime::TEXT_PLAIN),
        (
            ContentType::form().as_str(),
            mime::APPLICATION_WWW_FORM_URLENCODED,
        ),
        (ContentType::multipart().as_str(), mime::MULTIPART_FORM_DATA),
        (ContentType::xml().as_str(), mime::TEXT_XML),
        (
            ContentType::javascript().as_str(),
            mime::APPLICATION_JAVASCRIPT,
        ),
        (ContentType::css().as_str(), mime::TEXT_CSS),
        (ContentType::pdf().as_str(), mime::APPLICATION_PDF),
        (ContentType::png().as_str(), mime::IMAGE_PNG),
        (ContentType::jpeg().as_str(), mime::IMAGE_JPEG),
        (ContentType::gif().as_str(), mime::IMAGE_GIF),
        (ContentType::svg().as_str(), mime::IMAGE_SVG),
        (
            ContentType::octet_stream().as_str(),
            mime::APPLICATION_OCTET_STREAM,
        ),
    ];
    for (ours, theirs) in pairs {
        assert_eq!(ours, theirs.as_ref());
    }
}

#[test]
fn to_header_uses_the_content_type_header_name() {
    let header = ContentType::json().to_header();
    assert_eq!(header.name, "content-type");
    assert_eq!(header.value.as_str(), "application/json");
}

#[test]
fn header_new_keeps_name_and_value() {
    let header = Header::new("content-type", ContentType::png());
    assert_eq!(header.name, "content-type");
    assert_eq!(header.value.as_str(), "image/png");
}

#[test]
fn bearer_is_the_authorization_header_with_the_wildcard_range() {
    let header = Authorization::bearer();
    assert_eq!(header.name, "authorization");
    assert_eq!(header.value.as_str(), mime::STAR_STAR.as_ref());
}

#[test]
fn standard_header_names_are_canonical() {
    assert_eq!(HeaderName::Accept.as_str(), "accept");
    assert_eq!(HeaderName::AcceptCharset.as_str(), "accept-charset");
    assert_eq!(HeaderName::AcceptEncoding.as_str(), "accept-encoding");
    assert_eq!(HeaderName::AcceptLanguage.as_str(), "accept-language");
    assert_eq!(HeaderName::AcceptRanges.as_str(), "accept-ranges");
    assert_eq!(HeaderName::Authorization.as_str(), "authorization");
    assert_eq!(HeaderName::ContentType.as_str(), "content-type");
}

#[test]
fn with_value_pairs_the_name_bytes_with_the_value() {
    let (name, value) = HeaderName::ContentType.with_value("text/html".to_string());
    assert_eq!(name, b"content-type".to_vec());
    assert_eq!(value, "text/html");
}
