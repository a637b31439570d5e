use embed_author::{EmbedAuthorBuilder, ImageSource, ImageSourceUrlError};
use twilight_model::channel::embed::EmbedAuthor;

#[test]
fn test_defaults() {
    let expected = EmbedAuthor {
        icon_url: None,
        name: None,
        proxy_icon_url: None,
        url: None,
    };

    assert_eq!(expected, EmbedAuthorBuilder::new().build());
    assert_eq!(
        EmbedAuthorBuilder::new().build(),
        EmbedAuthorBuilder::default().build()
    );
}

#[test]
fn test_builder() {
    let expected = EmbedAuthor {
        icon_url: Some("https://example.com/1.png".to_owned()),
        name: Some("an author".to_owned()),
        proxy_icon_url: None,
        url: Some("https://example.com".to_owned()),
    };

    let source = ImageSource::url("https://example.com/1.png").unwrap();
    let actual = EmbedAuthorBuilder::new()
        .icon_url(source)
        .name("an author")
        .url("https://example.com")
        .build();

    assert_eq!(actual, expected);
}

#[test]
fn new_equals_default_builder() {
    assert_eq!(EmbedAuthorBuilder::new(), EmbedAuthorBuilder::default());
}

#[test]
fn last_write_wins() {
    let first = ImageSource::url("https://example.com/1.png").unwrap();
    let second = ImageSource::url("http://example.com/2.png").unwrap();
    let actual = EmbedAuthorBuilder::new()
        .name("first")
        .icon_url(first)
        .url("https://example.com/a")
        .name("second")
        .icon_url(second)
        .url("https://example.com/b")
        .build();

    assert_eq!(actual.name.as_deref(), Some("second"));
    assert_eq!(actual.icon_url.as_deref(), Some("http://example.com/2.png"));
    assert_eq!(actual.url.as_deref(), Some("https://example.com/b"));
    assert_eq!(actual.proxy_icon_url, None);
}

#[test]
fn unset_fields_stay_absent() {
    let actual = EmbedAuthorBuilder::new().name("only a name").build();

    assert_eq!(
        actual,
        EmbedAuthor {
            icon_url: None,
            name: Some("only a name".to_owned()),
            proxy_icon_url: None,
            url: None,
        }
    );
}

#[test]
fn empty_and_long_names_are_kept_as_given() {
    let empty = EmbedAuthorBuilder::new().name("").build();
    assert_eq!(empty.name.as_deref(), Some(""));

    let long = "a".repeat(257);
    let built = EmbedAuthorBuilder::new().name(&long).build();
    assert_eq!(built.name, Some(long));
}

#[test]
fn proxy_icon_url_is_never_set() {
    let source = ImageSource::url("https://example.com/1.png").unwrap();
    let actual = EmbedAuthorBuilder::new()
        .icon_url(source)
        .name("n")
        .url("https://example.com")
        .build();

    assert_eq!(actual.proxy_icon_url, None);
}

#[test]
fn from_builder_equals_build() {
    let builder = EmbedAuthorBuilder::new().name("an author").url("https://example.com");
    let via_from = EmbedAuthor::from(builder.clone());

    assert_eq!(via_from, builder.build());
}

#[test]
fn clone_keeps_fields() {
    let builder = EmbedAuthorBuilder::new().name("an author");

    assert_eq!(builder.clone(), builder);
}

#[test]
fn image_source_accepts_web_urls() {
    let https = ImageSource::url("https://example.com/1.png").unwrap();
    assert_eq!(https.into_url(), "https://example.com/1.png");

    let http = ImageSource::url("http://example.com/1.png").unwrap();
    assert_eq!(http.into_url(), "http://example.com/1.png");
}

#[test]
fn image_source_rejects_other_protocols() {
    assert_eq!(
        ImageSource::url("ftp://example.com/1.png"),
        Err(ImageSourceUrlError::ProtocolUnsupported {
            url: "ftp://example.com/1.png".to_owned()
        })
    );
    assert!(ImageSource::url("").is_err());
    assert!(ImageSource::url("http").is_err());
    assert!(ImageSource::url("HTTPS://example.com").is_err());
}
