use muda_win::{AboutMetadata, AboutMetadataBuilder};

#[test]
fn builder_sets_each_field() {
    let m = AboutMetadataBuilder::new()
        .name(Some("muda-win"))
        .version(Some("1.2.3"))
        .short_version(Some("1.2"))
        .authors(Some(vec!["Ann".to_string(), "Bo".to_string()]))
        .comments(Some("menus"))
        .copyright(Some("(c) 2024"))
        .license(Some("MIT"))
        .website(Some("https://example.org"))
        .website_label(Some("home"))
        .build();
    assert_eq!(m.name.as_deref(), Some("muda-win"));
    assert_eq!(m.version.as_deref(), Some("1.2.3"));
    assert_eq!(m.short_version.as_deref(), Some("1.2"));
    assert_eq!(m.authors, Some(vec!["Ann".to_string(), "Bo".to_string()]));
    assert_eq!(m.comments.as_deref(), Some("menus"));
    assert_eq!(m.copyright.as_deref(), Some("(c) 2024"));
    assert_eq!(m.license.as_deref(), Some("MIT"));
    assert_eq!(m.website.as_deref(), Some("https://example.org"));
    assert_eq!(m.website_label.as_deref(), Some("home"));
    let cleared = AboutMetadataBuilder::new().name(Some("x")).name(None).build();
    assert!(cleared.name.is_none());
}

#[test]
fn full_version_formats() {
    let m = AboutMetadataBuilder::new().version(Some("1.0.2")).short_version(Some("1.0")).build();
    assert_eq!(m.full_version().as_deref(), Some("1.0.2 (1.0)"));
    let only = AboutMetadataBuilder::new().version(Some("2.0")).build();
    assert_eq!(only.full_version().as_deref(), Some("2.0"));
    let none = AboutMetadataBuilder::new().short_version(Some("1.0")).build();
    assert_eq!(none.full_version(), None);
    let d = AboutMetadata::default();
    assert!(d.name.is_none() && d.version.is_none());
}
