use itch_io::Platform;
use itch_io::platform::PlatformsError;
use itch_io::platform::classify_platform;
use itch_io::platform::icon_token;
use itch_io::platform::platform_list;

#[test]
fn classify_known_tokens() {
    assert_eq!(classify_platform("windows8"), Some(Platform::Windows));
    assert_eq!(classify_platform("tux"), Some(Platform::Linux));
    assert_eq!(classify_platform("apple"), Some(Platform::MacOs));
}

#[test]
fn classify_unknown_token_fails() {
    assert_eq!(classify_platform("unknown-thing"), None);
    assert_eq!(classify_platform(""), None);
    assert_eq!(classify_platform("Windows8"), None);
}

#[test]
fn icon_token_strips_prefix_of_first_match() {
    let classes = vec!["icon".to_string(), "icon-windows8".to_string()];
    assert_eq!(icon_token(&classes), Some("windows8".to_string()));

    let classes = vec!["icon-tux".to_string(), "icon-apple".to_string()];
    assert_eq!(icon_token(&classes), Some("tux".to_string()));

    let classes = vec!["icon".to_string(), "big".to_string()];
    assert_eq!(icon_token(&classes), None);

    let classes: Vec<String> = Vec::new();
    assert_eq!(icon_token(&classes), None);
}

#[test]
fn platform_list_classifies_in_order() {
    let icons = vec![
        vec!["icon".to_string(), "icon-windows8".to_string()],
        vec!["icon".to_string(), "icon-tux".to_string()],
        vec!["icon".to_string(), "icon-apple".to_string()],
    ];
    assert_eq!(
        platform_list(&icons),
        Ok(vec![Platform::Windows, Platform::Linux, Platform::MacOs])
    );
}

#[test]
fn platform_list_missing_platform_string() {
    let icons = vec![
        vec!["icon".to_string(), "icon-windows8".to_string()],
        vec!["icon".to_string()],
    ];
    assert_eq!(platform_list(&icons), Err(PlatformsError::MissingPlatformString));
}

#[test]
fn platform_list_invalid_platform_string_carries_token() {
    let icons = vec![vec!["icon".to_string(), "icon-amiga".to_string()]];
    assert_eq!(
        platform_list(&icons),
        Err(PlatformsError::InvalidPlatformString("amiga".to_string()))
    );
}

#[test]
fn platform_list_empty_is_ok() {
    let icons: Vec<Vec<String>> = Vec::new();
    assert_eq!(platform_list(&icons), Ok(Vec::new()));
}
