use app_blocker::plist::{bundle_id_from_xml, PlistError};

#[test]
fn reads_the_bundle_identifier() {
    let xml = "<dict>\n\t<key>CFBundleName</key>\n\t<string>Game</string>\n\t<key>CFBundleIdentifier</key>\n\t<string>com.example.game</string>\n</dict>";
    assert_eq!(bundle_id_from_xml(xml), Ok("com.example.game".to_string()));
}

#[test]
fn white_space_between_key_and_value_is_skipped() {
    assert_eq!(
        bundle_id_from_xml("<key>CFBundleIdentifier</key><string>a.b</string>"),
        Ok("a.b".to_string())
    );
    assert_eq!(
        bundle_id_from_xml("<key>CFBundleIdentifier</key> \r\n\u{a0} <string></string>"),
        Ok(String::new())
    );
}

#[test]
fn value_ends_at_the_first_closing_tag() {
    assert_eq!(
        bundle_id_from_xml("<key>CFBundleIdentifier</key><string>x</string><string>y</string>"),
        Ok("x".to_string())
    );
}

#[test]
fn missing_or_multiline_values_are_rejected() {
    assert_eq!(bundle_id_from_xml(""), Err(PlistError::MissingBundleId));
    assert_eq!(bundle_id_from_xml("<key>CFBundleName</key><string>x</string>"), Err(PlistError::MissingBundleId));
    assert_eq!(
        bundle_id_from_xml("<key>CFBundleIdentifier</key>\n<string>a\nb</string>"),
        Err(PlistError::MissingBundleId)
    );
    assert_eq!(
        bundle_id_from_xml("<key>CFBundleIdentifier</key><integer>1</integer>"),
        Err(PlistError::MissingBundleId)
    );
}

#[test]
fn a_later_key_is_used_when_the_first_does_not_match() {
    let xml = "<key>CFBundleIdentifier</key><array/><key>CFBundleIdentifier</key><string>ok.id</string>";
    assert_eq!(bundle_id_from_xml(xml), Ok("ok.id".to_string()));
}

#[test]
fn non_ascii_values_are_kept() {
    assert_eq!(
        bundle_id_from_xml("<key>CFBundleIdentifier</key><string>de.kölsch.app</string>"),
        Ok("de.kölsch.app".to_string())
    );
}
