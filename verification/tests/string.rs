use obs_engine::error::Error;
use obs_engine::string::{CText, DisplayExt, DisplayStr, ObsString};

#[test]
fn ctext_new_keeps_the_utf8_bytes() {
    let text = CText::new("héllo").unwrap();
    assert_eq!(text.as_bytes(), &vec![0x68, 0xc3, 0xa9, 0x6c, 0x6c, 0x6f]);
}

#[test]
fn ctext_new_of_empty_text_is_empty() {
    assert_eq!(CText::new("").unwrap().as_bytes(), &Vec::<u8>::new());
}

#[test]
fn ctext_new_reports_the_first_nul() {
    assert_eq!(CText::new("ab\0cd\0"), Err(Error::CString(2)));
    assert_eq!(CText::new("\0"), Err(Error::CString(0)));
    // the offset counts bytes, not characters
    assert_eq!(CText::new("é\0"), Err(Error::CString(2)));
}

#[test]
fn ctext_from_bytes_reports_the_first_nul() {
    assert_eq!(CText::from_bytes(vec![1, 2, 0, 3, 0]), Err(Error::CString(2)));
    assert_eq!(CText::from_bytes(vec![1, 2, 3]).unwrap().as_bytes(), &vec![1, 2, 3]);
}

#[test]
fn ctext_to_str_decodes_valid_utf8() {
    let text = CText::from_bytes(vec![0x68, 0xc3, 0xa9]).unwrap();
    assert_eq!(text.to_str(), Ok("hé"));
}

#[test]
fn ctext_to_str_refuses_malformed_utf8() {
    let text = CText::from_bytes(vec![0x68, 0xff, 0x69]).unwrap();
    assert_eq!(text.to_str(), Err(Error::String));
    // a truncated two-byte sequence
    assert_eq!(CText::from_bytes(vec![0xc3]).unwrap().to_str(), Err(Error::String));
}

#[test]
fn ctext_to_string_lossy_substitutes_malformed_bytes() {
    let text = CText::from_bytes(vec![0x68, 0xff, 0x69]).unwrap();
    assert_eq!(text.to_string_lossy(), "h\u{fffd}i");
    let fine = CText::from_bytes(vec![0x68, 0x69]).unwrap();
    assert_eq!(fine.to_string_lossy(), "hi");
}

#[test]
fn ctext_clone_is_equal() {
    let text = CText::new("scene").unwrap();
    assert_eq!(text.clone(), text);
}

#[test]
fn obs_string_as_str_of_host_text() {
    assert_eq!(ObsString::from_str("main").as_str(), Ok("main"));
    assert_eq!(ObsString::from(String::from("main")).as_str(), Ok("main"));
}

#[test]
fn obs_string_as_str_of_native_bytes() {
    let good = ObsString::from(CText::new("main").unwrap());
    assert_eq!(good.as_str(), Ok("main"));
    let bad = ObsString::CString(CText::from_bytes(vec![0x80]).unwrap());
    assert_eq!(bad.as_str(), Err(Error::String));
    assert_eq!(bad.to_string_lossy(), "\u{fffd}");
}

#[test]
fn obs_string_from_path_keeps_the_text() {
    assert_eq!(
        ObsString::from_path("/usr/lib/obs"),
        Ok(ObsString::String(String::from("/usr/lib/obs")))
    );
}

#[test]
fn obs_string_from_raw_is_absent_for_null() {
    assert_eq!(ObsString::from_raw(None), None);
    let text = CText::new("x").unwrap();
    assert_eq!(ObsString::from_raw(Some(text.clone())), Some(ObsString::CString(text)));
}

#[test]
fn obs_string_from_raw_or_null_falls_back_to_the_token() {
    let fallback = ObsString::from_raw_or_null(None);
    assert_eq!(fallback.as_str(), Ok("null"));
    assert_eq!(fallback, ObsString::CString(CText::new("null").unwrap()));
    let text = CText::new("image-source").unwrap();
    assert_eq!(ObsString::from_raw_or_null(Some(text)).as_str(), Ok("image-source"));
}

#[test]
fn obs_string_to_cstring() {
    assert_eq!(ObsString::from_str("en_US").to_cstring(), CText::new("en_US"));
    assert_eq!(ObsString::from_str("en\0US").to_cstring(), Err(Error::CString(2)));
    let native = CText::new("kept").unwrap();
    assert_eq!(ObsString::CString(native.clone()).to_cstring(), Ok(native));
}

#[test]
fn name_survives_encoding_and_decoding() {
    for name in ["main", "Szene 1 – größer", "場面", ""] {
        let sent = CText::new(name).unwrap();
        let answer = CText::from_bytes(sent.as_bytes().clone()).unwrap();
        let shown = ObsString::from_raw_or_null(Some(answer));
        assert_eq!(shown.as_str(), Ok(name));
        assert_eq!(shown.to_string_lossy(), name);
    }
}

#[test]
fn display_str_quotes_for_debugging() {
    let name = ObsString::from_str("ma\"in\n");
    assert_eq!(name.display().to_debug_string(), "\"ma\\\"in\\n\"");
    let plain = Some(ObsString::CString(CText::new("main").unwrap()));
    assert_eq!(plain.display().to_debug_string(), "\"main\"");
    let absent: Option<ObsString> = None;
    assert_eq!(absent.display().to_debug_string(), "<none>");
}

#[test]
fn display_str_shows_text_or_none() {
    let name = ObsString::from_str("main");
    assert_eq!(name.display().to_string(), "main");
    let present = Some(ObsString::from_str("main"));
    assert_eq!(present.display().to_string(), "main");
    let absent: Option<ObsString> = None;
    assert_eq!(absent.display().to_string(), "<none>");
    assert_eq!(DisplayStr(&absent).to_string(), "<none>");
}

#[test]
fn text_is_refused_exactly_when_it_holds_a_nul_character() {
    for text in ["", "plain", "\u{80}\u{7ff}", "\u{800}\u{ffff}", "\u{10000}\u{10ffff}"] {
        assert!(CText::new(text).is_ok());
        assert!(!text.contains('\0'));
    }
    for (text, at) in
        [("\0", 0), ("a\0", 1), ("\u{7ff}\0b", 2), ("\u{ffff}\0", 3), ("\u{10ffff}\0\0", 4)]
    {
        assert!(text.contains('\0'));
        assert_eq!(CText::new(text), Err(Error::CString(at)));
    }
}
