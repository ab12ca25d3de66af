use rosu::rgb::Rgb;
use rosu::skin_ini::{SkinIni, SkinParseError};

#[test]
fn test_color_parse() {
    let s = "254, 255, 255";
    let parsed = Rgb::parse(s).unwrap();
    assert_eq!(parsed.r(), 254);
    assert_eq!(parsed.g(), 255);
    assert_eq!(parsed.b(), 255);

    let s = "254,  255,  10   ";
    let parsed = Rgb::parse(s).unwrap();
    assert_eq!(parsed.r(), 254);
    assert_eq!(parsed.g(), 255);
    assert_eq!(parsed.b(), 10);

    let s = "254,  255,      10   // comment";
    let parsed = Rgb::parse(s).unwrap();
    assert_eq!(parsed.r(), 254);
    assert_eq!(parsed.g(), 255);
    assert_eq!(parsed.b(), 10);
}

#[test]
fn color_parse_needs_three_fields() {
    assert!(Rgb::parse("1, 2").is_none());
    assert!(Rgb::parse("").is_none());
    assert!(Rgb::parse_fields("1").is_none());
}

#[test]
fn color_parse_ignores_extra_fields_and_accepts_plus() {
    let c = Rgb::parse("+1,002,3,4,5").unwrap();
    assert_eq!((c.r(), c.g(), c.b()), (1, 2, 3));
    let c = Rgb::parse("\t7 //x,8,9").unwrap();
    assert_eq!((c.r(), c.g(), c.b()), (7, 8, 9));
}

#[test]
fn color_fields_report_bad_numbers() {
    assert_eq!(Rgb::parse_fields("256, 1, 1"), Some((None, Some(1), Some(1))));
    assert_eq!(Rgb::parse_fields("-1, a, +"), Some((None, None, None)));
    assert_eq!(Rgb::parse_fields("1,2,"), Some((Some(1), Some(2), None)));
}

#[test]
fn default_color_is_white() {
    let c = Rgb::default();
    assert_eq!((c.r(), c.g(), c.b()), (255, 255, 255));
    let c = Rgb::new(1, 2, 3);
    assert_eq!((c.r(), c.g(), c.b()), (1, 2, 3));
}

fn rgb(c: &Rgb) -> (u8, u8, u8) {
    (c.r(), c.g(), c.b())
}

#[test]
fn skin_ini_reads_fields_and_colours() {
    let text = "[General]\nName = Test skin\nAuthor = someone\n\n[Colours]\nCombo2 = 1, 2, 3\nCombo5 = 4,5,6 // five\nSliderBorder = 10, 20, 30\n";
    let skin = SkinIni::parse(text.as_bytes()).unwrap();
    assert_eq!(skin.general.name, "Test skin");
    assert_eq!(skin.general.author, "someone");
    assert_eq!(rgb(&skin.colours.slider_border), (10, 20, 30));
    assert_eq!(rgb(&skin.colours.slider_body), (0, 0, 0));
    let combos: Vec<_> = skin.colours.combo_colors.iter().map(rgb).collect();
    assert_eq!(combos, vec![(1, 2, 3), (4, 5, 6)]);
}

#[test]
fn skin_ini_without_combo_colours_is_white() {
    let text = "[General]\nName = a\nAuthor = b\n[Colours]\nCombo1 = 1, 2\nSliderTrackOverride = 9, 9, 9\n";
    let skin = SkinIni::parse(text.as_bytes()).unwrap();
    let combos: Vec<_> = skin.colours.combo_colors.iter().map(rgb).collect();
    assert_eq!(combos, vec![(255, 255, 255)]);
    assert_eq!(rgb(&skin.colours.slider_border), (255, 255, 255));
    assert_eq!(rgb(&skin.colours.slider_body), (9, 9, 9));
}

#[test]
fn skin_ini_missing_name() {
    let text = "[General]\nAuthor = b\n";
    match SkinIni::parse(text.as_bytes()) {
        Err(SkinParseError::MissingRequiredField(f)) => assert_eq!(f, "Name"),
        _ => panic!("expected a missing field"),
    }
}

#[test]
fn skin_ini_missing_author() {
    let text = "[General]\nName = a\n";
    match SkinIni::parse(text.as_bytes()) {
        Err(SkinParseError::MissingRequiredField(f)) => assert_eq!(f, "Author"),
        _ => panic!("expected a missing field"),
    }
}

#[test]
fn skin_ini_not_utf8_is_parse_error() {
    let bytes: &[u8] = &[0xff, 0xfe, 0x00];
    assert!(matches!(SkinIni::parse(bytes), Err(SkinParseError::ParseError(_))));
}

#[test]
fn skin_ini_try_parse_refuses_bad_colour() {
    let text = "[General]\nName = a\nAuthor = b\n[Colours]\nSliderBorder = 1, 2\n";
    assert!(SkinIni::try_parse(text.as_bytes()).is_none());
    let text = "[General]\nName = a\nAuthor = b\n[Colours]\nCombo3 = 300, 2, 1\n";
    assert!(SkinIni::try_parse(text.as_bytes()).is_none());
    let text = "[General]\nName = a\nAuthor = b\n[Colours]\nCombo3 = 30, 2, 1\n";
    let skin = SkinIni::try_parse(text.as_bytes()).unwrap().unwrap();
    assert_eq!(rgb(&skin.colours.combo_colors[0]), (30, 2, 1));
    let text = "[General]\nAuthor = b\n[Colours]\nSliderBorder = x\n";
    assert!(matches!(SkinIni::try_parse(text.as_bytes()), Some(Err(SkinParseError::MissingRequiredField(_)))));
}

#[test]
fn skin_ini_default_and_field_error() {
    let skin = SkinIni::default();
    assert_eq!(skin.general.name, "Default");
    assert_eq!(skin.general.author, "486c");
    assert_eq!(skin.colours.combo_colors.len(), 1);
    assert_eq!(rgb(&skin.colours.slider_body), (0, 0, 0));
    match SkinParseError::field("Foo") {
        SkinParseError::MissingRequiredField(f) => assert_eq!(f, "Foo"),
        _ => panic!(),
    }
}

#[test]
fn skin_from_lines() {
    let combos = vec![None, Some("1,2,3"), Some("4, 5"), None, None, None, None, Some("7,8,9 // x")];
    let skin = SkinIni::from_lines(Some("n"), Some("a"), None, Some("3,3,3"), &combos).unwrap();
    assert_eq!(skin.general.name, "n");
    assert_eq!(skin.general.author, "a");
    assert_eq!(rgb(&skin.colours.slider_border), (255, 255, 255));
    assert_eq!(rgb(&skin.colours.slider_body), (3, 3, 3));
    let got: Vec<_> = skin.colours.combo_colors.iter().map(rgb).collect();
    assert_eq!(got, vec![(1, 2, 3), (7, 8, 9)]);
    match SkinIni::from_lines(None, None, None, None, &Vec::new()) {
        Err(SkinParseError::MissingRequiredField(f)) => assert_eq!(f, "Name"),
        _ => panic!("expected a missing field"),
    }
    match SkinIni::from_lines(Some("n"), None, None, None, &Vec::new()) {
        Err(SkinParseError::MissingRequiredField(f)) => assert_eq!(f, "Author"),
        _ => panic!("expected a missing field"),
    }
    let skin = SkinIni::from_lines(Some("n"), Some("a"), None, None, &Vec::new()).unwrap();
    assert_eq!(skin.colours.combo_colors.iter().map(rgb).collect::<Vec<_>>(), vec![(255, 255, 255)]);
}
