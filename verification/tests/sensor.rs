use rot360::{is_white_space, parse_reading, Accelerometer, Error};

fn sources(texts: &[&str]) -> Vec<Option<String>> {
    texts.iter().map(|text| Some(text.to_string())).collect()
}

#[test]
fn reading_is_parsed_with_its_trailing_newline() {
    assert_eq!(parse_reading("123\n"), Some(123));
    assert_eq!(parse_reading("123"), Some(123));
    assert_eq!(parse_reading("-1000000\n"), Some(-1000000));
    assert_eq!(parse_reading("0\n"), Some(0));
}

#[test]
fn every_trailing_newline_is_dropped() {
    assert_eq!(parse_reading("42\n\n\n"), Some(42));
    assert_eq!(parse_reading("\n"), None);
    assert_eq!(parse_reading("\n\n"), None);
}

#[test]
fn white_space_around_the_reading_is_dropped() {
    assert_eq!(parse_reading(" 7 \n"), Some(7));
    assert_eq!(parse_reading(" 12"), Some(12));
    assert_eq!(parse_reading("12 "), Some(12));
    assert_eq!(parse_reading("12 \n"), Some(12));
    assert_eq!(parse_reading("12\r\n"), Some(12));
    assert_eq!(parse_reading("\n12"), Some(12));
    assert_eq!(parse_reading("12\t"), Some(12));
    assert_eq!(parse_reading("\t \r\n-1000000 \t\r\n\n"), Some(-1000000));
    assert_eq!(parse_reading("\u{b}+5\u{c}"), Some(5));
    assert_eq!(parse_reading("\u{a0}2147483647\u{3000}"), Some(i32::MAX));
    assert_eq!(parse_reading("\u{2003}-2147483648\u{85}"), Some(i32::MIN));
}

#[test]
fn white_space_alone_is_no_reading() {
    assert_eq!(parse_reading(" "), None);
    assert_eq!(parse_reading(" \t\r\n"), None);
    assert_eq!(parse_reading("\u{a0}\u{2028}"), None);
    assert_eq!(parse_reading(" + "), None);
    assert_eq!(parse_reading(" - \n"), None);
}

#[test]
fn white_space_inside_the_reading_is_refused() {
    assert_eq!(parse_reading("1 2"), None);
    assert_eq!(parse_reading("- 7"), None);
    assert_eq!(parse_reading("+ 7"), None);
    assert_eq!(parse_reading("1\n2"), None);
    assert_eq!(parse_reading(" 1\t2 "), None);
    assert_eq!(parse_reading("7 \u{200b}"), None);
}

#[test]
fn white_space_is_what_unicode_calls_so() {
    for code in 0..=0x10ffffu32 {
        if let Some(c) = char::from_u32(code) {
            assert_eq!(is_white_space(c), c.is_whitespace(), "character {:?}", c);
        }
    }
}

#[test]
fn reading_between_any_two_characters_agrees_with_the_standard_parser() {
    for code in 0..=0x10ffffu32 {
        if let Some(c) = char::from_u32(code) {
            let text = format!("{}7{}", c, c);
            assert_eq!(parse_reading(&text), text.trim().parse::<i32>().ok(), "text {:?}", text);
        }
    }
}

#[test]
fn reading_may_carry_a_sign() {
    assert_eq!(parse_reading("+7"), Some(7));
    assert_eq!(parse_reading("-7"), Some(-7));
    assert_eq!(parse_reading("-0"), Some(0));
    assert_eq!(parse_reading("+0\n"), Some(0));
}

#[test]
fn reading_may_start_with_zeros() {
    assert_eq!(parse_reading("00012"), Some(12));
    assert_eq!(parse_reading("-000000000000000000000000000001"), Some(-1));
    assert_eq!(parse_reading("0000000000000000000002147483647"), Some(2147483647));
}

#[test]
fn reading_covers_the_whole_range_of_32_bits() {
    assert_eq!(parse_reading("2147483647"), Some(i32::MAX));
    assert_eq!(parse_reading("-2147483648"), Some(i32::MIN));
    assert_eq!(parse_reading("+2147483647\n"), Some(i32::MAX));
}

#[test]
fn reading_out_of_range_is_refused() {
    assert_eq!(parse_reading("2147483648"), None);
    assert_eq!(parse_reading("-2147483649"), None);
    assert_eq!(parse_reading("4294967296"), None);
    assert_eq!(parse_reading("21474836470"), None);
    assert_eq!(parse_reading("99999999999999999999999999999999999999"), None);
    assert_eq!(parse_reading("-99999999999999999999999999999999999999"), None);
}

#[test]
fn text_without_digits_is_refused() {
    assert_eq!(parse_reading(""), None);
    assert_eq!(parse_reading("-"), None);
    assert_eq!(parse_reading("+"), None);
    assert_eq!(parse_reading("-\n"), None);
    assert_eq!(parse_reading("+-1"), None);
    assert_eq!(parse_reading("--1"), None);
}

#[test]
fn text_with_anything_but_digits_is_refused() {
    assert_eq!(parse_reading("12a"), None);
    assert_eq!(parse_reading("a12"), None);
    assert_eq!(parse_reading("1\n2"), None);
    assert_eq!(parse_reading("1_000"), None);
    assert_eq!(parse_reading("1.5"), None);
    assert_eq!(parse_reading("0x10"), None);
    assert_eq!(parse_reading("1-"), None);
    assert_eq!(parse_reading("\u{ff11}\u{ff12}"), None);
    assert_eq!(parse_reading("12\u{e9}"), None);
}

#[test]
fn reading_agrees_with_the_standard_parser() {
    let samples = [
        "",
        "\n",
        "0",
        "-0",
        "+0",
        "7\n",
        "-7\n",
        "+",
        "-",
        "12",
        "12\n\n",
        "2147483647",
        "2147483648",
        "-2147483648",
        "-2147483649",
        "00000000000000000000",
        "1 ",
        " 1",
        "1x",
        "x1",
        "+-3",
        "3\n4",
        "999999999999",
        "-999999999999",
        "\u{661}\u{662}\u{663}",
        "12\t",
        "\u{ff0b}5",
        "\u{2212}5",
        " 7 \n",
        "\r\n7",
        "7\r",
        "\u{a0}7\u{a0}",
        "\u{1680}-7\u{2000}\u{200a}\u{2029}\u{202f}\u{205f}",
        "7\u{200b}",
        "7\u{feff}",
        " ",
        " - ",
        "1 1",
    ];
    for text in samples {
        let expected = text.trim().parse::<i32>().ok();
        assert_eq!(parse_reading(text), expected, "text {:?}", text);
    }
    let mut value: i64 = -2147483700;
    while value <= 2147483700 {
        let text = format!(" {}\n", value);
        let expected = text.trim().parse::<i32>().ok();
        assert_eq!(parse_reading(&text), expected, "text {:?}", text);
        value += 9973;
    }
}

#[test]
fn build_maps_six_sources_onto_two_devices() {
    let readings = Accelerometer::build(&sources(&["1\n", "2\n", "3\n", "-4\n", "-5\n", "-6\n"]));
    assert_eq!(
        readings,
        Ok(vec![Accelerometer { x: 1, y: 2, z: 3 }, Accelerometer { x: -4, y: -5, z: -6 }])
    );
}

#[test]
fn build_reads_through_white_space_around_a_value() {
    let readings = Accelerometer::build(&sources(&[" 7 \n", "0\n", "0\n", "0\n", "0\n", "0\n"]));
    assert_eq!(
        readings,
        Ok(vec![Accelerometer { x: 7, y: 0, z: 0 }, Accelerometer { x: 0, y: 0, z: 0 }])
    );
    let readings =
        Accelerometer::build(&sources(&["\t1", "2 ", " 3 ", "\r\n4\r\n", "5\u{a0}", "\u{2009}6"]));
    assert_eq!(
        readings,
        Ok(vec![Accelerometer { x: 1, y: 2, z: 3 }, Accelerometer { x: 4, y: 5, z: 6 }])
    );
    assert_eq!(
        Accelerometer::build(&sources(&["1", "2", " ", "4", "5", "6"])),
        Err(Error::SensorReadFailure(2))
    );
}

#[test]
fn build_keeps_the_order_of_the_sources() {
    let readings =
        Accelerometer::build(&sources(&["0", "-1000000", "0", "1000000", "17", "-2147483648"]))
            .unwrap();
    assert_eq!(readings.len(), 2);
    assert_eq!(readings[0], Accelerometer { x: 0, y: -1000000, z: 0 });
    assert_eq!(readings[1], Accelerometer { x: 1000000, y: 17, z: i32::MIN });
}

#[test]
fn build_ignores_sources_beyond_the_sixth() {
    let readings =
        Accelerometer::build(&sources(&["1", "2", "3", "4", "5", "6", "seven", "8"])).unwrap();
    assert_eq!(
        readings,
        vec![Accelerometer { x: 1, y: 2, z: 3 }, Accelerometer { x: 4, y: 5, z: 6 }]
    );
    let mut with_hole = sources(&["1", "2", "3", "4", "5", "6"]);
    with_hole.push(None);
    assert!(Accelerometer::build(&with_hole).is_ok());
}

#[test]
fn build_fails_on_the_first_source_without_an_integer() {
    for bad in 0..6usize {
        let mut texts = vec!["1", "2", "3", "4", "5", "6"];
        texts[bad] = "oops";
        assert_eq!(Accelerometer::build(&sources(&texts)), Err(Error::SensorReadFailure(bad)));
    }
    assert_eq!(
        Accelerometer::build(&sources(&["1", "", "3", "x", "5", "6"])),
        Err(Error::SensorReadFailure(1))
    );
    assert_eq!(
        Accelerometer::build(&sources(&["1", "2", "3", "4", "5", "2147483648"])),
        Err(Error::SensorReadFailure(5))
    );
}

#[test]
fn build_fails_on_a_source_that_could_not_be_read() {
    for missing in 0..6usize {
        let mut all = sources(&["1", "2", "3", "4", "5", "6"]);
        all[missing] = None;
        assert_eq!(Accelerometer::build(&all), Err(Error::SensorReadFailure(missing)));
    }
    let mut all = sources(&["1", "2", "bad", "4", "5", "6"]);
    all[1] = None;
    assert_eq!(Accelerometer::build(&all), Err(Error::SensorReadFailure(1)));
    all[1] = Some("2".to_string());
    all[4] = None;
    assert_eq!(Accelerometer::build(&all), Err(Error::SensorReadFailure(2)));
}

#[test]
fn build_fails_when_sources_are_lacking() {
    assert_eq!(Accelerometer::build(&Vec::new()), Err(Error::SensorReadFailure(0)));
    assert_eq!(
        Accelerometer::build(&sources(&["1", "2", "3", "4", "5"])),
        Err(Error::SensorReadFailure(5))
    );
    assert_eq!(Accelerometer::build(&sources(&["1", "2", "3"])), Err(Error::SensorReadFailure(3)));
    assert_eq!(Accelerometer::build(&sources(&["1", "x", "3"])), Err(Error::SensorReadFailure(1)));
}
