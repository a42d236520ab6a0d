use lan_speedtest::size::{
    parse_bytes, parse_chunk_bytes, size_is_bounded, to_byte_count, to_chunk_size,
};

#[test]
fn plain_numbers_count_bytes() {
    assert_eq!(parse_bytes("40000000"), Ok(40_000_000));
    assert_eq!(parse_bytes("0"), Ok(0));
    assert_eq!(parse_bytes("007"), Ok(7));
    assert_eq!(parse_bytes("9007199254740991"), Ok(9_007_199_254_740_991));
    assert_eq!(parse_bytes("9007199254740992"), Ok(9_007_199_254_740_992));
    assert_eq!(parse_chunk_bytes("65536"), Ok(65536));
    assert_eq!(parse_chunk_bytes("9007199254740992"), Ok(9_007_199_254_740_992));
}

#[test]
fn units_are_applied() {
    assert_eq!(parse_bytes("40MB"), Ok(40_000_000));
    assert_eq!(parse_bytes("0MB"), Ok(0));
    assert_eq!(parse_bytes("8999999999MB"), Ok(8_999_999_999_000_000));
    assert_eq!(parse_bytes("9007199254MB"), Ok(9_007_199_254_000_000));
    assert_eq!(parse_bytes("1GB"), Ok(1_000_000_000));
    assert_eq!(parse_bytes("1.5 KB"), Ok(1500));
    assert_eq!(parse_bytes("64KiB"), Ok(65536));
    assert_eq!(parse_bytes("2gb"), Ok(2_000_000_000));
    assert_eq!(parse_chunk_bytes("64KiB"), Ok(65536));
    assert_eq!(parse_chunk_bytes("4MB"), Ok(4_000_000));
    assert_eq!(parse_chunk_bytes("9007199254MB"), Ok(9_007_199_254_000_000));
}

#[test]
fn sizes_beyond_u64_are_refused() {
    let refusal = Err("value exceeds u64".to_string());
    assert_eq!(parse_bytes("20EB"), refusal);
    assert_eq!(parse_bytes("100000000000000000000"), refusal);
    assert_eq!(parse_bytes("18EB"), Ok(18_000_000_000_000_000_000));
    assert_eq!(parse_chunk_bytes("20EB"), Err("value exceeds u64".to_string()));
}

#[test]
fn whole_numbers_of_each_unit_are_exact() {
    for (text, bytes) in [
        ("9007199254740992", 9007199254740992),
        ("9007199254740992B", 9007199254740992),
        ("576460752303KB", 576460752303000),
        ("576460752303MB", 576460752303000000),
        ("18446744073GB", 18446744073000000000),
        ("18446744TB", 18446744000000000000),
        ("18446PB", 18446000000000000000),
        ("18EB", 18000000000000000000),
        ("0ZB", 0),
        ("9007199254740992KiB", 9223372036854775808),
        ("17592186044415MiB", 18446744073708503040),
        ("17179869183GiB", 18446744072635809792),
        ("16777215TiB", 18446742974197923840),
        ("16383PiB", 18445618173802708992),
        ("15EiB", 17293822569102704640),
        ("0ZiB", 0),
    ] {
        let found: u64 = bytes;
        assert_eq!(parse_bytes(text), Ok(found));
        assert_eq!(parse_bytes(&text.to_lowercase()), Ok(found));
        assert_eq!(parse_bytes(&format!("  {}\n", text)), Ok(found));
        assert_eq!(parse_chunk_bytes(text), Ok(found as usize));
    }
    assert_eq!(parse_bytes("3K"), Ok(3_000));
    assert_eq!(parse_bytes("3  mi"), Ok(3 * 1024 * 1024));
    assert_eq!(parse_bytes("3 KiB or so"), Ok(3 * 1024));
    assert_eq!(parse_bytes("3 b"), Ok(3));
    assert!(parse_bytes("3 bb").is_err());
    assert!(parse_bytes("3 bi").is_err());
    // past the numbers whose millionfold a double holds, a byte may be lost
    assert_eq!(parse_bytes("576460752305KB"), Ok(576_460_752_304_999));
}

#[test]
fn sizes_just_beyond_u64_are_refused() {
    for text in [
        "18446744074GB",
        "18446745TB",
        "18447PB",
        "19EB",
        "1ZB",
        "17592186044416MiB",
        "17179869184GiB",
        "16777216TiB",
        "16384PiB",
        "16EiB",
        "1ZiB",
    ] {
        assert_eq!(parse_bytes(text), Err("value exceeds u64".to_string()));
        assert_eq!(parse_chunk_bytes(text), Err("value exceeds u64".to_string()));
    }
    // twice as many bytes, of any unit, are never rounded back
    for text in [
        "36893488147419103232",
        "36893488147419103232B",
        "36893488147419104KB",
        "36893488147420MB",
        "36893488148GB",
        "36893489TB",
        "36894PB",
        "37EB",
        "1ZB",
        "36028797018963968KiB",
        "35184372088832MiB",
        "34359738368GiB",
        "33554432TiB",
        "32768PiB",
        "32EiB",
        "1ZiB",
    ] {
        assert_eq!(parse_bytes(text), Err("value exceeds u64".to_string()));
        assert_eq!(parse_chunk_bytes(text), Err("value exceeds u64".to_string()));
    }
}

#[test]
fn texts_that_are_no_size_are_refused_in_words() {
    assert_eq!(parse_bytes(""), Err("No value.".to_string()));
    assert_eq!(parse_bytes("x"), Err("The character 'x' is not a number.".to_string()));
    assert_eq!(parse_chunk_bytes(""), parse_bytes("").map(|_| 0));
    assert!(parse_bytes("12Q").is_err());
    assert!(parse_bytes("-1").is_err());
}

#[test]
fn the_limits_of_the_types_are_exact() {
    assert_eq!(to_byte_count(Ok(u64::MAX as u128)), Ok(u64::MAX));
    assert_eq!(
        to_byte_count(Ok(u64::MAX as u128 + 1)),
        Err("value exceeds u64".to_string())
    );
    assert_eq!(to_byte_count(Err("why".to_string())), Err("why".to_string()));
    assert_eq!(to_chunk_size(Ok(usize::MAX as u64)), Ok(usize::MAX));
    assert_eq!(to_chunk_size(Err("why".to_string())), Err("why".to_string()));
}

#[test]
fn sizes_around_the_bound_are_told_apart() {
    for (within, beyond) in [
        ("340282366920937254537554992802GB", "340282366920937254537554992803GB"),
        ("340282366920937254537554992TB", "340282366920937254537554993TB"),
        ("340282366920937254537554PB", "340282366920937254537555PB"),
        ("340282366920937254537EB", "340282366920937254538EB"),
        ("340282366920937254ZB", "340282366920937255ZB"),
        ("316912650057056224474268958719GiB", "316912650057056224474268958720GiB"),
        ("309485009821343969213153279TiB", "309485009821343969213153280TiB"),
        ("302231454903656219934719PiB", "302231454903656219934720PiB"),
        ("295147905179351777279EiB", "295147905179351777280EiB"),
        ("288230376151710719ZiB", "288230376151710720ZiB"),
    ] {
        assert!(size_is_bounded(within));
        assert_eq!(parse_bytes(within), Err("value exceeds u64".to_string()));
        assert!(!size_is_bounded(beyond));
        assert!(!size_is_bounded(&beyond.to_lowercase()));
        assert!(!size_is_bounded(&beyond.replace("B", "")));
    }
    assert_eq!(parse_bytes("340282366920500000ZB"), Err("value exceeds u64".to_string()));
}

#[test]
fn bound_is_on_the_number_before_the_unit() {
    let long = "9".repeat(400);
    for text in [
        long.clone(),
        format!("{}MiB", long),
        format!("{} kb", long),
        format!("1.{}ZB", long),
    ] {
        assert!(size_is_bounded(&text));
    }
    assert_eq!(parse_bytes(&long), Err("value exceeds u64".to_string()));
    assert_eq!(parse_bytes("000000000000000000000000002GB"), Ok(2_000_000_000));
    for text in [
        format!("{}z", long),
        format!("\u{3000}\t{} GB\u{a0}\n", long),
        format!("{}.5TiB", long),
        format!("{}  PiB and more", long),
        format!("{}ei", long),
    ] {
        assert!(!size_is_bounded(&text));
    }
}

#[test]
fn long_numbers_without_a_unit_of_sizes_are_refused_in_words() {
    for (text, refused) in [
        ("400000000000000000 lazy", 'l'),
        ("400000000000000000 Zip", 'p'),
        ("400000000000000000 ZBs", 's'),
        ("400000000000000000 Gx", 'x'),
        ("400000000000000000\tZB", '\t'),
        ("400000000000000000.ZB", 'Z'),
        ("400000000000000000 .5ZB", '.'),
        ("1 400000000000000000ZB", '4'),
        ("x400000000000000000ZB", 'x'),
        (".400000000000000000ZB", '.'),
    ] {
        assert!(size_is_bounded(text));
        let words = parse_bytes(text).unwrap_err();
        assert!(words.starts_with(&format!("The character {:?} is", refused)), "{}", words);
        assert_eq!(parse_chunk_bytes(text), Err(words));
    }
    assert!(size_is_bounded(""));
    assert!(size_is_bounded(" \u{2028} "));
    assert_eq!(parse_bytes(" \u{2028} "), Err("No value.".to_string()));
}

#[test]
fn every_white_space_is_trimmed() {
    for c in (0..=0x10ffff).filter_map(char::from_u32) {
        let text = format!("{}{}ZB{}", c, "9".repeat(20), c);
        if c.is_ascii_digit() {
            continue;
        }
        assert_eq!(!size_is_bounded(&text), c.is_whitespace());
    }
}

#[test]
fn chunk_sizes_agree_with_byte_counts() {
    for text in ["0", "65536", "1.5KiB", "18EB", "20EB", "", "x", "7 apples", "9007199254740993"] {
        assert_eq!(parse_chunk_bytes(text).map(|bytes| bytes as u64), parse_bytes(text));
    }
}
