use web_service::shared::{
    error_root_cause, generate_random_string, hostname_from_environment, random_delay_seconds,
    vec_to_string, EnvValue, HttpErrorFacts, RequestId, Timestamp, TypeError,
};

#[test]
fn test_vec_to_string() {
    let empty: Vec<&str> = Vec::new();
    let empty_printable = vec_to_string(&empty, "\n");
    assert_eq!(empty_printable, "NONE");

    let strings = vec![
        "Roses are red",
        "Violet is blue",
        "Some poems rhyme",
        "Others don't",
    ];
    let printable = vec_to_string(&strings, "\n");
    assert_eq!(
        printable,
        "Roses are red\nViolet is blue\nSome poems rhyme\nOthers don't"
    )
}

#[test]
fn test_request_id() {
    for _i in 0..100 {
        let v1 = RequestId::new();
        let v2 = RequestId::new();
        assert_ne!(v1, v2);
    }
}

#[test]
fn vec_to_string_single_item_and_delimiters() {
    assert_eq!(vec_to_string(&["only"], ", "), "only");
    assert_eq!(vec_to_string(&["a", "b", "c"], ", "), "a, b, c");
    assert_eq!(vec_to_string(&["", ""], "-"), "-");
}

#[test]
fn error_root_cause_lists_sources() {
    assert_eq!(error_root_cause("top", &[]), "top");
    let sources = vec!["middle".to_string(), "bottom".to_string()];
    assert_eq!(
        error_root_cause("top", &sources),
        "top\n\tCaused by: middle\n\tCaused by: bottom"
    );
}

#[test]
fn type_error_texts_and_statuses() {
    let conversion = TypeError::ConversionError("c".to_string());
    let io = TypeError::InputOutputError("i".to_string());
    let resource = TypeError::ResourceAllocationError("r".to_string());
    let validation = TypeError::ValidationError("v".to_string());
    assert_eq!(conversion.to_string(), "Type Conversion Error: c");
    assert_eq!(io.to_string(), "Input / Output Error: i");
    assert_eq!(resource.to_string(), "Resource Allocation Error: r");
    assert_eq!(validation.to_string(), "Validation Error: v");
    assert_eq!(conversion.debug_string(), "Conversion Error: c");
    assert_eq!(io.debug_string(), "Input / Output Error: i");
    assert_eq!(resource.debug_string(), "Resource Allocation Error: r");
    assert_eq!(validation.debug_string(), "Validation Error: v");
    assert_eq!(conversion.status_code(), 500);
    assert_eq!(io.status_code(), 500);
    assert_eq!(resource.status_code(), 500);
    assert_eq!(validation.status_code(), 400);
    assert_eq!(validation.response_parts(), (400, "Validation Error: v".to_string()));
    assert_eq!(io.response_parts(), (500, "Input / Output Error: i".to_string()));
}

#[test]
fn type_error_from_outside_failures() {
    assert_eq!(
        TypeError::from_io_error_text("disk full"),
        TypeError::InputOutputError("IO Error: disk full".to_string())
    );
    assert_eq!(
        TypeError::from_url_parse_error_text("relative URL without a base"),
        TypeError::ValidationError("Error parsing URL: relative URL without a base".to_string())
    );
    let mut facts = HttpErrorFacts {
        is_builder: true,
        is_body: false,
        is_decode: false,
        message: "bad".to_string(),
        root_cause: "bad\n\tCaused by: worse".to_string(),
    };
    assert_eq!(TypeError::from_http_error(&facts), TypeError::ValidationError("bad".to_string()));
    facts.is_builder = false;
    facts.is_decode = true;
    assert_eq!(TypeError::from_http_error(&facts), TypeError::ConversionError("bad".to_string()));
    facts.is_decode = false;
    facts.is_body = true;
    assert_eq!(TypeError::from_http_error(&facts), TypeError::ConversionError("bad".to_string()));
    facts.is_body = false;
    assert_eq!(TypeError::from_http_error(&facts), TypeError::InputOutputError("bad".to_string()));
}

#[test]
fn request_id_max_length_is_uuid_length() {
    assert_eq!(RequestId::MAX_LENGTH, uuid::fmt::Hyphenated::LENGTH);
}

#[test]
fn request_id_from_string_limits() {
    let id = RequestId::from_string("abc".to_string()).unwrap();
    assert_eq!(id.value(), "abc");
    assert_eq!(id.to_string(), "abc");
    assert_eq!(id.debug_string(), "RequestId: abc");
    let exact = "a".repeat(36);
    assert_eq!(RequestId::from_string(exact.clone()).unwrap().value(), exact);
    let long = "b".repeat(37);
    assert_eq!(
        RequestId::from_string(long.clone()).unwrap_err(),
        TypeError::ValidationError(format!("provided value {long} exceeds max length 36"))
    );
    // 13 characters of three bytes each: 39 bytes
    let wide = "\u{20ac}".repeat(13);
    assert!(RequestId::from_string(wide).is_err());
    let twelve_wide = "\u{20ac}".repeat(12);
    assert!(RequestId::from_string(twelve_wide).is_ok());
}

#[test]
fn fresh_request_ids_have_uuid_shape_and_round_trip() {
    let id = RequestId::new();
    let text = id.value().to_string();
    assert_eq!(text.len(), 36);
    let parsed = uuid::Uuid::parse_str(&text).unwrap();
    assert_eq!(parsed.get_version_num(), 4);
    assert_eq!(text, text.to_lowercase());
    let again = RequestId::from_string(text.clone()).unwrap();
    assert_eq!(again, id);
    let default_id = RequestId::default();
    assert_eq!(default_id.value().len(), 36);
}

#[test]
fn timestamp_from_microseconds() {
    let t = Timestamp::from_microseconds(1662921288000000).unwrap();
    assert_eq!(t.seconds(), 1662921288);
    assert_eq!(t.nanoseconds(), 0);
    assert_eq!(t.value(), "2022-09-11T18:34:48+00:00");
    assert_eq!(t.display_value_utc(), "2022-09-11T18:34:48.000+00:00");
    let before = Timestamp::from_microseconds(-1).unwrap();
    assert_eq!(before.seconds(), -1);
    assert_eq!(before.nanoseconds(), 999_999_000);
    assert_eq!(before.value(), "1969-12-31T23:59:59.999999+00:00");
    assert!(before < t);
    assert_eq!(
        Timestamp::from_microseconds(i64::MAX).unwrap_err(),
        TypeError::ValidationError(
            "Invalid ISO 8601 timestamp microseconds value 9223372036854775807; must be a valid signed 64-bit number"
                .to_string()
        )
    );
    assert_eq!(
        Timestamp::from_microseconds(i64::MIN).unwrap_err(),
        TypeError::ValidationError(
            "Invalid ISO 8601 timestamp microseconds value -9223372036854775808; must be a valid signed 64-bit number"
                .to_string()
        )
    );
}

#[test]
fn timestamp_parse_from_str() {
    let t = Timestamp::parse_from_str("2012-12-12T12:12:12Z").unwrap();
    assert_eq!(t.seconds(), 1355314332);
    assert_eq!(t.value(), "2012-12-12T12:12:12+00:00");
    let offset = Timestamp::parse_from_str("2012-12-12 13:12:12.5+01:00").unwrap();
    assert_eq!(offset.seconds(), 1355314332);
    assert_eq!(offset.nanoseconds(), 500_000_000);
    assert_eq!(offset.value(), "2012-12-12T12:12:12.500+00:00");
    match Timestamp::parse_from_str("garbage") {
        Err(TypeError::ValidationError(message)) => {
            assert!(message.starts_with("Error parsing ISO 8601 timestamp from provided string garbage: "));
        }
        other => panic!("unexpected {other:?}"),
    }
    assert!(Timestamp::from_parts(0, 0).is_some());
    assert!(Timestamp::from_parts(0, 2_000_000_000).is_none());
    let now = Timestamp::now();
    assert!(now > t);
}

#[test]
fn hostname_choice() {
    let present = |s: &str| EnvValue::Present(s.to_string());
    let absent = || EnvValue::NotPresent("environment variable not found".to_string());
    let garbled = || EnvValue::NotUnicode("not unicode".to_string());
    assert_eq!(hostname_from_environment(present("alpha"), present("beta")), "alpha");
    assert_eq!(hostname_from_environment(absent(), present("beta")), "beta");
    assert_eq!(hostname_from_environment(absent(), absent()), "localhost");
    assert_eq!(hostname_from_environment(absent(), garbled()), "localhost");
    assert_eq!(hostname_from_environment(garbled(), present("beta")), "localhost");
    assert_eq!(hostname_from_environment(present(""), present("beta")), "beta");
    assert_eq!(hostname_from_environment(present(""), present("")), "localhost");
    assert_eq!(hostname_from_environment(absent(), present("")), "localhost");
    assert!(!hostname_from_environment(present(""), absent()).is_empty());
}

#[test]
fn random_strings_and_delays() {
    let s = generate_random_string(1023);
    assert_eq!(s.chars().count(), 1023);
    assert!(s.chars().all(|c| c.is_ascii_alphanumeric()));
    assert_eq!(generate_random_string(0), "");
    assert_ne!(generate_random_string(32), generate_random_string(32));
    for _ in 0..200 {
        let d = random_delay_seconds(5);
        assert!((1..5).contains(&d));
    }
    assert_eq!(random_delay_seconds(2), 1);
    assert_eq!(random_delay_seconds(1), 0);
    assert_eq!(random_delay_seconds(0), 0);
}

#[test]
fn vec_to_string_of_joined_lists() {
    let first = ["a", "bb"];
    let second = ["", "c", "dd"];
    let both: Vec<&str> = first.iter().chain(second.iter()).copied().collect();
    assert_eq!(
        vec_to_string(&both, "; "),
        format!("{}; {}", vec_to_string(&first, "; "), vec_to_string(&second, "; "))
    );
    assert_eq!(vec_to_string(&both, "; "), "a; bb; ; c; dd");
}

#[test]
fn timestamp_value_parses_back() {
    for (seconds, nanoseconds) in [
        (0i64, 0u32),
        (1_355_314_332, 500_000_000),
        (-1, 999_999_000),
        (-62_167_219_200, 0),
        (253_402_300_799, 999_999_999),
        (1_662_921_288, 123_456_789),
    ] {
        let t = Timestamp::from_parts(seconds, nanoseconds).unwrap();
        assert_eq!(Timestamp::parse_from_str(&t.value()).unwrap(), t);
    }
    assert_eq!(Timestamp::from_parts(-62_167_219_200, 0).unwrap().value(), "0000-01-01T00:00:00+00:00");
    assert_eq!(
        Timestamp::from_parts(253_402_300_799, 999_999_999).unwrap().value(),
        "9999-12-31T23:59:59.999999999+00:00"
    );
}

#[test]
fn timestamp_range_bounds() {
    assert!(Timestamp::from_parts(-8_334_601_228_800, 0).is_some());
    assert!(Timestamp::from_parts(-8_334_601_228_801, 0).is_none());
    assert!(Timestamp::from_parts(8_210_266_876_799, 999_999_999).is_some());
    assert!(Timestamp::from_parts(8_210_266_876_800, 0).is_none());
    assert!(Timestamp::from_parts(59, 1_999_999_999).is_some());
    assert!(Timestamp::from_parts(58, 1_000_000_000).is_none());
    assert!(Timestamp::from_parts(-1, 1_500_000_000).is_some());
    assert!(Timestamp::from_parts(i64::MAX, 0).is_none());
    assert!(Timestamp::from_parts(i64::MIN, 0).is_none());
}

#[test]
fn timestamp_from_clock_readings() {
    let after = Timestamp::from_clock_reading(Ok((1_431_648_000, 5))).unwrap();
    assert_eq!((after.seconds(), after.nanoseconds()), (1_431_648_000, 5));
    let whole = Timestamp::from_clock_reading(Err((1, 0))).unwrap();
    assert_eq!((whole.seconds(), whole.nanoseconds()), (-1, 0));
    let part = Timestamp::from_clock_reading(Err((1, 500))).unwrap();
    assert_eq!((part.seconds(), part.nanoseconds()), (-2, 999_999_500));
    assert_eq!(part.value(), "1969-12-31T23:59:58.999999500+00:00");
    assert!(Timestamp::from_clock_reading(Ok((u64::MAX, 0))).is_none());
    assert!(Timestamp::from_clock_reading(Err((9_223_372_036_854_775_808, 0))).is_none());
    assert!(Timestamp::from_clock_reading(Ok((8_210_266_876_800, 0))).is_none());
    let epoch = Timestamp::unix_epoch();
    assert_eq!(epoch.value(), "1970-01-01T00:00:00+00:00");
    let now = Timestamp::now();
    assert!(now > epoch);
    assert!(now.nanoseconds() < 1_000_000_000);
    assert!(Timestamp::default() >= now);
}

#[test]
fn microseconds_round_trip() {
    for micros in [0i64, 1, -1, 999_999, -1_000_001, 1662921288123456, -2208936075000000] {
        let t = Timestamp::from_microseconds(micros).unwrap();
        assert_eq!(t.seconds() * 1_000_000 + (t.nanoseconds() / 1000) as i64, micros);
    }
}
