use battop::{parse_duration, Config, Error, Units};

#[test]
fn parse_duration_accepts_positive_seconds() {
    assert_eq!(parse_duration("1"), Ok(1));
    assert_eq!(parse_duration("60"), Ok(60));
    assert_eq!(parse_duration("+5"), Ok(5));
    assert_eq!(parse_duration("007"), Ok(7));
}

#[test]
fn parse_duration_rejects_zero() {
    assert_eq!(parse_duration("0"), Err("0 isn't a positive number".to_string()));
    assert_eq!(parse_duration("+0"), Err("+0 isn't a positive number".to_string()));
}

#[test]
fn parse_duration_rejects_non_numbers() {
    assert_eq!(parse_duration(""), Err(" isn't a positive number".to_string()));
    assert_eq!(parse_duration("abc"), Err("abc isn't a positive number".to_string()));
    assert_eq!(parse_duration("5s"), Err("5s isn't a positive number".to_string()));
    assert_eq!(parse_duration("-1"), Err("-1 isn't a positive number".to_string()));
    assert_eq!(parse_duration("+"), Err("+ isn't a positive number".to_string()));
    assert_eq!(parse_duration("1.5"), Err("1.5 isn't a positive number".to_string()));
}

#[test]
fn parse_duration_handles_u64_limits() {
    assert_eq!(parse_duration("18446744073709551615"), Ok(u64::MAX));
    assert_eq!(
        parse_duration("18446744073709551616"),
        Err("18446744073709551616 isn't a positive number".to_string())
    );
}

#[test]
fn config_reports_what_it_was_given() {
    let config = Config::new(3, 2, Units::Si);
    assert_eq!(config.verbosity(), 3);
    assert_eq!(config.delay(), 2);
    assert_eq!(config.units(), Units::Si);
}

#[test]
fn units_parse_is_case_insensitive() {
    assert_eq!(Units::parse("human"), Ok(Units::Human));
    assert_eq!(Units::parse("HUMAN"), Ok(Units::Human));
    assert_eq!(Units::parse("hUmAn"), Ok(Units::Human));
    assert_eq!(Units::parse("si"), Ok(Units::Si));
    assert_eq!(Units::parse("SI"), Ok(Units::Si));
}

#[test]
fn units_parse_rejects_other_spellings() {
    assert_eq!(Units::parse("metric"), Err(Error::ParseError));
    assert_eq!(Units::parse(""), Err(Error::ParseError));
    assert_eq!(Units::parse("human "), Err(Error::ParseError));
    assert_eq!(Units::parse("humans"), Err(Error::ParseError));
}

#[test]
fn units_from_str_matches_parse() {
    assert_eq!("si".parse::<Units>(), Ok(Units::Si));
    assert_eq!("x".parse::<Units>(), Err(Error::ParseError));
}

#[test]
fn units_arg_variants_are_lowercase() {
    assert_eq!(Units::arg_variants(), ["human", "si"]);
}

#[test]
fn error_messages() {
    assert_eq!(Error::UserExit.message(), "User-requested exit");
    assert_eq!(Error::NoBatteries.message(), "Unable to find any batteries installed");
    assert_eq!(Error::Channel.message(), "Event channel closed");
    assert_eq!(Error::ParseError.message(), "Unable to parse value");
}
