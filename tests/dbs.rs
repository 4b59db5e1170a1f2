use nmea::{parse_dbs, DbsData, Error, NmeaSentence, SentenceType};

fn sentence(message_id: SentenceType, data: &str) -> NmeaSentence<'_> {
    NmeaSentence { talker_id: "SD", message_id, data, checksum: 0x0 }
}

fn decode(data: &str) -> Result<DbsData, Error> {
    parse_dbs(sentence(SentenceType::DBS, data))
}

fn text(s: &str) -> Option<String> {
    Some(s.to_string())
}

fn syntax(remaining: &str) -> Error {
    Error::ParsingError { remaining: remaining.to_string() }
}

#[test]
fn parse_dbs_with_nmea_sentence_struct() {
    let data = decode("7.8,f,2.4,M,1.3,F").unwrap();
    assert_eq!(data.water_depth_feet, text("7.8"));
    assert_eq!(data.water_depth_meters, text("2.4"));
    assert_eq!(data.water_depth_fathoms, text("1.3"));
    let feet: f32 = data.water_depth_feet.unwrap().parse().unwrap();
    assert!((feet - 7.8).abs() <= 7.8 * 1e-6);
}

#[test]
fn only_meters_reported() {
    let data = decode(",f,22.5,M,,F").unwrap();
    assert_eq!(data, DbsData { water_depth_feet: None, water_depth_meters: text("22.5"), water_depth_fathoms: None });
}

#[test]
fn no_depth_reported() {
    let data = decode(",f,,M,,F").unwrap();
    assert_eq!(data, DbsData { water_depth_feet: None, water_depth_meters: None, water_depth_fathoms: None });
}

#[test]
fn each_empty_value_is_none_alone() {
    let full = decode("7.8,f,2.4,M,1.3,F").unwrap();
    let a = decode(",f,2.4,M,1.3,F").unwrap();
    assert_eq!(a.water_depth_feet, None);
    assert_eq!(a.water_depth_meters, full.water_depth_meters);
    assert_eq!(a.water_depth_fathoms, full.water_depth_fathoms);
    let b = decode("7.8,f,,M,1.3,F").unwrap();
    assert_eq!(b.water_depth_feet, full.water_depth_feet);
    assert_eq!(b.water_depth_meters, None);
    assert_eq!(b.water_depth_fathoms, full.water_depth_fathoms);
    let c = decode("7.8,f,2.4,M,,F").unwrap();
    assert_eq!(c.water_depth_feet, full.water_depth_feet);
    assert_eq!(c.water_depth_meters, full.water_depth_meters);
    assert_eq!(c.water_depth_fathoms, None);
}

#[test]
fn wrong_sentence_type_is_refused() {
    let r = parse_dbs(sentence(SentenceType::DBT, "7.8,f,2.4,M,1.3,F"));
    assert_eq!(r, Err(Error::WrongSentenceHeader { expected: SentenceType::DBS, found: SentenceType::DBT }));
}

#[test]
fn wrong_sentence_type_ignores_payload() {
    let r = parse_dbs(sentence(SentenceType::GGA, "not a payload"));
    assert_eq!(r, Err(Error::WrongSentenceHeader { expected: SentenceType::DBS, found: SentenceType::GGA }));
}

#[test]
fn wrong_meters_unit_is_a_syntax_error() {
    assert_eq!(decode("7.8,f,2.4,Z,1.3,F"), Err(syntax("Z,1.3,F")));
}

#[test]
fn wrong_feet_unit_is_a_syntax_error() {
    assert_eq!(decode("7.8,x,2.4,M,1.3,F"), Err(syntax("x,2.4,M,1.3,F")));
}

#[test]
fn wrong_fathoms_unit_is_a_syntax_error() {
    assert_eq!(decode("7.8,f,2.4,M,1.3,f"), Err(syntax("f")));
}

#[test]
fn missing_unit_is_a_syntax_error() {
    assert_eq!(decode("7.8,,2.4,M,1.3,F"), Err(syntax(",2.4,M,1.3,F")));
}

#[test]
fn missing_separator_is_a_syntax_error() {
    assert_eq!(decode("7.8f,2.4,M,1.3,F"), Err(syntax("f,2.4,M,1.3,F")));
}

#[test]
fn trailing_fields_are_ignored() {
    assert_eq!(decode("7.8,f,2.4,M,1.3,F,A"), decode("7.8,f,2.4,M,1.3,F"));
    assert!(decode("7.8,f,2.4,M,1.3,F,A").is_ok());
}

#[test]
fn decoding_twice_gives_the_same_result() {
    assert_eq!(decode("7.8,f,2.4,M,1.3,F"), decode("7.8,f,2.4,M,1.3,F"));
    assert_eq!(decode("7.8,f,2.4,Q,1.3,F"), decode("7.8,f,2.4,Q,1.3,F"));
}

#[test]
fn empty_payload_is_a_syntax_error() {
    assert_eq!(decode(""), Err(syntax("")));
}

#[test]
fn truncated_payload_is_a_syntax_error() {
    assert_eq!(decode("7.8,f,2.4,M"), Err(syntax("")));
    assert_eq!(decode("7.8,f,2.4,M,1.3"), Err(syntax("")));
}

#[test]
fn exponent_without_digits_is_a_syntax_error() {
    assert_eq!(decode("1e,f,,M,,F"), Err(syntax("1e,f,,M,,F")));
    assert_eq!(decode(",f,2E+,M,,F"), Err(syntax("2E+,M,,F")));
}

#[test]
fn non_numeric_value_is_a_syntax_error() {
    assert_eq!(decode("abc,f,,M,,F"), Err(syntax("abc,f,,M,,F")));
    assert_eq!(decode("+,f,,M,,F"), Err(syntax("+,f,,M,,F")));
}

#[test]
fn literal_forms_are_kept_as_written() {
    let data = decode("-3.5,f,1.5e2,M,.25,F").unwrap();
    assert_eq!(data.water_depth_feet, text("-3.5"));
    assert_eq!(data.water_depth_meters, text("1.5e2"));
    assert_eq!(data.water_depth_fathoms, text(".25"));
    let data = decode("12.,f,+7,M,4E-1,F").unwrap();
    assert_eq!(data.water_depth_feet, text("12."));
    assert_eq!(data.water_depth_meters, text("+7"));
    assert_eq!(data.water_depth_fathoms, text("4E-1"));
}

#[test]
fn special_words_are_literals() {
    let data = decode("NaN,f,inf,M,,F").unwrap();
    assert_eq!(data.water_depth_feet, text("NaN"));
    assert_eq!(data.water_depth_meters, text("inf"));
    assert_eq!(data.water_depth_fathoms, None);
}

#[test]
fn infinity_reads_only_its_first_three_letters() {
    assert_eq!(decode("infinity,f,,M,,F"), Err(syntax("inity,f,,M,,F")));
}
