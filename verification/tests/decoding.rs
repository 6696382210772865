use weather::decode::{assemble, decode, parse_out_current_conditions, Detail};
use weather::error::ProgramError;

const SAMPLE: &str = r##"{"latitude":37.8267,"longitude":-122.423,"timezone":"America/Los_Angeles","offset":-7,"currently":{"time":1425827066,"summary":"Partly Cloudy","icon":"partly-cloudy-day","nearestStormDistance":3,"nearestStormBearing":37,"precipIntensity":0,"precipProbability":0,"temperature":50.87,"apparentTemperature":50.87,"dewPoint":48.98,"humidity":0.93,"windSpeed":3.09,"windBearing":291,"visibility":4.19,"cloudCover":0.53,"pressure":1018.05,"ozone":311.83}}"##;

fn degrees(bits: Option<u64>) -> f32 {
    f64::from_bits(bits.unwrap()) as f32
}

fn failed() -> ProgramError {
    ProgramError { message: "JSON parsing failed".to_string() }
}

#[test]
fn test_parse_json() {
    let json = SAMPLE;
    assert_eq!(parse_out_current_conditions(json).unwrap().icon, "partly-cloudy-day".to_string());
    assert_eq!(degrees(parse_out_current_conditions(json).unwrap().temperature), 50.87);
}

#[test]
fn decode_reads_only_the_two_fields() {
    let conditions =
        parse_out_current_conditions(r#"{"currently":{"temperature":-4,"icon":"snow"}}"#).unwrap();
    assert_eq!(conditions.icon, "snow");
    assert_eq!(degrees(conditions.temperature), -4.0);
}

#[test]
fn decode_without_temperature_reads_the_icon_alone() {
    let conditions = decode(r#"{"currently":{"icon":"fog"}}"#, Detail::Icon).unwrap();
    assert_eq!(conditions.icon, "fog");
    assert_eq!(conditions.temperature, None);
    let with_both = decode(SAMPLE, Detail::Icon).unwrap();
    assert_eq!(with_both.icon, "partly-cloudy-day");
    assert_eq!(with_both.temperature, None);
}

#[test]
fn decode_fails_on_text_that_is_no_json() {
    assert_eq!(parse_out_current_conditions(""), Err(failed()));
    assert_eq!(parse_out_current_conditions("not json"), Err(failed()));
    assert_eq!(parse_out_current_conditions(r#"{"currently":{"icon":"fog","temperature":1}"#), Err(failed()));
    assert_eq!(decode("[", Detail::Icon), Err(failed()));
}

#[test]
fn decode_fails_on_a_missing_field() {
    assert_eq!(parse_out_current_conditions("{}"), Err(failed()));
    assert_eq!(parse_out_current_conditions(r#"{"currently":{}}"#), Err(failed()));
    assert_eq!(parse_out_current_conditions(r#"{"currently":{"icon":"fog"}}"#), Err(failed()));
    assert_eq!(parse_out_current_conditions(r#"{"currently":{"temperature":50.87}}"#), Err(failed()));
    assert_eq!(decode(r#"{"currently":{"temperature":50.87}}"#, Detail::Icon), Err(failed()));
    assert_eq!(parse_out_current_conditions(r#"{"icon":"fog","temperature":50.87}"#), Err(failed()));
}

#[test]
fn decode_fails_on_a_field_of_the_wrong_type() {
    assert_eq!(
        parse_out_current_conditions(r#"{"currently":{"icon":7,"temperature":50.87}}"#),
        Err(failed())
    );
    assert_eq!(
        parse_out_current_conditions(r#"{"currently":{"icon":"fog","temperature":"50.87"}}"#),
        Err(failed())
    );
    assert_eq!(
        parse_out_current_conditions(r#"{"currently":{"icon":"fog","temperature":null}}"#),
        Err(failed())
    );
    assert_eq!(parse_out_current_conditions(r#"{"currently":"fog"}"#), Err(failed()));
}

#[test]
fn decode_keeps_the_icon_code_as_it_is() {
    let conditions =
        decode(r#"{"currently":{"icon":" Clear-Day é"}}"#, Detail::Icon).unwrap();
    assert_eq!(conditions.icon, " Clear-Day \u{e9}");
}

#[test]
fn decode_rejects_an_exponent_too_long_for_the_parser() {
    let long = r#"{"currently":{"icon":"fog","temperature":1e99999999999999999999}}"#;
    assert_eq!(parse_out_current_conditions(long), Err(failed()));
    let short = r#"{"currently":{"icon":"fog","temperature":5087e-2}}"#;
    assert_eq!(degrees(parse_out_current_conditions(short).unwrap().temperature), 50.87);
}

#[test]
fn decode_rejects_nesting_too_deep_for_the_parser() {
    let mut deep = String::new();
    for _ in 0..200000 {
        deep.push('[');
    }
    assert_eq!(parse_out_current_conditions(&deep), Err(failed()));
}

#[test]
fn decode_reads_nesting_up_to_the_limit() {
    let mut text = String::from(r#"{"currently":{"icon":"wind","temperature":0},"deep":"#);
    for _ in 0..126 {
        text.push('[');
    }
    text.push_str("{\"a\":1}");
    for _ in 0..126 {
        text.push(']');
    }
    text.push('}');
    assert_eq!(parse_out_current_conditions(&text).unwrap().icon, "wind");
    let deeper = text.replace("{\"a\":1}", "[{\"a\":1}]");
    assert_eq!(parse_out_current_conditions(&deeper), Err(failed()));
}

#[test]
fn decode_accepts_long_strings_that_are_no_keys() {
    let mut text = String::from(r#"{"currently":{"summary":""#);
    for _ in 0..5000 {
        text.push_str("e1234567890[{");
    }
    text.push_str(r#"","icon":"wind","temperature":0}}"#);
    let conditions = parse_out_current_conditions(&text).unwrap();
    assert_eq!(conditions.icon, "wind");
    assert_eq!(degrees(conditions.temperature), 0.0);
}

#[test]
fn decode_rejects_a_key_too_long_for_the_parser() {
    let mut text = String::from(r#"{"currently":{"icon":"wind","temperature":0},""#);
    for _ in 0..65536 {
        text.push('k');
    }
    text.push_str(r#"":1}"#);
    assert_eq!(parse_out_current_conditions(&text), Err(failed()));
}

#[test]
fn decode_fails_on_a_comma_before_a_closing_brace() {
    assert_eq!(parse_out_current_conditions(r#"[{"x":{"a":1,},5]"#), Err(failed()));
    assert_eq!(parse_out_current_conditions(r#"{"k":[{"x":{"a":1,},5]}"#), Err(failed()));
    assert_eq!(
        parse_out_current_conditions(r#"{"currently":{"icon":"fog","temperature":1,}}"#),
        Err(failed())
    );
    assert_eq!(decode(r#"{"currently":{"icon":"fog",},"k":[{"x":{"a":1,},5]}"#, Detail::Icon), Err(failed()));
}

#[test]
fn decode_looks_at_no_other_field() {
    let plain = r#"{"currently":{"icon":"rain","temperature":50.87}}"#;
    let long_key = "k".repeat(60000);
    let others = [
        r#"{"currently":{"summary":7,"icon":"rain","temperature":50.87,"time":null},"flags":[]}"#.to_string(),
        r#"{"latitude":1.5E+0000000000,"currently":{"temperature":50.87,"icon":"rain"}}"#.to_string(),
        format!(r#"{{"{}":{{"a":[1,2,{{"b":"c"}}]}},"currently":{{"icon":"rain","temperature":50.87}}}}"#, long_key),
        format!(r#"{{"currently":{{"icon":"rain","{}":true,"temperature":50.87}},"daily":{{"{}":0e-7}}}}"#, "é".repeat(128), "\\u2614".repeat(300)),
    ];
    let expected = parse_out_current_conditions(plain).unwrap();
    assert_eq!(expected.icon, "rain");
    assert_eq!(degrees(expected.temperature), 50.87);
    for other in others.iter() {
        assert_eq!(parse_out_current_conditions(other).as_ref(), Ok(&expected));
        assert_eq!(decode(other, Detail::Icon).unwrap().icon, "rain");
    }
}

#[test]
fn decode_takes_any_number_for_the_temperature() {
    let whole = parse_out_current_conditions(r#"{"currently":{"icon":"fog","temperature":51}}"#);
    assert_eq!(degrees(whole.unwrap().temperature), 51.0);
    let negative = parse_out_current_conditions(r#"{"currently":{"icon":"fog","temperature":-7}}"#);
    assert_eq!(degrees(negative.unwrap().temperature), -7.0);
    let no_number = parse_out_current_conditions(r#"{"currently":{"icon":"fog","temperature":0e999}}"#);
    let conditions = no_number.unwrap();
    assert_eq!(conditions.icon, "fog");
    assert!(conditions.temperature.is_some());
    assert_eq!(conditions.temperature_in_celsius(), Some(0));
}

#[test]
fn decode_reads_keys_up_to_what_the_parser_holds() {
    let half = "k".repeat(32767);
    let text = format!(
        r#"{{"{}":{{"{}k":[1,{{}}]}},"currently":{{"icon":"wind","temperature":0}}}}"#,
        half, half
    );
    assert_eq!(parse_out_current_conditions(&text).unwrap().icon, "wind");
    let beyond = format!(
        r#"{{"{}":{{"{}k":[1,{{"a":2}}]}},"currently":{{"icon":"wind","temperature":0}}}}"#,
        half, half
    );
    assert_eq!(parse_out_current_conditions(&beyond), Err(failed()));
}

#[test]
fn assemble_requires_what_the_detail_asks_for() {
    let both = assemble(Some("rain".to_string()), Some(7), Detail::IconAndTemperature).unwrap();
    assert_eq!(both.icon, "rain");
    assert_eq!(both.temperature, Some(7));
    let icon = assemble(Some("rain".to_string()), Some(7), Detail::Icon).unwrap();
    assert_eq!(icon.temperature, None);
    assert_eq!(assemble(Some("rain".to_string()), None, Detail::IconAndTemperature), Err(failed()));
    assert_eq!(assemble(None, Some(7), Detail::IconAndTemperature), Err(failed()));
    assert_eq!(assemble(None, None, Detail::Icon), Err(failed()));
}
