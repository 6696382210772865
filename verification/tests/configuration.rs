use weather::config::{
    find_in_file, lookup_variable, read_configuration, read_environment, read_file,
    read_from_environment, read_from_file, resolve, Configuration, Environment, Source,
};
use weather::error::ProgramError;

const EXAMPLE: &str = "LAT=33.825553\nLNG=-84.338453\n";

fn environment(pairs: &[(&str, &str)]) -> Environment {
    pairs.iter().map(|(name, value)| (name.to_string(), value.to_string())).collect()
}

fn error(message: &str) -> ProgramError {
    ProgramError { message: message.to_string() }
}

fn configuration(api_key: &str, lat: &str, lng: &str) -> Configuration {
    Configuration { api_key: api_key.to_string(), lat: lat.to_string(), lng: lng.to_string() }
}

fn file(path: &str, contents: Option<&str>) -> Source {
    Source::File { path: path.to_string(), contents: contents.map(|text| text.to_string()) }
}

#[test]
fn test_read_configuration() {
    let with_key = environment(&[("FORECAST_IO_API_KEY", "123-KEY-456")]);
    let config_file = "weather.conf.example";

    let config = Configuration {
        api_key: "123-KEY-456".to_string(),
        lat: "33.825553".to_string(),
        lng: "-84.338453".to_string(),
    };
    assert_eq!(read_configuration(config_file, Some(EXAMPLE), &with_key), Ok(config));

    let some_file = "some_file";
    let file_error = ProgramError {
        message: "Configuration file 'some_file' does not exist".to_string(),
    };
    assert_eq!(read_configuration(some_file, None, &with_key), Err(file_error));

    let without_key = environment(&[]);
    let env_error = ProgramError { message: "ENV['FORECAST_IO_API_KEY'] not set".to_string() };
    assert_eq!(read_configuration(config_file, Some(EXAMPLE), &without_key), Err(env_error));
}

#[test]
fn test_read_from_file() {
    let existing_file_path = "weather.conf.example";
    assert_eq!(
        read_from_file(existing_file_path, Some(EXAMPLE), "LAT"),
        Ok("33.825553".to_string())
    );

    let non_existing_file_path = "something_else.conf";
    let does_not_exist = ProgramError {
        message: "Configuration file 'something_else.conf' does not exist".to_string(),
    };
    assert_eq!(read_from_file(non_existing_file_path, None, "LAT"), Err(does_not_exist));

    let not_in_file = ProgramError {
        message: "Could not find 'GARBAGE' in 'weather.conf.example'".to_string(),
    };
    assert_eq!(read_from_file(existing_file_path, Some(EXAMPLE), "GARBAGE"), Err(not_in_file));
}

#[test]
fn test_configuration_to_url() {
    let config = Configuration {
        api_key: "123-KEY-456".to_string(),
        lat: "33.835297".to_string(),
        lng: "-84.321231".to_string(),
    };
    assert_eq!(
        config.to_url(),
        "https://api.forecast.io/forecast/123-KEY-456/33.835297,-84.321231".to_string()
    );
}

#[test]
fn url_takes_its_parts_as_they_are() {
    assert_eq!(configuration("", "", "").to_url(), "https://api.forecast.io/forecast//,");
    assert_eq!(
        configuration("a b/c", " 1,5 ", "é?").to_url(),
        "https://api.forecast.io/forecast/a b/c/ 1,5 ,é?"
    );
}

#[test]
fn url_is_the_same_each_time() {
    let config = configuration("123-KEY-456", "33.835297", "-84.321231");
    assert_eq!(config.to_url(), config.to_url());
}

#[test]
fn different_configurations_have_different_urls() {
    let base = configuration("k", "1.5", "-2.5").to_url();
    assert_ne!(configuration("K", "1.5", "-2.5").to_url(), base);
    assert_ne!(configuration("k", "1.50", "-2.5").to_url(), base);
    assert_ne!(configuration("k", "1.5", "2.5").to_url(), base);
    assert_ne!(configuration("k", "-2.5", "1.5").to_url(), base);
}

#[test]
fn a_slash_in_the_latitude_can_make_two_urls_alike() {
    assert_eq!(configuration("k", "1/2", "3").to_url(), configuration("k/1", "2", "3").to_url());
}

#[test]
fn variable_is_looked_up_by_its_exact_name() {
    let env = environment(&[("MY_LAT", "1"), ("my_lat", "2"), ("MY_LAT ", "3"), ("MY_LNG", "")]);
    assert_eq!(lookup_variable(&env, "MY_LAT"), Some("1".to_string()));
    assert_eq!(lookup_variable(&env, "my_lat"), Some("2".to_string()));
    assert_eq!(lookup_variable(&env, "MY_LAT "), Some("3".to_string()));
    assert_eq!(lookup_variable(&env, "MY_LNG"), Some(String::new()));
    assert_eq!(lookup_variable(&env, "MY_"), None);
    assert_eq!(lookup_variable(&env, ""), None);
    assert_eq!(lookup_variable(&environment(&[]), "MY_LAT"), None);
}

#[test]
fn first_variable_of_a_name_wins() {
    let env = environment(&[("A", "1"), ("B", "2"), ("A", "3")]);
    assert_eq!(lookup_variable(&env, "A"), Some("1".to_string()));
    assert_eq!(lookup_variable(&env, "B"), Some("2".to_string()));
}

#[test]
fn unset_variable_is_named_in_the_error() {
    let env = environment(&[("MY_LAT", "1")]);
    assert_eq!(read_from_environment(&env, "MY_LAT"), Ok("1".to_string()));
    assert_eq!(read_from_environment(&env, "MY_LNG"), Err(error("ENV['MY_LNG'] not set")));
}

#[test]
fn file_value_is_the_rest_of_the_line() {
    assert_eq!(find_in_file("LAT=1", "LAT"), Some("1".to_string()));
    assert_eq!(find_in_file("LAT=1\n", "LAT"), Some("1".to_string()));
    assert_eq!(find_in_file("LAT= 1.5 \n", "LAT"), Some(" 1.5 ".to_string()));
    assert_eq!(find_in_file("LAT=\n", "LAT"), Some(String::new()));
    assert_eq!(find_in_file("LAT=a=b=c\nLNG=2", "LAT"), Some("a=b=c".to_string()));
    assert_eq!(find_in_file("LAT==\n", "LAT"), Some("=".to_string()));
    assert_eq!(find_in_file("=x\n", ""), Some("x".to_string()));
    assert_eq!(find_in_file("é=ü\n", "é"), Some("ü".to_string()));
}

#[test]
fn file_key_is_matched_exactly() {
    assert_eq!(find_in_file("LAT=1\n", "lat"), None);
    assert_eq!(find_in_file("LAT=1\n", "LA"), None);
    assert_eq!(find_in_file("LAT=1\n", "LAT="), None);
    assert_eq!(find_in_file(" LAT=1\n", "LAT"), None);
    assert_eq!(find_in_file("LAT =1\n", "LAT"), None);
    assert_eq!(find_in_file("LAT =1\n", "LAT "), Some("1".to_string()));
    assert_eq!(find_in_file("XLAT=1\n", "LAT"), None);
    assert_eq!(find_in_file("A=LAT=1\n", "LAT"), None);
}

#[test]
fn file_line_without_equals_sign_gives_no_value() {
    assert_eq!(find_in_file("LAT\nLNG=2\n", "LAT"), None);
    assert_eq!(find_in_file("LAT\nLAT=7\n", "LAT"), Some("7".to_string()));
    assert_eq!(find_in_file("\n\n", ""), None);
    assert_eq!(find_in_file("", "LAT"), None);
    assert_eq!(find_in_file("", ""), None);
}

#[test]
fn first_line_of_a_key_wins() {
    assert_eq!(find_in_file("LAT=1\nLAT=2\n", "LAT"), Some("1".to_string()));
    assert_eq!(find_in_file("LNG=0\nLAT=1\nLNG=2\nLAT=3", "LAT"), Some("1".to_string()));
    assert_eq!(find_in_file("LNG=0\nLAT=1\nLNG=2\nLAT=3", "LNG"), Some("0".to_string()));
}

#[test]
fn file_lines_may_end_in_carriage_return_and_line_feed() {
    assert_eq!(find_in_file("LAT=1\r\nLNG=2\r\n", "LAT"), Some("1".to_string()));
    assert_eq!(find_in_file("LAT=1\r\nLNG=2\r\n", "LNG"), Some("2".to_string()));
    assert_eq!(find_in_file("LAT=1\r\r\n", "LAT"), Some("1\r".to_string()));
    assert_eq!(find_in_file("LAT=1\r", "LAT"), Some("1\r".to_string()));
    assert_eq!(find_in_file("LAT=1\rLNG=2\n", "LAT"), Some("1\rLNG=2".to_string()));
    assert_eq!(find_in_file("\r\nLAT=1", "LAT"), Some("1".to_string()));
    assert_eq!(find_in_file("LAT=\r\n", "LAT"), Some(String::new()));
}

#[test]
fn missing_file_is_told_from_missing_key() {
    assert_eq!(read_file("a.conf", Some("text")), Ok("text"));
    assert_eq!(read_file("a.conf", Some("")), Ok(""));
    assert_eq!(read_file("a.conf", None), Err(error("Configuration file 'a.conf' does not exist")));
    assert_eq!(read_file("", None), Err(error("Configuration file '' does not exist")));
    assert_eq!(
        read_from_file("/etc/w.conf", Some("LNG=2\n"), "LAT"),
        Err(error("Could not find 'LAT' in '/etc/w.conf'"))
    );
    assert_eq!(
        read_from_file("/etc/w.conf", None, "LAT"),
        Err(error("Configuration file '/etc/w.conf' does not exist"))
    );
    assert_eq!(read_from_file("w", Some(""), ""), Err(error("Could not find '' in 'w'")));
}

#[test]
fn resolve_from_the_environment() {
    let env = environment(&[
        ("MY_LNG", "-84.338453"),
        ("PATH", "/bin"),
        ("FORECAST_IO_API_KEY", " 123-Key-456 "),
        ("MY_LAT", "33.825553"),
    ]);
    let expected = configuration(" 123-Key-456 ", "33.825553", "-84.338453");
    assert_eq!(resolve(&env, &Source::Environment), Ok(expected));
    assert_eq!(
        read_environment(&env),
        Ok(configuration(" 123-Key-456 ", "33.825553", "-84.338453"))
    );
}

#[test]
fn resolve_from_the_environment_names_the_first_missing_variable() {
    let key = ("FORECAST_IO_API_KEY", "k");
    let lat = ("MY_LAT", "1");
    let lng = ("MY_LNG", "2");
    let no_key = error("ENV['FORECAST_IO_API_KEY'] not set");
    let no_lat = error("ENV['MY_LAT'] not set");
    let no_lng = error("ENV['MY_LNG'] not set");
    let source = Source::Environment;
    assert_eq!(resolve(&environment(&[lat, lng]), &source), Err(error(&no_key.message)));
    assert_eq!(resolve(&environment(&[key, lng]), &source), Err(error(&no_lat.message)));
    assert_eq!(resolve(&environment(&[key, lat]), &source), Err(error(&no_lng.message)));
    assert_eq!(resolve(&environment(&[lng]), &source), Err(error(&no_key.message)));
    assert_eq!(resolve(&environment(&[lat]), &source), Err(error(&no_key.message)));
    assert_eq!(resolve(&environment(&[key]), &source), Err(no_lat));
    assert_eq!(resolve(&environment(&[]), &source), Err(no_key));
    assert_eq!(read_environment(&environment(&[key, lat])), Err(no_lng));
}

#[test]
fn resolve_from_a_file() {
    let env = environment(&[("FORECAST_IO_API_KEY", "k"), ("MY_LAT", "9"), ("MY_LNG", "9")]);
    let source = file("w.conf", Some("# place\nLNG= -84.3\nLAT=33.8 \nLAT=0\n"));
    assert_eq!(resolve(&env, &source), Ok(configuration("k", "33.8 ", " -84.3")));
}

#[test]
fn resolve_from_a_file_names_the_first_missing_value() {
    let with_key = environment(&[("FORECAST_IO_API_KEY", "k")]);
    let without_key = environment(&[("MY_LAT", "1"), ("MY_LNG", "2")]);
    let no_key = "ENV['FORECAST_IO_API_KEY'] not set";
    assert_eq!(resolve(&without_key, &file("w", Some(EXAMPLE))), Err(error(no_key)));
    assert_eq!(resolve(&without_key, &file("w", Some(""))), Err(error(no_key)));
    assert_eq!(resolve(&without_key, &file("w", None)), Err(error(no_key)));
    assert_eq!(
        resolve(&with_key, &file("w", None)),
        Err(error("Configuration file 'w' does not exist"))
    );
    assert_eq!(
        resolve(&with_key, &file("w", Some("LNG=2\n"))),
        Err(error("Could not find 'LAT' in 'w'"))
    );
    assert_eq!(
        resolve(&with_key, &file("w", Some("LAT=1\n"))),
        Err(error("Could not find 'LNG' in 'w'"))
    );
    assert_eq!(
        resolve(&with_key, &file("w", Some(""))),
        Err(error("Could not find 'LAT' in 'w'"))
    );
    assert_eq!(
        read_configuration("w", Some("lat=1\nlng=2\n"), &with_key),
        Err(error("Could not find 'LAT' in 'w'"))
    );
}
