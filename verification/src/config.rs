//! Where the API key and the coordinates come from, and the request URL
//! that they make.

use vstd::prelude::*;
use vstd::string::*;

use crate::error::{text_outcome, ProgramError};
use crate::text::{chars_of, text_eq};

verus! {

/// The three values that a forecast request needs. Each is opaque text that
/// goes into the URL as it stands.
#[derive(Debug, PartialEq, Eq)]
pub struct Configuration {
    pub api_key: String,
    pub lat: String,
    pub lng: String,
}

/// A configuration as mathematics: three character sequences.
pub ghost struct ConfigurationModel {
    pub api_key: Seq<char>,
    pub lat: Seq<char>,
    pub lng: Seq<char>,
}

impl View for Configuration {
    type V = ConfigurationModel;

    open spec fn view(&self) -> ConfigurationModel {
        ConfigurationModel { api_key: self.api_key@, lat: self.lat@, lng: self.lng@ }
    }
}

/// The variables of the process environment, as pairs of name and value.
pub type Environment = Vec<(String, String)>;

/// Where the latitude and the longitude are looked up. The API key comes
/// from the environment either way.
#[derive(Debug, PartialEq, Eq)]
pub enum Source {
    /// The environment variables `MY_LAT` and `MY_LNG`.
    Environment,
    /// The keys `LAT` and `LNG` of a file of `KEY=VALUE` lines. `contents` is
    /// `None` where the file is missing or cannot be read.
    File { path: String, contents: Option<String> },
}

/// A source as mathematics.
pub ghost enum SourceModel {
    Environment,
    File { path: Seq<char>, contents: Option<Seq<char>> },
}

impl View for Source {
    type V = SourceModel;

    open spec fn view(&self) -> SourceModel {
        match self {
            Source::Environment => SourceModel::Environment,
            Source::File { path, contents } => SourceModel::File {
                path: path@,
                contents: contents.deep_view(),
            },
        }
    }
}

/// A configuration or the error in its place, as mathematics.
pub open spec fn configuration_outcome(result: Result<Configuration, ProgramError>) -> Result<
    ConfigurationModel,
    Seq<char>,
> {
    match result {
        Ok(config) => Ok(config@),
        Err(error) => Err(error@),
    }
}

/// The message for an environment variable that is not set.
pub open spec fn unset_message(name: Seq<char>) -> Seq<char> {
    "ENV['"@ + name + "'] not set"@
}

/// The message for a configuration file that is missing or unreadable.
pub open spec fn missing_file_message(path: Seq<char>) -> Seq<char> {
    "Configuration file '"@ + path + "' does not exist"@
}

/// The message for a key that no line of the file gives a value.
pub open spec fn missing_key_message(key: Seq<char>, path: Seq<char>) -> Seq<char> {
    "Could not find '"@ + key + "' in '"@ + path + "'"@
}

/// The value of the first variable called `name`, if there is one.
pub open spec fn variable(env: Seq<(Seq<char>, Seq<char>)>, name: Seq<char>) -> Option<
    Seq<char>,
>
    decreases env.len(),
{
    if env.len() == 0 {
        None
    } else if env[0].0 == name {
        Some(env[0].1)
    } else {
        variable(env.drop_first(), name)
    }
}

/// The number of characters of `text` that stand before its first `mark`:
/// all of them where it holds none.
pub open spec fn span_before(text: Seq<char>, mark: char) -> nat
    decreases text.len(),
{
    if text.len() == 0 || text[0] == mark {
        0
    } else {
        1 + span_before(text.drop_first(), mark)
    }
}

/// The first line of `text`, without its ending. A line ends at a line feed
/// or at the end of the text; a carriage return just before the line feed
/// belongs to the ending.
pub open spec fn first_line(text: Seq<char>) -> Seq<char> {
    let n = span_before(text, '\n') as int;
    if 0 < n < text.len() && text[n - 1] == '\r' {
        text.take(n - 1)
    } else {
        text.take(n)
    }
}

/// What follows the first line of `text` and its line feed.
pub open spec fn after_first_line(text: Seq<char>) -> Seq<char> {
    let n = span_before(text, '\n') as int;
    if n < text.len() {
        text.skip(n + 1)
    } else {
        Seq::empty()
    }
}

/// The value that the line gives to `key`: what follows the line's first
/// `=`, where what stands before it is `key`. A line without `=` gives none.
pub open spec fn line_value(line: Seq<char>, key: Seq<char>) -> Option<Seq<char>> {
    let n = span_before(line, '=') as int;
    if n < line.len() && line.take(n) == key {
        Some(line.skip(n + 1))
    } else {
        None
    }
}

/// The value of `key` in a file of `KEY=VALUE` lines: that of the first line,
/// from the top, that gives it one.
pub open spec fn file_value(text: Seq<char>, key: Seq<char>) -> Option<Seq<char>>
    decreases text.len(),
{
    if text.len() == 0 {
        None
    } else {
        match line_value(first_line(text), key) {
            Some(value) => Some(value),
            None => {
                proof {
                    lemma_span_before_bounds(text, '\n');
                }
                file_value(after_first_line(text), key)
            },
        }
    }
}

/// What reading the file at `path` gives: its contents, or the error for a
/// file that is not there.
pub open spec fn file_contents(path: Seq<char>, contents: Option<Seq<char>>) -> Result<
    Seq<char>,
    Seq<char>,
> {
    match contents {
        Some(text) => Ok(text),
        None => Err(missing_file_message(path)),
    }
}

/// What looking `key` up in the file at `path` gives.
pub open spec fn value_in_file(path: Seq<char>, contents: Option<Seq<char>>, key: Seq<char>)
    -> Result<Seq<char>, Seq<char>> {
    match file_contents(path, contents) {
        Err(message) => Err(message),
        Ok(text) => match file_value(text, key) {
            Some(value) => Ok(value),
            None => Err(missing_key_message(key, path)),
        },
    }
}

/// What looking the variable `name` up in the environment gives.
pub open spec fn value_in_environment(env: Seq<(Seq<char>, Seq<char>)>, name: Seq<char>)
    -> Result<Seq<char>, Seq<char>> {
    match variable(env, name) {
        Some(value) => Ok(value),
        None => Err(unset_message(name)),
    }
}

/// The API key, or the error for its absence.
pub open spec fn api_key_from(env: Seq<(Seq<char>, Seq<char>)>) -> Result<Seq<char>, Seq<char>> {
    value_in_environment(env, "FORECAST_IO_API_KEY"@)
}

/// The latitude, or the error for its absence.
pub open spec fn latitude_from(env: Seq<(Seq<char>, Seq<char>)>, source: SourceModel) -> Result<
    Seq<char>,
    Seq<char>,
> {
    match source {
        SourceModel::Environment => value_in_environment(env, "MY_LAT"@),
        SourceModel::File { path, contents } => value_in_file(path, contents, "LAT"@),
    }
}

/// The longitude, or the error for its absence.
pub open spec fn longitude_from(env: Seq<(Seq<char>, Seq<char>)>, source: SourceModel) -> Result<
    Seq<char>,
    Seq<char>,
> {
    match source {
        SourceModel::Environment => value_in_environment(env, "MY_LNG"@),
        SourceModel::File { path, contents } => value_in_file(path, contents, "LNG"@),
    }
}

/// The configuration that `env` and `source` resolve to. The values are
/// looked up in a fixed order, the API key, the latitude, the longitude, and
/// the first one that is missing decides the error.
pub open spec fn resolved(env: Seq<(Seq<char>, Seq<char>)>, source: SourceModel) -> Result<
    ConfigurationModel,
    Seq<char>,
> {
    match api_key_from(env) {
        Err(message) => Err(message),
        Ok(api_key) => match latitude_from(env, source) {
            Err(message) => Err(message),
            Ok(lat) => match longitude_from(env, source) {
                Err(message) => Err(message),
                Ok(lng) => Ok(ConfigurationModel { api_key, lat, lng }),
            },
        },
    }
}

/// `span_before` never counts past the end of the text.
pub proof fn lemma_span_before_bounds(text: Seq<char>, mark: char)
    ensures
        span_before(text, mark) <= text.len(),
    decreases text.len(),
{
    if text.len() != 0 && text[0] != mark {
        lemma_span_before_bounds(text.drop_first(), mark);
    }
}

/// `span_before` is the place of the first `mark`: no character before
/// place `n` is the mark, and the text ends at `n` or holds the mark there.
pub proof fn lemma_span_before_is(text: Seq<char>, mark: char, n: int)
    requires
        0 <= n <= text.len(),
        forall|i: int| 0 <= i < n ==> text[i] != mark,
        n == text.len() || text[n] == mark,
    ensures
        span_before(text, mark) == n,
    decreases n,
{
    if n > 0 {
        lemma_span_before_is(text.drop_first(), mark, n - 1);
    }
}

/// A variable is found at the first place that holds its name.
pub proof fn lemma_variable_found(env: Seq<(Seq<char>, Seq<char>)>, name: Seq<char>, at: int)
    requires
        0 <= at < env.len(),
        env[at].0 == name,
        forall|i: int| 0 <= i < at ==> env[i].0 != name,
    ensures
        variable(env, name) == Some(env[at].1),
    decreases at,
{
    if at > 0 {
        lemma_variable_found(env.drop_first(), name, at - 1);
    }
}

/// A variable that no place names is not found.
pub proof fn lemma_variable_absent(env: Seq<(Seq<char>, Seq<char>)>, name: Seq<char>)
    requires
        forall|i: int| 0 <= i < env.len() ==> env[i].0 != name,
    ensures
        variable(env, name) is None,
    decreases env.len(),
{
    if env.len() > 0 {
        lemma_variable_absent(env.drop_first(), name);
    }
}

/// The value of the environment variable `name`, if it is set.
pub fn lookup_variable(env: &Environment, name: &str) -> (found: Option<String>)
    ensures
        found.deep_view() == variable(env.deep_view(), name@),
{
    let mut i: usize = 0;
    while i < env.len()
        invariant
            i <= env.len(),
            forall|j: int| 0 <= j < i ==> env.deep_view()[j].0 != name@,
        decreases env.len() - i,
    {
        if text_eq(env[i].0.as_str(), name) {
            proof {
                lemma_variable_found(env.deep_view(), name@, i as int);
            }
            return Some(env[i].1.clone());
        }
        i += 1;
    }
    proof {
        lemma_variable_absent(env.deep_view(), name@);
    }
    None
}

/// Whether the characters of `text` from `from` up to `to` are those of
/// `wanted`.
fn stretch_is(text: &Vec<char>, from: usize, to: usize, wanted: &Vec<char>) -> (same: bool)
    requires
        from <= to <= text.len(),
    ensures
        same == (text@.subrange(from as int, to as int) == wanted@),
{
    if to - from != wanted.len() {
        return false;
    }
    let mut i: usize = 0;
    while i < wanted.len()
        invariant
            from <= to <= text.len(),
            to - from == wanted.len(),
            i <= wanted.len(),
            forall|j: int| 0 <= j < i ==> text@[from + j] == wanted@[j],
        decreases wanted.len() - i,
    {
        if text[from + i] != wanted[i] {
            assert(text@.subrange(from as int, to as int)[i as int] != wanted@[i as int]);
            return false;
        }
        i += 1;
    }
    assert(text@.subrange(from as int, to as int) =~= wanted@);
    true
}

/// The place of the first `mark` in `text` at or after `from` and before
/// `to`, or `to` where there is none.
fn seek(text: &Vec<char>, from: usize, to: usize, mark: char) -> (at: usize)
    requires
        from <= to <= text.len(),
    ensures
        from <= at <= to,
        forall|i: int| from <= i < at ==> text@[i] != mark,
        at == to || text@[at as int] == mark,
{
    let mut at = from;
    while at < to && text[at] != mark
        invariant
            from <= at <= to <= text.len(),
            forall|i: int| from <= i < at ==> text@[i] != mark,
        decreases to - at,
    {
        at += 1;
    }
    at
}

/// The value of `key` in the text of a configuration file, if a line gives
/// it one.
pub fn find_in_file(text: &str, key: &str) -> (found: Option<String>)
    ensures
        found.deep_view() == file_value(text@, key@),
{
    let chars = chars_of(text);
    let wanted = chars_of(key);
    let mut start: usize = 0;
    assert(text@.skip(0) =~= text@);
    while start < chars.len()
        invariant
            start <= chars.len(),
            chars@ == text@,
            wanted@ == key@,
            file_value(text@, key@) == file_value(text@.skip(start as int), key@),
        decreases chars.len() - start,
    {
        let ghost rest = text@.skip(start as int);
        let end = seek(&chars, start, chars.len(), '\n');
        let stop = if start < end && end < chars.len() && chars[end - 1] == '\r' {
            end - 1
        } else {
            end
        };
        let sign = seek(&chars, start, stop, '=');
        proof {
            lemma_span_before_is(rest, '\n', end - start);
            assert(first_line(rest) =~= text@.subrange(start as int, stop as int));
            lemma_span_before_is(first_line(rest), '=', sign - start);
            assert(first_line(rest).take(sign - start) =~= text@.subrange(
                start as int,
                sign as int,
            ));
        }
        if sign < stop && stretch_is(&chars, start, sign, &wanted) {
            let value = text.substring_char(sign + 1, stop);
            assert(first_line(rest).skip(sign - start + 1) =~= value@);
            return Some(String::from_str(value));
        }
        proof {
            if end < chars.len() {
                assert(after_first_line(rest) =~= text@.skip(end + 1));
            } else {
                assert(after_first_line(rest) =~= text@.skip(chars.len() as int));
            }
        }
        start = if end < chars.len() {
            end + 1
        } else {
            end
        };
    }
    assert(text@.skip(start as int).len() == 0);
    None
}

/// The contents of the configuration file at `path`, as the caller read
/// them: `contents` is `None` where the file is missing or unreadable.
pub fn read_file<'a>(path: &str, contents: Option<&'a str>) -> (result: Result<
    &'a str,
    ProgramError,
>)
    ensures
        result matches Ok(text) ==> contents == Some(text),
        result matches Err(error) ==> contents is None && error@ == missing_file_message(path@),
{
    match contents {
        Some(text) => Ok(text),
        None => {
            let mut message = String::from_str("Configuration file '");
            message.append(path);
            message.append("' does not exist");
            Err(ProgramError::new(message))
        },
    }
}

/// The value of `key` in the configuration file at `path`, whose contents
/// the caller read: the rest of the first line that starts with `key` and
/// `=`.
pub fn read_from_file(path: &str, contents: Option<&str>, key: &str) -> (result: Result<
    String,
    ProgramError,
>)
    ensures
        text_outcome(result) == value_in_file(path@, contents.deep_view(), key@),
{
    let text = match read_file(path, contents) {
        Ok(text) => text,
        Err(error) => { return Err(error); },
    };
    match find_in_file(text, key) {
        Some(value) => Ok(value),
        None => {
            let mut message = String::from_str("Could not find '");
            message.append(key);
            message.append("' in '");
            message.append(path);
            message.append("'");
            Err(ProgramError::new(message))
        },
    }
}

/// The value of the environment variable `name`, or the error that says it
/// is not set.
pub fn read_from_environment(env: &Environment, name: &str) -> (result: Result<
    String,
    ProgramError,
>)
    ensures
        text_outcome(result) == value_in_environment(env.deep_view(), name@),
{
    match lookup_variable(env, name) {
        Some(value) => Ok(value),
        None => {
            let mut message = String::from_str("ENV['");
            message.append(name);
            message.append("'] not set");
            Err(ProgramError::new(message))
        },
    }
}

/// The configuration of a run that keeps its coordinates in the file at
/// `path` and its API key in the environment.
pub fn read_configuration(path: &str, contents: Option<&str>, env: &Environment) -> (result:
    Result<Configuration, ProgramError>)
    ensures
        configuration_outcome(result) == resolved(
            env.deep_view(),
            SourceModel::File { path: path@, contents: contents.deep_view() },
        ),
{
    let api_key = match read_from_environment(env, "FORECAST_IO_API_KEY") {
        Ok(value) => value,
        Err(error) => { return Err(error); },
    };
    let lat = match read_from_file(path, contents, "LAT") {
        Ok(value) => value,
        Err(error) => { return Err(error); },
    };
    let lng = match read_from_file(path, contents, "LNG") {
        Ok(value) => value,
        Err(error) => { return Err(error); },
    };
    Ok(Configuration { api_key, lat, lng })
}

/// The configuration of a run that keeps all three values in the
/// environment.
pub fn read_environment(env: &Environment) -> (result: Result<Configuration, ProgramError>)
    ensures
        configuration_outcome(result) == resolved(env.deep_view(), SourceModel::Environment),
{
    let api_key = match read_from_environment(env, "FORECAST_IO_API_KEY") {
        Ok(value) => value,
        Err(error) => { return Err(error); },
    };
    let lat = match read_from_environment(env, "MY_LAT") {
        Ok(value) => value,
        Err(error) => { return Err(error); },
    };
    let lng = match read_from_environment(env, "MY_LNG") {
        Ok(value) => value,
        Err(error) => { return Err(error); },
    };
    Ok(Configuration { api_key, lat, lng })
}

/// The configuration of a run, from what the caller read of the environment
/// and, where `source` names a file, of that file.
pub fn resolve(env: &Environment, source: &Source) -> (result: Result<Configuration, ProgramError>)
    ensures
        configuration_outcome(result) == resolved(env.deep_view(), source@),
{
    match source {
        Source::Environment => read_environment(env),
        Source::File { path, contents } => {
            let text = match contents {
                Some(text) => Some(text.as_str()),
                None => None,
            };
            read_configuration(path.as_str(), text, env)
        },
    }
}


/// A line made of a key, `=` and a value gives the key that value whole,
/// with its blanks and with any further `=`, as long as the key holds no `=`.
pub proof fn lemma_line_value(key: Seq<char>, value: Seq<char>)
    requires
        !key.contains('='),
    ensures
        line_value(key + seq!['='] + value, key) == Some(value),
{
    let line = key + seq!['='] + value;
    assert forall|i: int| 0 <= i < key.len() implies line[i] != '=' by {
        assert(line[i] == key[i]);
    }
    lemma_span_before_is(line, '=', key.len() as int);
    assert(line.take(key.len() as int) =~= key);
    assert(line.skip(key.len() as int + 1) =~= value);
}

/// A file whose first line is a key, `=` and a value gives the key that
/// value, character for character, whatever follows the line. The value
/// holds no line feed and does not end in a carriage return, which would
/// belong to the line's ending.
pub proof fn lemma_file_value_first_line(key: Seq<char>, value: Seq<char>, rest: Seq<char>)
    requires
        !key.contains('='),
        !key.contains('\n'),
        !value.contains('\n'),
        value.len() == 0 || value.last() != '\r',
    ensures
        file_value(key + seq!['='] + value + seq!['\n'] + rest, key) == Some(value),
{
    let line = key + seq!['='] + value;
    let text = line + seq!['\n'] + rest;
    assert forall|i: int| 0 <= i < line.len() implies text[i] != '\n' by {
        if i < key.len() {
            assert(text[i] == key[i]);
        } else if i > key.len() {
            assert(text[i] == value[i - key.len() - 1]);
        }
    }
    lemma_span_before_is(text, '\n', line.len() as int);
    assert(text[line.len() - 1] != '\r') by {
        if value.len() == 0 {
            assert(text[line.len() - 1] == '=');
        } else {
            assert(text[line.len() - 1] == value.last());
        }
    }
    assert(first_line(text) =~= line);
    lemma_line_value(key, value);
}

/// Where all three values are there, they make the configuration, each as
/// it was found.
pub proof fn lemma_resolve_complete(
    env: Seq<(Seq<char>, Seq<char>)>,
    source: SourceModel,
    api_key: Seq<char>,
    lat: Seq<char>,
    lng: Seq<char>,
)
    requires
        api_key_from(env) == Ok::<Seq<char>, Seq<char>>(api_key),
        latitude_from(env, source) == Ok::<Seq<char>, Seq<char>>(lat),
        longitude_from(env, source) == Ok::<Seq<char>, Seq<char>>(lng),
    ensures
        resolved(env, source) == Ok::<ConfigurationModel, Seq<char>>(
            ConfigurationModel { api_key, lat, lng },
        ),
{
}

/// Without the API key the error names the API key, whatever else is
/// missing.
pub proof fn lemma_resolve_without_api_key(env: Seq<(Seq<char>, Seq<char>)>, source: SourceModel)
    requires
        variable(env, "FORECAST_IO_API_KEY"@) is None,
    ensures
        resolved(env, source) == Err::<ConfigurationModel, Seq<char>>(
            "ENV['FORECAST_IO_API_KEY'] not set"@,
        ),
{
    reveal_strlit("ENV['");
    reveal_strlit("FORECAST_IO_API_KEY");
    reveal_strlit("'] not set");
    reveal_strlit("ENV['FORECAST_IO_API_KEY'] not set");
    assert(unset_message("FORECAST_IO_API_KEY"@) =~= "ENV['FORECAST_IO_API_KEY'] not set"@);
}

/// With the API key and without the latitude the error is that of the
/// latitude, whether or not the longitude is there.
pub proof fn lemma_resolve_without_latitude(
    env: Seq<(Seq<char>, Seq<char>)>,
    source: SourceModel,
    message: Seq<char>,
)
    requires
        api_key_from(env) is Ok,
        latitude_from(env, source) == Err::<Seq<char>, Seq<char>>(message),
    ensures
        resolved(env, source) == Err::<ConfigurationModel, Seq<char>>(message),
{
}

/// With the API key and the latitude and without the longitude the error is
/// that of the longitude.
pub proof fn lemma_resolve_without_longitude(
    env: Seq<(Seq<char>, Seq<char>)>,
    source: SourceModel,
    message: Seq<char>,
)
    requires
        api_key_from(env) is Ok,
        latitude_from(env, source) is Ok,
        longitude_from(env, source) == Err::<Seq<char>, Seq<char>>(message),
    ensures
        resolved(env, source) == Err::<ConfigurationModel, Seq<char>>(message),
{
}

/// A coordinate that the environment lacks is named by its variable.
pub proof fn lemma_unset_coordinates(env: Seq<(Seq<char>, Seq<char>)>)
    ensures
        variable(env, "MY_LAT"@) is None ==> latitude_from(env, SourceModel::Environment) == Err::<
            Seq<char>,
            Seq<char>,
        >("ENV['MY_LAT'] not set"@),
        variable(env, "MY_LNG"@) is None ==> longitude_from(env, SourceModel::Environment) == Err::<
            Seq<char>,
            Seq<char>,
        >("ENV['MY_LNG'] not set"@),
{
    reveal_strlit("ENV['");
    reveal_strlit("MY_LAT");
    reveal_strlit("MY_LNG");
    reveal_strlit("'] not set");
    reveal_strlit("ENV['MY_LAT'] not set");
    reveal_strlit("ENV['MY_LNG'] not set");
    assert(unset_message("MY_LAT"@) =~= "ENV['MY_LAT'] not set"@);
    assert(unset_message("MY_LNG"@) =~= "ENV['MY_LNG'] not set"@);
}

} // verus!
