//! The address of the forecast for a configuration.

use vstd::prelude::*;
use vstd::string::*;

use crate::config::{Configuration, ConfigurationModel};

verus! {

/// The URL of the forecast for `config`: the service's address, the key, a
/// slash, the latitude, a comma, the longitude. Nothing is escaped.
pub open spec fn forecast_url(config: ConfigurationModel) -> Seq<char> {
    "https://api.forecast.io/forecast/"@ + config.api_key + "/"@ + config.lat + ","@
        + config.lng
}

impl Configuration {
    /// The URL to ask for the current forecast at this place.
    pub fn to_url(&self) -> (url: String)
        ensures
            url@ == forecast_url(self@),
    {
        let mut url = String::from_str("https://api.forecast.io/forecast/");
        url.append(self.api_key.as_str());
        url.append("/");
        url.append(self.lat.as_str());
        url.append(",");
        url.append(self.lng.as_str());
        url
    }
}




/// A text that is cut at a mark which its second part does not hold can be
/// cut there in one way only.
proof fn lemma_cut_once(
    head: Seq<char>,
    tail: Seq<char>,
    other_head: Seq<char>,
    other_tail: Seq<char>,
    mark: char,
)
    requires
        head + seq![mark] + tail == other_head + seq![mark] + other_tail,
        !tail.contains(mark),
        !other_tail.contains(mark),
    ensures
        head == other_head,
        tail == other_tail,
{
    let whole = head + seq![mark] + tail;
    let other = other_head + seq![mark] + other_tail;
    assert(whole.len() == other.len());
    if head.len() < other_head.len() {
        let at = other_head.len() - head.len() - 1;
        assert(other[other_head.len() as int] == mark);
        assert(whole[other_head.len() as int] == tail[at]);
        assert(tail.contains(mark));
    }
    if other_head.len() < head.len() {
        let at = head.len() - other_head.len() - 1;
        assert(whole[head.len() as int] == mark);
        assert(other[head.len() as int] == other_tail[at]);
        assert(other_tail.contains(mark));
    }
    assert(head =~= whole.take(head.len() as int));
    assert(other_head =~= other.take(head.len() as int));
    assert(tail =~= whole.skip(head.len() as int + 1));
    assert(other_tail =~= other.skip(head.len() as int + 1));
}

/// Two configurations with the same URL are the same configuration, as long
/// as no latitude holds a slash and no longitude a comma: coordinates written
/// as decimal numbers hold neither.
pub proof fn lemma_url_injective(a: ConfigurationModel, b: ConfigurationModel)
    requires
        forecast_url(a) == forecast_url(b),
        !a.lat.contains('/'),
        !b.lat.contains('/'),
        !a.lng.contains(','),
        !b.lng.contains(','),
    ensures
        a == b,
{
    reveal_strlit("/");
    reveal_strlit(",");
    let base = "https://api.forecast.io/forecast/"@;
    assert("/"@ =~= seq!['/']);
    assert(","@ =~= seq![',']);
    lemma_cut_once(
        base + a.api_key + seq!['/'] + a.lat,
        a.lng,
        base + b.api_key + seq!['/'] + b.lat,
        b.lng,
        ',',
    );
    lemma_cut_once(base + a.api_key, a.lat, base + b.api_key, b.lat, '/');
    assert(a.api_key =~= (base + a.api_key).skip(base.len() as int));
    assert(b.api_key =~= (base + b.api_key).skip(base.len() as int));
}

/// Building the URL of one configuration twice gives the same text twice.
pub proof fn lemma_url_repeatable(config: Configuration, first: String, second: String)
    requires
        first@ == forecast_url(config@),
        second@ == forecast_url(config@),
    ensures
        first@ == second@,
{
}

} // verus!
