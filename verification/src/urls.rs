//! The request URLs of the remote directory: one endpoint that searches
//! places by a free-text query, and one that serves a place's weather by its
//! numeric identifier.

use vstd::prelude::*;

use crate::data::Location;
use crate::decimal::format_u64;
use crate::decimal::spec_udec;

verus! {

/// The search endpoint's URL for one query string. The query is passed
/// through verbatim; embedding or escaping it for the transport is the
/// transport collaborator's concern.
pub open spec fn spec_search_url(search: Seq<char>) -> Seq<char> {
    "https://www.metaweather.com/api/location/search/?query="@ + search
}

/// The weather endpoint's URL for one location identifier.
pub open spec fn spec_weather_url(identifier: nat) -> Seq<char> {
    "https://www.metaweather.com/api/location/"@ + spec_udec(identifier) + "?speed=k"@
}

/// Builds the URL under which the remote directory searches for places
/// matching `search`.
pub fn location_search_url(search: &str) -> (url: String)
    ensures
        url@ == spec_search_url(search@),
{
    let mut url = String::from_str("https://www.metaweather.com/api/location/search/?query=");
    url.append(search);
    url
}

/// Builds the URL under which the remote directory serves the weather of the
/// place that `location` identifies.
pub fn location_weather_url(location: &Location) -> (url: String)
    ensures
        url@ == spec_weather_url(location.identifier as nat),
{
    let mut url = String::from_str("https://www.metaweather.com/api/location/");
    url.append(format_u64(location.identifier as u64).as_str());
    url.append("?speed=k");
    url
}

} // verus!
