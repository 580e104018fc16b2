//! Weather presentation rules: WMO weather codes, geocoding queries and labels.
use vstd::prelude::*;
use crate::text::join_text;

verus! {

/// The name that the service reports for a WMO weather interpretation code.
pub open spec fn condition_name(code: int) -> Seq<char> {
    if code == 0 { "clear_sky"@ }
    else if code == 1 { "mainly_clear"@ }
    else if code == 2 { "partly_cloudy"@ }
    else if code == 3 { "overcast"@ }
    else if code == 45 { "fog"@ }
    else if code == 48 { "depositing_rime_fog"@ }
    else if code == 51 { "light_drizzle"@ }
    else if code == 53 { "moderate_drizzle"@ }
    else if code == 55 { "dense_drizzle"@ }
    else if code == 56 { "light_freezing_drizzle"@ }
    else if code == 57 { "dense_freezing_drizzle"@ }
    else if code == 61 { "slight_rain"@ }
    else if code == 63 { "moderate_rain"@ }
    else if code == 65 { "heavy_rain"@ }
    else if code == 66 { "light_freezing_rain"@ }
    else if code == 67 { "heavy_freezing_rain"@ }
    else if code == 71 { "slight_snow_fall"@ }
    else if code == 73 { "moderate_snow_fall"@ }
    else if code == 75 { "heavy_snow_fall"@ }
    else if code == 77 { "snow_grains"@ }
    else if code == 80 { "slight_rain_showers"@ }
    else if code == 81 { "moderate_rain_showers"@ }
    else if code == 82 { "violent_rain_showers"@ }
    else if code == 85 { "slight_snow_showers"@ }
    else if code == 86 { "heavy_snow_showers"@ }
    else if code == 95 { "thunderstorm"@ }
    else if code == 96 { "thunderstorm_with_slight_hail"@ }
    else if code == 99 { "thunderstorm_with_heavy_hail"@ }
    else { "unknown"@ }
}

/// The WMO codes that have a name of their own.
pub open spec fn is_known_code(code: int) -> bool {
    code == 0 || code == 1 || code == 2 || code == 3 || code == 45 || code == 48 || code == 51
        || code == 53 || code == 55 || code == 56 || code == 57 || code == 61 || code == 63
        || code == 65 || code == 66 || code == 67 || code == 71 || code == 73 || code == 75
        || code == 77 || code == 80 || code == 81 || code == 82 || code == 85 || code == 86
        || code == 95 || code == 96 || code == 99
}

/// A code is reported as "unknown" exactly when it is not one of the listed
/// WMO codes.
pub proof fn lemma_unknown_exactly_unlisted(code: int)
    ensures
        condition_name(code) == "unknown"@ <==> !is_known_code(code),
{
    reveal_strlit("clear_sky");
    reveal_strlit("mainly_clear");
    reveal_strlit("partly_cloudy");
    reveal_strlit("overcast");
    reveal_strlit("fog");
    reveal_strlit("depositing_rime_fog");
    reveal_strlit("light_drizzle");
    reveal_strlit("moderate_drizzle");
    reveal_strlit("dense_drizzle");
    reveal_strlit("light_freezing_drizzle");
    reveal_strlit("dense_freezing_drizzle");
    reveal_strlit("slight_rain");
    reveal_strlit("moderate_rain");
    reveal_strlit("heavy_rain");
    reveal_strlit("light_freezing_rain");
    reveal_strlit("heavy_freezing_rain");
    reveal_strlit("slight_snow_fall");
    reveal_strlit("moderate_snow_fall");
    reveal_strlit("heavy_snow_fall");
    reveal_strlit("snow_grains");
    reveal_strlit("slight_rain_showers");
    reveal_strlit("moderate_rain_showers");
    reveal_strlit("violent_rain_showers");
    reveal_strlit("slight_snow_showers");
    reveal_strlit("heavy_snow_showers");
    reveal_strlit("thunderstorm");
    reveal_strlit("thunderstorm_with_slight_hail");
    reveal_strlit("thunderstorm_with_heavy_hail");
    reveal_strlit("unknown");
    if is_known_code(code) {
        assert(condition_name(code).len() != "unknown"@.len());
    }
}

/// Maps a WMO weather interpretation code to the condition key that the web
/// front end translates.
pub fn weather_condition(code: i32) -> (r: String)
    ensures
        r@ == condition_name(code as int),
{
    let name: &str = match code {
        0 => "clear_sky",
        1 => "mainly_clear",
        2 => "partly_cloudy",
        3 => "overcast",
        45 => "fog",
        48 => "depositing_rime_fog",
        51 => "light_drizzle",
        53 => "moderate_drizzle",
        55 => "dense_drizzle",
        56 => "light_freezing_drizzle",
        57 => "dense_freezing_drizzle",
        61 => "slight_rain",
        63 => "moderate_rain",
        65 => "heavy_rain",
        66 => "light_freezing_rain",
        67 => "heavy_freezing_rain",
        71 => "slight_snow_fall",
        73 => "moderate_snow_fall",
        75 => "heavy_snow_fall",
        77 => "snow_grains",
        80 => "slight_rain_showers",
        81 => "moderate_rain_showers",
        82 => "violent_rain_showers",
        85 => "slight_snow_showers",
        86 => "heavy_snow_showers",
        95 => "thunderstorm",
        96 => "thunderstorm_with_slight_hail",
        99 => "thunderstorm_with_heavy_hail",
        _ => "unknown",
    };
    name.to_owned()
}

/// The geocoding search address for a place name typed by the user.
pub open spec fn locations_url_spec(name: Seq<char>) -> Seq<char> {
    "https://geocoding-api.open-meteo.com/v1/search?name="@ + name
        + "&count=10&language=pt&format=json"@
}

/// Builds the geocoding search address for `name` (ten results, Portuguese names).
pub fn locations_url(name: &str) -> (r: String)
    ensures
        r@ == locations_url_spec(name@),
{
    let head = join_text("https://geocoding-api.open-meteo.com/v1/search?name=", name);
    let r = join_text(head.as_str(), "&count=10&language=pt&format=json");
    r
}

/// The search address is the fixed query prefix, then the whole typed name,
/// then the fixed query suffix.
pub proof fn lemma_locations_url_carries_whole_name(name: Seq<char>)
    ensures
        ({
            let p = "https://geocoding-api.open-meteo.com/v1/search?name="@;
            let q = "&count=10&language=pt&format=json"@;
            let u = locations_url_spec(name);
            &&& u.len() == p.len() + name.len() + q.len()
            &&& u.subrange(0, p.len() as int) == p
            &&& u.subrange(p.len() as int, (p.len() + name.len()) as int) == name
            &&& u.skip((p.len() + name.len()) as int) == q
        }),
{
    let p = "https://geocoding-api.open-meteo.com/v1/search?name="@;
    let q = "&count=10&language=pt&format=json"@;
    let u = locations_url_spec(name);
    assert(u == p + name + q);
    assert(u.subrange(0, p.len() as int) =~= p);
    assert(u.subrange(p.len() as int, (p.len() + name.len()) as int) =~= name);
    assert(u.skip((p.len() + name.len()) as int) =~= q);
}

/// The label shown for a location: "name, region, country".
pub open spec fn location_label_spec(name: Seq<char>, admin1: Seq<char>, country: Seq<char>) -> Seq<char> {
    name + ", "@ + admin1 + ", "@ + country
}

/// A location label is the place name, ", ", the region, ", ", and the
/// country, in that order.
pub proof fn lemma_location_label_order(name: Seq<char>, admin1: Seq<char>, country: Seq<char>)
    ensures
        ({
            let l = location_label_spec(name, admin1, country);
            &&& l.len() == name.len() + admin1.len() + country.len() + 4
            &&& l.take((name.len() + 2) as int) == name + ", "@
            &&& l.skip((name.len() + 2) as int).take((admin1.len() + 2) as int) == admin1 + ", "@
            &&& l.skip((name.len() + admin1.len() + 4) as int) == country
        }),
{
    reveal_strlit(", ");
    let sep = ", "@;
    let l = location_label_spec(name, admin1, country);
    assert(l == name + sep + admin1 + sep + country);
    assert(l.take((name.len() + 2) as int) =~= name + sep);
    assert(l.skip((name.len() + 2) as int).take((admin1.len() + 2) as int) =~= admin1 + sep);
    assert(l.skip((name.len() + admin1.len() + 4) as int) =~= country);
}

/// Builds the label of a location row from its name, first-level region and country.
pub fn location_label(name: &str, admin1: &str, country: &str) -> (r: String)
    ensures
        r@ == location_label_spec(name@, admin1@, country@),
{
    let a = join_text(name, ", ");
    let b = join_text(a.as_str(), admin1);
    let c = join_text(b.as_str(), ", ");
    join_text(c.as_str(), country)
}

/// The weather settings that the server keeps in memory.
#[derive(Clone)]
pub struct SettingsCache {
    pub use_ip_location: bool,
    /// The saved location, as the JSON text of a geocoding result.
    pub location: String,
}

/// Where the current position for the forecast comes from.
pub enum LocationSource {
    /// Ask the IP geolocation service.
    IpLookup,
    /// Parse the saved geocoding result (JSON text).
    Saved(String),
}

impl SettingsCache {
    /// Chooses the source of the current position: the IP lookup when the
    /// setting asks for it, else the saved location.
    pub fn location_source(&self) -> (r: LocationSource)
        ensures
            self.use_ip_location ==> r is IpLookup,
            !self.use_ip_location ==> r == LocationSource::Saved(self.location),
    {
        if self.use_ip_location {
            LocationSource::IpLookup
        } else {
            LocationSource::Saved(self.location.clone())
        }
    }
}

} // verus!
