use commanda::weather::{location_label, locations_url, weather_condition, LocationSource, SettingsCache};

#[test]
fn listed_codes_have_names() {
    let table = [
        (0, "clear_sky"), (1, "mainly_clear"), (2, "partly_cloudy"), (3, "overcast"),
        (45, "fog"), (48, "depositing_rime_fog"), (51, "light_drizzle"), (53, "moderate_drizzle"),
        (55, "dense_drizzle"), (56, "light_freezing_drizzle"), (57, "dense_freezing_drizzle"),
        (61, "slight_rain"), (63, "moderate_rain"), (65, "heavy_rain"), (66, "light_freezing_rain"),
        (67, "heavy_freezing_rain"), (71, "slight_snow_fall"), (73, "moderate_snow_fall"),
        (75, "heavy_snow_fall"), (77, "snow_grains"), (80, "slight_rain_showers"),
        (81, "moderate_rain_showers"), (82, "violent_rain_showers"), (85, "slight_snow_showers"),
        (86, "heavy_snow_showers"), (95, "thunderstorm"), (96, "thunderstorm_with_slight_hail"),
        (99, "thunderstorm_with_heavy_hail"),
    ];
    for (code, name) in table {
        assert_eq!(weather_condition(code), name);
    }
}

#[test]
fn unlisted_codes_are_unknown() {
    for code in [-1, 4, 44, 50, 100, i32::MAX, i32::MIN] {
        assert_eq!(weather_condition(code), "unknown");
    }
}

#[test]
fn geocoding_address() {
    assert_eq!(
        locations_url("Lisboa"),
        "https://geocoding-api.open-meteo.com/v1/search?name=Lisboa&count=10&language=pt&format=json"
    );
}

#[test]
fn location_row_label() {
    assert_eq!(location_label("Porto", "Porto", "Portugal"), "Porto, Porto, Portugal");
    assert_eq!(location_label("", "", ""), ", , ");
}

#[test]
fn location_source_follows_setting() {
    let ip = SettingsCache { use_ip_location: true, location: "{}".to_string() };
    assert!(matches!(ip.location_source(), LocationSource::IpLookup));
    let saved = SettingsCache { use_ip_location: false, location: "{\"id\":1}".to_string() };
    match saved.location_source() {
        LocationSource::Saved(s) => assert_eq!(s, "{\"id\":1}"),
        LocationSource::IpLookup => panic!("expected the saved location"),
    }
}
