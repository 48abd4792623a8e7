use blocklets::weather::{
    format_report, lookup_failed, root_servers, weather_url, Config, IPv4, OpenWeatherWeather,
    WeatherError,
};

fn arguments(list: &[&str]) -> Vec<String> {
    list.iter().map(|a| String::from(*a)).collect()
}

fn options(scale: Option<char>, check_connection: Option<bool>) -> Config {
    Config::new(
        None,
        Some(true),
        Some(false),
        check_connection,
        String::from("/tmp/weather.log"),
        String::from("key"),
        scale,
    )
}

#[test]
fn test_weather_defaults() {
    assert_eq!(Config::default_bool_false(), false);
    assert_eq!(Config::default_bool_true(), true);
    assert_eq!(Config::default_temperature_scale(), 'F');
    let config = options(None, None);
    assert_eq!(config.log_ip, false);
    assert_eq!(config.log_geolocation, true);
    assert_eq!(config.log_weather_report, false);
    assert_eq!(config.check_connection, true);
    assert_eq!(config.log_file_path, "/tmp/weather.log");
    assert_eq!(config.open_weather_api_key, "key");
    assert_eq!(config.temperature_scale, 'F');
    assert_eq!(options(Some('c'), Some(false)).check_connection, false);
    assert_eq!(options(Some('c'), Some(false)).temperature_scale, 'c');
}

#[test]
fn test_weather_arguments() {
    assert_eq!(Config::file_argument(&arguments(&["weather"])), Err(WeatherError::Args));
    assert_eq!(Config::file_argument(&arguments(&["weather", "a", "b"])), Err(WeatherError::Args));
    assert_eq!(
        Config::file_argument(&arguments(&["weather", "weather.yml"])),
        Ok(String::from("weather.yml"))
    );
}

#[test]
fn test_weather_options_are_checked() {
    for (letter, scale) in [('f', 'F'), ('F', 'F'), ('c', 'C'), ('C', 'C'), ('k', 'K'), ('K', 'K')] {
        let checked = options(Some(letter), None).checked(true).ok().unwrap();
        assert_eq!(checked.temperature_scale, scale);
        assert_eq!(checked.log_geolocation, true);
        assert_eq!(checked.open_weather_api_key, "key");
        assert_eq!(checked.log_file_path, "/tmp/weather.log");
    }
    for letter in ['R', 'x', ' ', '\u{212a}'] {
        assert_eq!(options(Some(letter), None).checked(true).err(), Some(WeatherError::Other));
    }
    assert_eq!(options(Some('C'), None).checked(false).err(), Some(WeatherError::Offline));
    assert_eq!(options(Some('?'), None).checked(false).err(), Some(WeatherError::Offline));
    assert_eq!(options(Some('C'), Some(true)).checked(false).err(), Some(WeatherError::Offline));
    assert!(options(Some('C'), Some(false)).checked(false).is_ok());
    assert_eq!(options(Some('?'), Some(false)).checked(false).err(), Some(WeatherError::Other));
}

#[test]
fn test_weather_errors() {
    assert_eq!(WeatherError::Args.message(), "WTR Args error!\nWTR Args error!\n#FF000");
    assert_eq!(WeatherError::ConfigFile.message(), "WTR File error!\nWTR File error!\n#FF000");
    assert_eq!(WeatherError::Parse.message(), "WTR Parse error!\nWTR Parse error\n#FF0000");
    assert_eq!(WeatherError::LogFile.message(), "WTR File error!\nWTR File error!\n#FF0000");
    assert_eq!(WeatherError::Logger.message(), "WTR Logger error!\nWTR Logger error!\n#FF000");
    assert_eq!(WeatherError::Offline.message(), "WTR 404\nWTR F04\n#FFFFFF");
    assert_eq!(WeatherError::Other.message(), "WTR Error!\nWTR Error!\n#FF0000");
}

#[test]
fn test_weather_addresses() {
    let servers = root_servers();
    assert_eq!(servers.len(), 13);
    for (place, letter) in (b'a'..=b'm').enumerate() {
        assert_eq!(servers[place], format!("{}.root-servers.net:80", letter as char));
    }
    assert_eq!(IPv4::lookup_url(), "https://api.ipify.org");
    let ip = IPv4::new(String::from("203.0.113.7"));
    assert_eq!(ip.to_string(), "203.0.113.7");
    assert_eq!(
        ip.geolocation_url(),
        "http://ip-api.com/json/203.0.113.7?fields=status,message,lat,lon"
    );
    assert_eq!(
        weather_url("48.85", "2.35", "key"),
        "https://api.openweathermap.org/data/2.5/weather?lat=48.85&lon=2.35&appid=key"
    );
    assert!(lookup_failed("fail"));
    assert!(!lookup_failed("success"));
    assert!(!lookup_failed("Fail"));
    assert!(!lookup_failed(""));
}

#[test]
fn test_weather_report() {
    let sky = OpenWeatherWeather { main: String::from("Clouds") };
    assert_eq!(sky.description(), "clouds");
    assert_eq!(
        format_report("71.3", 'F', &sky),
        "WTR 71.3\u{b0}F, clouds\nWTR 71.3\u{b0}F\n#FFFFFF"
    );
    let odd = OpenWeatherWeather { main: String::from("THUNDERSTORM \u{c9}T\u{c9}") };
    assert_eq!(odd.description(), "thunderstorm \u{c9}t\u{c9}");
    assert_eq!(
        format_report("-3.0", 'C', &odd),
        "WTR -3.0\u{b0}C, thunderstorm \u{c9}t\u{c9}\nWTR -3.0\u{b0}C\n#FFFFFF"
    );
}
