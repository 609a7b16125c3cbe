use spaceapi::sensors::{
    AccountBalanceSensor, BarometerSensor, BeverageSupplySensor, DoorLockedSensor, HumiditySensor,
    NetworkConnectionKind, NetworkConnectionMachine, NetworkConnectionsSensor,
    NetworkTrafficBitsPerSecond, NetworkTrafficPacketsPerSecond, NetworkTrafficSensor,
    NetworkTrafficSensorProperties, PeopleNowPresentSensor, PeopleNowPresentSensorTemplate,
    PowerConsumptionSensor, RadiationSensor, RadiationSensorUnit, RadiationSensors,
    SensorMetadata, SensorMetadataWithLocation, SensorTemplate, Sensors, TemperatureSensor,
    TemperatureSensorTemplate, TotalMemberCountSensor, WindSensor, WindSensorMeasurement,
    WindSensorProperties,
};
use spaceapi::{
    ApiVersion, BillingInterval, Cache, Codec, Contact, DecodeError, Double, Event, Extensions,
    Feed, Feeds, GoogleContact, Icon, IssueReportChannel, Keymaster, Link, Location,
    MembershipPlan, Number, RadioShow, Spacefed, State, Status, StatusBuilder, Stream, Value,
};

/// The tree in the terms of the JSON library.
fn to_json(value: &Value) -> serde_json::Value {
    match value {
        Value::Null => serde_json::Value::Null,
        Value::Bool(b) => serde_json::Value::Bool(*b),
        Value::Number(Number::PosInt(n)) => serde_json::Value::from(*n),
        Value::Number(Number::NegInt(i)) => serde_json::Value::from(*i),
        Value::Number(Number::Float(d)) => serde_json::Value::from(f64::from_bits(d.to_bits())),
        Value::String(s) => serde_json::Value::String(s.clone()),
        Value::Array(items) => serde_json::Value::Array(items.iter().map(to_json).collect()),
        Value::Object(fields) => {
            serde_json::Value::Object(fields.iter().map(|(k, v)| (k.clone(), to_json(v))).collect())
        }
    }
}

/// The tree that the JSON library has read.
fn from_json(value: &serde_json::Value) -> Value {
    match value {
        serde_json::Value::Null => Value::Null,
        serde_json::Value::Bool(b) => Value::Bool(*b),
        serde_json::Value::Number(n) => Value::Number(match (n.as_u64(), n.as_i64()) {
            (Some(u), _) => Number::PosInt(u),
            (None, Some(i)) => Number::NegInt(i),
            (None, None) => Number::Float(Double::from_bits(n.as_f64().unwrap().to_bits())),
        }),
        serde_json::Value::String(s) => Value::String(s.clone()),
        serde_json::Value::Array(items) => Value::Array(items.iter().map(from_json).collect()),
        serde_json::Value::Object(fields) => {
            Value::Object(fields.iter().map(|(k, v)| (k.clone(), from_json(v))).collect())
        }
    }
}

fn to_string<T: Codec>(value: &T) -> String {
    serde_json::to_string(&to_json(&value.to_value())).unwrap()
}

fn from_str<T: Codec>(text: &str) -> Result<T, DecodeError> {
    T::from_value(&from_json(&serde_json::from_str(text).unwrap()))
}

fn double(x: f64) -> Double {
    Double::from_bits(x.to_bits())
}

fn complete() -> StatusBuilder {
    StatusBuilder::new("a")
        .logo("b")
        .url("c")
        .state(State { open: Some(false), ..State::default() })
        .location(Location::default())
        .contact(Contact::default())
        .add_issue_report_channel(IssueReportChannel::Email)
}

#[test]
fn sensors_serialize_deserialize_sensors() {
    let a = Sensors {
        people_now_present: vec![],
        temperature: vec![],
        humidity: vec![],
        power_consumption: vec![],
        ..Sensors::default()
    };
    let b: Sensors = from_str(&to_string(&a)).unwrap();
    assert_eq!(a, b);
}

#[test]
fn mod_serialize_deserialize_sensors() {
    let a = Sensors::default();
    let b: Sensors = from_str(&to_string(&a)).unwrap();
    assert_eq!(a, b);
}

#[test]
fn network_traffic_test_serialize() {
    let sensor = NetworkTrafficSensor {
        properties: NetworkTrafficSensorProperties {
            bits_per_second: Some(NetworkTrafficBitsPerSecond {
                value: double(42.0),
                ..Default::default()
            }),
            ..Default::default()
        },
        ..Default::default()
    };
    assert_eq!("{\"properties\":{\"bits_per_second\":{\"value\":42.0}}}", to_string(&sensor));
}

#[test]
fn people_now_present_test_template() {
    let template =
        PeopleNowPresentSensorTemplate { metadata: SensorMetadata::default(), names: None };
    let mut sensors = Sensors::default();
    template.to_sensor("8", &mut sensors);
    assert_eq!("[{\"value\":8}]", to_string(&sensors.people_now_present));
}

#[test]
fn radiation_test_serialize() {
    let sensors = RadiationSensors {
        alpha: Some(vec![RadiationSensor {
            metadata: Default::default(),
            dead_time: None,
            conversion_factor: None,
            unit: RadiationSensorUnit::MicroSievertsPerHour,
            value: double(0.15),
        }]),
        ..Default::default()
    };
    assert_eq!("{\"alpha\":[{\"unit\":\"µSv/h\",\"value\":0.15}]}", to_string(&sensors));
}

#[test]
fn temperature_test_template() {
    let template = TemperatureSensorTemplate {
        metadata: SensorMetadataWithLocation {
            location: "Main Room".into(),
            description: Some("Centre of main room on ground floor".into()),
            ..Default::default()
        },
        unit: "C".into(),
    };
    let mut sensors = Sensors::default();
    template.to_sensor("24.1".parse::<f64>().ok().map(double), &mut sensors);
    assert_eq!(
        "[{\"location\":\"Main Room\",\"description\":\"Centre of main room on ground floor\",\"unit\":\"C\",\"value\":24.1}]",
        to_string(&sensors.temperature)
    );
}

#[test]
fn wind_test_serialize() {
    let sensor = WindSensor::default();
    assert_eq!("{\"location\":\"\",\"properties\":{\"speed\":{\"unit\":\"\",\"value\":0.0},\"gust\":{\"unit\":\"\",\"value\":0.0},\"direction\":{\"unit\":\"\",\"value\":0.0},\"elevation\":{\"unit\":\"\",\"value\":0.0}}}", to_string(&sensor));
}

#[test]
fn serialize_deserialize_cache() {
    let a = Cache { schedule: "bla".into() };
    let b: Cache = from_str(&to_string(&a)).unwrap();
    assert_eq!(a.schedule, b.schedule);
}

#[test]
fn serialize_deserialize_simple_contact() {
    let a: Contact = Contact {
        keymasters: Some(vec![Keymaster {
            name: Some("Joe".into()),
            email: Some("joe@example.com".into()),
            ..Keymaster::default()
        }]),
        irc: Some("bla".into()),
        google: Some(GoogleContact { plus: Some("http://gplus/profile".into()) }),
        email: Some("bli@bla".into()),
        ..Default::default()
    };
    let b: Contact = from_str(&to_string(&a)).unwrap();
    assert_eq!(a, b);
}

#[test]
fn serialize_skip_none() {
    let f1 = Feed { type_: Some("rss".to_string()), url: "https://some/rss.xml".to_string() };
    let f2 = Feed { type_: None, url: "https://some/rss.xml".to_string() };
    assert_eq!(
        to_string(&f1),
        "{\"type\":\"rss\",\"url\":\"https://some/rss.xml\"}".to_string()
    );
    assert_eq!(to_string(&f2), "{\"url\":\"https://some/rss.xml\"}".to_string());
}

#[test]
fn serialize_deserialize_full() {
    let status = StatusBuilder::new("foo")
        .logo("bar")
        .url("foobar")
        .state(State { open: Some(false), ..State::default() })
        .location(Location::default())
        .contact(Contact::default())
        .add_extension("aaa", Value::Array(vec![Value::Null, Value::Number(Number::PosInt(42))]))
        .add_issue_report_channel(IssueReportChannel::Email)
        .build()
        .unwrap();
    let serialized = to_string(&status);
    let deserialized = from_str::<Status>(&serialized).unwrap();
    assert_eq!(status, deserialized);
}

#[test]
fn serialize_extension_fields_empty() {
    let status = complete().build();
    assert!(status.is_ok());
    assert_eq!(
        &to_string(&status.unwrap()),
        "{\"api\":\"0.13\",\"space\":\"a\",\"logo\":\"b\",\"url\":\"c\",\
         \"location\":{\"lat\":0.0,\"lon\":0.0},\"contact\":{},\"issue_report_channels\":[\"email\"],\
         \"state\":{\"open\":false}}"
    );
}

#[test]
fn serialize_extension_fields() {
    let status = complete()
        .add_extension("aaa", Value::String("xxx".into()))
        .add_extension("bbb", Value::Array(vec![Value::Null, Value::Number(Number::PosInt(42))]))
        .build();
    assert!(status.is_ok());
    assert_eq!(
        &to_string(&status.unwrap()),
        "{\"api\":\"0.13\",\"space\":\"a\",\"logo\":\"b\",\"url\":\"c\",\
         \"location\":{\"lat\":0.0,\"lon\":0.0},\"contact\":{},\"issue_report_channels\":[\"email\"],\
         \"state\":{\"open\":false},\"ext_aaa\":\"xxx\",\"ext_bbb\":[null,42]}"
    );
}

#[test]
fn serialize_deserialize_full_with_optional() {
    let mut status = StatusBuilder::new("foo")
        .logo("bar")
        .url("foobar")
        .state(State { open: Some(false), ..State::default() })
        .location(Location::default())
        .contact(Contact::default())
        .add_issue_report_channel(IssueReportChannel::Email)
        .build()
        .unwrap();
    status.spacefed = Some(Spacefed::default());
    status.feeds = Some(Feeds::default());
    status.projects = Some(vec![]);
    status.cam = Some(vec![]);

    let serialized = to_string(&status);
    let deserialized = from_str::<Status>(&serialized).unwrap();
    assert_eq!(status, deserialized);
}

#[test]
fn prepend_ext_to_extension_field_names() {
    let status = complete()
        .add_extension("aaa", Value::String("xxx".into()))
        .add_extension("ext_aaa", Value::String("yyy".into()))
        .add_extension("bbb", Value::Null)
        .add_extension("ext_ccc", Value::Null)
        .build();
    assert!(status.is_ok());
    let serialized = to_string(&status.unwrap());
    assert!(serialized.contains("\"ext_aaa\":\"yyy\""));
    assert!(serialized.contains("\"ext_bbb\":null"));
    assert!(serialized.contains("\"ext_ccc\":null"));
}

#[test]
fn deserialize_status() {
    let data = "{\"api\":\"0.13\",\"space\":\"a\",\"logo\":\"b\",\"url\":\"c\",\
                \"location\":{\"lat\":0.0,\"lon\":0.0},\"contact\":{},\"issue_report_channels\":[],\
                \"state\":{\"open\":null},\"ext_aaa\":\"xxx\",\"ext_bbb\":[null,42]}";
    let deserialized: Status = from_str(data).unwrap();
    assert_eq!(deserialized.api, Some("0.13".into()));
    let keys = deserialized.extensions.keys();
    assert_eq!(keys.len(), 2)
}

#[test]
fn serialize_issue_report_channel_email() {
    assert_eq!(to_string(&IssueReportChannel::Email), "\"email\"");
}

#[test]
fn serialize_issue_report_channel_issue_mail() {
    assert_eq!(to_string(&IssueReportChannel::IssueMail), "\"issue_mail\"");
}

#[test]
fn serialize_issue_report_channel_twitter() {
    assert_eq!(to_string(&IssueReportChannel::Twitter), "\"twitter\"");
}

#[test]
fn serialize_issue_report_channel_ml() {
    assert_eq!(to_string(&IssueReportChannel::Ml), "\"ml\"");
}

#[test]
fn serialize_stream_default() {
    assert_eq!(to_string(&Stream::default()), "{}");
}

#[test]
fn serialize_stream_m4() {
    let stream =
        Stream { m4: Some("http://example.org/stream.mpg".to_string()), ..Stream::default() };
    assert_eq!(to_string(&stream), r#"{"m4":"http://example.org/stream.mpg"}"#);
}

#[test]
fn serialize_stream_mjpeg() {
    let stream =
        Stream { mjpeg: Some("http://example.org/stream.mjpeg".to_string()), ..Stream::default() };
    assert_eq!(to_string(&stream), r#"{"mjpeg":"http://example.org/stream.mjpeg"}"#);
}

#[test]
fn serialize_stream_ustream() {
    let stream = Stream {
        ustream: Some("http://www.ustream.tv/channel/hackspsps".to_string()),
        ..Stream::default()
    };
    assert_eq!(to_string(&stream), r#"{"ustream":"http://www.ustream.tv/channel/hackspsps"}"#);
}

#[test]
fn deserialize_issue_report_channel_email() {
    assert_eq!(from_str::<IssueReportChannel>("\"email\""), Ok(IssueReportChannel::Email));
}

#[test]
fn deserialize_issue_report_channel_issue_mail() {
    assert_eq!(from_str::<IssueReportChannel>("\"issue_mail\""), Ok(IssueReportChannel::IssueMail));
}

#[test]
fn deserialize_issue_report_channel_twitter() {
    assert_eq!(from_str::<IssueReportChannel>("\"twitter\""), Ok(IssueReportChannel::Twitter));
}

#[test]
fn deserialize_issue_report_channel_ml() {
    assert_eq!(from_str::<IssueReportChannel>("\"ml\""), Ok(IssueReportChannel::Ml));
}

#[test]
fn v13_status_in_text() {
    let status = StatusBuilder::v0_13("foo")
        .logo("bar")
        .url("foobar")
        .location(Location::default())
        .contact(Contact::default())
        .state(State { open: Some(false), ..State::default() })
        .add_issue_report_channel(IssueReportChannel::Email)
        .build()
        .unwrap();
    let text = to_string(&status);
    assert!(text.contains("\"api\":\"0.13\""));
    assert!(text.contains("\"issue_report_channels\":[\"email\"]"));
    assert!(text.contains("\"state\":{\"open\":false}"));
    assert!(!text.contains("\"api_compatibility\""));
}

#[test]
fn v14_status_in_text() {
    let status = StatusBuilder::v14("foo")
        .logo("bar")
        .url("foobar")
        .location(Location::default())
        .contact(Contact::default())
        .add_link(Link { name: "wiki".into(), description: None, url: "https://wiki".into() })
        .build()
        .unwrap();
    let text = to_string(&status);
    assert!(text.contains("\"api_compatibility\":[\"14\"]"));
    assert!(!text.contains("\"api\""));
    assert!(text.contains("\"links\":[{\"name\":\"wiki\",\"url\":\"https://wiki\"}]"));
    assert_eq!(from_str::<Status>(&text), Ok(status));
}

#[test]
fn mixed_status_names_both_versions() {
    let status = StatusBuilder::mixed("coredump")
        .logo("https://www.coredump.ch/logo.png")
        .url("https://www.coredump.ch/")
        .location(Location {
            address: None,
            lat: double(47.22936),
            lon: double(8.82949),
            ..Default::default()
        })
        .contact(Contact {
            irc: Some("irc://freenode.net/#coredump".into()),
            twitter: Some("@coredump_ch".into()),
            foursquare: Some("525c20e5498e875d8231b1e5".into()),
            email: Some("danilo@coredump.ch".into()),
            ..Default::default()
        })
        .add_issue_report_channel(IssueReportChannel::Email)
        .add_issue_report_channel(IssueReportChannel::Twitter)
        .add_extension("ccc", Value::String("chaostreff".into()))
        .state(State::default())
        .build()
        .unwrap();
    assert_eq!(
        to_string(&status),
        "{\"api\":\"0.13\",\"api_compatibility\":[\"14\"],\"space\":\"coredump\",\
         \"logo\":\"https://www.coredump.ch/logo.png\",\"url\":\"https://www.coredump.ch/\",\
         \"location\":{\"lat\":47.22936,\"lon\":8.82949},\
         \"contact\":{\"irc\":\"irc://freenode.net/#coredump\",\"twitter\":\"@coredump_ch\",\
         \"foursquare\":\"525c20e5498e875d8231b1e5\",\"email\":\"danilo@coredump.ch\"},\
         \"issue_report_channels\":[\"email\",\"twitter\"],\"state\":{\"open\":null},\
         \"ext_ccc\":\"chaostreff\"}"
    );
    assert_eq!(from_str::<Status>(&to_string(&status)), Ok(status));
}

#[test]
fn deserialize_location() {
    let location: Location = from_str("{\"lat\":47.22936,\"lon\":8.82949}").unwrap();
    assert_eq!(
        location,
        Location { address: None, lat: double(47.22936), lon: double(8.82949), timezone: None }
    );
}

#[test]
fn whole_numbers_are_read_as_doubles() {
    let location: Location = from_str("{\"lat\":47,\"lon\":-8}").unwrap();
    assert_eq!(location.lat, double(47.0));
    assert_eq!(location.lon, double(-8.0));
    assert_eq!(to_string(&location), "{\"lat\":47.0,\"lon\":-8.0}");
}

#[test]
fn deserialize_v14_status() {
    let text = r#"{"api_compatibility":["14"],"space":"coredump","logo":"https://www.coredump.ch/logo.png","url":"https://www.coredump.ch/","location":{"lat":47.22936,"lon":8.82949},"contact":{"irc":"irc://freenode.net/#coredump","twitter":"@coredump_ch","foursquare":"525c20e5498e875d8231b1e5","email":"danilo@coredump.ch"},"ext_ccc":"chaostreff"}"#;
    let status: Status = from_str(text).unwrap();
    assert_eq!(status.api, None);
    assert_eq!(status.api_compatibility, Some(vec![ApiVersion::V14]));
    assert_eq!(status.issue_report_channels, vec![]);
    assert_eq!(status.state, None);
    assert_eq!(status.extensions.get("ccc"), Some(&Value::String("chaostreff".into())));
    assert_eq!(to_string(&status), text);
}

#[test]
fn unset_fields_are_left_out_and_an_unknown_state_is_null() {
    assert_eq!(to_string(&State::default()), "{\"open\":null}");
    assert_eq!(to_string(&State { open: Some(true), ..State::default() }), "{\"open\":true}");
    assert_eq!(to_string(&Contact::default()), "{}");
    assert_eq!(to_string(&Keymaster::default()), "{}");
    assert_eq!(to_string(&Spacefed::default()), "{\"spacenet\":false,\"spacesaml\":false}");
    assert_eq!(to_string(&Sensors::default()), "{}");
    assert_eq!(from_str::<State>("{}"), Ok(State::default()));
    assert_eq!(from_str::<State>("{\"open\":null,\"message\":null}"), Ok(State::default()));
}

#[test]
fn decode_errors() {
    assert_eq!(from_str::<Location>("{\"lon\":1.0}"), Err(DecodeError::MissingField("lat")));
    assert_eq!(from_str::<Location>("{\"lat\":1.0}"), Err(DecodeError::MissingField("lon")));
    assert_eq!(from_str::<Location>("{\"lat\":\"1\",\"lon\":1}"), Err(DecodeError::InvalidType));
    assert_eq!(from_str::<Location>("{\"lat\":null,\"lon\":1}"), Err(DecodeError::InvalidType));
    assert_eq!(from_str::<Location>("[1.0,2.0]"), Err(DecodeError::InvalidType));
    assert_eq!(from_str::<State>("{\"lastchange\":-1}"), Err(DecodeError::InvalidType));
    assert_eq!(from_str::<State>("{\"lastchange\":1.5}"), Err(DecodeError::InvalidType));
    assert_eq!(from_str::<IssueReportChannel>("\"fax\""), Err(DecodeError::UnknownVariant));
    assert_eq!(from_str::<IssueReportChannel>("1"), Err(DecodeError::InvalidType));
    assert_eq!(
        from_str::<Contact>("{\"keymasters\":[{\"name\":\"Joe\"},{\"name\":7}]}"),
        Err(DecodeError::InvalidType)
    );
    let text = "{\"space\":\"a\",\"logo\":\"b\",\"url\":\"c\",\
                \"location\":{\"lat\":0.0,\"lon\":0.0},\"contact\":{},\"colour\":\"red\"}";
    assert_eq!(from_str::<Status>(text), Err(DecodeError::UnknownField));
    let text = "{\"space\":\"a\",\"logo\":\"b\",\"location\":{\"lat\":0.0,\"lon\":0.0},\
                \"contact\":{},\"colour\":\"red\"}";
    assert_eq!(from_str::<Status>(text), Err(DecodeError::MissingField("url")));
}

#[test]
fn unknown_fields_of_nested_records_are_passed_over() {
    assert_eq!(
        from_str::<Cache>("{\"schedule\":\"m.02\",\"colour\":\"red\"}"),
        Ok(Cache { schedule: "m.02".into() })
    );
}

#[test]
fn numbers_that_are_not_finite_are_written_as_null() {
    let location =
        Location { lat: double(f64::NAN), lon: double(f64::INFINITY), ..Location::default() };
    assert_eq!(to_string(&location), "{\"lat\":null,\"lon\":null}");
    assert_eq!(from_str::<Location>(&to_string(&location)), Err(DecodeError::InvalidType));
}

#[test]
fn an_extension_that_is_set_twice_is_written_once() {
    let status = complete()
        .add_extension("aaa", Value::String("xxx".into()))
        .add_extension("ext_aaa", Value::String("yyy".into()))
        .build()
        .unwrap();
    let text = to_string(&status);
    assert_eq!(text.matches("\"ext_aaa\"").count(), 1);
    assert_eq!(text.matches("ext_").count(), 1);
    assert!(text.ends_with(",\"ext_aaa\":\"yyy\"}"));
    assert_eq!(status.extensions.len(), 1);
}

#[test]
fn custom_fields_that_come_twice_hold_what_came_last() {
    let value = Value::Object(vec![
        ("space".to_string(), Value::String("a".into())),
        ("logo".to_string(), Value::String("b".into())),
        ("url".to_string(), Value::String("c".into())),
        ("location".to_string(), Location::default().to_value()),
        ("contact".to_string(), Contact::default().to_value()),
        ("ext_x".to_string(), Value::Bool(false)),
        ("ext_y".to_string(), Value::Null),
        ("ext_x".to_string(), Value::Bool(true)),
    ]);
    let status = Status::from_value(&value).unwrap();
    assert_eq!(status.extensions.keys(), vec!["x".to_string(), "y".to_string()]);
    assert_eq!(status.extensions.get("x"), Some(&Value::Bool(true)));
}

#[test]
fn custom_fields_are_written_in_the_order_of_their_names() {
    let text = "{\"space\":\"a\",\"logo\":\"b\",\"url\":\"c\",\
                \"location\":{\"lat\":0.0,\"lon\":0.0},\"contact\":{},\
                \"ext_b\":2,\"ext_a\":1,\"ext_µ\":4,\"ext_B\":3}";
    let status: Status = from_str(text).unwrap();
    assert!(to_string(&status).ends_with(",\"ext_B\":3,\"ext_a\":1,\"ext_b\":2,\"ext_µ\":4}"));
    assert_eq!(from_str::<Status>(&to_string(&status)), Ok(status));
}

fn metadata() -> SensorMetadata {
    SensorMetadata { name: Some("n".into()), location: None, description: Some("d".into()) }
}

fn located() -> SensorMetadataWithLocation {
    SensorMetadataWithLocation { name: None, location: "roof".into(), description: None }
}

/// A status in which every field of the schema is set.
fn full_status() -> Status {
    let measurement = |unit: &str, value: f64| WindSensorMeasurement {
        unit: unit.into(),
        value: double(value),
    };
    let keymaster = Keymaster {
        name: Some("Joe".into()),
        irc_nick: Some("joe".into()),
        phone: Some("+41 0".into()),
        email: Some("joe@example.com".into()),
        twitter: Some("@joe".into()),
        xmpp: Some("joe@xmpp".into()),
        mastodon: Some("@joe@social".into()),
    };
    let mut extensions = Extensions::new();
    extensions.set("zzz", Value::Number(Number::NegInt(-1)));
    extensions.set(
        "aaa",
        Value::Object(vec![
            ("k".to_string(), Value::Array(vec![Value::Bool(true), Value::Null])),
            ("f".to_string(), Value::Number(Number::Float(double(0.5)))),
        ]),
    );
    Status {
        api: Some("0.13".into()),
        api_compatibility: Some(vec![ApiVersion::V14]),
        space: "space \"quoted\" µ".into(),
        logo: "logo".into(),
        url: "url".into(),
        location: Location {
            address: Some("Street 1".into()),
            lat: double(47.22936),
            lon: double(-8.82949),
            timezone: Some("Europe/Zurich".into()),
        },
        contact: Contact {
            phone: Some("1".into()),
            sip: Some("2".into()),
            keymasters: Some(vec![keymaster, Keymaster::default()]),
            irc: Some("3".into()),
            twitter: Some("4".into()),
            facebook: Some("5".into()),
            google: Some(GoogleContact { plus: Some("6".into()) }),
            identica: Some("7".into()),
            foursquare: Some("8".into()),
            email: Some("9".into()),
            ml: Some("10".into()),
            jabber: Some("11".into()),
            xmpp: Some("12".into()),
            issue_mail: Some("13".into()),
            mumble: Some("14".into()),
            matrix: Some("15".into()),
            mastodon: Some("16".into()),
            gopher: Some("17".into()),
        },
        spacefed: Some(Spacefed { spacenet: true, spacesaml: false, spacephone: Some(true) }),
        projects: Some(vec!["p1".into(), "p2".into()]),
        cam: Some(vec!["c1".into()]),
        stream: Some(Stream { m4: Some("m4".into()), mjpeg: None, ustream: Some("u".into()) }),
        feeds: Some(Feeds {
            blog: Some(Feed { type_: Some("rss".into()), url: "blog".into() }),
            wiki: None,
            calendar: Some(Feed { type_: None, url: "cal".into() }),
            flickr: None,
        }),
        events: Some(vec![Event {
            name: "Ann".into(),
            type_: "check-in".into(),
            timestamp: 1400000000,
            extra: Some("x".into()),
        }]),
        radio_show: Some(vec![RadioShow {
            name: "show".into(),
            url: "u".into(),
            type_: "mp3".into(),
            start: "s".into(),
            end: "e".into(),
        }]),
        links: Some(vec![Link { name: "l".into(), description: Some("d".into()), url: "u".into() }]),
        membership_plans: Some(vec![MembershipPlan {
            name: "std".into(),
            value: double(20.5),
            currency: "CHF".into(),
            billing_interval: BillingInterval::Yearly,
            description: None,
        }]),
        cache: Some(Cache { schedule: "m.02".into() }),
        issue_report_channels: vec![IssueReportChannel::Ml, IssueReportChannel::IssueMail],
        state: Some(State {
            open: Some(true),
            lastchange: Some(u64::MAX),
            trigger_person: Some("Ann".into()),
            message: Some("hi".into()),
            icon: Some(Icon { open: "o".into(), closed: "c".into() }),
        }),
        sensors: Some(Sensors {
            temperature: vec![TemperatureSensor {
                metadata: located(),
                unit: "C".into(),
                value: double(-3.25),
            }],
            door_locked: vec![DoorLockedSensor { metadata: located(), value: true }],
            barometer: vec![BarometerSensor {
                metadata: located(),
                unit: "hPa".into(),
                value: double(1013.0),
            }],
            radiation: Some(RadiationSensors {
                alpha: Some(vec![]),
                beta: None,
                gamma: Some(vec![RadiationSensor {
                    metadata: metadata(),
                    dead_time: Some(double(1e-4)),
                    conversion_factor: Some(double(0.0057)),
                    unit: RadiationSensorUnit::CountsPerMinute,
                    value: double(17.0),
                }]),
                beta_gamma: None,
            }),
            humidity: vec![HumiditySensor {
                metadata: located(),
                unit: "%".into(),
                value: double(40.0),
            }],
            beverage_supply: vec![BeverageSupplySensor {
                metadata: metadata(),
                unit: "btl".into(),
                value: 12,
            }],
            power_consumption: vec![PowerConsumptionSensor {
                metadata: located(),
                unit: "W".into(),
                value: double(230.0),
            }],
            wind: vec![WindSensor {
                metadata: located(),
                properties: WindSensorProperties {
                    speed: measurement("m/s", 1.5),
                    gust: measurement("m/s", 3.0),
                    direction: measurement("°", 270.0),
                    elevation: measurement("m", 400.0),
                },
            }],
            network_connections: vec![NetworkConnectionsSensor {
                metadata: metadata(),
                machines: Some(vec![NetworkConnectionMachine {
                    name: Some("pc".into()),
                    mac: "00:00".into(),
                }]),
                kind: Some(NetworkConnectionKind::Spacenet),
                value: 1,
            }],
            account_balance: vec![AccountBalanceSensor {
                metadata: metadata(),
                unit: "EUR".into(),
                value: double(-0.0),
            }],
            total_member_count: vec![TotalMemberCountSensor { metadata: metadata(), value: 0 }],
            people_now_present: vec![PeopleNowPresentSensor {
                metadata: metadata(),
                names: Some(vec!["Ann".into(), "Bob".into()]),
                value: 2,
            }],
            network_traffic: vec![NetworkTrafficSensor {
                metadata: metadata(),
                properties: NetworkTrafficSensorProperties {
                    bits_per_second: Some(NetworkTrafficBitsPerSecond {
                        value: double(1e9),
                        maximum: Some(double(1e10)),
                    }),
                    packets_per_second: Some(NetworkTrafficPacketsPerSecond {
                        value: double(12.0),
                    }),
                },
            }],
        }),
        extensions,
    }
}

#[test]
fn a_status_is_read_back_from_its_tree_and_from_its_text() {
    let status = full_status();
    let tree = status.to_value();
    assert_eq!(Status::from_value(&tree), Ok(status.clone()));
    assert_eq!(from_json(&to_json(&tree)), tree);
    let text = to_string(&status);
    assert_eq!(from_str::<Status>(&text), Ok(status.clone()));
    assert_eq!(to_string(&from_str::<Status>(&text).unwrap()), text);
    assert!(text.ends_with(",\"ext_aaa\":{\"k\":[true,null],\"f\":0.5},\"ext_zzz\":-1}"));
    assert_eq!(status.clone(), status);
}

#[test]
fn the_fields_of_a_status_stand_in_their_order() {
    let keys = match full_status().to_value() {
        Value::Object(fields) => fields.into_iter().map(|(k, _)| k).collect::<Vec<_>>(),
        _ => unreachable!(),
    };
    assert_eq!(
        keys,
        vec![
            "api",
            "api_compatibility",
            "space",
            "logo",
            "url",
            "location",
            "contact",
            "spacefed",
            "projects",
            "cam",
            "stream",
            "feeds",
            "events",
            "radio_show",
            "links",
            "membership_plans",
            "cache",
            "issue_report_channels",
            "state",
            "sensors",
            "ext_aaa",
            "ext_zzz",
        ]
    );
}

#[test]
fn a_status_that_was_built_is_read_back() {
    for status in [
        complete().build().unwrap(),
        StatusBuilder::v14("a")
            .logo("b")
            .url("c")
            .location(Location::default())
            .contact(Contact::default())
            .add_extension("ext_x", Value::Bool(true))
            .build()
            .unwrap(),
        StatusBuilder::mixed("a")
            .logo("b")
            .url("c")
            .location(Location { lat: double(1.0), lon: double(2.0), ..Location::default() })
            .contact(Contact { jabber: Some("j".into()), ..Contact::default() })
            .state(State::default())
            .add_issue_report_channel(IssueReportChannel::Twitter)
            .add_cam("cam")
            .build()
            .unwrap(),
    ] {
        assert_eq!(Status::from_value(&status.to_value()), Ok(status.clone()));
        assert_eq!(from_str::<Status>(&to_string(&status)), Ok(status));
    }
}

#[test]
fn fields_of_flattened_metadata_stand_beside_the_others() {
    let sensor = TemperatureSensorTemplate { metadata: located(), unit: "C".into() };
    let mut sensors = Sensors::default();
    sensor.to_sensor(Some(double(1.0)), &mut sensors);
    assert_eq!(
        to_string(&sensors),
        "{\"temperature\":[{\"location\":\"roof\",\"unit\":\"C\",\"value\":1.0}]}"
    );
    assert_eq!(from_str::<Sensors>(&to_string(&sensors)), Ok(sensors));
    assert_eq!(
        from_str::<Sensors>("{\"temperature\":[{\"unit\":\"C\",\"value\":1.0}]}"),
        Err(DecodeError::MissingField("location"))
    );
}
