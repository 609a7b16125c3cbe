use spaceapi::codec::find;
use spaceapi::extensions::bare_name;
use spaceapi::optional::Optional;
use spaceapi::sensors::RadiationSensorUnit;
use spaceapi::status::has_ext_prefix;
use spaceapi::utils;
use spaceapi::{
    ApiVersion, BillingInterval, Codec, DecodeError, Extensions, IssueReportChannel, Number,
    Status, StatusBuilderVersion, Value,
};

fn tree() -> Value {
    Value::Object(vec![
        ("a".to_string(), Value::Array(vec![Value::Null, Value::Bool(true)])),
        ("b".to_string(), Value::Number(Number::NegInt(-3))),
        ("a".to_string(), Value::String("again".into())),
        ("c".to_string(), Value::Object(vec![("d".to_string(), Value::Null)])),
    ])
}

#[test]
fn a_copy_of_a_tree_is_the_same_tree() {
    assert_eq!(tree().clone(), tree());
    assert_eq!(Value::Null.clone(), Value::Null);
}

#[test]
fn the_first_field_of_a_key_is_found() {
    let value = tree();
    let fields = match &value {
        Value::Object(fields) => fields,
        _ => unreachable!(),
    };
    assert_eq!(find(fields, "a"), Some(&Value::Array(vec![Value::Null, Value::Bool(true)])));
    assert_eq!(find(fields, "b"), Some(&Value::Number(Number::NegInt(-3))));
    assert_eq!(find(fields, "d"), None);
    assert_eq!(find(fields, ""), None);
}

#[test]
fn plain_values_in_trees() {
    assert_eq!("x".to_string().to_value(), Value::String("x".into()));
    assert_eq!(7u64.to_value(), Value::Number(Number::PosInt(7)));
    assert_eq!(true.to_value(), Value::Bool(true));
    assert_eq!(
        vec!["a".to_string(), "b".to_string()].to_value(),
        Value::Array(vec![Value::String("a".into()), Value::String("b".into())])
    );
    assert_eq!(String::from_value(&Value::String("x".into())), Ok("x".to_string()));
    assert_eq!(String::from_value(&Value::Null), Err(DecodeError::InvalidType));
    assert_eq!(u64::from_value(&Value::Number(Number::PosInt(7))), Ok(7));
    assert_eq!(u64::from_value(&Value::Number(Number::NegInt(-7))), Err(DecodeError::InvalidType));
    assert_eq!(bool::from_value(&Value::Bool(false)), Ok(false));
    assert_eq!(bool::from_value(&Value::String("false".into())), Err(DecodeError::InvalidType));
    assert_eq!(
        Vec::<u64>::from_value(&Value::Array(vec![
            Value::Number(Number::PosInt(1)),
            Value::Number(Number::PosInt(2))
        ])),
        Ok(vec![1, 2])
    );
    assert_eq!(
        Vec::<u64>::from_value(&Value::Array(vec![
            Value::Number(Number::PosInt(1)),
            Value::Bool(true),
            Value::Null
        ])),
        Err(DecodeError::InvalidType)
    );
    assert_eq!(Vec::<u64>::from_value(&Value::Null), Err(DecodeError::InvalidType));
}

#[test]
fn enumerations_have_their_names() {
    let channels = [
        (IssueReportChannel::Email, "email"),
        (IssueReportChannel::IssueMail, "issue_mail"),
        (IssueReportChannel::Twitter, "twitter"),
        (IssueReportChannel::Ml, "ml"),
    ];
    for (channel, name) in channels {
        assert_eq!(channel.as_str(), name);
        assert_eq!(IssueReportChannel::from_name(name), Some(channel));
    }
    assert_eq!(IssueReportChannel::from_name("Email"), None);
    let intervals = [
        (BillingInterval::Yearly, "yearly"),
        (BillingInterval::Monthly, "monthly"),
        (BillingInterval::Weekly, "weekly"),
        (BillingInterval::Daily, "daily"),
        (BillingInterval::Hourly, "hourly"),
        (BillingInterval::Other, "other"),
    ];
    for (interval, name) in intervals {
        assert_eq!(interval.to_value(), Value::String(name.into()));
        assert_eq!(BillingInterval::from_value(&Value::String(name.into())), Ok(interval));
    }
    assert_eq!(BillingInterval::default(), BillingInterval::Monthly);
    assert_eq!(ApiVersion::V14.as_str(), "14");
    assert_eq!(ApiVersion::from_name("14"), Some(ApiVersion::V14));
    assert_eq!(ApiVersion::from_name("13"), None);
    let units = [
        (RadiationSensorUnit::CountsPerMinute, "cpm"),
        (RadiationSensorUnit::RadsPerHour, "r/h"),
        (RadiationSensorUnit::MicroSievertsPerHour, "µSv/h"),
        (RadiationSensorUnit::MicroSievertsPerYear, "µSv/a"),
        (RadiationSensorUnit::MilliSievertsPerYear, "mSv/h"),
    ];
    for (unit, name) in units {
        assert_eq!(unit.as_str(), name);
        assert_eq!(RadiationSensorUnit::from_name(name), Some(unit));
    }
    assert_eq!(StatusBuilderVersion::default(), StatusBuilderVersion::V0_13);
}

#[test]
fn custom_fields_keep_their_names_single() {
    let mut extensions = Extensions::new();
    assert!(extensions.is_empty());
    extensions.set("foo", Value::Bool(false));
    extensions.set("bar", Value::Null);
    extensions.set("ext_foo", Value::Bool(true));
    extensions.set("ext_ext_foo", Value::Null);
    extensions.names_are_sorted();
    assert_eq!(extensions.len(), 3);
    assert!(!extensions.is_empty());
    assert_eq!(
        extensions.keys(),
        vec!["bar".to_string(), "ext_foo".to_string(), "foo".to_string()]
    );
    assert_eq!(extensions.get("foo"), Some(&Value::Bool(true)));
    assert_eq!(extensions.get("ext_foo"), Some(&Value::Bool(true)));
    assert_eq!(extensions.get("ext_ext_foo"), Some(&Value::Null));
    assert_eq!(extensions.get("ext_bar"), Some(&Value::Null));
    assert_eq!(extensions.get("baz"), None);
    assert_eq!(extensions.clone(), extensions);
    assert_eq!(Extensions::default(), Extensions::new());
    let mut fields = vec![("space".to_string(), Value::Null)];
    extensions.put_fields(&mut fields);
    let keys: Vec<&str> = fields.iter().map(|(k, _)| k.as_str()).collect();
    assert_eq!(keys, vec!["space", "ext_bar", "ext_ext_foo", "ext_foo"]);
    assert_eq!(fields[3].1, Value::Bool(true));
}

#[test]
fn the_prefix_of_custom_fields() {
    assert_eq!(bare_name("ext_foo"), "foo");
    assert_eq!(bare_name("foo"), "foo");
    assert_eq!(bare_name("ext_"), "");
    assert_eq!(bare_name("ext"), "ext");
    assert_eq!(bare_name("ext_ext_foo"), "ext_foo");
    assert_eq!(bare_name("Ext_foo"), "Ext_foo");
    assert_eq!(bare_name("ext_µ"), "µ");
    assert!(has_ext_prefix("ext_"));
    assert!(has_ext_prefix("ext_a"));
    assert!(!has_ext_prefix("ext"));
    assert!(!has_ext_prefix("events"));
    assert!(!has_ext_prefix(""));
    assert!(Status::is_known("issue_report_channels"));
    assert!(Status::is_known("api"));
    assert!(!Status::is_known("extensions"));
    assert!(!Status::is_known("ext_api"));
}

#[test]
fn optional_values() {
    let k = 10;
    assert_eq!(Optional::Value("air").unwrap(), "air");
    assert_eq!(Optional::Value("car").unwrap_or("bike"), "car");
    assert_eq!(Optional::Absent.unwrap_or("bike"), "bike");
    assert_eq!(Optional::Value(4).unwrap_or_else(|| 2 * k), 4);
    assert_eq!(Optional::Absent.unwrap_or_else(|| 2 * k), 20);
    assert_eq!(Optional::Value("10".to_string()).map(|n| n.len()), Optional::Value(2));
    assert_eq!(Optional::<String>::Absent.map(|n| n.len()), Optional::Absent);
    assert_eq!(Optional::Value(3).map_or(7, |x| x * 2), 6);
    assert_eq!(Optional::<u32>::Absent.map_or(7, |x| x * 2), 7);
    fn sq(x: u32) -> Optional<u32> {
        Optional::Value(x * x)
    }
    fn nope(_: u32) -> Optional<u32> {
        Optional::Absent
    }
    assert_eq!(Optional::Value(2).and_then(sq).and_then(sq), Optional::Value(16));
    assert_eq!(Optional::Value(2).and_then(sq).and_then(nope), Optional::Absent);
    assert_eq!(Optional::Value(2).and_then(nope).and_then(sq), Optional::Absent);
    assert_eq!(Optional::Absent.and_then(sq).and_then(sq), Optional::Absent);
    let x: Optional<u32> = Optional::Value(2);
    assert_eq!(x.is_absent(), false);
    assert_eq!(x.as_ref(), Optional::Value(&2));
    let x: Optional<u32> = Optional::Absent;
    assert_eq!(x.is_absent(), true);
    assert_eq!(x.as_ref(), Optional::Absent);
    let mut x = Optional::Value(2);
    if let Optional::Value(v) = x.as_mut() {
        *v = 42;
    }
    assert_eq!(x, Optional::Value(42));
    let mut x: Optional<u32> = Optional::Absent;
    assert_eq!(x.as_mut(), Optional::Absent);
    let x: Optional<u32> = Optional::Value(2);
    assert_eq!(Some(2), x.into());
    let x: Optional<u32> = Optional::Absent;
    assert_eq!(None::<u32>, x.into());
    let same: utils::Optional<u8> = Optional::Value(1);
    assert_eq!(same, Optional::Value(1));
}
