use spaceapi::sensors::{
    AccountBalanceSensor, AccountBalanceSensorTemplate, BarometerSensorTemplate,
    BeverageSupplySensor, BeverageSupplySensorTemplate, DoorLockedSensor,
    DoorLockedSensorTemplate, FromSensorTemplate, HumiditySensorTemplate, LocalisedSensorMetadata,
    NetworkConnectionKind, NetworkConnectionsSensor, NetworkConnectionsSensorTemplate,
    PeopleNowPresentSensor, PeopleNowPresentSensorTemplate, PowerConsumptionSensorTemplate,
    SensorMetadata, SensorMetadataWithLocation, SensorTemplate, SensorTemplateError, Sensors,
    TemperatureSensor, TemperatureSensorTemplate, TotalMemberCountSensor,
    TotalMemberCountSensorTemplate,
};
use spaceapi::Double;

fn double(x: f64) -> Double {
    Double::from_bits(x.to_bits())
}

fn reading(text: &str) -> Option<Double> {
    text.parse::<f64>().ok().map(double)
}

fn main_room() -> SensorMetadataWithLocation {
    SensorMetadataWithLocation {
        location: "Main Room".into(),
        description: Some("Centre of main room on ground floor".into()),
        ..Default::default()
    }
}

#[test]
fn test_template_bad_integer() {
    let template =
        PeopleNowPresentSensorTemplate { metadata: SensorMetadata::default(), names: None };
    let mut sensors = Sensors::default();
    let result = template.try_to_sensor("two", &mut sensors);
    assert!(result.is_err());
    assert_eq!("sensor integer value cannot be parsed", result.err().unwrap().to_string());
}

#[test]
fn test_template_bad_float() {
    let template = TemperatureSensorTemplate { metadata: main_room(), unit: "C".into() };
    let mut sensors = Sensors::default();
    let result = template.try_to_sensor(reading("twenty four point one"), &mut sensors);
    assert!(result.is_err());
    assert_eq!("sensor float value cannot be parsed", result.err().unwrap().to_string());
}

#[test]
fn template_bad_bool() {
    let template = DoorLockedSensorTemplate { metadata: main_room() };
    let mut sensors = Sensors::default();
    let result = template.try_to_sensor("yes", &mut sensors);
    assert_eq!(result, Err(SensorTemplateError::BadBool));
    assert_eq!("sensor boolean value cannot be parsed", result.err().unwrap().to_string());
    assert_eq!(sensors, Sensors::default());
}

#[test]
fn a_reading_that_cannot_be_read_is_passed_over() {
    let people =
        PeopleNowPresentSensorTemplate { metadata: SensorMetadata::default(), names: None };
    let temperature = TemperatureSensorTemplate { metadata: main_room(), unit: "C".into() };
    let mut sensors = Sensors::default();
    people.to_sensor("3", &mut sensors);
    people.to_sensor("three", &mut sensors);
    people.to_sensor("-3", &mut sensors);
    people.to_sensor("4", &mut sensors);
    temperature.to_sensor(reading("warm"), &mut sensors);
    temperature.to_sensor(reading("21.5"), &mut sensors);
    let values: Vec<u64> = sensors.people_now_present.iter().map(|s| s.value).collect();
    assert_eq!(values, vec![3, 4]);
    assert_eq!(
        sensors.temperature,
        vec![TemperatureSensor { metadata: main_room(), unit: "C".into(), value: double(21.5) }]
    );
    assert_eq!(
        sensors,
        Sensors {
            people_now_present: sensors.people_now_present.clone(),
            temperature: sensors.temperature.clone(),
            ..Sensors::default()
        }
    );
}

#[test]
fn templates_hand_their_fields_on() {
    let metadata = SensorMetadata {
        name: Some("fridge".into()),
        location: Some("kitchen".into()),
        description: None,
    };
    assert_eq!(
        BeverageSupplySensor::try_from_template(
            &BeverageSupplySensorTemplate { metadata: metadata.clone(), unit: "btl".into() },
            "12"
        ),
        Ok(BeverageSupplySensor { metadata: metadata.clone(), unit: "btl".into(), value: 12 })
    );
    assert_eq!(
        TotalMemberCountSensor::try_from_template(
            &TotalMemberCountSensorTemplate { metadata: metadata.clone() },
            "+42"
        ),
        Ok(TotalMemberCountSensor { metadata: metadata.clone(), value: 42 })
    );
    assert_eq!(
        NetworkConnectionsSensor::try_from_template(
            &NetworkConnectionsSensorTemplate {
                metadata: metadata.clone(),
                kind: Some(NetworkConnectionKind::Wifi)
            },
            "7"
        ),
        Ok(NetworkConnectionsSensor {
            metadata: metadata.clone(),
            machines: None,
            kind: Some(NetworkConnectionKind::Wifi),
            value: 7
        })
    );
    // The names of a presence template are not handed on.
    assert_eq!(
        PeopleNowPresentSensor::try_from_template(
            &PeopleNowPresentSensorTemplate {
                metadata: metadata.clone(),
                names: Some(vec!["Ann".into()])
            },
            "1"
        ),
        Ok(PeopleNowPresentSensor { metadata: metadata.clone(), names: None, value: 1 })
    );
    assert_eq!(
        DoorLockedSensor::try_from_template(
            &DoorLockedSensorTemplate { metadata: main_room() },
            "true"
        ),
        Ok(DoorLockedSensor { metadata: main_room(), value: true })
    );
    assert_eq!(
        AccountBalanceSensor::try_from_template(
            &AccountBalanceSensorTemplate { metadata: metadata.clone(), unit: "EUR".into() },
            reading("-12.5")
        ),
        Ok(AccountBalanceSensor { metadata, unit: "EUR".into(), value: double(-12.5) })
    );
}

#[test]
fn every_template_adds_to_the_sensors_of_its_kind() {
    let mut sensors = Sensors::default();
    let metadata = SensorMetadata::default();
    TemperatureSensorTemplate { metadata: main_room(), unit: "C".into() }
        .to_sensor(reading("1"), &mut sensors);
    BarometerSensorTemplate { metadata: main_room(), unit: "hPa".into() }
        .to_sensor(reading("1013.25"), &mut sensors);
    HumiditySensorTemplate { metadata: main_room(), unit: "%".into() }
        .to_sensor(reading("40"), &mut sensors);
    PowerConsumptionSensorTemplate { metadata: main_room(), unit: "W".into() }
        .to_sensor(reading("230.0"), &mut sensors);
    AccountBalanceSensorTemplate { metadata: metadata.clone(), unit: "EUR".into() }
        .to_sensor(reading("0.5"), &mut sensors);
    DoorLockedSensorTemplate { metadata: main_room() }.to_sensor("false", &mut sensors);
    BeverageSupplySensorTemplate { metadata: metadata.clone(), unit: "btl".into() }
        .to_sensor("3", &mut sensors);
    NetworkConnectionsSensorTemplate { metadata: metadata.clone(), kind: None }
        .to_sensor("4", &mut sensors);
    TotalMemberCountSensorTemplate { metadata: metadata.clone() }.to_sensor("5", &mut sensors);
    PeopleNowPresentSensorTemplate { metadata, names: None }.to_sensor("6", &mut sensors);
    assert_eq!(sensors.temperature.len(), 1);
    assert_eq!(sensors.barometer[0].value, double(1013.25));
    assert_eq!(sensors.humidity[0].unit, "%");
    assert_eq!(sensors.power_consumption[0].value, double(230.0));
    assert_eq!(sensors.account_balance[0].value, double(0.5));
    assert_eq!(sensors.door_locked[0].value, false);
    assert_eq!(sensors.beverage_supply[0].value, 3);
    assert_eq!(sensors.network_connections[0].value, 4);
    assert_eq!(sensors.total_member_count[0].value, 5);
    assert_eq!(sensors.people_now_present[0].value, 6);
    assert_eq!(sensors.wind, vec![]);
    assert_eq!(sensors.network_traffic, vec![]);
    assert_eq!(sensors.radiation, None);
}

#[test]
fn metadata_with_a_location() {
    let metadata = SensorMetadata {
        name: Some("n".into()),
        location: Some("roof".into()),
        description: Some("d".into()),
    };
    let localised: LocalisedSensorMetadata = metadata.try_into().unwrap();
    assert_eq!(
        localised,
        SensorMetadataWithLocation {
            name: Some("n".into()),
            location: "roof".into(),
            description: Some("d".into())
        }
    );
    assert_eq!(
        SensorMetadata::default().try_into(),
        Err("No location specified when one is required")
    );
}

#[test]
fn sensor_template_errors_have_their_messages() {
    assert_eq!(
        SensorTemplateError::BadInteger.to_string(),
        "sensor integer value cannot be parsed"
    );
    assert_eq!(SensorTemplateError::BadFloat.to_string(), "sensor float value cannot be parsed");
    assert_eq!(SensorTemplateError::BadBool.to_string(), "sensor boolean value cannot be parsed");
}

#[test]
fn a_presence_template_is_a_sensor_that_has_counted_no_one() {
    let metadata =
        SensorMetadata { name: Some("door".into()), location: None, description: None };
    let template =
        PeopleNowPresentSensorTemplate { metadata: metadata.clone(), names: Some(vec![]) };
    let sensor: PeopleNowPresentSensor = template.into();
    assert_eq!(sensor, PeopleNowPresentSensor { metadata, names: None, value: 0 });
}
