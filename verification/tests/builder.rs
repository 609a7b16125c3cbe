use spaceapi::{
    ApiVersion, Contact, Event, Feeds, GoogleContact, IssueReportChannel, Link, Location,
    MembershipPlan, RadioShow, Spacefed, State, Status, StatusBuilder, StatusBuilderVersion, Value,
    Violation,
};

/// A builder under version 0.13 in which all that the version asks for is set.
fn complete_v13() -> StatusBuilder {
    StatusBuilder::v0_13("foo")
        .logo("bar")
        .url("foobar")
        .location(Location::default())
        .contact(Contact::default())
        .state(State { open: Some(false), ..State::default() })
        .add_issue_report_channel(IssueReportChannel::Email)
}

/// A builder under version 0.14 in which all that the version asks for is set.
fn complete_v14() -> StatusBuilder {
    StatusBuilder::v14("foo")
        .logo("bar")
        .url("foobar")
        .location(Location::default())
        .contact(Contact::default())
}

#[test]
fn test_builder_v13_fail_on_location_timezone() {
    let status = StatusBuilder::v0_13("foo")
        .logo("bar")
        .url("foobar")
        .location(Location { timezone: Some("Europe/London".into()), ..Default::default() })
        .contact(Contact::default())
        .add_issue_report_channel(IssueReportChannel::Email)
        .state(State { open: Some(false), ..State::default() })
        .build();
    assert!(status.is_err());
    assert_eq!(status.err().unwrap(), "location.timezone is only present in v0.14 and above");
}

#[test]
fn test_builder_v13_fail_on_links() {
    let status = StatusBuilder::v0_13("foo")
        .logo("bar")
        .url("foobar")
        .contact(Contact::default())
        .add_issue_report_channel(IssueReportChannel::Email)
        .state(State { open: Some(false), ..State::default() })
        .add_link(Link::default())
        .build();
    assert!(status.is_err());
    assert_eq!(status.err().unwrap(), "links is only present in v0.14 and above");
}

#[test]
fn test_builder_v13_fail_on_membership_plans() {
    let status = StatusBuilder::v0_13("foo")
        .logo("bar")
        .url("foobar")
        .contact(Contact::default())
        .add_issue_report_channel(IssueReportChannel::Email)
        .state(State { open: Some(false), ..State::default() })
        .add_membership_plan(MembershipPlan::default())
        .build();
    assert!(status.is_err());
    assert_eq!(status.err().unwrap(), "membership_plans is only present in v0.14 and above");
}

#[test]
fn test_builder_v14() {
    let status = StatusBuilder::v14("foo")
        .logo("bar")
        .url("foobar")
        .location(Location::default())
        .contact(Contact::default())
        .add_link(Link::default())
        .add_membership_plan(MembershipPlan::default())
        .build()
        .unwrap();
    assert_eq!(
        status,
        Status {
            api: None,
            api_compatibility: Some(vec![ApiVersion::V14]),
            space: "foo".into(),
            logo: "bar".into(),
            url: "foobar".into(),
            issue_report_channels: vec![],
            links: Some(vec![Link::default()]),
            membership_plans: Some(vec![MembershipPlan::default()]),
            ..Status::default()
        }
    );
}

#[test]
fn test_builder_v14_fail_on_jabber() {
    let status = StatusBuilder::v14("foo")
        .logo("bar")
        .url("foobar")
        .location(Location::default())
        .contact(Contact { jabber: Some("jabber".into()), ..Contact::default() })
        .build();
    assert!(status.is_err());
}

#[test]
fn test_builder_v14_fail_on_google() {
    let status = StatusBuilder::v14("foo")
        .logo("bar")
        .url("foobar")
        .location(Location::default())
        .contact(Contact { google: Some(GoogleContact::default()), ..Contact::default() })
        .build();
    assert!(status.is_err());
}

#[test]
fn test_builder_v14_fail_on_radio_show() {
    let status = StatusBuilder::v14("foo")
        .logo("bar")
        .url("foobar")
        .location(Location::default())
        .contact(Contact::default())
        .add_radio_show(RadioShow::default())
        .build();
    assert!(status.is_err());
}

#[test]
fn test_builder_v14_fail_on_spacephone() {
    let status = StatusBuilder::v14("foo")
        .logo("bar")
        .url("foobar")
        .location(Location::default())
        .contact(Contact::default())
        .spacefed(Spacefed { spacephone: Some(true), ..Spacefed::default() })
        .build();
    assert!(status.is_err());
}

#[test]
fn test_builder_mixed() {
    let status = StatusBuilder::mixed("foo")
        .logo("bar")
        .url("foobar")
        .state(State::default())
        .location(Location::default())
        .contact(Contact::default())
        .add_issue_report_channel(IssueReportChannel::Email)
        .build()
        .unwrap();
    assert_eq!(
        status,
        Status {
            api: Some("0.13".into()),
            api_compatibility: Some(vec![ApiVersion::V14]),
            space: "foo".into(),
            logo: "bar".into(),
            url: "foobar".into(),
            state: Some(State { open: None, ..State::default() }),
            issue_report_channels: vec![IssueReportChannel::Email],
            ..Status::default()
        }
    );
}

#[test]
fn test_builder() {
    let status = StatusBuilder::new("foo")
        .logo("bar")
        .url("foobar")
        .state(State { open: Some(false), ..State::default() })
        .location(Location::default())
        .contact(Contact::default())
        .spacefed(Spacefed { spacephone: Some(false), ..Spacefed::default() })
        .feeds(Feeds::default())
        .add_project("spaceapi-rs")
        .add_cam("cam1")
        .add_cam(&"cam2".to_string())
        .add_event(Event::default())
        .add_issue_report_channel(IssueReportChannel::Email)
        .build()
        .unwrap();
    assert_eq!(status.api, Some("0.13".into()));
    assert_eq!(status.space, "foo");
    assert_eq!(status.logo, "bar");
    assert_eq!(status.url, "foobar");
    assert_eq!(status.location, Location::default());
    assert_eq!(status.contact, Contact::default());
    assert_eq!(
        status.spacefed,
        Some(Spacefed { spacephone: Some(false), ..Spacefed::default() })
    );
    assert_eq!(status.feeds, Some(Feeds::default()));
    assert_eq!(status.projects, Some(vec!["spaceapi-rs".to_string()]));
    assert_eq!(status.cam, Some(vec!["cam1".to_string(), "cam2".to_string()]));
    assert_eq!(status.events, Some(vec![Event::default()]));
    assert_eq!(status.issue_report_channels, vec![IssueReportChannel::Email]);
}

#[test]
fn builder_v13_names_only_its_version() {
    let status = complete_v13().build().unwrap();
    assert_eq!(status.api, Some("0.13".to_string()));
    assert_eq!(status.api_compatibility, None);
    assert_eq!(status.stream, None);
    assert_eq!(status.cache, None);
    assert_eq!(status.sensors, None);
}

#[test]
fn builder_v14_names_only_its_version() {
    let status = complete_v14().build().unwrap();
    assert_eq!(status.api, None);
    assert_eq!(status.api_compatibility, Some(vec![ApiVersion::V14]));
    assert_eq!(status.state, None);
}

#[test]
fn builder_v14_with_link_and_without_state() {
    let link = Link { name: "wiki".into(), description: None, url: "https://wiki".into() };
    let status = complete_v14().add_link(link.clone()).build().unwrap();
    assert_eq!(status.links, Some(vec![link]));
    assert_eq!(status.issue_report_channels, vec![]);
}

#[test]
fn builder_v13_fails_without_issue_report_channels() {
    let status = StatusBuilder::v0_13("foo")
        .logo("bar")
        .url("foobar")
        .location(Location::default())
        .contact(Contact::default())
        .state(State { open: Some(false), ..State::default() })
        .build();
    assert_eq!(status.err().unwrap(), "issue_report_channels must not be empty");
}

#[test]
fn builder_v14_jabber_message() {
    let status = StatusBuilder::v14("foo")
        .contact(Contact { jabber: Some("x".into()), ..Contact::default() })
        .build();
    assert_eq!(status.err().unwrap(), "jabber key under contact was renamed to xmpp");
}

#[test]
fn each_violation_has_its_message() {
    let v14 = StatusBuilder::v14("foo").contact(Contact::default());
    let v13 = StatusBuilder::v0_13("foo").contact(Contact::default());
    let cases: Vec<(StatusBuilder, Violation, &str)> = vec![
        (StatusBuilder::new("foo"), Violation::ContactMissing, "contact missing"),
        (
            v14.clone().spacefed(Spacefed { spacephone: Some(false), ..Spacefed::default() }),
            Violation::SpacephoneRemoved,
            "spacefed.spacephone key was removed",
        ),
        (
            v13.clone().spacefed(Spacefed::default()),
            Violation::SpacephoneMissing,
            "spacefed.spacephone must be present",
        ),
        (
            StatusBuilder::v14("foo")
                .contact(Contact { jabber: Some("j".into()), ..Contact::default() }),
            Violation::JabberRenamed,
            "jabber key under contact was renamed to xmpp",
        ),
        (
            StatusBuilder::v14("foo")
                .contact(Contact { google: Some(GoogleContact::default()), ..Contact::default() }),
            Violation::GoogleRemoved,
            "google key under contact was removed",
        ),
        (
            v14.clone().add_radio_show(RadioShow::default()),
            Violation::RadioShowRemoved,
            "radio_show key was removed",
        ),
        (
            v14.clone().add_issue_report_channel(IssueReportChannel::Ml),
            Violation::IssueReportChannelsRemoved,
            "issue_report_channels key was removed",
        ),
        (
            v13.clone(),
            Violation::IssueReportChannelsEmpty,
            "issue_report_channels must not be empty",
        ),
        (
            v13.clone().add_issue_report_channel(IssueReportChannel::Email),
            Violation::StateMissing,
            "state must be present in v0.13",
        ),
        (
            complete_v13().location(Location { timezone: Some("UTC".into()), ..Location::default() }),
            Violation::TimezoneTooEarly,
            "location.timezone is only present in v0.14 and above",
        ),
        (
            complete_v13().add_link(Link::default()),
            Violation::LinksTooEarly,
            "links is only present in v0.14 and above",
        ),
        (
            complete_v13().add_membership_plan(MembershipPlan::default()),
            Violation::MembershipPlansTooEarly,
            "membership_plans is only present in v0.14 and above",
        ),
        (v14.clone(), Violation::LogoMissing, "logo missing"),
        (v14.clone().logo("bar"), Violation::UrlMissing, "url missing"),
        (v14.clone().logo("bar").url("foobar"), Violation::LocationMissing, "location missing"),
    ];
    for (builder, violation, message) in cases {
        assert_eq!(builder.violation(), Some(violation));
        assert_eq!(violation.as_str(), message);
        assert_eq!(builder.build().err().unwrap(), message);
    }
}

#[test]
fn the_first_violated_rule_is_reported() {
    // Nothing is set: the contact is asked for before anything else.
    assert_eq!(StatusBuilder::v0_13("foo").build().err().unwrap(), "contact missing");
    assert_eq!(
        StatusBuilder::v14("foo").add_radio_show(RadioShow::default()).build().err().unwrap(),
        "contact missing"
    );
    // The rule on spacephone comes before the rules of the version.
    let status = StatusBuilder::v14("foo")
        .contact(Contact { jabber: Some("j".into()), ..Contact::default() })
        .spacefed(Spacefed { spacephone: Some(true), ..Spacefed::default() })
        .build();
    assert_eq!(status.err().unwrap(), "spacefed.spacephone key was removed");
    // The rules of the version come before the missing logo, address and location.
    let status = StatusBuilder::v14("foo")
        .contact(Contact::default())
        .add_issue_report_channel(IssueReportChannel::Email)
        .build();
    assert_eq!(status.err().unwrap(), "issue_report_channels key was removed");
    // Among the rules of a version the order is fixed too.
    let status = StatusBuilder::v0_13("foo")
        .contact(Contact::default())
        .add_link(Link::default())
        .add_membership_plan(MembershipPlan::default())
        .build();
    assert_eq!(status.err().unwrap(), "issue_report_channels must not be empty");
    let status = StatusBuilder::v14("foo")
        .contact(Contact {
            jabber: Some("j".into()),
            google: Some(GoogleContact::default()),
            ..Contact::default()
        })
        .add_radio_show(RadioShow::default())
        .build();
    assert_eq!(status.err().unwrap(), "jabber key under contact was renamed to xmpp");
    // The logo is asked for before the address, the address before the location.
    assert_eq!(complete_v14_without_fields().build().err().unwrap(), "logo missing");
}

fn complete_v14_without_fields() -> StatusBuilder {
    StatusBuilder::v14("foo").contact(Contact::default())
}

#[test]
fn versions_gate_their_fields_whatever_else_is_set() {
    // Version 0.14.
    assert!(complete_v14()
        .contact(Contact { jabber: Some("j".into()), ..Contact::default() })
        .build()
        .is_err());
    assert!(complete_v14()
        .contact(Contact { google: Some(GoogleContact::default()), ..Contact::default() })
        .build()
        .is_err());
    assert!(complete_v14().add_radio_show(RadioShow::default()).build().is_err());
    assert!(complete_v14().add_issue_report_channel(IssueReportChannel::Twitter).build().is_err());
    assert!(complete_v14().add_link(Link::default()).build().is_ok());
    assert!(complete_v14()
        .location(Location { timezone: Some("UTC".into()), ..Location::default() })
        .build()
        .is_ok());
    // Version 0.13, and both versions at once.
    for make in [StatusBuilder::v0_13, StatusBuilder::mixed, StatusBuilder::new] {
        let complete = make("foo")
            .logo("bar")
            .url("foobar")
            .location(Location::default())
            .contact(Contact::default());
        assert!(complete.clone().build().is_err());
        assert!(complete.clone().state(State::default()).build().is_err());
        let complete = complete.add_issue_report_channel(IssueReportChannel::Email);
        assert!(complete.clone().build().is_err());
        let complete = complete.state(State::default());
        assert!(complete.clone().build().is_ok());
        assert!(complete.clone().add_link(Link::default()).build().is_err());
        assert!(complete.clone().add_membership_plan(MembershipPlan::default()).build().is_err());
        assert!(complete
            .clone()
            .location(Location { timezone: Some("UTC".into()), ..Location::default() })
            .build()
            .is_err());
        assert!(complete
            .clone()
            .contact(Contact { jabber: Some("j".into()), ..Contact::default() })
            .add_radio_show(RadioShow::default())
            .build()
            .is_ok());
    }
}

#[test]
fn setters_overwrite_and_adders_append() {
    let status = complete_v14()
        .logo("first")
        .logo("second")
        .add_project("a")
        .add_project("b")
        .add_link(Link { name: "one".into(), ..Link::default() })
        .add_link(Link { name: "two".into(), ..Link::default() })
        .build()
        .unwrap();
    assert_eq!(status.logo, "second");
    assert_eq!(status.projects, Some(vec!["a".to_string(), "b".to_string()]));
    assert_eq!(status.links.unwrap().len(), 2);
}

#[test]
fn extensions_are_set_once_under_their_bare_name() {
    let status = complete_v14()
        .add_extension("foo", Value::String("first".into()))
        .add_extension("ext_foo", Value::String("second".into()))
        .add_extension("bar", Value::Null)
        .build()
        .unwrap();
    assert_eq!(status.extensions.len(), 2);
    assert_eq!(status.extensions.keys(), vec!["bar".to_string(), "foo".to_string()]);
    assert_eq!(status.extensions.get("foo"), Some(&Value::String("second".into())));
    assert_eq!(status.extensions.get("ext_foo"), Some(&Value::String("second".into())));
    assert_eq!(status.extensions.get("ext_bar"), Some(&Value::Null));
    assert_eq!(status.extensions.get("baz"), None);
}

#[test]
fn the_order_in_which_extensions_are_set_makes_no_difference() {
    let one = complete_v14()
        .add_extension("bbb", Value::Bool(true))
        .add_extension("aaa", Value::Null)
        .add_extension("ext_ccc", Value::Bool(false))
        .build()
        .unwrap();
    let other = complete_v14()
        .add_extension("ext_ccc", Value::Bool(true))
        .add_extension("ext_aaa", Value::Null)
        .add_extension("ccc", Value::Bool(false))
        .add_extension("ext_bbb", Value::Bool(true))
        .build()
        .unwrap();
    assert_eq!(one, other);
    assert_eq!(
        one.extensions.keys(),
        vec!["aaa".to_string(), "bbb".to_string(), "ccc".to_string()]
    );
}

#[test]
fn spacefed_is_held_to_the_version() {
    let with = Spacefed { spacephone: Some(true), ..Spacefed::default() };
    let without = Spacefed::default();
    assert_eq!(with.verify(StatusBuilderVersion::V0_13), Ok(()));
    assert_eq!(with.verify(StatusBuilderVersion::Mixed), Ok(()));
    assert_eq!(
        with.verify(StatusBuilderVersion::V14),
        Err("spacefed.spacephone key was removed".to_string())
    );
    assert_eq!(without.verify(StatusBuilderVersion::V14), Ok(()));
    assert_eq!(
        without.verify(StatusBuilderVersion::V0_13),
        Err("spacefed.spacephone must be present".to_string())
    );
    assert_eq!(
        without.verify(StatusBuilderVersion::Mixed),
        Err("spacefed.spacephone must be present".to_string())
    );
    assert_eq!(State::default().verify(StatusBuilderVersion::V14), Ok(()));
    assert_eq!(State::default().verify(StatusBuilderVersion::V0_13), Ok(()));
}

#[test]
fn status_new_holds_what_must_be_there() {
    let status = Status::new(
        "foo",
        "bar",
        "foobar",
        Location::default(),
        Contact::default(),
        vec![IssueReportChannel::Email],
    );
    assert_eq!(
        status,
        Status {
            api: Some("0.13".into()),
            space: "foo".into(),
            logo: "bar".into(),
            url: "foobar".into(),
            issue_report_channels: vec![IssueReportChannel::Email],
            ..Status::default()
        }
    );
}
