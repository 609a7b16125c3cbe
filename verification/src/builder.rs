//! Making a status that meets the rules of one version of the schema.

use crate::codec::{DecodeError, Fields, Model};
use crate::contact::{Contact, ContactView};
use crate::extensions::{bare, sorted_names, with, Extensions};
use crate::features::{
    ApiVersion, Event, EventView, Feeds, FeedsView, IssueReportChannel, Link, LinkView,
    MembershipPlan, MembershipPlanView, RadioShow, RadioShowView, Spacefed, SpacefedView,
};
use crate::location::{Location, LocationView};
use crate::state::{State, StateView};
use crate::status::{Status, StatusView};
use crate::value::Value;
use vstd::prelude::*;

verus! {

/// The version of the schema whose rules a builder holds a status to.
#[derive(Debug, Clone, Copy, PartialEq, Eq, Structural)]
pub enum StatusBuilderVersion {
    /// Version 0.13.
    V0_13,
    /// Version 0.14.
    V14,
    /// Both at once: the status names both versions and is held to the rules
    /// of version 0.13, whose fields it must have.
    Mixed,
}

impl Default for StatusBuilderVersion {
    fn default() -> (r: StatusBuilderVersion)
        ensures
            r == StatusBuilderVersion::V0_13,
    {
        StatusBuilderVersion::V0_13
    }
}

/// A rule that a status under construction does not meet.
#[derive(Debug, Clone, Copy, PartialEq, Eq, Structural)]
pub enum Violation {
    /// No contact was set.
    ContactMissing,
    /// `spacephone` is set under version 0.14, which took it away.
    SpacephoneRemoved,
    /// `spacephone` is not set under a version that asks for it.
    SpacephoneMissing,
    /// `jabber` is set under version 0.14, which calls it `xmpp`.
    JabberRenamed,
    /// `google` is set under version 0.14, which took it away.
    GoogleRemoved,
    /// A radio show was added under version 0.14, which took them away.
    RadioShowRemoved,
    /// A way to report a fault was added under version 0.14, which took them
    /// away.
    IssueReportChannelsRemoved,
    /// No way to report a fault was added under a version that asks for one.
    IssueReportChannelsEmpty,
    /// No state was set under a version that asks for it.
    StateMissing,
    /// The time zone of the location is set under a version before 0.14.
    TimezoneTooEarly,
    /// A link was added under a version before 0.14.
    LinksTooEarly,
    /// A way to be a member was added under a version before 0.14.
    MembershipPlansTooEarly,
    /// No logo was set.
    LogoMissing,
    /// No address on the web was set.
    UrlMissing,
    /// No location was set.
    LocationMissing,
}

impl Violation {
    /// What is said of the violation.
    pub open spec fn message(self) -> Seq<char> {
        match self {
            Violation::ContactMissing => "contact missing"@,
            Violation::SpacephoneRemoved => "spacefed.spacephone key was removed"@,
            Violation::SpacephoneMissing => "spacefed.spacephone must be present"@,
            Violation::JabberRenamed => "jabber key under contact was renamed to xmpp"@,
            Violation::GoogleRemoved => "google key under contact was removed"@,
            Violation::RadioShowRemoved => "radio_show key was removed"@,
            Violation::IssueReportChannelsRemoved => "issue_report_channels key was removed"@,
            Violation::IssueReportChannelsEmpty => "issue_report_channels must not be empty"@,
            Violation::StateMissing => "state must be present in v0.13"@,
            Violation::TimezoneTooEarly => "location.timezone is only present in v0.14 and above"@,
            Violation::LinksTooEarly => "links is only present in v0.14 and above"@,
            Violation::MembershipPlansTooEarly => {
                "membership_plans is only present in v0.14 and above"@
            },
            Violation::LogoMissing => "logo missing"@,
            Violation::UrlMissing => "url missing"@,
            Violation::LocationMissing => "location missing"@,
        }
    }

    /// What is said of the violation.
    pub fn as_str(&self) -> (r: &'static str)
        ensures
            r@ == self.message(),
    {
        match self {
            Violation::ContactMissing => "contact missing",
            Violation::SpacephoneRemoved => "spacefed.spacephone key was removed",
            Violation::SpacephoneMissing => "spacefed.spacephone must be present",
            Violation::JabberRenamed => "jabber key under contact was renamed to xmpp",
            Violation::GoogleRemoved => "google key under contact was removed",
            Violation::RadioShowRemoved => "radio_show key was removed",
            Violation::IssueReportChannelsRemoved => "issue_report_channels key was removed",
            Violation::IssueReportChannelsEmpty => "issue_report_channels must not be empty",
            Violation::StateMissing => "state must be present in v0.13",
            Violation::TimezoneTooEarly => "location.timezone is only present in v0.14 and above",
            Violation::LinksTooEarly => "links is only present in v0.14 and above",
            Violation::MembershipPlansTooEarly => {
                "membership_plans is only present in v0.14 and above"
            },
            Violation::LogoMissing => "logo missing",
            Violation::UrlMissing => "url missing",
            Violation::LocationMissing => "location missing",
        }
    }
}

impl SpacefedView {
    /// The rule of a version that the record does not meet: version 0.14 has
    /// no `spacephone`, the others ask for it.
    pub open spec fn violation(self, version: StatusBuilderVersion) -> Option<Violation> {
        if version == StatusBuilderVersion::V14 {
            if self.spacephone is Some {
                Some(Violation::SpacephoneRemoved)
            } else {
                None
            }
        } else if self.spacephone is None {
            Some(Violation::SpacephoneMissing)
        } else {
            None
        }
    }
}

impl Spacefed {
    /// The rule of `version` that the record does not meet, if there is one.
    pub fn violation(&self, version: StatusBuilderVersion) -> (r: Option<Violation>)
        ensures
            r == self@.violation(version),
    {
        match version {
            StatusBuilderVersion::V14 => {
                if self.spacephone.is_some() {
                    Some(Violation::SpacephoneRemoved)
                } else {
                    None
                }
            },
            _ => {
                if self.spacephone.is_none() {
                    Some(Violation::SpacephoneMissing)
                } else {
                    None
                }
            },
        }
    }

    /// Holds the record to the rules of `version`.
    pub fn verify(&self, version: StatusBuilderVersion) -> (r: Result<(), String>)
        ensures
            match self@.violation(version) {
                None => r is Ok,
                Some(v) => r matches Err(message) && message@ == v.message(),
            },
    {
        match self.violation(version) {
            None => Ok(()),
            Some(v) => Err(v.as_str().to_owned()),
        }
    }
}

impl StateView {
    /// The rule of a version that the record does not meet. No version has a
    /// rule for it yet; this is where one would stand.
    pub open spec fn violation(self, version: StatusBuilderVersion) -> Option<Violation> {
        None
    }
}

impl State {
    /// Holds the record to the rules of `version`.
    pub fn verify(&self, version: StatusBuilderVersion) -> (r: Result<(), String>)
        ensures
            match self@.violation(version) {
                None => r is Ok,
                Some(v) => r matches Err(message) && message@ == v.message(),
            },
    {
        Ok(())
    }
}

/// A list after one more item was added to it; a list that was not begun
/// is begun.
pub open spec fn added<T>(list: Option<Seq<T>>, item: T) -> Option<Seq<T>> {
    match list {
        Some(items) => Some(items.push(item)),
        None => Some(seq![item]),
    }
}

/// Adds one item to a list, and begins a list that was not begun.
fn append<T: DeepView>(list: Option<Vec<T>>, item: T) -> (r: Option<Vec<T>>)
    ensures
        r.deep_view() == added(list.deep_view(), item.deep_view()),
{
    let mut items = match list {
        Some(items) => items,
        None => Vec::new(),
    };
    let ghost before = items.deep_view();
    items.push(item);
    assert(items.deep_view() =~= before.push(item.deep_view()));
    assert(list is None ==> before =~= Seq::empty());
    Some(items)
}

/// A status under construction: the version it is held to and what was set so far.
#[derive(Debug, Default)]
pub struct StatusBuilder {
    version: StatusBuilderVersion,
    space: String,
    logo: Option<String>,
    url: Option<String>,
    location: Option<Location>,
    contact: Option<Contact>,
    spacefed: Option<Spacefed>,
    projects: Option<Vec<String>>,
    cam: Option<Vec<String>>,
    feeds: Option<Feeds>,
    events: Option<Vec<Event>>,
    radio_show: Option<Vec<RadioShow>>,
    links: Option<Vec<Link>>,
    membership_plans: Option<Vec<MembershipPlan>>,
    issue_report_channels: Vec<IssueReportChannel>,
    extensions: Extensions,
    state: Option<State>,
}

/// The mathematical model of a [`StatusBuilder`].
pub struct StatusBuilderView {
    pub version: StatusBuilderVersion,
    pub space: Seq<char>,
    pub logo: Option<Seq<char>>,
    pub url: Option<Seq<char>>,
    pub location: Option<LocationView>,
    pub contact: Option<ContactView>,
    pub spacefed: Option<SpacefedView>,
    pub projects: Option<Seq<Seq<char>>>,
    pub cam: Option<Seq<Seq<char>>>,
    pub feeds: Option<FeedsView>,
    pub events: Option<Seq<EventView>>,
    pub radio_show: Option<Seq<RadioShowView>>,
    pub links: Option<Seq<LinkView>>,
    pub membership_plans: Option<Seq<MembershipPlanView>>,
    pub issue_report_channels: Seq<IssueReportChannel>,
    pub extensions: Fields,
    pub state: Option<StateView>,
}

impl DeepView for StatusBuilder {
    type V = StatusBuilderView;

    closed spec fn deep_view(&self) -> StatusBuilderView {
        StatusBuilderView {
            version: self.version,
            space: self.space.deep_view(),
            logo: self.logo.deep_view(),
            url: self.url.deep_view(),
            location: self.location.deep_view(),
            contact: self.contact.deep_view(),
            spacefed: self.spacefed.deep_view(),
            projects: self.projects.deep_view(),
            cam: self.cam.deep_view(),
            feeds: self.feeds.deep_view(),
            events: self.events.deep_view(),
            radio_show: self.radio_show.deep_view(),
            links: self.links.deep_view(),
            membership_plans: self.membership_plans.deep_view(),
            issue_report_channels: self.issue_report_channels.deep_view(),
            extensions: self.extensions.deep_view(),
            state: self.state.deep_view(),
        }
    }
}

impl View for StatusBuilder {
    type V = StatusBuilderView;

    open spec fn view(&self) -> StatusBuilderView {
        self.deep_view()
    }
}

impl Clone for StatusBuilder {
    fn clone(&self) -> (r: StatusBuilder)
        ensures
            r@ == self@,
    {
        let version = self.version;
        let space = self.space.clone();
        assert(space.deep_view() == self.space.deep_view());
        let logo = self.logo.clone();
        assert(logo.deep_view() == self.logo.deep_view());
        let url = self.url.clone();
        assert(url.deep_view() == self.url.deep_view());
        let location = self.location.clone();
        assert(location.deep_view() == self.location.deep_view());
        let contact = self.contact.clone();
        assert(contact.deep_view() == self.contact.deep_view());
        let spacefed = self.spacefed.clone();
        assert(spacefed.deep_view() == self.spacefed.deep_view());
        let projects = self.projects.clone();
        assert(projects.deep_view() == self.projects.deep_view());
        let cam = self.cam.clone();
        assert(cam.deep_view() == self.cam.deep_view());
        let feeds = self.feeds.clone();
        assert(feeds.deep_view() == self.feeds.deep_view());
        let events = self.events.clone();
        assert(events.deep_view() == self.events.deep_view());
        let radio_show = self.radio_show.clone();
        assert(radio_show.deep_view() == self.radio_show.deep_view());
        let links = self.links.clone();
        assert(links.deep_view() == self.links.deep_view());
        let membership_plans = self.membership_plans.clone();
        assert(membership_plans.deep_view() == self.membership_plans.deep_view());
        let issue_report_channels = self.issue_report_channels.clone();
        assert(issue_report_channels.deep_view() == self.issue_report_channels.deep_view());
        let extensions = self.extensions.clone();
        assert(extensions.deep_view() == self.extensions.deep_view());
        let state = self.state.clone();
        assert(state.deep_view() == self.state.deep_view());
        StatusBuilder {
            version,
            space,
            logo,
            url,
            location,
            contact,
            spacefed,
            projects,
            cam,
            feeds,
            events,
            radio_show,
            links,
            membership_plans,
            issue_report_channels,
            extensions,
            state,
        }
    }
}

impl StatusBuilderView {
    /// A builder in which nothing but the name of the space is set.
    pub open spec fn fresh(version: StatusBuilderVersion, space: Seq<char>) -> StatusBuilderView {
        StatusBuilderView {
            version,
            space,
            logo: None,
            url: None,
            location: None,
            contact: None,
            spacefed: None,
            projects: None,
            cam: None,
            feeds: None,
            events: None,
            radio_show: None,
            links: None,
            membership_plans: None,
            issue_report_channels: Seq::empty(),
            extensions: Seq::empty(),
            state: None,
        }
    }

    /// The rules in the order in which they are looked at, each with the
    /// violation that it finds in what was set, if it finds one. The rules on
    /// fields that version 0.14 took away hold under that version alone, those
    /// on fields that it brought or no longer asks for under the others.
    pub open spec fn findings(self) -> Seq<Option<Violation>> {
        let old = self.version != StatusBuilderVersion::V14;
        seq![
            found(self.contact is None, Violation::ContactMissing),
            match self.spacefed {
                Some(spacefed) => spacefed.violation(self.version),
                None => None,
            },
            match self.state {
                Some(state) => state.violation(self.version),
                None => None,
            },
            found(
                !old && self.contact is Some && self.contact->0.jabber is Some,
                Violation::JabberRenamed,
            ),
            found(
                !old && self.contact is Some && self.contact->0.google is Some,
                Violation::GoogleRemoved,
            ),
            found(!old && self.radio_show is Some, Violation::RadioShowRemoved),
            found(
                !old && self.issue_report_channels.len() > 0,
                Violation::IssueReportChannelsRemoved,
            ),
            found(
                old && self.issue_report_channels.len() == 0,
                Violation::IssueReportChannelsEmpty,
            ),
            found(old && self.state is None, Violation::StateMissing),
            found(
                old && self.location is Some && self.location->0.timezone is Some,
                Violation::TimezoneTooEarly,
            ),
            found(old && self.links is Some, Violation::LinksTooEarly),
            found(old && self.membership_plans is Some, Violation::MembershipPlansTooEarly),
            found(self.logo is None, Violation::LogoMissing),
            found(self.url is None, Violation::UrlMissing),
            found(self.location is None, Violation::LocationMissing),
        ]
    }

    /// The violation that is reported: the one that the first rule finds
    /// that finds any.
    pub open spec fn violation(self) -> Option<Violation> {
        first(self.findings())
    }

    /// The name of version 0.13, which a status holds under that version and
    /// under both.
    pub open spec fn api(self) -> Option<Seq<char>> {
        if self.version == StatusBuilderVersion::V14 {
            None
        } else {
            Some("0.13"@)
        }
    }

    /// The versions from 0.14 on that a status says it meets: version 0.14
    /// under that version and under both.
    pub open spec fn api_compatibility(self) -> Option<Seq<ApiVersion>> {
        if self.version == StatusBuilderVersion::V0_13 {
            None
        } else {
            Some(seq![ApiVersion::V14])
        }
    }

    /// The status that is built where no rule is violated: what was set, and
    /// the names of the versions.
    pub open spec fn status(self) -> StatusView
        recommends
            self.violation() is None,
    {
        StatusView {
            api: self.api(),
            api_compatibility: self.api_compatibility(),
            space: self.space,
            logo: self.logo->0,
            url: self.url->0,
            location: self.location->0,
            contact: self.contact->0,
            spacefed: self.spacefed,
            projects: self.projects,
            cam: self.cam,
            stream: None,
            feeds: self.feeds,
            events: self.events,
            radio_show: self.radio_show,
            links: self.links,
            membership_plans: self.membership_plans,
            cache: None,
            issue_report_channels: self.issue_report_channels,
            state: self.state,
            sensors: None,
            extensions: self.extensions,
        }
    }
}

/// What a rule finds: the violation where its condition holds.
pub open spec fn found(condition: bool, violation: Violation) -> Option<Violation> {
    if condition {
        Some(violation)
    } else {
        None
    }
}

/// The first violation in a row of findings.
pub open spec fn first(findings: Seq<Option<Violation>>) -> Option<Violation>
    decreases findings.len(),
{
    if findings.len() == 0 {
        None
    } else if findings[0] is Some {
        findings[0]
    } else {
        first(findings.drop_first())
    }
}

impl StatusBuilder {
    /// A builder for a status of the space `space_name` under version 0.13.
    pub fn new(space_name: &str) -> (r: StatusBuilder)
        ensures
            r@ == StatusBuilderView::fresh(StatusBuilderVersion::V0_13, space_name@),
    {
        StatusBuilder::fresh(StatusBuilderVersion::V0_13, space_name)
    }

    /// A builder for a status of the space `space_name` under version 0.13.
    pub fn v0_13(space_name: &str) -> (r: StatusBuilder)
        ensures
            r@ == StatusBuilderView::fresh(StatusBuilderVersion::V0_13, space_name@),
    {
        StatusBuilder::fresh(StatusBuilderVersion::V0_13, space_name)
    }

    /// A builder for a status of the space `space_name` under version 0.14.
    pub fn v14(space_name: &str) -> (r: StatusBuilder)
        ensures
            r@ == StatusBuilderView::fresh(StatusBuilderVersion::V14, space_name@),
    {
        StatusBuilder::fresh(StatusBuilderVersion::V14, space_name)
    }

    /// A builder for a status of the space `space_name` that names both
    /// versions.
    pub fn mixed(space_name: &str) -> (r: StatusBuilder)
        ensures
            r@ == StatusBuilderView::fresh(StatusBuilderVersion::Mixed, space_name@),
    {
        StatusBuilder::fresh(StatusBuilderVersion::Mixed, space_name)
    }

    fn fresh(version: StatusBuilderVersion, space_name: &str) -> (r: StatusBuilder)
        ensures
            r@ == StatusBuilderView::fresh(version, space_name@),
    {
        let issue_report_channels: Vec<IssueReportChannel> = Vec::new();
        assert(issue_report_channels.deep_view() =~= Seq::empty());
        StatusBuilder {
            version,
            space: space_name.to_owned(),
            logo: None,
            url: None,
            location: None,
            contact: None,
            spacefed: None,
            projects: None,
            cam: None,
            feeds: None,
            events: None,
            radio_show: None,
            links: None,
            membership_plans: None,
            issue_report_channels,
            extensions: Extensions::new(),
            state: None,
        }
    }

    /// Sets the state.
    pub fn state(self, state: State) -> (r: StatusBuilder)
        ensures
            r@ == (StatusBuilderView { state: Some(state@), ..self@ }),
    {
        let mut builder = self;
        builder.state = Some(state);
        builder
    }

    /// Sets the logo.
    pub fn logo(self, logo: &str) -> (r: StatusBuilder)
        ensures
            r@ == (StatusBuilderView { logo: Some(logo@), ..self@ }),
    {
        let mut builder = self;
        builder.logo = Some(logo.to_owned());
        builder
    }

    /// Sets the address of the space on the web.
    pub fn url(self, url: &str) -> (r: StatusBuilder)
        ensures
            r@ == (StatusBuilderView { url: Some(url@), ..self@ }),
    {
        let mut builder = self;
        builder.url = Some(url.to_owned());
        builder
    }

    /// Sets the location.
    pub fn location(self, location: Location) -> (r: StatusBuilder)
        ensures
            r@ == (StatusBuilderView { location: Some(location@), ..self@ }),
    {
        let mut builder = self;
        builder.location = Some(location);
        builder
    }

    /// Sets the contact.
    pub fn contact(self, contact: Contact) -> (r: StatusBuilder)
        ensures
            r@ == (StatusBuilderView { contact: Some(contact@), ..self@ }),
    {
        let mut builder = self;
        builder.contact = Some(contact);
        builder
    }

    /// Sets what the space offers to the federation.
    pub fn spacefed(self, spacefed: Spacefed) -> (r: StatusBuilder)
        ensures
            r@ == (StatusBuilderView { spacefed: Some(spacefed@), ..self@ }),
    {
        let mut builder = self;
        builder.spacefed = Some(spacefed);
        builder
    }

    /// Adds an event.
    pub fn add_event(self, event: Event) -> (r: StatusBuilder)
        ensures
            r@ == (StatusBuilderView { events: added(self@.events, event@), ..self@ }),
    {
        let mut builder = self;
        builder.events = append(builder.events, event);
        builder
    }

    /// Adds the address of a camera.
    pub fn add_cam(self, cam: &str) -> (r: StatusBuilder)
        ensures
            r@ == (StatusBuilderView { cam: added(self@.cam, cam@), ..self@ }),
    {
        let mut builder = self;
        builder.cam = append(builder.cam, cam.to_owned());
        builder
    }

    /// Sets the feeds.
    pub fn feeds(self, feeds: Feeds) -> (r: StatusBuilder)
        ensures
            r@ == (StatusBuilderView { feeds: Some(feeds@), ..self@ }),
    {
        let mut builder = self;
        builder.feeds = Some(feeds);
        builder
    }

    /// Adds a radio show.
    pub fn add_radio_show(self, radio_show: RadioShow) -> (r: StatusBuilder)
        ensures
            r@ == (StatusBuilderView {
                radio_show: added(self@.radio_show, radio_show@),
                ..self@
            }),
    {
        let mut builder = self;
        builder.radio_show = append(builder.radio_show, radio_show);
        builder
    }

    /// Adds a link.
    pub fn add_link(self, link: Link) -> (r: StatusBuilder)
        ensures
            r@ == (StatusBuilderView { links: added(self@.links, link@), ..self@ }),
    {
        let mut builder = self;
        builder.links = append(builder.links, link);
        builder
    }

    /// Adds a way to be a member.
    pub fn add_membership_plan(self, membership_plan: MembershipPlan) -> (r: StatusBuilder)
        ensures
            r@ == (StatusBuilderView {
                membership_plans: added(self@.membership_plans, membership_plan@),
                ..self@
            }),
    {
        let mut builder = self;
        builder.membership_plans = append(builder.membership_plans, membership_plan);
        builder
    }

    /// Adds the name of a project.
    pub fn add_project(self, project: &str) -> (r: StatusBuilder)
        ensures
            r@ == (StatusBuilderView { projects: added(self@.projects, project@), ..self@ }),
    {
        let mut builder = self;
        builder.projects = append(builder.projects, project.to_owned());
        builder
    }

    /// Adds a way to report a fault.
    pub fn add_issue_report_channel(self, report_channel: IssueReportChannel) -> (r:
        StatusBuilder)
        ensures
            r@ == (StatusBuilderView {
                issue_report_channels: self@.issue_report_channels.push(report_channel),
                ..self@
            }),
    {
        let mut builder = self;
        let ghost before = builder.issue_report_channels.deep_view();
        builder.issue_report_channels.push(report_channel);
        assert(builder.issue_report_channels.deep_view() =~= before.push(report_channel));
        builder
    }

    /// Sets a custom field. Its name may be given with or without `ext_` before
    /// it; a name that was set before gets the new tree.
    pub fn add_extension(self, name: &str, value: Value) -> (r: StatusBuilder)
        ensures
            r@ == (StatusBuilderView {
                extensions: with(self@.extensions, bare(name@), value@),
                ..self@
            }),
    {
        let mut builder = self;
        builder.extensions.set(name, value);
        builder
    }

    /// The violation that is reported, if a rule is violated.
    pub fn violation(&self) -> (r: Option<Violation>)
        ensures
            r == self@.violation(),
    {
        reveal_with_fuel(first, 16);
        let contact = match &self.contact {
            Some(contact) => contact,
            None => {
                return Some(Violation::ContactMissing);
            },
        };
        if let Some(spacefed) = &self.spacefed {
            if let Some(v) = spacefed.violation(self.version) {
                return Some(v);
            }
        }
        match self.version {
            StatusBuilderVersion::V14 => {
                if contact.jabber.is_some() {
                    return Some(Violation::JabberRenamed);
                }
                if contact.google.is_some() {
                    return Some(Violation::GoogleRemoved);
                }
                if self.radio_show.is_some() {
                    return Some(Violation::RadioShowRemoved);
                }
                if self.issue_report_channels.len() > 0 {
                    return Some(Violation::IssueReportChannelsRemoved);
                }
            },
            _ => {
                if self.issue_report_channels.len() == 0 {
                    return Some(Violation::IssueReportChannelsEmpty);
                }
                if self.state.is_none() {
                    return Some(Violation::StateMissing);
                }
                if let Some(location) = &self.location {
                    if location.timezone.is_some() {
                        return Some(Violation::TimezoneTooEarly);
                    }
                }
                if self.links.is_some() {
                    return Some(Violation::LinksTooEarly);
                }
                if self.membership_plans.is_some() {
                    return Some(Violation::MembershipPlansTooEarly);
                }
            },
        }
        if self.logo.is_none() {
            return Some(Violation::LogoMissing);
        }
        if self.url.is_none() {
            return Some(Violation::UrlMissing);
        }
        if self.location.is_none() {
            return Some(Violation::LocationMissing);
        }
        None
    }

    /// Holds what was set to the rules of the builder's version. Where a rule
    /// is violated, the result says which: the first in the order of
    /// [`StatusBuilderView::findings`]. Where none is, the result is the status
    /// that holds what was set, with its custom fields in the order of their
    /// names.
    pub fn build(self) -> (r: Result<Status, String>)
        ensures
            match self@.violation() {
                Some(v) => r matches Err(message) && message@ == v.message(),
                None => r matches Ok(status) && status@ == self@.status() && sorted_names(
                    status@.extensions,
                ),
            },
    {
        self.extensions.names_are_sorted();
        if let Some(v) = self.violation() {
            return Err(v.as_str().to_owned());
        }
        reveal_with_fuel(first, 16);
        let api = match self.version {
            StatusBuilderVersion::V14 => None,
            _ => Some("0.13".to_owned()),
        };
        let api_compatibility = match self.version {
            StatusBuilderVersion::V0_13 => None,
            _ => {
                let mut versions: Vec<ApiVersion> = Vec::new();
                versions.push(ApiVersion::V14);
                assert(versions.deep_view() =~= seq![ApiVersion::V14]);
                Some(versions)
            },
        };
        Ok(
            Status {
                api,
                api_compatibility,
                space: self.space,
                logo: self.logo.unwrap(),
                url: self.url.unwrap(),
                location: self.location.unwrap(),
                contact: self.contact.unwrap(),
                spacefed: self.spacefed,
                projects: self.projects,
                cam: self.cam,
                stream: None,
                feeds: self.feeds,
                events: self.events,
                radio_show: self.radio_show,
                links: self.links,
                membership_plans: self.membership_plans,
                cache: None,
                issue_report_channels: self.issue_report_channels,
                state: self.state,
                sensors: None,
                extensions: self.extensions,
            },
        )
    }
}

/// The first finding of a row is the one before which there is none.
pub proof fn lemma_first(findings: Seq<Option<Violation>>, i: int)
    requires
        0 <= i < findings.len(),
        findings[i] is Some,
        forall|j: int| 0 <= j < i ==> findings[j] is None,
    ensures
        first(findings) == findings[i],
    decreases i,
{
    if i > 0 {
        assert(findings[0] is None);
        assert forall|j: int| 0 <= j < i - 1 implies findings.drop_first()[j] is None by {
            assert(findings.drop_first()[j] == findings[j + 1]);
        }
        lemma_first(findings.drop_first(), i - 1);
    }
}

/// A row in which there is a finding has a first one.
pub proof fn lemma_first_exists(findings: Seq<Option<Violation>>, i: int)
    requires
        0 <= i < findings.len(),
        findings[i] is Some,
    ensures
        first(findings) is Some,
    decreases i,
{
    if i > 0 && findings[0] is None {
        lemma_first_exists(findings.drop_first(), i - 1);
    }
}

/// Of the rules that are violated at once, the one that is looked at first
/// is reported: where a rule finds a violation and none before it does, that
/// violation is the result, whatever the rules behind it find.
pub proof fn lemma_first_failure_wins(builder: StatusBuilderView, i: int)
    requires
        0 <= i < builder.findings().len(),
        builder.findings()[i] is Some,
        forall|j: int| 0 <= j < i ==> builder.findings()[j] is None,
    ensures
        builder.violation() == builder.findings()[i],
{
    lemma_first(builder.findings(), i);
}

/// A missing contact is reported before anything else; a violation of the
/// rule on `spacephone` before any rule on a field that a version took away
/// or brought; and each of those before a missing logo, address or location.
pub proof fn lemma_order_of_rules(builder: StatusBuilderView)
    ensures
        builder.contact is None ==> builder.violation() == Some(Violation::ContactMissing),
        builder.contact is Some && builder.spacefed is Some && builder.spacefed->0.violation(
            builder.version,
        ) is Some ==> builder.violation() == builder.spacefed->0.violation(builder.version),
        (exists|i: int| 3 <= i < 12 && (#[trigger] builder.findings()[i]) is Some)
            ==> builder.violation() is Some && builder.violation()->0 != Violation::LogoMissing
            && builder.violation()->0 != Violation::UrlMissing && builder.violation()->0
            != Violation::LocationMissing,
{
    reveal_with_fuel(first, 16);
}

/// Under version 0.14 no status is built in which `jabber` or `google` is set
/// under the contact, a radio show was added or a way to report a fault was
/// added. Under version 0.13, and under both versions at once, none is built
/// in which no way to report a fault was added, no state was set, the time
/// zone of the location is set, or a link or a way to be a member was added.
/// This holds whatever else was set.
pub proof fn lemma_version_gating(builder: StatusBuilderView)
    ensures
        builder.version == StatusBuilderVersion::V14 && ({
            ||| builder.contact is Some && builder.contact->0.jabber is Some
            ||| builder.contact is Some && builder.contact->0.google is Some
            ||| builder.radio_show is Some
            ||| builder.issue_report_channels.len() > 0
        }) ==> builder.violation() is Some,
        builder.version != StatusBuilderVersion::V14 && ({
            ||| builder.issue_report_channels.len() == 0
            ||| builder.state is None
            ||| builder.location is Some && builder.location->0.timezone is Some
            ||| builder.links is Some
            ||| builder.membership_plans is Some
        }) ==> builder.violation() is Some,
{
    let findings = builder.findings();
    if builder.version == StatusBuilderVersion::V14 {
        if builder.contact is Some && builder.contact->0.jabber is Some {
            lemma_first_exists(findings, 3);
        } else if builder.contact is Some && builder.contact->0.google is Some {
            lemma_first_exists(findings, 4);
        } else if builder.radio_show is Some {
            lemma_first_exists(findings, 5);
        } else if builder.issue_report_channels.len() > 0 {
            lemma_first_exists(findings, 6);
        }
    } else {
        if builder.issue_report_channels.len() == 0 {
            lemma_first_exists(findings, 7);
        } else if builder.state is None {
            lemma_first_exists(findings, 8);
        } else if builder.location is Some && builder.location->0.timezone is Some {
            lemma_first_exists(findings, 9);
        } else if builder.links is Some {
            lemma_first_exists(findings, 10);
        } else if builder.membership_plans is Some {
            lemma_first_exists(findings, 11);
        }
    }
}

impl StatusBuilderView {
    /// Whether the numbers that were set are finite and the custom fields
    /// stand in the order of their names: what it takes for the status to be
    /// read back from its document. A builder keeps its custom fields in their
    /// order; the numbers are the caller's.
    pub open spec fn readable(self) -> bool {
        &&& self.location matches Some(location) ==> location.lat.finite() && location.lon.finite()
        &&& self.membership_plans matches Some(plans) ==> forall|i: int|
            0 <= i < plans.len() ==> (#[trigger] plans[i]).value.finite()
        &&& sorted_names(self.extensions)
    }
}

/// A status that was built is read back from its document as it is, field by
/// field and with its custom fields, where its numbers are finite. A number
/// that is not finite is written as `null`, which is read as no number.
pub proof fn lemma_built_status_round_trip(builder: StatusBuilderView)
    requires
        builder.violation() is None,
        builder.readable(),
    ensures
        builder.status().valid(),
        StatusView::decode(builder.status().encode()) == Ok::<StatusView, DecodeError>(
            builder.status(),
        ),
{
    reveal_with_fuel(first, 16);
    let status = builder.status();
    assert(status.valid());
    status.lemma_round_trip();
}

impl StatusView {
    /// A status under version 0.13 that holds what must be there and nothing
    /// else.
    pub open spec fn minimal(
        space: Seq<char>,
        logo: Seq<char>,
        url: Seq<char>,
        location: LocationView,
        contact: ContactView,
        issue_report_channels: Seq<IssueReportChannel>,
    ) -> StatusView {
        StatusView {
            api: Some("0.13"@),
            api_compatibility: None,
            space,
            logo,
            url,
            location,
            contact,
            spacefed: None,
            projects: None,
            cam: None,
            stream: None,
            feeds: None,
            events: None,
            radio_show: None,
            links: None,
            membership_plans: None,
            cache: None,
            issue_report_channels,
            state: None,
            sensors: None,
            extensions: Seq::empty(),
        }
    }
}

impl Status {
    /// A status under version 0.13 that holds what must be there and nothing
    /// else. It is held to no rule: prefer a [`StatusBuilder`].
    pub fn new(
        space: &str,
        logo: &str,
        url: &str,
        location: Location,
        contact: Contact,
        issue_report_channels: Vec<IssueReportChannel>,
    ) -> (r: Status)
        ensures
            r@ == StatusView::minimal(
                space@,
                logo@,
                url@,
                location@,
                contact@,
                issue_report_channels.deep_view(),
            ),
    {
        Status {
            api: Some("0.13".to_owned()),
            api_compatibility: None,
            space: space.to_owned(),
            logo: logo.to_owned(),
            url: url.to_owned(),
            location,
            contact,
            spacefed: None,
            projects: None,
            cam: None,
            stream: None,
            feeds: None,
            events: None,
            radio_show: None,
            links: None,
            membership_plans: None,
            cache: None,
            issue_report_channels,
            state: None,
            sensors: None,
            extensions: Extensions::new(),
        }
    }
}

} // verus!
