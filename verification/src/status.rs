//! The status of a space.

use crate::codec::{
    decoded, get, get_list, get_some, group_lookup, lemma_listed, lemma_literal, lemma_lookup_add,
    lemma_optional, lemma_required, listed, lookup, maybe, one, optional, put, put_list, put_some,
    required, unless_empty, written, written_list, Codec, DecodeError, Fields, Model,
};
use crate::contact::{Contact, ContactView};
use crate::extensions::{
    bare, extension_fields, has_prefix, lemma_bare_prefixed, lemma_lookup_absent,
    lemma_sorted_unique, lemma_with_last, lemma_written_once, prefixed, sorted_names, with,
    Extensions,
};
use crate::features::{
    ApiVersion, Cache, CacheView, Event, EventView, Feeds, FeedsView, IssueReportChannel, Link,
    LinkView, MembershipPlan, MembershipPlanView, RadioShow, RadioShowView, Spacefed, SpacefedView,
    Stream, StreamView,
};
use crate::location::{Location, LocationView};
use crate::sensors::{Sensors, SensorsView};
use crate::state::{State, StateView};
use crate::text::str_eq;
use crate::value::{group_value_view, Value, ValueView};
use vstd::prelude::*;

verus! {

/// The status of a space: what a space says of itself.
/// A status made by a [`StatusBuilder`](crate::builder::StatusBuilder) meets
/// the rules of one version of the schema. One that is written out field by
/// field, or changed afterwards, may meet none.
#[derive(Debug, Default, PartialEq, Eq)]
pub struct Status {
    /// The version of the schema, up to 0.13.
    pub api: Option<String>,
    /// The versions of the schema that the status meets, from 0.14 on.
    pub api_compatibility: Option<Vec<ApiVersion>>,
    pub space: String,
    pub logo: String,
    pub url: String,
    pub location: Location,
    pub contact: Contact,
    pub spacefed: Option<Spacefed>,
    pub projects: Option<Vec<String>>,
    pub cam: Option<Vec<String>>,
    pub stream: Option<Stream>,
    pub feeds: Option<Feeds>,
    pub events: Option<Vec<Event>>,
    pub radio_show: Option<Vec<RadioShow>>,
    pub links: Option<Vec<Link>>,
    pub membership_plans: Option<Vec<MembershipPlan>>,
    pub cache: Option<Cache>,
    pub issue_report_channels: Vec<IssueReportChannel>,
    pub state: Option<State>,
    pub sensors: Option<Sensors>,
    /// The custom fields, written behind all others, each under its name behind
    /// `ext_`.
    pub extensions: Extensions,
}

/// The mathematical model of a [`Status`].
pub struct StatusView {
    pub api: Option<Seq<char>>,
    pub api_compatibility: Option<Seq<ApiVersion>>,
    pub space: Seq<char>,
    pub logo: Seq<char>,
    pub url: Seq<char>,
    pub location: LocationView,
    pub contact: ContactView,
    pub spacefed: Option<SpacefedView>,
    pub projects: Option<Seq<Seq<char>>>,
    pub cam: Option<Seq<Seq<char>>>,
    pub stream: Option<StreamView>,
    pub feeds: Option<FeedsView>,
    pub events: Option<Seq<EventView>>,
    pub radio_show: Option<Seq<RadioShowView>>,
    pub links: Option<Seq<LinkView>>,
    pub membership_plans: Option<Seq<MembershipPlanView>>,
    pub cache: Option<CacheView>,
    pub issue_report_channels: Seq<IssueReportChannel>,
    pub state: Option<StateView>,
    pub sensors: Option<SensorsView>,
    pub extensions: Fields,
}

impl DeepView for Status {
    type V = StatusView;

    open spec fn deep_view(&self) -> StatusView {
        StatusView {
            api: self.api.deep_view(),
            api_compatibility: self.api_compatibility.deep_view(),
            space: self.space.deep_view(),
            logo: self.logo.deep_view(),
            url: self.url.deep_view(),
            location: self.location.deep_view(),
            contact: self.contact.deep_view(),
            spacefed: self.spacefed.deep_view(),
            projects: self.projects.deep_view(),
            cam: self.cam.deep_view(),
            stream: self.stream.deep_view(),
            feeds: self.feeds.deep_view(),
            events: self.events.deep_view(),
            radio_show: self.radio_show.deep_view(),
            links: self.links.deep_view(),
            membership_plans: self.membership_plans.deep_view(),
            cache: self.cache.deep_view(),
            issue_report_channels: self.issue_report_channels.deep_view(),
            state: self.state.deep_view(),
            sensors: self.sensors.deep_view(),
            extensions: self.extensions.deep_view(),
        }
    }
}

impl View for Status {
    type V = StatusView;

    open spec fn view(&self) -> StatusView {
        self.deep_view()
    }
}

impl Clone for Status {
    fn clone(&self) -> (r: Self)
        ensures
            r@ == self@,
    {
        let api = self.api.clone();
        assert(api.deep_view() == self.api.deep_view());
        let api_compatibility = self.api_compatibility.clone();
        assert(api_compatibility.deep_view() == self.api_compatibility.deep_view());
        let space = self.space.clone();
        assert(space.deep_view() == self.space.deep_view());
        let logo = self.logo.clone();
        assert(logo.deep_view() == self.logo.deep_view());
        let url = self.url.clone();
        assert(url.deep_view() == self.url.deep_view());
        let location = self.location.clone();
        assert(location.deep_view() == self.location.deep_view());
        let contact = self.contact.clone();
        assert(contact.deep_view() == self.contact.deep_view());
        let spacefed = self.spacefed.clone();
        assert(spacefed.deep_view() == self.spacefed.deep_view());
        let projects = self.projects.clone();
        assert(projects.deep_view() == self.projects.deep_view());
        let cam = self.cam.clone();
        assert(cam.deep_view() == self.cam.deep_view());
        let stream = self.stream.clone();
        assert(stream.deep_view() == self.stream.deep_view());
        let feeds = self.feeds.clone();
        assert(feeds.deep_view() == self.feeds.deep_view());
        let events = self.events.clone();
        assert(events.deep_view() == self.events.deep_view());
        let radio_show = self.radio_show.clone();
        assert(radio_show.deep_view() == self.radio_show.deep_view());
        let links = self.links.clone();
        assert(links.deep_view() == self.links.deep_view());
        let membership_plans = self.membership_plans.clone();
        assert(membership_plans.deep_view() == self.membership_plans.deep_view());
        let cache = self.cache.clone();
        assert(cache.deep_view() == self.cache.deep_view());
        let issue_report_channels = self.issue_report_channels.clone();
        assert(issue_report_channels.deep_view() == self.issue_report_channels.deep_view());
        let state = self.state.clone();
        assert(state.deep_view() == self.state.deep_view());
        let sensors = self.sensors.clone();
        assert(sensors.deep_view() == self.sensors.deep_view());
        let extensions = self.extensions.clone();
        assert(extensions.deep_view() == self.extensions.deep_view());
        Status {
            api,
            api_compatibility,
            space,
            logo,
            url,
            location,
            contact,
            spacefed,
            projects,
            cam,
            stream,
            feeds,
            events,
            radio_show,
            links,
            membership_plans,
            cache,
            issue_report_channels,
            state,
            sensors,
            extensions,
        }
    }
}

impl StatusView {
    /// The fields of an object after this record was written behind `before`.
    #[verifier::opaque]
    pub open spec fn fields_after(self, before: Fields) -> Fields {
        before
            + maybe("api"@, self.api)
            + maybe("api_compatibility"@, self.api_compatibility)
            + one("space"@, self.space.encode())
            + one("logo"@, self.logo.encode())
            + one("url"@, self.url.encode())
            + one("location"@, self.location.encode())
            + one("contact"@, self.contact.encode())
            + maybe("spacefed"@, self.spacefed)
            + maybe("projects"@, self.projects)
            + maybe("cam"@, self.cam)
            + maybe("stream"@, self.stream)
            + maybe("feeds"@, self.feeds)
            + maybe("events"@, self.events)
            + maybe("radio_show"@, self.radio_show)
            + maybe("links"@, self.links)
            + maybe("membership_plans"@, self.membership_plans)
            + maybe("cache"@, self.cache)
            + unless_empty("issue_report_channels"@, self.issue_report_channels)
            + maybe("state"@, self.state)
            + maybe("sensors"@, self.sensors)
            + extension_fields(self.extensions)
    }

    /// The fields that stand for this record.
    pub open spec fn fields(self) -> Fields {
        self.fields_after(Seq::empty())
    }

    /// The record that the fields of an object stand for, or the error of the
    /// first of its fields, in their order here, that cannot be read.
    #[verifier::opaque]
    pub open spec fn from_fields(fields: Fields) -> Result<Self, DecodeError> {
        let api = optional::<Seq<char>>(fields, "api");
        let api_compatibility = optional::<Seq<ApiVersion>>(fields, "api_compatibility");
        let space = required::<Seq<char>>(fields, "space");
        let logo = required::<Seq<char>>(fields, "logo");
        let url = required::<Seq<char>>(fields, "url");
        let location = required::<LocationView>(fields, "location");
        let contact = required::<ContactView>(fields, "contact");
        let spacefed = optional::<SpacefedView>(fields, "spacefed");
        let projects = optional::<Seq<Seq<char>>>(fields, "projects");
        let cam = optional::<Seq<Seq<char>>>(fields, "cam");
        let stream = optional::<StreamView>(fields, "stream");
        let feeds = optional::<FeedsView>(fields, "feeds");
        let events = optional::<Seq<EventView>>(fields, "events");
        let radio_show = optional::<Seq<RadioShowView>>(fields, "radio_show");
        let links = optional::<Seq<LinkView>>(fields, "links");
        let membership_plans = optional::<Seq<MembershipPlanView>>(fields, "membership_plans");
        let cache = optional::<CacheView>(fields, "cache");
        let issue_report_channels = listed::<IssueReportChannel>(fields, "issue_report_channels");
        let state = optional::<StateView>(fields, "state");
        let sensors = optional::<SensorsView>(fields, "sensors");
        let extensions = captured(fields);
        if api is Err {
            Err(api->Err_0)
        } else if api_compatibility is Err {
            Err(api_compatibility->Err_0)
        } else if space is Err {
            Err(space->Err_0)
        } else if logo is Err {
            Err(logo->Err_0)
        } else if url is Err {
            Err(url->Err_0)
        } else if location is Err {
            Err(location->Err_0)
        } else if contact is Err {
            Err(contact->Err_0)
        } else if spacefed is Err {
            Err(spacefed->Err_0)
        } else if projects is Err {
            Err(projects->Err_0)
        } else if cam is Err {
            Err(cam->Err_0)
        } else if stream is Err {
            Err(stream->Err_0)
        } else if feeds is Err {
            Err(feeds->Err_0)
        } else if events is Err {
            Err(events->Err_0)
        } else if radio_show is Err {
            Err(radio_show->Err_0)
        } else if links is Err {
            Err(links->Err_0)
        } else if membership_plans is Err {
            Err(membership_plans->Err_0)
        } else if cache is Err {
            Err(cache->Err_0)
        } else if issue_report_channels is Err {
            Err(issue_report_channels->Err_0)
        } else if state is Err {
            Err(state->Err_0)
        } else if sensors is Err {
            Err(sensors->Err_0)
        } else if extensions is Err {
            Err(extensions->Err_0)
        } else {
            Ok(StatusView {
                api: api->Ok_0,
                api_compatibility: api_compatibility->Ok_0,
                space: space->Ok_0,
                logo: logo->Ok_0,
                url: url->Ok_0,
                location: location->Ok_0,
                contact: contact->Ok_0,
                spacefed: spacefed->Ok_0,
                projects: projects->Ok_0,
                cam: cam->Ok_0,
                stream: stream->Ok_0,
                feeds: feeds->Ok_0,
                events: events->Ok_0,
                radio_show: radio_show->Ok_0,
                links: links->Ok_0,
                membership_plans: membership_plans->Ok_0,
                cache: cache->Ok_0,
                issue_report_channels: issue_report_channels->Ok_0,
                state: state->Ok_0,
                sensors: sensors->Ok_0,
                extensions: extensions->Ok_0,
            })
        }
    }

    /// Whether a key is one of the fields of the schema.
    pub open spec fn known(key: Seq<char>) -> bool {
        ||| key == "api"@
        ||| key == "api_compatibility"@
        ||| key == "space"@
        ||| key == "logo"@
        ||| key == "url"@
        ||| key == "location"@
        ||| key == "contact"@
        ||| key == "spacefed"@
        ||| key == "projects"@
        ||| key == "cam"@
        ||| key == "stream"@
        ||| key == "feeds"@
        ||| key == "events"@
        ||| key == "radio_show"@
        ||| key == "links"@
        ||| key == "membership_plans"@
        ||| key == "cache"@
        ||| key == "issue_report_channels"@
        ||| key == "state"@
        ||| key == "sensors"@
    }

    /// The fields of the schema that this record writes, without its custom fields.
    pub open spec fn own_fields(self) -> Fields {
        Seq::empty()
            + maybe("api"@, self.api)
            + maybe("api_compatibility"@, self.api_compatibility)
            + one("space"@, self.space.encode())
            + one("logo"@, self.logo.encode())
            + one("url"@, self.url.encode())
            + one("location"@, self.location.encode())
            + one("contact"@, self.contact.encode())
            + maybe("spacefed"@, self.spacefed)
            + maybe("projects"@, self.projects)
            + maybe("cam"@, self.cam)
            + maybe("stream"@, self.stream)
            + maybe("feeds"@, self.feeds)
            + maybe("events"@, self.events)
            + maybe("radio_show"@, self.radio_show)
            + maybe("links"@, self.links)
            + maybe("membership_plans"@, self.membership_plans)
            + maybe("cache"@, self.cache)
            + unless_empty("issue_report_channels"@, self.issue_report_channels)
            + maybe("state"@, self.state)
            + maybe("sensors"@, self.sensors)
    }

    /// The record writes its own fields, which the schema knows, and behind
    /// them its custom fields.
    pub proof fn lemma_own_fields_known(self)
        ensures
            all_known(self.own_fields()),
            self.fields() == self.own_fields() + extension_fields(self.extensions),
    {
        broadcast use {lemma_literal, group_all_known};

        reveal(StatusView::fields_after);
        reveal_strlit("api");
        reveal_strlit("api_compatibility");
        reveal_strlit("space");
        reveal_strlit("logo");
        reveal_strlit("url");
        reveal_strlit("location");
        reveal_strlit("contact");
        reveal_strlit("spacefed");
        reveal_strlit("projects");
        reveal_strlit("cam");
        reveal_strlit("stream");
        reveal_strlit("feeds");
        reveal_strlit("events");
        reveal_strlit("radio_show");
        reveal_strlit("links");
        reveal_strlit("membership_plans");
        reveal_strlit("cache");
        reveal_strlit("issue_report_channels");
        reveal_strlit("state");
        reveal_strlit("sensors");
    }

    /// The custom fields are read back from the written record.
    pub proof fn lemma_captured(self)
        requires
            sorted_names(self.extensions),
        ensures
            captured(self.fields()) == Ok::<Fields, DecodeError>(self.extensions),
    {
        self.lemma_own_fields_known();
        Self::lemma_known_without_prefix();
        lemma_captured_extensions(self.own_fields(), self.extensions);
    }

    /// No field of the schema begins with `ext_`.
    pub proof fn lemma_known_without_prefix()
        ensures
            forall|key: Seq<char>| #[trigger] Self::known(key) ==> !has_prefix(key),
    {
        broadcast use lemma_literal;

        reveal_strlit("api");
        reveal_strlit("api_compatibility");
        reveal_strlit("space");
        reveal_strlit("logo");
        reveal_strlit("url");
        reveal_strlit("location");
        reveal_strlit("contact");
        reveal_strlit("spacefed");
        reveal_strlit("projects");
        reveal_strlit("cam");
        reveal_strlit("stream");
        reveal_strlit("feeds");
        reveal_strlit("events");
        reveal_strlit("radio_show");
        reveal_strlit("links");
        reveal_strlit("membership_plans");
        reveal_strlit("cache");
        reveal_strlit("issue_report_channels");
        reveal_strlit("state");
        reveal_strlit("sensors");
    }

    /// What the written record holds under each of its keys: the tree of a
    /// value that is set, and nothing for one that is left out.
    pub proof fn lemma_fields(self)
        ensures
            lookup(self.fields(), "api"@) == written(self.api),
            lookup(self.fields(), "api_compatibility"@) == written(self.api_compatibility),
            lookup(self.fields(), "space"@) == Some(self.space.encode()),
            lookup(self.fields(), "logo"@) == Some(self.logo.encode()),
            lookup(self.fields(), "url"@) == Some(self.url.encode()),
            lookup(self.fields(), "location"@) == Some(self.location.encode()),
            lookup(self.fields(), "contact"@) == Some(self.contact.encode()),
            lookup(self.fields(), "spacefed"@) == written(self.spacefed),
            lookup(self.fields(), "projects"@) == written(self.projects),
            lookup(self.fields(), "cam"@) == written(self.cam),
            lookup(self.fields(), "stream"@) == written(self.stream),
            lookup(self.fields(), "feeds"@) == written(self.feeds),
            lookup(self.fields(), "events"@) == written(self.events),
            lookup(self.fields(), "radio_show"@) == written(self.radio_show),
            lookup(self.fields(), "links"@) == written(self.links),
            lookup(self.fields(), "membership_plans"@) == written(self.membership_plans),
            lookup(self.fields(), "cache"@) == written(self.cache),
            lookup(self.fields(), "issue_report_channels"@) == written_list(
                self.issue_report_channels,
            ),
            lookup(self.fields(), "state"@) == written(self.state),
            lookup(self.fields(), "sensors"@) == written(self.sensors),
    {
        broadcast use {group_lookup, lemma_lookup_extension_fields};

        reveal(StatusView::fields_after);
        reveal_strlit("api");
        reveal_strlit("api_compatibility");
        reveal_strlit("space");
        reveal_strlit("logo");
        reveal_strlit("url");
        reveal_strlit("location");
        reveal_strlit("contact");
        reveal_strlit("spacefed");
        reveal_strlit("projects");
        reveal_strlit("cam");
        reveal_strlit("stream");
        reveal_strlit("feeds");
        reveal_strlit("events");
        reveal_strlit("radio_show");
        reveal_strlit("links");
        reveal_strlit("membership_plans");
        reveal_strlit("cache");
        reveal_strlit("issue_report_channels");
        reveal_strlit("state");
        reveal_strlit("sensors");
    }

    /// Fields that hold under each key of this record what the record writes
    /// there stand for this record.
    pub proof fn lemma_from_fields(self, fields: Fields)
        requires
            self.valid(),
            lookup(fields, "api"@) == written(self.api),
            lookup(fields, "api_compatibility"@) == written(self.api_compatibility),
            lookup(fields, "space"@) == Some(self.space.encode()),
            lookup(fields, "logo"@) == Some(self.logo.encode()),
            lookup(fields, "url"@) == Some(self.url.encode()),
            lookup(fields, "location"@) == Some(self.location.encode()),
            lookup(fields, "contact"@) == Some(self.contact.encode()),
            lookup(fields, "spacefed"@) == written(self.spacefed),
            lookup(fields, "projects"@) == written(self.projects),
            lookup(fields, "cam"@) == written(self.cam),
            lookup(fields, "stream"@) == written(self.stream),
            lookup(fields, "feeds"@) == written(self.feeds),
            lookup(fields, "events"@) == written(self.events),
            lookup(fields, "radio_show"@) == written(self.radio_show),
            lookup(fields, "links"@) == written(self.links),
            lookup(fields, "membership_plans"@) == written(self.membership_plans),
            lookup(fields, "cache"@) == written(self.cache),
            lookup(fields, "issue_report_channels"@) == written_list(self.issue_report_channels),
            lookup(fields, "state"@) == written(self.state),
            lookup(fields, "sensors"@) == written(self.sensors),
            captured(fields) == Ok::<Fields, DecodeError>(self.extensions),
        ensures
            Self::from_fields(fields) == Ok::<Self, DecodeError>(self),
    {
        reveal(StatusView::from_fields);
        lemma_optional(fields, "api", self.api);
        lemma_optional(fields, "api_compatibility", self.api_compatibility);
        lemma_required(fields, "space", self.space);
        lemma_required(fields, "logo", self.logo);
        lemma_required(fields, "url", self.url);
        lemma_required(fields, "location", self.location);
        lemma_required(fields, "contact", self.contact);
        lemma_optional(fields, "spacefed", self.spacefed);
        lemma_optional(fields, "projects", self.projects);
        lemma_optional(fields, "cam", self.cam);
        lemma_optional(fields, "stream", self.stream);
        lemma_optional(fields, "feeds", self.feeds);
        lemma_optional(fields, "events", self.events);
        lemma_optional(fields, "radio_show", self.radio_show);
        lemma_optional(fields, "links", self.links);
        lemma_optional(fields, "membership_plans", self.membership_plans);
        lemma_optional(fields, "cache", self.cache);
        lemma_listed(fields, "issue_report_channels", self.issue_report_channels);
        lemma_optional(fields, "state", self.state);
        lemma_optional(fields, "sensors", self.sensors);
    }
}

impl Model for StatusView {
    open spec fn encode(self) -> ValueView {
        ValueView::Object(self.fields())
    }

    open spec fn decode(v: ValueView) -> Result<Self, DecodeError> {
        match v {
            ValueView::Object(fields) => Self::from_fields(fields),
            _ => Err(DecodeError::InvalidType),
        }
    }

    open spec fn valid(self) -> bool {
        &&& self.api_compatibility matches Some(x) ==> x.valid()
        &&& self.location.valid()
        &&& self.contact.valid()
        &&& self.spacefed matches Some(x) ==> x.valid()
        &&& self.projects matches Some(x) ==> x.valid()
        &&& self.cam matches Some(x) ==> x.valid()
        &&& self.stream matches Some(x) ==> x.valid()
        &&& self.feeds matches Some(x) ==> x.valid()
        &&& self.events matches Some(x) ==> x.valid()
        &&& self.radio_show matches Some(x) ==> x.valid()
        &&& self.links matches Some(x) ==> x.valid()
        &&& self.membership_plans matches Some(x) ==> x.valid()
        &&& self.cache matches Some(x) ==> x.valid()
        &&& self.state matches Some(x) ==> x.valid()
        &&& self.sensors matches Some(x) ==> x.valid()
        &&& sorted_names(self.extensions)
    }

    proof fn lemma_round_trip(self) {
        self.lemma_fields();
        self.lemma_captured();
        self.lemma_from_fields(self.fields());
    }
}

impl Status {
    /// Appends the fields that stand for this record.
    pub fn put_fields(&self, fields: &mut Vec<(String, Value)>)
        ensures
            final(fields).deep_view() == self@.fields_after(old(fields).deep_view()),
    {
        reveal(StatusView::fields_after);
        put_some(fields, "api", &self.api);
        put_some(fields, "api_compatibility", &self.api_compatibility);
        put(fields, "space", &self.space);
        put(fields, "logo", &self.logo);
        put(fields, "url", &self.url);
        put(fields, "location", &self.location);
        put(fields, "contact", &self.contact);
        put_some(fields, "spacefed", &self.spacefed);
        put_some(fields, "projects", &self.projects);
        put_some(fields, "cam", &self.cam);
        put_some(fields, "stream", &self.stream);
        put_some(fields, "feeds", &self.feeds);
        put_some(fields, "events", &self.events);
        put_some(fields, "radio_show", &self.radio_show);
        put_some(fields, "links", &self.links);
        put_some(fields, "membership_plans", &self.membership_plans);
        put_some(fields, "cache", &self.cache);
        put_list(fields, "issue_report_channels", &self.issue_report_channels);
        put_some(fields, "state", &self.state);
        put_some(fields, "sensors", &self.sensors);
        self.extensions.put_fields(fields);
    }

    /// Whether a key is one of the fields of the schema.
    pub fn is_known(key: &str) -> (r: bool)
        ensures
            r == StatusView::known(key@),
    {
        str_eq(key, "api")
            || str_eq(key, "api_compatibility")
            || str_eq(key, "space")
            || str_eq(key, "logo")
            || str_eq(key, "url")
            || str_eq(key, "location")
            || str_eq(key, "contact")
            || str_eq(key, "spacefed")
            || str_eq(key, "projects")
            || str_eq(key, "cam")
            || str_eq(key, "stream")
            || str_eq(key, "feeds")
            || str_eq(key, "events")
            || str_eq(key, "radio_show")
            || str_eq(key, "links")
            || str_eq(key, "membership_plans")
            || str_eq(key, "cache")
            || str_eq(key, "issue_report_channels")
            || str_eq(key, "state")
            || str_eq(key, "sensors")
    }

    /// Reads the record that the fields of an object stand for.
    pub fn from_fields(fields: &Vec<(String, Value)>) -> (r: Result<Self, DecodeError>)
        ensures
            decoded(r, StatusView::from_fields(fields.deep_view())),
    {
        reveal(StatusView::from_fields);
        let api = get_some::<String>(fields, "api")?;
        let api_compatibility = get_some::<Vec<ApiVersion>>(fields, "api_compatibility")?;
        let space = get::<String>(fields, "space")?;
        let logo = get::<String>(fields, "logo")?;
        let url = get::<String>(fields, "url")?;
        let location = get::<Location>(fields, "location")?;
        let contact = get::<Contact>(fields, "contact")?;
        let spacefed = get_some::<Spacefed>(fields, "spacefed")?;
        let projects = get_some::<Vec<String>>(fields, "projects")?;
        let cam = get_some::<Vec<String>>(fields, "cam")?;
        let stream = get_some::<Stream>(fields, "stream")?;
        let feeds = get_some::<Feeds>(fields, "feeds")?;
        let events = get_some::<Vec<Event>>(fields, "events")?;
        let radio_show = get_some::<Vec<RadioShow>>(fields, "radio_show")?;
        let links = get_some::<Vec<Link>>(fields, "links")?;
        let membership_plans = get_some::<Vec<MembershipPlan>>(fields, "membership_plans")?;
        let cache = get_some::<Cache>(fields, "cache")?;
        let issue_report_channels = get_list::<IssueReportChannel>(
            fields,
            "issue_report_channels",
        )?;
        let state = get_some::<State>(fields, "state")?;
        let sensors = get_some::<Sensors>(fields, "sensors")?;
        let extensions = capture(fields)?;
        Ok(Status {
            api,
            api_compatibility,
            space,
            logo,
            url,
            location,
            contact,
            spacefed,
            projects,
            cam,
            stream,
            feeds,
            events,
            radio_show,
            links,
            membership_plans,
            cache,
            issue_report_channels,
            state,
            sensors,
            extensions,
        })
    }
}

impl Codec for Status {
    fn to_value(&self) -> (r: Value) {
        broadcast use group_value_view;

        let mut fields: Vec<(String, Value)> = Vec::new();
        assert(fields.deep_view() =~= Seq::empty());
        self.put_fields(&mut fields);
        Value::Object(fields)
    }

    fn from_value(v: &Value) -> (r: Result<Self, DecodeError>) {
        broadcast use group_value_view;

        match v {
            Value::Object(fields) => Self::from_fields(fields),
            _ => Err(DecodeError::InvalidType),
        }
    }
}

/// Whether every key is one of the fields of the schema.
#[verifier::opaque]
pub open spec fn all_known(fields: Fields) -> bool {
    forall|i: int| 0 <= i < fields.len() ==> StatusView::known((#[trigger] fields[i]).0)
}

/// No fields are all known.
pub broadcast proof fn lemma_all_known_empty()
    ensures
        #[trigger] all_known(Seq::empty()),
{
    reveal(all_known);
}

/// Two rows of fields are all known where each of them is.
pub broadcast proof fn lemma_all_known_add(a: Fields, b: Fields)
    ensures
        #[trigger] all_known(a + b) == (all_known(a) && all_known(b)),
{
    reveal(all_known);
    if all_known(a + b) {
        assert forall|i: int| 0 <= i < a.len() implies StatusView::known(
            (#[trigger] a[i]).0,
        ) by {
            assert(a[i] == (a + b)[i]);
        }
        assert forall|i: int| 0 <= i < b.len() implies StatusView::known(
            (#[trigger] b[i]).0,
        ) by {
            assert(b[i] == (a + b)[a.len() + i]);
        }
    }
}

/// A field that is always written is known by its key.
pub broadcast proof fn lemma_all_known_one(key: Seq<char>, v: ValueView)
    requires
        StatusView::known(key),
    ensures
        #[trigger] all_known(one(key, v)),
{
    reveal(all_known);
    reveal(one);
}

/// A field that may be left out is known by its key.
pub broadcast proof fn lemma_all_known_maybe<T: Model>(key: Seq<char>, x: Option<T>)
    requires
        StatusView::known(key),
    ensures
        #[trigger] all_known(maybe(key, x)),
{
    reveal(all_known);
    reveal(maybe);
}

/// The field of a list is known by its key.
pub broadcast proof fn lemma_all_known_unless_empty<T: Model>(key: Seq<char>, items: Seq<T>)
    requires
        StatusView::known(key),
    ensures
        #[trigger] all_known(unless_empty(key, items)),
{
    reveal(all_known);
    reveal(unless_empty);
}

/// What is known of written fields whose keys the schema knows.
pub broadcast group group_all_known {
    lemma_all_known_empty,
    lemma_all_known_add,
    lemma_all_known_one,
    lemma_all_known_maybe,
    lemma_all_known_unless_empty,
}

/// The custom fields among the fields of an object: each field that the
/// schema does not know and whose key begins with `ext_`, under its name. A
/// name that comes again holds what came last. Any other field that the schema
/// does not know is an error, the first of them in the order of the fields.
pub open spec fn captured(fields: Fields) -> Result<Fields, DecodeError>
    decreases fields.len(),
{
    if fields.len() == 0 {
        Ok(Seq::empty())
    } else {
        match captured(fields.drop_last()) {
            Err(e) => Err(e),
            Ok(entries) => {
                let key = fields.last().0;
                if StatusView::known(key) {
                    Ok(entries)
                } else if has_prefix(key) {
                    Ok(with(entries, bare(key), fields.last().1))
                } else {
                    Err(DecodeError::UnknownField)
                }
            },
        }
    }
}

/// Among fields of the schema there is no custom field.
pub proof fn lemma_captured_own(own: Fields)
    requires
        all_known(own),
    ensures
        captured(own) == Ok::<Fields, DecodeError>(Seq::empty()),
    decreases own.len(),
{
    reveal(all_known);
    if own.len() > 0 {
        assert forall|i: int| 0 <= i < own.drop_last().len() implies StatusView::known(
            (#[trigger] own.drop_last()[i]).0,
        ) by {
            assert(own.drop_last()[i] == own[i]);
        }
        lemma_captured_own(own.drop_last());
        assert(own.last() == own[own.len() - 1]);
    }
}

/// Custom fields that were written behind fields of the schema are read
/// back as they were.
pub proof fn lemma_captured_extensions(own: Fields, entries: Fields)
    requires
        all_known(own),
        sorted_names(entries),
        forall|key: Seq<char>| #[trigger] StatusView::known(key) ==> !has_prefix(key),
    ensures
        captured(own + extension_fields(entries)) == Ok::<Fields, DecodeError>(entries),
    decreases entries.len(),
{
    let all = own + extension_fields(entries);
    if entries.len() == 0 {
        assert(all =~= own);
        lemma_captured_own(own);
        assert(entries =~= Seq::empty());
    } else {
        let init = entries.drop_last();
        let name = entries.last().0;
        assert(all.drop_last() =~= own + extension_fields(init));
        assert(all.last() == (prefixed(name), entries.last().1));
        lemma_with_last(entries);
        lemma_captured_extensions(own, init);
        lemma_bare_prefixed(name);
    }
}

/// A key of the schema is not the key of a custom field.
pub broadcast proof fn lemma_lookup_extension_fields(entries: Fields, key: Seq<char>)
    requires
        !has_prefix(key),
    ensures
        #[trigger] lookup(extension_fields(entries), key) is None,
{
    assert forall|i: int| 0 <= i < entries.len() implies extension_fields(entries)[i].0
        != key by {
        lemma_bare_prefixed(entries[i].0);
    }
    lemma_lookup_absent(extension_fields(entries), key);
}

/// Whether a key begins with `ext_`.
pub fn has_ext_prefix(key: &str) -> (r: bool)
    ensures
        r == has_prefix(key@),
{
    key.unicode_len() >= 4 && key.get_char(0) == 'e' && key.get_char(1) == 'x' && key.get_char(2)
        == 't' && key.get_char(3) == '_'
}

/// Reads the custom fields among the fields of an object.
pub fn capture(fields: &Vec<(String, Value)>) -> (r: Result<Extensions, DecodeError>)
    ensures
        match r {
            Ok(x) => captured(fields.deep_view()) == Ok::<Fields, DecodeError>(x@),
            Err(e) => captured(fields.deep_view()) == Err::<Fields, DecodeError>(e),
        },
{
    let ghost all = fields.deep_view();
    let mut found = Extensions::new();
    let mut i: usize = 0;
    assert(all.take(0) =~= Seq::empty());
    while i < fields.len()
        invariant
            i <= fields.len(),
            all == fields.deep_view(),
            captured(all.take(i as int)) == Ok::<Fields, DecodeError>(found@),
        decreases fields.len() - i,
    {
        let key = fields[i].0.as_str();
        proof {
            assert(all.take(i + 1).drop_last() =~= all.take(i as int));
            assert(all.take(i + 1).last() == all[i as int]);
        }
        if Status::is_known(key) {
        } else if has_ext_prefix(key) {
            found.set(key, fields[i].1.clone());
        } else {
            proof {
                lemma_captured_prefix(all, i + 1);
            }
            return Err(DecodeError::UnknownField);
        }
        i += 1;
    }
    assert(all.take(i as int) =~= all);
    Ok(found)
}

/// Where the first fields of an object hold one that is an error, the object
/// does, and the same.
pub proof fn lemma_captured_prefix(fields: Fields, n: int)
    requires
        0 <= n <= fields.len(),
        captured(fields.take(n)) is Err,
    ensures
        captured(fields) == captured(fields.take(n)),
    decreases fields.len(),
{
    if n < fields.len() {
        assert(fields.drop_last().take(n) =~= fields.take(n));
        lemma_captured_prefix(fields.drop_last(), n);
    } else {
        assert(fields.take(n) =~= fields);
    }
}

/// Among fields of the schema no key is found that the schema does not know.
pub proof fn lemma_lookup_unknown(own: Fields, key: Seq<char>)
    requires
        all_known(own),
        !StatusView::known(key),
    ensures
        lookup(own, key) is None,
{
    reveal(all_known);
    lemma_lookup_absent(own, key);
}

impl StatusView {
    /// Each custom field stands in the written status once, under its name
    /// behind `ext_`, and holds its tree.
    pub proof fn lemma_custom_field(self, i: int)
        requires
            sorted_names(self.extensions),
            0 <= i < self.extensions.len(),
        ensures
            lookup(self.fields(), prefixed(self.extensions[i].0)) == Some(self.extensions[i].1),
            self.fields() == self.own_fields() + extension_fields(self.extensions),
            lookup(self.own_fields(), prefixed(self.extensions[i].0)) is None,
            forall|j: int|
                0 <= j < self.extensions.len() && j != i ==> (#[trigger] extension_fields(
                    self.extensions,
                )[j]).0 != prefixed(self.extensions[i].0),
    {
        let key = prefixed(self.extensions[i].0);
        self.lemma_own_fields_known();
        Self::lemma_known_without_prefix();
        lemma_bare_prefixed(self.extensions[i].0);
        lemma_lookup_unknown(self.own_fields(), key);
        lemma_sorted_unique(self.extensions);
        lemma_written_once(self.extensions, i);
        lemma_lookup_add(self.own_fields(), extension_fields(self.extensions), key);
    }
}

} // verus!
