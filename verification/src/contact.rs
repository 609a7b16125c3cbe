//! The ways to reach a space and its people.

use crate::codec::{
    decoded, get_some, group_lookup, lemma_optional, lookup, maybe, one, optional, put_some,
    written, Codec, DecodeError, Fields, Model,
};
use crate::value::{group_value_view, Value, ValueView};
use vstd::prelude::*;

verus! {

/// A person who holds a key to a space.
#[derive(Debug, Default, PartialEq, Eq)]
pub struct Keymaster {
    pub name: Option<String>,
    pub irc_nick: Option<String>,
    pub phone: Option<String>,
    pub email: Option<String>,
    pub twitter: Option<String>,
    pub xmpp: Option<String>,
    pub mastodon: Option<String>,
}

/// The mathematical model of a [`Keymaster`].
pub struct KeymasterView {
    pub name: Option<Seq<char>>,
    pub irc_nick: Option<Seq<char>>,
    pub phone: Option<Seq<char>>,
    pub email: Option<Seq<char>>,
    pub twitter: Option<Seq<char>>,
    pub xmpp: Option<Seq<char>>,
    pub mastodon: Option<Seq<char>>,
}

impl DeepView for Keymaster {
    type V = KeymasterView;

    open spec fn deep_view(&self) -> KeymasterView {
        KeymasterView {
            name: self.name.deep_view(),
            irc_nick: self.irc_nick.deep_view(),
            phone: self.phone.deep_view(),
            email: self.email.deep_view(),
            twitter: self.twitter.deep_view(),
            xmpp: self.xmpp.deep_view(),
            mastodon: self.mastodon.deep_view(),
        }
    }
}

impl View for Keymaster {
    type V = KeymasterView;

    open spec fn view(&self) -> KeymasterView {
        self.deep_view()
    }
}

impl Clone for Keymaster {
    fn clone(&self) -> (r: Self)
        ensures
            r@ == self@,
    {
        let name = self.name.clone();
        assert(name.deep_view() == self.name.deep_view());
        let irc_nick = self.irc_nick.clone();
        assert(irc_nick.deep_view() == self.irc_nick.deep_view());
        let phone = self.phone.clone();
        assert(phone.deep_view() == self.phone.deep_view());
        let email = self.email.clone();
        assert(email.deep_view() == self.email.deep_view());
        let twitter = self.twitter.clone();
        assert(twitter.deep_view() == self.twitter.deep_view());
        let xmpp = self.xmpp.clone();
        assert(xmpp.deep_view() == self.xmpp.deep_view());
        let mastodon = self.mastodon.clone();
        assert(mastodon.deep_view() == self.mastodon.deep_view());
        Keymaster { name, irc_nick, phone, email, twitter, xmpp, mastodon }
    }
}

impl KeymasterView {
    /// The fields of an object after this record was written behind `before`.
    #[verifier::opaque]
    pub open spec fn fields_after(self, before: Fields) -> Fields {
        before
            + maybe("name"@, self.name)
            + maybe("irc_nick"@, self.irc_nick)
            + maybe("phone"@, self.phone)
            + maybe("email"@, self.email)
            + maybe("twitter"@, self.twitter)
            + maybe("xmpp"@, self.xmpp)
            + maybe("mastodon"@, self.mastodon)
    }

    /// The fields that stand for this record.
    pub open spec fn fields(self) -> Fields {
        self.fields_after(Seq::empty())
    }

    /// The record that the fields of an object stand for, or the error of the
    /// first of its fields, in their order here, that cannot be read.
    #[verifier::opaque]
    pub open spec fn from_fields(fields: Fields) -> Result<Self, DecodeError> {
        let name = optional::<Seq<char>>(fields, "name");
        let irc_nick = optional::<Seq<char>>(fields, "irc_nick");
        let phone = optional::<Seq<char>>(fields, "phone");
        let email = optional::<Seq<char>>(fields, "email");
        let twitter = optional::<Seq<char>>(fields, "twitter");
        let xmpp = optional::<Seq<char>>(fields, "xmpp");
        let mastodon = optional::<Seq<char>>(fields, "mastodon");
        if name is Err {
            Err(name->Err_0)
        } else if irc_nick is Err {
            Err(irc_nick->Err_0)
        } else if phone is Err {
            Err(phone->Err_0)
        } else if email is Err {
            Err(email->Err_0)
        } else if twitter is Err {
            Err(twitter->Err_0)
        } else if xmpp is Err {
            Err(xmpp->Err_0)
        } else if mastodon is Err {
            Err(mastodon->Err_0)
        } else {
            Ok(KeymasterView {
                name: name->Ok_0,
                irc_nick: irc_nick->Ok_0,
                phone: phone->Ok_0,
                email: email->Ok_0,
                twitter: twitter->Ok_0,
                xmpp: xmpp->Ok_0,
                mastodon: mastodon->Ok_0,
            })
        }
    }

    /// What the written record holds under each of its keys: the tree of a
    /// value that is set, and nothing for one that is left out.
    pub proof fn lemma_fields(self)
        ensures
            lookup(self.fields(), "name"@) == written(self.name),
            lookup(self.fields(), "irc_nick"@) == written(self.irc_nick),
            lookup(self.fields(), "phone"@) == written(self.phone),
            lookup(self.fields(), "email"@) == written(self.email),
            lookup(self.fields(), "twitter"@) == written(self.twitter),
            lookup(self.fields(), "xmpp"@) == written(self.xmpp),
            lookup(self.fields(), "mastodon"@) == written(self.mastodon),
    {
        broadcast use group_lookup;

        reveal(KeymasterView::fields_after);
        reveal_strlit("name");
        reveal_strlit("irc_nick");
        reveal_strlit("phone");
        reveal_strlit("email");
        reveal_strlit("twitter");
        reveal_strlit("xmpp");
        reveal_strlit("mastodon");
    }

    /// Fields that hold under each key of this record what the record writes
    /// there stand for this record.
    pub proof fn lemma_from_fields(self, fields: Fields)
        requires
            self.valid(),
            lookup(fields, "name"@) == written(self.name),
            lookup(fields, "irc_nick"@) == written(self.irc_nick),
            lookup(fields, "phone"@) == written(self.phone),
            lookup(fields, "email"@) == written(self.email),
            lookup(fields, "twitter"@) == written(self.twitter),
            lookup(fields, "xmpp"@) == written(self.xmpp),
            lookup(fields, "mastodon"@) == written(self.mastodon),
        ensures
            Self::from_fields(fields) == Ok::<Self, DecodeError>(self),
    {
        reveal(KeymasterView::from_fields);
        lemma_optional(fields, "name", self.name);
        lemma_optional(fields, "irc_nick", self.irc_nick);
        lemma_optional(fields, "phone", self.phone);
        lemma_optional(fields, "email", self.email);
        lemma_optional(fields, "twitter", self.twitter);
        lemma_optional(fields, "xmpp", self.xmpp);
        lemma_optional(fields, "mastodon", self.mastodon);
    }
}

impl Model for KeymasterView {
    open spec fn encode(self) -> ValueView {
        ValueView::Object(self.fields())
    }

    open spec fn decode(v: ValueView) -> Result<Self, DecodeError> {
        match v {
            ValueView::Object(fields) => Self::from_fields(fields),
            _ => Err(DecodeError::InvalidType),
        }
    }

    open spec fn valid(self) -> bool {
        true
    }

    proof fn lemma_round_trip(self) {
        self.lemma_fields();
        self.lemma_from_fields(self.fields());
    }
}

impl Keymaster {
    /// Appends the fields that stand for this record.
    pub fn put_fields(&self, fields: &mut Vec<(String, Value)>)
        ensures
            final(fields).deep_view() == self@.fields_after(old(fields).deep_view()),
    {
        reveal(KeymasterView::fields_after);
        put_some(fields, "name", &self.name);
        put_some(fields, "irc_nick", &self.irc_nick);
        put_some(fields, "phone", &self.phone);
        put_some(fields, "email", &self.email);
        put_some(fields, "twitter", &self.twitter);
        put_some(fields, "xmpp", &self.xmpp);
        put_some(fields, "mastodon", &self.mastodon);
    }

    /// Reads the record that the fields of an object stand for.
    pub fn from_fields(fields: &Vec<(String, Value)>) -> (r: Result<Self, DecodeError>)
        ensures
            decoded(r, KeymasterView::from_fields(fields.deep_view())),
    {
        reveal(KeymasterView::from_fields);
        let name = get_some::<String>(fields, "name")?;
        let irc_nick = get_some::<String>(fields, "irc_nick")?;
        let phone = get_some::<String>(fields, "phone")?;
        let email = get_some::<String>(fields, "email")?;
        let twitter = get_some::<String>(fields, "twitter")?;
        let xmpp = get_some::<String>(fields, "xmpp")?;
        let mastodon = get_some::<String>(fields, "mastodon")?;
        Ok(Keymaster { name, irc_nick, phone, email, twitter, xmpp, mastodon })
    }
}

impl Codec for Keymaster {
    fn to_value(&self) -> (r: Value) {
        broadcast use group_value_view;

        let mut fields: Vec<(String, Value)> = Vec::new();
        assert(fields.deep_view() =~= Seq::empty());
        self.put_fields(&mut fields);
        Value::Object(fields)
    }

    fn from_value(v: &Value) -> (r: Result<Self, DecodeError>) {
        broadcast use group_value_view;

        match v {
            Value::Object(fields) => Self::from_fields(fields),
            _ => Err(DecodeError::InvalidType),
        }
    }
}

/// The Google services of a space.
#[derive(Debug, Default, PartialEq, Eq)]
pub struct GoogleContact {
    pub plus: Option<String>,
}

/// The mathematical model of a [`GoogleContact`].
pub struct GoogleContactView {
    pub plus: Option<Seq<char>>,
}

impl DeepView for GoogleContact {
    type V = GoogleContactView;

    open spec fn deep_view(&self) -> GoogleContactView {
        GoogleContactView {
            plus: self.plus.deep_view(),
        }
    }
}

impl View for GoogleContact {
    type V = GoogleContactView;

    open spec fn view(&self) -> GoogleContactView {
        self.deep_view()
    }
}

impl Clone for GoogleContact {
    fn clone(&self) -> (r: Self)
        ensures
            r@ == self@,
    {
        let plus = self.plus.clone();
        GoogleContact { plus }
    }
}

impl GoogleContactView {
    /// The fields of an object after this record was written behind `before`.
    #[verifier::opaque]
    pub open spec fn fields_after(self, before: Fields) -> Fields {
        before
            + maybe("plus"@, self.plus)
    }

    /// The fields that stand for this record.
    pub open spec fn fields(self) -> Fields {
        self.fields_after(Seq::empty())
    }

    /// The record that the fields of an object stand for, or the error of the
    /// first of its fields, in their order here, that cannot be read.
    #[verifier::opaque]
    pub open spec fn from_fields(fields: Fields) -> Result<Self, DecodeError> {
        let plus = optional::<Seq<char>>(fields, "plus");
        if plus is Err {
            Err(plus->Err_0)
        } else {
            Ok(GoogleContactView {
                plus: plus->Ok_0,
            })
        }
    }

    /// What the written record holds under each of its keys: the tree of a
    /// value that is set, and nothing for one that is left out.
    pub proof fn lemma_fields(self)
        ensures
            lookup(self.fields(), "plus"@) == written(self.plus),
    {
        broadcast use group_lookup;

        reveal(GoogleContactView::fields_after);
        reveal_strlit("plus");
    }

    /// Fields that hold under each key of this record what the record writes
    /// there stand for this record.
    pub proof fn lemma_from_fields(self, fields: Fields)
        requires
            self.valid(),
            lookup(fields, "plus"@) == written(self.plus),
        ensures
            Self::from_fields(fields) == Ok::<Self, DecodeError>(self),
    {
        reveal(GoogleContactView::from_fields);
        lemma_optional(fields, "plus", self.plus);
    }
}

impl Model for GoogleContactView {
    open spec fn encode(self) -> ValueView {
        ValueView::Object(self.fields())
    }

    open spec fn decode(v: ValueView) -> Result<Self, DecodeError> {
        match v {
            ValueView::Object(fields) => Self::from_fields(fields),
            _ => Err(DecodeError::InvalidType),
        }
    }

    open spec fn valid(self) -> bool {
        true
    }

    proof fn lemma_round_trip(self) {
        self.lemma_fields();
        self.lemma_from_fields(self.fields());
    }
}

impl GoogleContact {
    /// Appends the fields that stand for this record.
    pub fn put_fields(&self, fields: &mut Vec<(String, Value)>)
        ensures
            final(fields).deep_view() == self@.fields_after(old(fields).deep_view()),
    {
        reveal(GoogleContactView::fields_after);
        put_some(fields, "plus", &self.plus);
    }

    /// Reads the record that the fields of an object stand for.
    pub fn from_fields(fields: &Vec<(String, Value)>) -> (r: Result<Self, DecodeError>)
        ensures
            decoded(r, GoogleContactView::from_fields(fields.deep_view())),
    {
        reveal(GoogleContactView::from_fields);
        let plus = get_some::<String>(fields, "plus")?;
        Ok(GoogleContact { plus })
    }
}

impl Codec for GoogleContact {
    fn to_value(&self) -> (r: Value) {
        broadcast use group_value_view;

        let mut fields: Vec<(String, Value)> = Vec::new();
        assert(fields.deep_view() =~= Seq::empty());
        self.put_fields(&mut fields);
        Value::Object(fields)
    }

    fn from_value(v: &Value) -> (r: Result<Self, DecodeError>) {
        broadcast use group_value_view;

        match v {
            Value::Object(fields) => Self::from_fields(fields),
            _ => Err(DecodeError::InvalidType),
        }
    }
}

/// The ways to reach a space.
#[derive(Debug, Default, PartialEq, Eq)]
pub struct Contact {
    pub phone: Option<String>,
    pub sip: Option<String>,
    pub keymasters: Option<Vec<Keymaster>>,
    pub irc: Option<String>,
    pub twitter: Option<String>,
    pub facebook: Option<String>,
    /// Gone in version 0.14.
    pub google: Option<GoogleContact>,
    pub identica: Option<String>,
    pub foursquare: Option<String>,
    pub email: Option<String>,
    pub ml: Option<String>,
    /// Up to version 0.13; `xmpp` since.
    pub jabber: Option<String>,
    pub xmpp: Option<String>,
    pub issue_mail: Option<String>,
    pub mumble: Option<String>,
    pub matrix: Option<String>,
    pub mastodon: Option<String>,
    pub gopher: Option<String>,
}

/// The mathematical model of a [`Contact`].
pub struct ContactView {
    pub phone: Option<Seq<char>>,
    pub sip: Option<Seq<char>>,
    pub keymasters: Option<Seq<KeymasterView>>,
    pub irc: Option<Seq<char>>,
    pub twitter: Option<Seq<char>>,
    pub facebook: Option<Seq<char>>,
    pub google: Option<GoogleContactView>,
    pub identica: Option<Seq<char>>,
    pub foursquare: Option<Seq<char>>,
    pub email: Option<Seq<char>>,
    pub ml: Option<Seq<char>>,
    pub jabber: Option<Seq<char>>,
    pub xmpp: Option<Seq<char>>,
    pub issue_mail: Option<Seq<char>>,
    pub mumble: Option<Seq<char>>,
    pub matrix: Option<Seq<char>>,
    pub mastodon: Option<Seq<char>>,
    pub gopher: Option<Seq<char>>,
}

impl DeepView for Contact {
    type V = ContactView;

    open spec fn deep_view(&self) -> ContactView {
        ContactView {
            phone: self.phone.deep_view(),
            sip: self.sip.deep_view(),
            keymasters: self.keymasters.deep_view(),
            irc: self.irc.deep_view(),
            twitter: self.twitter.deep_view(),
            facebook: self.facebook.deep_view(),
            google: self.google.deep_view(),
            identica: self.identica.deep_view(),
            foursquare: self.foursquare.deep_view(),
            email: self.email.deep_view(),
            ml: self.ml.deep_view(),
            jabber: self.jabber.deep_view(),
            xmpp: self.xmpp.deep_view(),
            issue_mail: self.issue_mail.deep_view(),
            mumble: self.mumble.deep_view(),
            matrix: self.matrix.deep_view(),
            mastodon: self.mastodon.deep_view(),
            gopher: self.gopher.deep_view(),
        }
    }
}

impl View for Contact {
    type V = ContactView;

    open spec fn view(&self) -> ContactView {
        self.deep_view()
    }
}

impl Clone for Contact {
    fn clone(&self) -> (r: Self)
        ensures
            r@ == self@,
    {
        let phone = self.phone.clone();
        assert(phone.deep_view() == self.phone.deep_view());
        let sip = self.sip.clone();
        assert(sip.deep_view() == self.sip.deep_view());
        let keymasters = self.keymasters.clone();
        assert(keymasters.deep_view() == self.keymasters.deep_view());
        let irc = self.irc.clone();
        assert(irc.deep_view() == self.irc.deep_view());
        let twitter = self.twitter.clone();
        assert(twitter.deep_view() == self.twitter.deep_view());
        let facebook = self.facebook.clone();
        assert(facebook.deep_view() == self.facebook.deep_view());
        let google = self.google.clone();
        assert(google.deep_view() == self.google.deep_view());
        let identica = self.identica.clone();
        assert(identica.deep_view() == self.identica.deep_view());
        let foursquare = self.foursquare.clone();
        assert(foursquare.deep_view() == self.foursquare.deep_view());
        let email = self.email.clone();
        assert(email.deep_view() == self.email.deep_view());
        let ml = self.ml.clone();
        assert(ml.deep_view() == self.ml.deep_view());
        let jabber = self.jabber.clone();
        assert(jabber.deep_view() == self.jabber.deep_view());
        let xmpp = self.xmpp.clone();
        assert(xmpp.deep_view() == self.xmpp.deep_view());
        let issue_mail = self.issue_mail.clone();
        assert(issue_mail.deep_view() == self.issue_mail.deep_view());
        let mumble = self.mumble.clone();
        assert(mumble.deep_view() == self.mumble.deep_view());
        let matrix = self.matrix.clone();
        assert(matrix.deep_view() == self.matrix.deep_view());
        let mastodon = self.mastodon.clone();
        assert(mastodon.deep_view() == self.mastodon.deep_view());
        let gopher = self.gopher.clone();
        assert(gopher.deep_view() == self.gopher.deep_view());
        Contact {
            phone,
            sip,
            keymasters,
            irc,
            twitter,
            facebook,
            google,
            identica,
            foursquare,
            email,
            ml,
            jabber,
            xmpp,
            issue_mail,
            mumble,
            matrix,
            mastodon,
            gopher,
        }
    }
}

impl ContactView {
    /// The fields of an object after this record was written behind `before`.
    #[verifier::opaque]
    pub open spec fn fields_after(self, before: Fields) -> Fields {
        before
            + maybe("phone"@, self.phone)
            + maybe("sip"@, self.sip)
            + maybe("keymasters"@, self.keymasters)
            + maybe("irc"@, self.irc)
            + maybe("twitter"@, self.twitter)
            + maybe("facebook"@, self.facebook)
            + maybe("google"@, self.google)
            + maybe("identica"@, self.identica)
            + maybe("foursquare"@, self.foursquare)
            + maybe("email"@, self.email)
            + maybe("ml"@, self.ml)
            + maybe("jabber"@, self.jabber)
            + maybe("xmpp"@, self.xmpp)
            + maybe("issue_mail"@, self.issue_mail)
            + maybe("mumble"@, self.mumble)
            + maybe("matrix"@, self.matrix)
            + maybe("mastodon"@, self.mastodon)
            + maybe("gopher"@, self.gopher)
    }

    /// The fields that stand for this record.
    pub open spec fn fields(self) -> Fields {
        self.fields_after(Seq::empty())
    }

    /// The record that the fields of an object stand for, or the error of the
    /// first of its fields, in their order here, that cannot be read.
    #[verifier::opaque]
    pub open spec fn from_fields(fields: Fields) -> Result<Self, DecodeError> {
        let phone = optional::<Seq<char>>(fields, "phone");
        let sip = optional::<Seq<char>>(fields, "sip");
        let keymasters = optional::<Seq<KeymasterView>>(fields, "keymasters");
        let irc = optional::<Seq<char>>(fields, "irc");
        let twitter = optional::<Seq<char>>(fields, "twitter");
        let facebook = optional::<Seq<char>>(fields, "facebook");
        let google = optional::<GoogleContactView>(fields, "google");
        let identica = optional::<Seq<char>>(fields, "identica");
        let foursquare = optional::<Seq<char>>(fields, "foursquare");
        let email = optional::<Seq<char>>(fields, "email");
        let ml = optional::<Seq<char>>(fields, "ml");
        let jabber = optional::<Seq<char>>(fields, "jabber");
        let xmpp = optional::<Seq<char>>(fields, "xmpp");
        let issue_mail = optional::<Seq<char>>(fields, "issue_mail");
        let mumble = optional::<Seq<char>>(fields, "mumble");
        let matrix = optional::<Seq<char>>(fields, "matrix");
        let mastodon = optional::<Seq<char>>(fields, "mastodon");
        let gopher = optional::<Seq<char>>(fields, "gopher");
        if phone is Err {
            Err(phone->Err_0)
        } else if sip is Err {
            Err(sip->Err_0)
        } else if keymasters is Err {
            Err(keymasters->Err_0)
        } else if irc is Err {
            Err(irc->Err_0)
        } else if twitter is Err {
            Err(twitter->Err_0)
        } else if facebook is Err {
            Err(facebook->Err_0)
        } else if google is Err {
            Err(google->Err_0)
        } else if identica is Err {
            Err(identica->Err_0)
        } else if foursquare is Err {
            Err(foursquare->Err_0)
        } else if email is Err {
            Err(email->Err_0)
        } else if ml is Err {
            Err(ml->Err_0)
        } else if jabber is Err {
            Err(jabber->Err_0)
        } else if xmpp is Err {
            Err(xmpp->Err_0)
        } else if issue_mail is Err {
            Err(issue_mail->Err_0)
        } else if mumble is Err {
            Err(mumble->Err_0)
        } else if matrix is Err {
            Err(matrix->Err_0)
        } else if mastodon is Err {
            Err(mastodon->Err_0)
        } else if gopher is Err {
            Err(gopher->Err_0)
        } else {
            Ok(ContactView {
                phone: phone->Ok_0,
                sip: sip->Ok_0,
                keymasters: keymasters->Ok_0,
                irc: irc->Ok_0,
                twitter: twitter->Ok_0,
                facebook: facebook->Ok_0,
                google: google->Ok_0,
                identica: identica->Ok_0,
                foursquare: foursquare->Ok_0,
                email: email->Ok_0,
                ml: ml->Ok_0,
                jabber: jabber->Ok_0,
                xmpp: xmpp->Ok_0,
                issue_mail: issue_mail->Ok_0,
                mumble: mumble->Ok_0,
                matrix: matrix->Ok_0,
                mastodon: mastodon->Ok_0,
                gopher: gopher->Ok_0,
            })
        }
    }

    /// What the written record holds under each of its keys: the tree of a
    /// value that is set, and nothing for one that is left out.
    pub proof fn lemma_fields(self)
        ensures
            lookup(self.fields(), "phone"@) == written(self.phone),
            lookup(self.fields(), "sip"@) == written(self.sip),
            lookup(self.fields(), "keymasters"@) == written(self.keymasters),
            lookup(self.fields(), "irc"@) == written(self.irc),
            lookup(self.fields(), "twitter"@) == written(self.twitter),
            lookup(self.fields(), "facebook"@) == written(self.facebook),
            lookup(self.fields(), "google"@) == written(self.google),
            lookup(self.fields(), "identica"@) == written(self.identica),
            lookup(self.fields(), "foursquare"@) == written(self.foursquare),
            lookup(self.fields(), "email"@) == written(self.email),
            lookup(self.fields(), "ml"@) == written(self.ml),
            lookup(self.fields(), "jabber"@) == written(self.jabber),
            lookup(self.fields(), "xmpp"@) == written(self.xmpp),
            lookup(self.fields(), "issue_mail"@) == written(self.issue_mail),
            lookup(self.fields(), "mumble"@) == written(self.mumble),
            lookup(self.fields(), "matrix"@) == written(self.matrix),
            lookup(self.fields(), "mastodon"@) == written(self.mastodon),
            lookup(self.fields(), "gopher"@) == written(self.gopher),
    {
        broadcast use group_lookup;

        reveal(ContactView::fields_after);
        reveal_strlit("phone");
        reveal_strlit("sip");
        reveal_strlit("keymasters");
        reveal_strlit("irc");
        reveal_strlit("twitter");
        reveal_strlit("facebook");
        reveal_strlit("google");
        reveal_strlit("identica");
        reveal_strlit("foursquare");
        reveal_strlit("email");
        reveal_strlit("ml");
        reveal_strlit("jabber");
        reveal_strlit("xmpp");
        reveal_strlit("issue_mail");
        reveal_strlit("mumble");
        reveal_strlit("matrix");
        reveal_strlit("mastodon");
        reveal_strlit("gopher");
    }

    /// Fields that hold under each key of this record what the record writes
    /// there stand for this record.
    pub proof fn lemma_from_fields(self, fields: Fields)
        requires
            self.valid(),
            lookup(fields, "phone"@) == written(self.phone),
            lookup(fields, "sip"@) == written(self.sip),
            lookup(fields, "keymasters"@) == written(self.keymasters),
            lookup(fields, "irc"@) == written(self.irc),
            lookup(fields, "twitter"@) == written(self.twitter),
            lookup(fields, "facebook"@) == written(self.facebook),
            lookup(fields, "google"@) == written(self.google),
            lookup(fields, "identica"@) == written(self.identica),
            lookup(fields, "foursquare"@) == written(self.foursquare),
            lookup(fields, "email"@) == written(self.email),
            lookup(fields, "ml"@) == written(self.ml),
            lookup(fields, "jabber"@) == written(self.jabber),
            lookup(fields, "xmpp"@) == written(self.xmpp),
            lookup(fields, "issue_mail"@) == written(self.issue_mail),
            lookup(fields, "mumble"@) == written(self.mumble),
            lookup(fields, "matrix"@) == written(self.matrix),
            lookup(fields, "mastodon"@) == written(self.mastodon),
            lookup(fields, "gopher"@) == written(self.gopher),
        ensures
            Self::from_fields(fields) == Ok::<Self, DecodeError>(self),
    {
        reveal(ContactView::from_fields);
        lemma_optional(fields, "phone", self.phone);
        lemma_optional(fields, "sip", self.sip);
        lemma_optional(fields, "keymasters", self.keymasters);
        lemma_optional(fields, "irc", self.irc);
        lemma_optional(fields, "twitter", self.twitter);
        lemma_optional(fields, "facebook", self.facebook);
        lemma_optional(fields, "google", self.google);
        lemma_optional(fields, "identica", self.identica);
        lemma_optional(fields, "foursquare", self.foursquare);
        lemma_optional(fields, "email", self.email);
        lemma_optional(fields, "ml", self.ml);
        lemma_optional(fields, "jabber", self.jabber);
        lemma_optional(fields, "xmpp", self.xmpp);
        lemma_optional(fields, "issue_mail", self.issue_mail);
        lemma_optional(fields, "mumble", self.mumble);
        lemma_optional(fields, "matrix", self.matrix);
        lemma_optional(fields, "mastodon", self.mastodon);
        lemma_optional(fields, "gopher", self.gopher);
    }
}

impl Model for ContactView {
    open spec fn encode(self) -> ValueView {
        ValueView::Object(self.fields())
    }

    open spec fn decode(v: ValueView) -> Result<Self, DecodeError> {
        match v {
            ValueView::Object(fields) => Self::from_fields(fields),
            _ => Err(DecodeError::InvalidType),
        }
    }

    open spec fn valid(self) -> bool {
        &&& self.keymasters matches Some(x) ==> x.valid()
        &&& self.google matches Some(x) ==> x.valid()
    }

    proof fn lemma_round_trip(self) {
        self.lemma_fields();
        self.lemma_from_fields(self.fields());
    }
}

impl Contact {
    /// Appends the fields that stand for this record.
    pub fn put_fields(&self, fields: &mut Vec<(String, Value)>)
        ensures
            final(fields).deep_view() == self@.fields_after(old(fields).deep_view()),
    {
        reveal(ContactView::fields_after);
        put_some(fields, "phone", &self.phone);
        put_some(fields, "sip", &self.sip);
        put_some(fields, "keymasters", &self.keymasters);
        put_some(fields, "irc", &self.irc);
        put_some(fields, "twitter", &self.twitter);
        put_some(fields, "facebook", &self.facebook);
        put_some(fields, "google", &self.google);
        put_some(fields, "identica", &self.identica);
        put_some(fields, "foursquare", &self.foursquare);
        put_some(fields, "email", &self.email);
        put_some(fields, "ml", &self.ml);
        put_some(fields, "jabber", &self.jabber);
        put_some(fields, "xmpp", &self.xmpp);
        put_some(fields, "issue_mail", &self.issue_mail);
        put_some(fields, "mumble", &self.mumble);
        put_some(fields, "matrix", &self.matrix);
        put_some(fields, "mastodon", &self.mastodon);
        put_some(fields, "gopher", &self.gopher);
    }

    /// Reads the record that the fields of an object stand for.
    pub fn from_fields(fields: &Vec<(String, Value)>) -> (r: Result<Self, DecodeError>)
        ensures
            decoded(r, ContactView::from_fields(fields.deep_view())),
    {
        reveal(ContactView::from_fields);
        let phone = get_some::<String>(fields, "phone")?;
        let sip = get_some::<String>(fields, "sip")?;
        let keymasters = get_some::<Vec<Keymaster>>(fields, "keymasters")?;
        let irc = get_some::<String>(fields, "irc")?;
        let twitter = get_some::<String>(fields, "twitter")?;
        let facebook = get_some::<String>(fields, "facebook")?;
        let google = get_some::<GoogleContact>(fields, "google")?;
        let identica = get_some::<String>(fields, "identica")?;
        let foursquare = get_some::<String>(fields, "foursquare")?;
        let email = get_some::<String>(fields, "email")?;
        let ml = get_some::<String>(fields, "ml")?;
        let jabber = get_some::<String>(fields, "jabber")?;
        let xmpp = get_some::<String>(fields, "xmpp")?;
        let issue_mail = get_some::<String>(fields, "issue_mail")?;
        let mumble = get_some::<String>(fields, "mumble")?;
        let matrix = get_some::<String>(fields, "matrix")?;
        let mastodon = get_some::<String>(fields, "mastodon")?;
        let gopher = get_some::<String>(fields, "gopher")?;
        Ok(Contact {
            phone,
            sip,
            keymasters,
            irc,
            twitter,
            facebook,
            google,
            identica,
            foursquare,
            email,
            ml,
            jabber,
            xmpp,
            issue_mail,
            mumble,
            matrix,
            mastodon,
            gopher,
        })
    }
}

impl Codec for Contact {
    fn to_value(&self) -> (r: Value) {
        broadcast use group_value_view;

        let mut fields: Vec<(String, Value)> = Vec::new();
        assert(fields.deep_view() =~= Seq::empty());
        self.put_fields(&mut fields);
        Value::Object(fields)
    }

    fn from_value(v: &Value) -> (r: Result<Self, DecodeError>) {
        broadcast use group_value_view;

        match v {
            Value::Object(fields) => Self::from_fields(fields),
            _ => Err(DecodeError::InvalidType),
        }
    }
}

} // verus!
