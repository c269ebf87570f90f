//! Networks secured with WPA or WPA2 and a shared password.
use vstd::prelude::*;
use crate::utils::{
    encode_field, escape, escaped, field, frame, hidden_str, hidden_token, is_framed,
    lemma_field_closed, lemma_frame_is_framed, opt_view,
};

verus! {

/// A built WPA configuration.
pub struct WPA {
    ssid: String,
    password: String,
    is_hidden: bool,
}

/// What a `WPA` holds.
pub struct WPAView {
    pub ssid: Seq<char>,
    pub password: Seq<char>,
    pub is_hidden: bool,
}

impl View for WPA {
    type V = WPAView;

    closed spec fn view(&self) -> WPAView {
        WPAView { ssid: self.ssid@, password: self.password@, is_hidden: self.is_hidden }
    }
}

/// The payload of a WPA network.
pub open spec fn wpa_payload(c: WPAView) -> Seq<char> {
    frame(
        "WPA"@,
        field("S"@, escaped(c.ssid)) + field("P"@, escaped(c.password)) + field(
            "H"@,
            hidden_token(c.is_hidden),
        ),
    )
}

/// Collects the fields of a WPA network before it is built.
pub struct WPABuilder {
    ssid: Option<String>,
    password: Option<String>,
    is_hidden: bool,
}

/// What a `WPABuilder` has been given so far.
pub struct WPABuilderView {
    pub ssid: Option<Seq<char>>,
    pub password: Option<Seq<char>>,
    pub is_hidden: bool,
}

impl View for WPABuilder {
    type V = WPABuilderView;

    closed spec fn view(&self) -> WPABuilderView {
        WPABuilderView {
            ssid: opt_view(self.ssid),
            password: opt_view(self.password),
            is_hidden: self.is_hidden,
        }
    }
}

/// Why a WPA network could not be built.
#[derive(Debug, Clone, Copy, PartialEq, Eq, Structural)]
pub enum WPAErrors {
    NoSSID,
    NoPassword,
    NoPasswordAndSSID,
}

/// The error for a builder that lacks the SSID, the password, or both.
pub open spec fn wpa_error(b: WPABuilderView) -> WPAErrors {
    if b.ssid is None && b.password is None {
        WPAErrors::NoPasswordAndSSID
    } else if b.ssid is None {
        WPAErrors::NoSSID
    } else {
        WPAErrors::NoPassword
    }
}

impl WPA {
    /// An empty builder.
    pub fn builder() -> (r: WPABuilder)
        ensures
            r@ == (WPABuilderView { ssid: None, password: None, is_hidden: false }),
    {
        WPABuilder::new()
    }

    /// The payload `WIFI:T:WPA;S:<ssid>;P:<password>;H:<hidden>;;`.
    pub fn encode(&self) -> (r: String)
        ensures
            r@ == wpa_payload(self@),
            is_framed(r@),
    {
        let mut r = String::from_str("WIFI:");
        r.append(self.encode_type().as_str());
        r.append(self.encode_ssid().as_str());
        r.append(self.encode_password().as_str());
        r.append(self.encode_hidden().as_str());
        r.append(";");
        proof {
            let s = field("S"@, escaped(self@.ssid));
            let p = field("P"@, escaped(self@.password));
            let h = field("H"@, hidden_token(self@.is_hidden));
            lemma_field_closed("H"@, hidden_token(self@.is_hidden));
            assert((s + p + h).last() == h.last());
            lemma_frame_is_framed("WPA"@, s + p + h);
        }
        assert(r@ =~= wpa_payload(self@));
        r
    }

    fn encode_type(&self) -> (r: String)
        ensures
            r@ == field("T"@, "WPA"@),
    {
        encode_field("T", "WPA")
    }

    fn encode_ssid(&self) -> (r: String)
        ensures
            r@ == field("S"@, escaped(self@.ssid)),
    {
        encode_field("S", escape(self.ssid.as_str()).as_str())
    }

    fn encode_password(&self) -> (r: String)
        ensures
            r@ == field("P"@, escaped(self@.password)),
    {
        encode_field("P", escape(self.password.as_str()).as_str())
    }

    fn encode_hidden(&self) -> (r: String)
        ensures
            r@ == field("H"@, hidden_token(self@.is_hidden)),
    {
        encode_field("H", hidden_str(self.is_hidden))
    }
}

impl WPABuilder {
    /// An empty builder: no SSID, no password, not hidden.
    pub fn new() -> (r: Self)
        ensures
            r@ == (WPABuilderView { ssid: None, password: None, is_hidden: false }),
    {
        WPABuilder { ssid: None, password: None, is_hidden: false }
    }

    /// Sets the SSID, replacing any earlier one.
    pub fn ssid(&mut self, s: &str) -> (r: &mut Self)
        ensures
            r@ == (WPABuilderView { ssid: Some(s@), ..old(self)@ }),
            *final(self) == *final(r),
    {
        self.ssid = Some(s.to_owned());
        self
    }

    /// Sets the password, replacing any earlier one.
    pub fn password(&mut self, pwd: &str) -> (r: &mut Self)
        ensures
            r@ == (WPABuilderView { password: Some(pwd@), ..old(self)@ }),
            *final(self) == *final(r),
    {
        self.password = Some(pwd.to_owned());
        self
    }

    /// Sets whether the network is hidden.
    pub fn hidden(&mut self, h: bool) -> (r: &mut Self)
        ensures
            r@ == (WPABuilderView { is_hidden: h, ..old(self)@ }),
            *final(self) == *final(r),
    {
        self.is_hidden = h;
        self
    }

    /// The configuration, once both the SSID and the password have been given.
    pub fn build(&self) -> (r: Result<WPA, WPAErrors>)
        ensures
            match r {
                Ok(c) => self@.ssid is Some && self@.password is Some && c@ == (WPAView {
                    ssid: self@.ssid->0,
                    password: self@.password->0,
                    is_hidden: self@.is_hidden,
                }),
                Err(e) => (self@.ssid is None || self@.password is None) && e == wpa_error(self@),
            },
    {
        match (&self.ssid, &self.password) {
            (None, None) => Err(WPAErrors::NoPasswordAndSSID),
            (None, Some(_)) => Err(WPAErrors::NoSSID),
            (Some(_), None) => Err(WPAErrors::NoPassword),
            (Some(ssid), Some(password)) => Ok(
                WPA { ssid: ssid.clone(), password: password.clone(), is_hidden: self.is_hidden },
            ),
        }
    }
}

impl Default for WPABuilder {
    fn default() -> (r: Self)
        ensures
            r@ == (WPABuilderView { ssid: None, password: None, is_hidden: false }),
    {
        Self::new()
    }
}

} // verus!
