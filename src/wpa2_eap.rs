//! WPA2-Enterprise networks, which authenticate through EAP.
use vstd::prelude::*;
use crate::utils::{
    encode_field, escape, escaped, field, frame, hidden_str, hidden_token, is_framed,
    lemma_field_closed, lemma_frame_is_framed, opt_view,
};

verus! {

/// Enterprise configuration details for Wi-Fi.
/// Stores details about the EAP method and any associated credentials.
#[allow(non_camel_case_types)]
pub struct WPA2_EAP {
    ssid: String,
    is_hidden: bool,
    identity: String,
    anonymous_identity: String,
    password: String,
    eap_method: EAP,
    phase_2_method: PHASE2METHOD,
}

/// What a `WPA2_EAP` holds.
#[allow(non_camel_case_types)]
pub struct WPA2_EAPView {
    pub ssid: Seq<char>,
    pub is_hidden: bool,
    pub identity: Seq<char>,
    pub anonymous_identity: Seq<char>,
    pub password: Seq<char>,
    pub eap_method: EAP,
    pub phase_2_method: PHASE2METHOD,
}

impl View for WPA2_EAP {
    type V = WPA2_EAPView;

    closed spec fn view(&self) -> WPA2_EAPView {
        WPA2_EAPView {
            ssid: self.ssid@,
            is_hidden: self.is_hidden,
            identity: self.identity@,
            anonymous_identity: self.anonymous_identity@,
            password: self.password@,
            eap_method: self.eap_method,
            phase_2_method: self.phase_2_method,
        }
    }
}

/// Collects the fields of an enterprise network before it is built.
#[allow(non_camel_case_types)]
pub struct WPA2_EAPBuilder {
    ssid: Option<String>,
    is_hidden: bool,
    identity: Option<String>,
    anonymous_identity: Option<String>,
    password: Option<String>,
    eap_method: EAP,
    phase_2_method: PHASE2METHOD,
}

/// What a `WPA2_EAPBuilder` has been given so far.
#[allow(non_camel_case_types)]
pub struct WPA2_EAPBuilderView {
    pub ssid: Option<Seq<char>>,
    pub is_hidden: bool,
    pub identity: Option<Seq<char>>,
    pub anonymous_identity: Option<Seq<char>>,
    pub password: Option<Seq<char>>,
    pub eap_method: EAP,
    pub phase_2_method: PHASE2METHOD,
}

impl View for WPA2_EAPBuilder {
    type V = WPA2_EAPBuilderView;

    closed spec fn view(&self) -> WPA2_EAPBuilderView {
        WPA2_EAPBuilderView {
            ssid: opt_view(self.ssid),
            is_hidden: self.is_hidden,
            identity: opt_view(self.identity),
            anonymous_identity: opt_view(self.anonymous_identity),
            password: opt_view(self.password),
            eap_method: self.eap_method,
            phase_2_method: self.phase_2_method,
        }
    }
}

/// The state of a new builder: nothing set, not hidden, no EAP or phase 2 method.
pub open spec fn empty_wpa2_eap_builder() -> WPA2_EAPBuilderView {
    WPA2_EAPBuilderView {
        ssid: None,
        is_hidden: false,
        identity: None,
        anonymous_identity: None,
        password: None,
        eap_method: EAP::NoMethod,
        phase_2_method: PHASE2METHOD::NoMethod,
    }
}

#[allow(non_camel_case_types)]
#[derive(Debug, Clone, Copy, PartialEq, Eq, Structural)]
pub enum EAP {
    /// No EAP method used.
    NoMethod,
    /// EAP-Authentication and Key Agreement [RFC-4187]
    AKA,
    /// EAP-Authentication and Key Agreement Prime [RFC-5448]
    AKA_PRIME,
    /// Protected EAP
    PEAP,
    /// EAP-Password
    PWD,
    /// EAP-Subscriber Identity Module [RFC-4186]
    SIM,
    /// EAP-Transport Layer Security
    TLS,
    /// EAP-Tunneled Transport Layer Security
    TTLS,
    /// Hotspot 2.0 r2 OSEN
    UNAUTH_TLS,
    /// WAPI Certificate
    WAPI_CERT,
}

#[allow(non_camel_case_types)]
#[derive(Debug, Clone, Copy, PartialEq, Eq, Structural)]
pub enum PHASE2METHOD {
    /// No phase 2 method used.
    NoMethod,
    /// EAP-Authentication and Key Agreement [RFC-4187]
    AKA,
    /// EAP-Authentication and Key Agreement Prime [RFC-5448]
    AKA_PRIME,
    /// Generic Token Card
    GTC,
    /// Microsoft Challenge Handshake Authentication Protocol
    MSCHAP,
    /// Microsoft Challenge Handshake Authentication Protocol v2
    MSCHAPV2,
    /// Password Authentication Protocol
    PAP,
    /// EAP-Subscriber Identity Module [RFC-4186]
    SIM,
}

/// Why an enterprise network could not be built. `NoEAPMethod` and
/// `NoPhaseTwoMethod` are never returned: both methods default to `NoMethod`.
#[allow(non_camel_case_types)]
#[derive(Debug, Clone, Copy, PartialEq, Eq, Structural)]
pub enum WPA2_EAPError {
    NoSSID,
    NoPassword,
    NoIdentity,
    NoAnonymousIdentity,
    NoEAPMethod,
    NoPhaseTwoMethod,
}

/// How an EAP method is written; `NoMethod` is written as nothing.
pub open spec fn eap_token(m: EAP) -> Seq<char> {
    match m {
        EAP::NoMethod => ""@,
        EAP::AKA => "AKA"@,
        EAP::AKA_PRIME => "AKA_PRIME"@,
        EAP::PEAP => "PEAP"@,
        EAP::PWD => "PWD"@,
        EAP::SIM => "SIM"@,
        EAP::TLS => "TLS"@,
        EAP::TTLS => "TTLS"@,
        EAP::UNAUTH_TLS => "UNAUTH_TLS"@,
        EAP::WAPI_CERT => "WAPI_CERT"@,
    }
}

/// How a phase 2 method is written; `NoMethod` is written as nothing.
pub open spec fn phase_2_token(m: PHASE2METHOD) -> Seq<char> {
    match m {
        PHASE2METHOD::NoMethod => ""@,
        PHASE2METHOD::AKA => "AKA"@,
        PHASE2METHOD::AKA_PRIME => "AKA_PRIME"@,
        PHASE2METHOD::GTC => "GTC"@,
        PHASE2METHOD::MSCHAP => "MSCHAP"@,
        PHASE2METHOD::MSCHAPV2 => "MSCHAPV2"@,
        PHASE2METHOD::PAP => "PAP"@,
        PHASE2METHOD::SIM => "SIM"@,
    }
}

/// The fields of an enterprise payload after its type, in order.
pub open spec fn wpa2_eap_fields(c: WPA2_EAPView) -> Seq<char> {
    field("S"@, escaped(c.ssid)) + field("H"@, hidden_token(c.is_hidden)) + field(
        "I"@,
        escaped(c.identity),
    ) + field("A"@, escaped(c.anonymous_identity)) + field("P"@, escaped(c.password)) + field(
        "E"@,
        eap_token(c.eap_method),
    ) + field("PH2"@, phase_2_token(c.phase_2_method))
}

/// The payload of an enterprise network.
pub open spec fn wpa2_eap_payload(c: WPA2_EAPView) -> Seq<char> {
    frame("WPA2-EAP"@, wpa2_eap_fields(c))
}

/// The first field that a builder still lacks, in the order SSID, identity,
/// anonymous identity, password.
pub open spec fn wpa2_eap_error(b: WPA2_EAPBuilderView) -> WPA2_EAPError {
    if b.ssid is None {
        WPA2_EAPError::NoSSID
    } else if b.identity is None {
        WPA2_EAPError::NoIdentity
    } else if b.anonymous_identity is None {
        WPA2_EAPError::NoAnonymousIdentity
    } else {
        WPA2_EAPError::NoPassword
    }
}

/// Whether a builder has every field that an enterprise network needs.
pub open spec fn wpa2_eap_complete(b: WPA2_EAPBuilderView) -> bool {
    &&& b.ssid is Some
    &&& b.identity is Some
    &&& b.anonymous_identity is Some
    &&& b.password is Some
}

impl WPA2_EAP {
    /// An empty builder.
    pub fn builder() -> (r: WPA2_EAPBuilder)
        ensures
            r@ == empty_wpa2_eap_builder(),
    {
        WPA2_EAPBuilder::new()
    }

    /// The payload
    /// `WIFI:T:WPA2-EAP;S:<ssid>;H:<hidden>;I:<identity>;A:<anonymous identity>;P:<password>;E:<eap>;PH2:<phase 2>;;`.
    pub fn encode(&self) -> (r: String)
        ensures
            r@ == wpa2_eap_payload(self@),
            is_framed(r@),
    {
        let mut r = String::from_str("WIFI:");
        r.append(self.encode_type().as_str());
        r.append(self.encode_ssid().as_str());
        r.append(self.encode_hidden().as_str());
        r.append(self.encode_identity().as_str());
        r.append(self.encode_anonymous_identity().as_str());
        r.append(self.encode_password().as_str());
        r.append(self.encode_eap_method().as_str());
        r.append(self.encode_phase_2_method().as_str());
        r.append(";");
        proof {
            let f = wpa2_eap_fields(self@);
            let last = field("PH2"@, phase_2_token(self@.phase_2_method));
            lemma_field_closed("PH2"@, phase_2_token(self@.phase_2_method));
            assert(f.last() == last.last());
            lemma_frame_is_framed("WPA2-EAP"@, f);
        }
        assert(r@ =~= wpa2_eap_payload(self@));
        r
    }

    fn encode_type(&self) -> (r: String)
        ensures
            r@ == field("T"@, "WPA2-EAP"@),
    {
        encode_field("T", "WPA2-EAP")
    }

    fn encode_ssid(&self) -> (r: String)
        ensures
            r@ == field("S"@, escaped(self@.ssid)),
    {
        encode_field("S", escape(self.ssid.as_str()).as_str())
    }

    fn encode_password(&self) -> (r: String)
        ensures
            r@ == field("P"@, escaped(self@.password)),
    {
        encode_field("P", escape(self.password.as_str()).as_str())
    }

    fn encode_hidden(&self) -> (r: String)
        ensures
            r@ == field("H"@, hidden_token(self@.is_hidden)),
    {
        encode_field("H", hidden_str(self.is_hidden))
    }

    fn encode_identity(&self) -> (r: String)
        ensures
            r@ == field("I"@, escaped(self@.identity)),
    {
        encode_field("I", escape(self.identity.as_str()).as_str())
    }

    fn encode_anonymous_identity(&self) -> (r: String)
        ensures
            r@ == field("A"@, escaped(self@.anonymous_identity)),
    {
        encode_field("A", escape(self.anonymous_identity.as_str()).as_str())
    }

    fn encode_eap_method(&self) -> (r: String)
        ensures
            r@ == field("E"@, eap_token(self@.eap_method)),
    {
        let eap = match self.eap_method {
            EAP::NoMethod => "",
            EAP::AKA => "AKA",
            EAP::AKA_PRIME => "AKA_PRIME",
            EAP::PEAP => "PEAP",
            EAP::PWD => "PWD",
            EAP::SIM => "SIM",
            EAP::TLS => "TLS",
            EAP::TTLS => "TTLS",
            EAP::UNAUTH_TLS => "UNAUTH_TLS",
            EAP::WAPI_CERT => "WAPI_CERT",
        };
        encode_field("E", eap)
    }

    fn encode_phase_2_method(&self) -> (r: String)
        ensures
            r@ == field("PH2"@, phase_2_token(self@.phase_2_method)),
    {
        let p2m = match self.phase_2_method {
            PHASE2METHOD::NoMethod => "",
            PHASE2METHOD::AKA => "AKA",
            PHASE2METHOD::AKA_PRIME => "AKA_PRIME",
            PHASE2METHOD::GTC => "GTC",
            PHASE2METHOD::MSCHAP => "MSCHAP",
            PHASE2METHOD::MSCHAPV2 => "MSCHAPV2",
            PHASE2METHOD::PAP => "PAP",
            PHASE2METHOD::SIM => "SIM",
        };
        encode_field("PH2", p2m)
    }
}

impl WPA2_EAPBuilder {
    /// An empty builder: nothing set, not hidden, no EAP or phase 2 method.
    pub fn new() -> (r: Self)
        ensures
            r@ == empty_wpa2_eap_builder(),
    {
        Self {
            ssid: None,
            is_hidden: false,
            identity: None,
            anonymous_identity: None,
            password: None,
            eap_method: EAP::NoMethod,
            phase_2_method: PHASE2METHOD::NoMethod,
        }
    }

    /// Sets the SSID, replacing any earlier one.
    pub fn ssid(&mut self, s: &str) -> (r: &mut Self)
        ensures
            r@ == (WPA2_EAPBuilderView { ssid: Some(s@), ..old(self)@ }),
            *final(self) == *final(r),
    {
        self.ssid = Some(s.to_owned());
        self
    }

    /// Sets the password, replacing any earlier one.
    pub fn password(&mut self, pwd: &str) -> (r: &mut Self)
        ensures
            r@ == (WPA2_EAPBuilderView { password: Some(pwd@), ..old(self)@ }),
            *final(self) == *final(r),
    {
        self.password = Some(pwd.to_owned());
        self
    }

    /// Sets whether the network is hidden.
    pub fn hidden(&mut self, h: bool) -> (r: &mut Self)
        ensures
            r@ == (WPA2_EAPBuilderView { is_hidden: h, ..old(self)@ }),
            *final(self) == *final(r),
    {
        self.is_hidden = h;
        self
    }

    /// Sets the identity, replacing any earlier one.
    pub fn identity(&mut self, idnty: &str) -> (r: &mut Self)
        ensures
            r@ == (WPA2_EAPBuilderView { identity: Some(idnty@), ..old(self)@ }),
            *final(self) == *final(r),
    {
        self.identity = Some(idnty.to_owned());
        self
    }

    /// Sets the anonymous identity, replacing any earlier one.
    pub fn anonymous_identity(&mut self, idnty: &str) -> (r: &mut Self)
        ensures
            r@ == (WPA2_EAPBuilderView { anonymous_identity: Some(idnty@), ..old(self)@ }),
            *final(self) == *final(r),
    {
        self.anonymous_identity = Some(idnty.to_owned());
        self
    }

    /// Sets the EAP method.
    pub fn eap_method(&mut self, eap: EAP) -> (r: &mut Self)
        ensures
            r@ == (WPA2_EAPBuilderView { eap_method: eap, ..old(self)@ }),
            *final(self) == *final(r),
    {
        self.eap_method = eap;
        self
    }

    /// Sets the phase 2 method.
    pub fn phase_2_method(&mut self, p2m: PHASE2METHOD) -> (r: &mut Self)
        ensures
            r@ == (WPA2_EAPBuilderView { phase_2_method: p2m, ..old(self)@ }),
            *final(self) == *final(r),
    {
        self.phase_2_method = p2m;
        self
    }

    /// The configuration, once the SSID, identity, anonymous identity and
    /// password have all been given; otherwise the first of them that is missing.
    pub fn build(&self) -> (r: Result<WPA2_EAP, WPA2_EAPError>)
        ensures
            match r {
                Ok(c) => wpa2_eap_complete(self@) && c@ == (WPA2_EAPView {
                    ssid: self@.ssid->0,
                    is_hidden: self@.is_hidden,
                    identity: self@.identity->0,
                    anonymous_identity: self@.anonymous_identity->0,
                    password: self@.password->0,
                    eap_method: self@.eap_method,
                    phase_2_method: self@.phase_2_method,
                }),
                Err(e) => !wpa2_eap_complete(self@) && e == wpa2_eap_error(self@),
            },
    {
        let ssid = match &self.ssid {
            Some(s) => s.clone(),
            None => return Err(WPA2_EAPError::NoSSID),
        };
        let identity = match &self.identity {
            Some(s) => s.clone(),
            None => return Err(WPA2_EAPError::NoIdentity),
        };
        let anonymous_identity = match &self.anonymous_identity {
            Some(s) => s.clone(),
            None => return Err(WPA2_EAPError::NoAnonymousIdentity),
        };
        let password = match &self.password {
            Some(s) => s.clone(),
            None => return Err(WPA2_EAPError::NoPassword),
        };
        Ok(
            WPA2_EAP {
                ssid,
                is_hidden: self.is_hidden,
                identity,
                anonymous_identity,
                password,
                eap_method: self.eap_method,
                phase_2_method: self.phase_2_method,
            },
        )
    }
}

} // verus!
