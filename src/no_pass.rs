//! Open networks, which need no password.
use vstd::prelude::*;
use crate::utils::{
    encode_field, escape, escaped, field, frame, hidden_str, hidden_token, is_framed,
    lemma_field_closed, lemma_frame_is_framed, opt_view,
};

verus! {

/// A built open-network configuration.
pub struct NoPass {
    ssid: String,
    is_hidden: bool,
}

/// What a `NoPass` holds.
pub struct NoPassView {
    pub ssid: Seq<char>,
    pub is_hidden: bool,
}

impl View for NoPass {
    type V = NoPassView;

    closed spec fn view(&self) -> NoPassView {
        NoPassView { ssid: self.ssid@, is_hidden: self.is_hidden }
    }
}

/// The payload of an open network.
pub open spec fn no_pass_payload(c: NoPassView) -> Seq<char> {
    frame("nopass"@, field("S"@, escaped(c.ssid)) + field("H"@, hidden_token(c.is_hidden)))
}

/// Collects the fields of an open network before it is built.
pub struct NoPassBuilder {
    ssid: Option<String>,
    is_hidden: bool,
}

/// What a `NoPassBuilder` has been given so far.
pub struct NoPassBuilderView {
    pub ssid: Option<Seq<char>>,
    pub is_hidden: bool,
}

impl View for NoPassBuilder {
    type V = NoPassBuilderView;

    closed spec fn view(&self) -> NoPassBuilderView {
        NoPassBuilderView {
            ssid: opt_view(self.ssid),
            is_hidden: self.is_hidden,
        }
    }
}

/// Why an open network could not be built.
#[derive(Debug, Clone, Copy, PartialEq, Eq, Structural)]
pub enum NoPassErrors {
    NoSSID,
}

impl NoPass {
    /// An empty builder.
    pub fn builder() -> (r: NoPassBuilder)
        ensures
            r@ == (NoPassBuilderView { ssid: None, is_hidden: false }),
    {
        NoPassBuilder::new()
    }

    /// The payload `WIFI:T:nopass;S:<ssid>;H:<hidden>;;`.
    pub fn encode(&self) -> (r: String)
        ensures
            r@ == no_pass_payload(self@),
            is_framed(r@),
    {
        let mut r = String::from_str("WIFI:");
        r.append(self.encode_type().as_str());
        r.append(self.encode_ssid().as_str());
        r.append(self.encode_hidden().as_str());
        r.append(";");
        proof {
            let s = field("S"@, escaped(self@.ssid));
            let h = field("H"@, hidden_token(self@.is_hidden));
            lemma_field_closed("H"@, hidden_token(self@.is_hidden));
            assert((s + h).last() == h.last());
            lemma_frame_is_framed("nopass"@, s + h);
        }
        assert(r@ =~= no_pass_payload(self@));
        r
    }

    fn encode_type(&self) -> (r: String)
        ensures
            r@ == field("T"@, "nopass"@),
    {
        encode_field("T", "nopass")
    }

    fn encode_ssid(&self) -> (r: String)
        ensures
            r@ == field("S"@, escaped(self@.ssid)),
    {
        encode_field("S", escape(self.ssid.as_str()).as_str())
    }

    fn encode_hidden(&self) -> (r: String)
        ensures
            r@ == field("H"@, hidden_token(self@.is_hidden)),
    {
        encode_field("H", hidden_str(self.is_hidden))
    }
}

impl NoPassBuilder {
    /// An empty builder: no SSID, not hidden.
    pub fn new() -> (r: Self)
        ensures
            r@ == (NoPassBuilderView { ssid: None, is_hidden: false }),
    {
        NoPassBuilder { ssid: None, is_hidden: false }
    }

    /// Sets the SSID, replacing any earlier one.
    pub fn ssid(&mut self, s: &str) -> (r: &mut Self)
        ensures
            r@ == (NoPassBuilderView { ssid: Some(s@), ..old(self)@ }),
            *final(self) == *final(r),
    {
        self.ssid = Some(s.to_owned());
        self
    }

    /// Sets whether the network is hidden.
    pub fn hidden(&mut self, h: bool) -> (r: &mut Self)
        ensures
            r@ == (NoPassBuilderView { is_hidden: h, ..old(self)@ }),
            *final(self) == *final(r),
    {
        self.is_hidden = h;
        self
    }

    /// The configuration, once an SSID has been given.
    pub fn build(&self) -> (r: Result<NoPass, NoPassErrors>)
        ensures
            match r {
                Ok(c) => self@.ssid is Some && c@ == (NoPassView {
                    ssid: self@.ssid->0,
                    is_hidden: self@.is_hidden,
                }),
                Err(e) => self@.ssid is None && e == NoPassErrors::NoSSID,
            },
    {
        match &self.ssid {
            None => Err(NoPassErrors::NoSSID),
            Some(ssid) => Ok(NoPass { ssid: ssid.clone(), is_hidden: self.is_hidden }),
        }
    }
}

} // verus!
