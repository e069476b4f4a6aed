//! The configuration snapshot that the rest of the library reads.

use vstd::prelude::*;

verus! {

/// Settings of one subscriber process, fixed for its lifetime.
#[derive(Debug)]
pub struct Config {
    /// `"tcp"`, `"ssl"` or `"mqtts"`; absent means unencrypted.
    pub scheme: Option<String>,
    pub broker_address: String,
    pub broker_port: u16,
    pub client_id: String,
    /// Topic filters; each pairs with the QoS request at the same position.
    pub topics: Vec<String>,
    /// Requested QoS integers.
    pub qos: Vec<i32>,
    /// Whether the broker discards earlier session state; absent means it does.
    pub clean_session: Option<bool>,
    pub username: Option<String>,
    pub password: Option<String>,
    /// PEM file of trusted CA certificates.
    pub ca_cert_path: Option<String>,
    /// PEM file holding the client certificate and its private key.
    pub client_combined_path: Option<String>,
}

/// A [`Config`] as mathematical values.
pub struct ConfigView {
    pub scheme: Option<Seq<char>>,
    pub broker_address: Seq<char>,
    pub broker_port: u16,
    pub client_id: Seq<char>,
    pub topics: Seq<Seq<char>>,
    pub qos: Seq<i32>,
    pub clean_session: Option<bool>,
    pub username: Option<Seq<char>>,
    pub password: Option<Seq<char>>,
    pub ca_cert_path: Option<Seq<char>>,
    pub client_combined_path: Option<Seq<char>>,
}

impl View for Config {
    type V = ConfigView;

    open spec fn view(&self) -> ConfigView {
        ConfigView {
            scheme: self.scheme.deep_view(),
            broker_address: self.broker_address@,
            broker_port: self.broker_port,
            client_id: self.client_id@,
            topics: self.topics.deep_view(),
            qos: self.qos@,
            clean_session: self.clean_session,
            username: self.username.deep_view(),
            password: self.password.deep_view(),
            ca_cert_path: self.ca_cert_path.deep_view(),
            client_combined_path: self.client_combined_path.deep_view(),
        }
    }
}

impl ConfigView {
    /// The scheme asks for an encrypted transport.
    pub open spec fn encrypted(self) -> bool {
        self.scheme == Some("ssl"@) || self.scheme == Some("mqtts"@)
    }

    /// The connection is encrypted but names no CA file, which earns a warning only.
    pub open spec fn lacks_ca(self) -> bool {
        self.encrypted() && self.ca_cert_path is None
    }

    /// The clean-session flag after defaulting.
    pub open spec fn clean(self) -> bool {
        match self.clean_session {
            Some(flag) => flag,
            None => true,
        }
    }

    /// User name and password to present, the password empty where none is given.
    pub open spec fn credentials(self) -> Option<(Seq<char>, Seq<char>)> {
        match self.username {
            Some(user) => Some(
                (
                    user,
                    match self.password {
                        Some(secret) => secret,
                        None => Seq::<char>::empty(),
                    },
                ),
            ),
            None => None,
        }
    }
}

impl Config {
    /// Whether the scheme is exactly `name`.
    fn scheme_is(&self, name: &str) -> (r: bool)
        ensures
            r == (self@.scheme == Some(name@)),
    {
        match &self.scheme {
            Some(s) => {
                let wanted = name.to_owned();
                *s == wanted
            },
            None => false,
        }
    }

    /// Whether the connection is to be encrypted.
    pub fn uses_tls(&self) -> (r: bool)
        ensures
            r == self@.encrypted(),
    {
        self.scheme_is("ssl") || self.scheme_is("mqtts")
    }

    /// Whether to warn that an encrypted connection has no CA file of its own.
    pub fn missing_ca_warning(&self) -> (r: bool)
        ensures
            r == self@.lacks_ca(),
    {
        self.uses_tls() && self.ca_cert_path.is_none()
    }

    /// The clean-session flag, true where the configuration is silent.
    pub fn wants_clean_session(&self) -> (r: bool)
        ensures
            r == self@.clean(),
    {
        match self.clean_session {
            Some(flag) => flag,
            None => true,
        }
    }

    /// The credential pair to attach, if a user name is configured.
    pub fn credentials(&self) -> (r: Option<(String, String)>)
        ensures
            r.deep_view() == self@.credentials(),
    {
        match &self.username {
            Some(user) => {
                let secret = match &self.password {
                    Some(p) => p.clone(),
                    None => String::new(),
                };
                Some((user.clone(), secret))
            },
            None => None,
        }
    }
}

} // verus!
