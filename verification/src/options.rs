//! Connection options for the MQTT client, assembled from a configuration.

use vstd::prelude::*;
use rumqttc::tokio_rustls::rustls::ClientConfig;
use rumqttc::{MqttOptions, TlsConfiguration, Transport};
use std::sync::Arc;
use std::time::Duration;
use crate::config::{Config, ConfigView};
use crate::error::{ConfigError, StartupError, TlsError};
use crate::tls::{contents, identity_for, roots_from, tls_client_config, tls_material};

verus! {

#[verifier::external_type_specification]
#[verifier::external_body]
pub struct ExMqttOptions(MqttOptions);

/// What `MqttOptions::client_id` returns.
pub uninterp spec fn options_client_id(o: MqttOptions) -> Seq<char>;

/// What `MqttOptions::broker_address` returns: host and port.
pub uninterp spec fn options_broker(o: MqttOptions) -> (Seq<char>, u16);

/// What `MqttOptions::keep_alive` returns, as whole seconds and further nanoseconds.
pub uninterp spec fn options_keep_alive(o: MqttOptions) -> (u64, u32);

/// What `MqttOptions::clean_session` returns.
pub uninterp spec fn options_clean_session(o: MqttOptions) -> bool;

/// What `MqttOptions::credentials` returns: user name and password.
pub uninterp spec fn options_credentials(o: MqttOptions) -> Option<(Seq<char>, Seq<char>)>;

/// Whether `MqttOptions::transport` returns the TLS transport.
pub uninterp spec fn options_encrypted(o: MqttOptions) -> bool;

/// The settings of an `MqttOptions` that this library decides.
pub struct Settings {
    pub client_id: Seq<char>,
    pub broker: (Seq<char>, u16),
    pub keep_alive: (u64, u32),
    pub clean_session: bool,
    pub credentials: Option<(Seq<char>, Seq<char>)>,
    pub encrypted: bool,
}

/// The settings that `o` holds, each as its getter reports it.
pub open spec fn settings_of(o: MqttOptions) -> Settings {
    Settings {
        client_id: options_client_id(o),
        broker: options_broker(o),
        keep_alive: options_keep_alive(o),
        clean_session: options_clean_session(o),
        credentials: options_credentials(o),
        encrypted: options_encrypted(o),
    }
}

/// `MqttOptions::new`. Trusted: the options hold the three arguments and the client's
/// defaults: a keep-alive of 60 s, a clean session, no credentials, plain TCP.
#[verifier::external_body]
fn new_options(id: &str, host: &str, port: u16) -> (o: MqttOptions)
    ensures
        options_client_id(o) == id@,
        options_broker(o) == (host@, port),
        options_keep_alive(o) == (60u64, 0u32),
        options_clean_session(o),
        options_credentials(o) is None,
        !options_encrypted(o),
{
    MqttOptions::new(id, host, port)
}

/// `MqttOptions::set_keep_alive` with a whole number of seconds, which the client
/// accepts whatever the number. Trusted: only the keep-alive changes.
#[verifier::external_body]
fn set_keep_alive(o: &mut MqttOptions, secs: u64)
    ensures
        settings_of(*final(o)) == (Settings { keep_alive: (secs, 0u32), ..settings_of(*old(o)) }),
{
    o.set_keep_alive(Duration::from_secs(secs));
}

/// `MqttOptions::set_clean_session`, which panics where a persistent session is asked
/// for under an empty client identifier. Trusted: only the flag changes.
#[verifier::external_body]
fn set_clean_session(o: &mut MqttOptions, clean: bool)
    requires
        options_client_id(*old(o)).len() > 0 || clean,
    ensures
        settings_of(*final(o)) == (Settings { clean_session: clean, ..settings_of(*old(o)) }),
{
    o.set_clean_session(clean);
}

/// `MqttOptions::set_credentials`. Trusted: only the credentials change.
#[verifier::external_body]
fn set_credentials(o: &mut MqttOptions, user: &str, secret: &str)
    ensures
        settings_of(*final(o)) == (Settings {
            credentials: Some((user@, secret@)),
            ..settings_of(*old(o))
        }),
{
    o.set_credentials(user, secret);
}

/// `MqttOptions::set_transport` with the TLS transport over `tls`. Trusted: only the
/// transport changes.
#[verifier::external_body]
fn set_tls_transport(o: &mut MqttOptions, tls: ClientConfig)
    ensures
        settings_of(*final(o)) == (Settings { encrypted: true, ..settings_of(*old(o)) }),
{
    o.set_transport(Transport::Tls(TlsConfiguration::Rustls(Arc::new(tls))));
}

/// Seconds of silence after which the client pings the broker.
pub const KEEP_ALIVE_SECS: u64 = 20;

/// The settings that a configuration asks for.
pub open spec fn wanted_settings(cfg: ConfigView) -> Settings {
    Settings {
        client_id: cfg.client_id,
        broker: (cfg.broker_address, cfg.broker_port),
        keep_alive: (KEEP_ALIVE_SECS, 0u32),
        clean_session: cfg.clean(),
        credentials: cfg.credentials(),
        encrypted: cfg.encrypted(),
    }
}

/// The configuration asks for a persistent session without naming the client.
pub open spec fn lacks_client_id(cfg: ConfigView) -> bool {
    cfg.client_id.len() == 0 && !cfg.clean()
}

/// The fault, if any, that is known before the TLS library is asked to take a client
/// key: a missing client identifier first, then the certificate material of an
/// encrypted connection.
pub open spec fn startup_fault(
    cfg: ConfigView,
    ca_read: Option<Seq<u8>>,
    client_read: Option<Seq<u8>>,
) -> Option<StartupError> {
    if lacks_client_id(cfg) {
        Some(StartupError::Config(ConfigError::ClientIdRequired))
    } else if cfg.encrypted() {
        match tls_material(cfg, ca_read, client_read) {
            Err(e) => Some(StartupError::Tls(e)),
            Ok(_) => None,
        }
    } else {
        None
    }
}

/// The TLS library is asked to take a client key: the connection is encrypted and its
/// material holds a client identity.
pub open spec fn presents_client_key(
    cfg: ConfigView,
    ca_read: Option<Seq<u8>>,
    client_read: Option<Seq<u8>>,
) -> bool {
    cfg.encrypted() && tls_material(cfg, ca_read, client_read) matches Ok((_, Some(_)))
}

/// An encrypted connection without a CA path starts with no trust roots of its own and
/// is none the worse for it: whatever fault its material has lies with the client file,
/// and without a client file there is none, so the options are built.
pub proof fn missing_ca_path_is_no_fault(
    cfg: ConfigView,
    ca_read: Option<Seq<u8>>,
    client_read: Option<Seq<u8>>,
)
    requires
        cfg.lacks_ca(),
        !lacks_client_id(cfg),
    ensures
        roots_from(cfg.ca_cert_path, ca_read) == Ok::<Seq<Seq<u8>>, TlsError>(
            Seq::<Seq<u8>>::empty(),
        ),
        startup_fault(cfg, ca_read, client_read) matches Some(fault) ==> fault matches StartupError::Tls(
            e,
        ) && identity_for(cfg.client_combined_path, client_read) == Err::<
            Option<(Seq<Seq<u8>>, Seq<u8>)>,
            TlsError,
        >(e),
        cfg.client_combined_path is None ==> startup_fault(cfg, ca_read, client_read) is None
            && !presents_client_key(cfg, ca_read, client_read),
{
}

/// On an encrypted connection a configured certificate file that cannot be read is
/// always a fault, so no options are built and nothing can be connected: the unreadable
/// CA file is reported unless the client identifier is at fault, the unreadable client
/// file unless an earlier fault is.
pub proof fn unreadable_file_is_fatal(
    cfg: ConfigView,
    ca_read: Option<Seq<u8>>,
    client_read: Option<Seq<u8>>,
)
    requires
        cfg.encrypted(),
    ensures
        cfg.client_combined_path is Some && client_read is None ==> startup_fault(
            cfg,
            ca_read,
            client_read,
        ) is Some,
        cfg.client_combined_path is Some && client_read is None && !lacks_client_id(cfg)
            && roots_from(cfg.ca_cert_path, ca_read) is Ok ==> startup_fault(
            cfg,
            ca_read,
            client_read,
        ) == Some(StartupError::Tls(TlsError::UnreadableClientFile)),
        cfg.ca_cert_path is Some && ca_read is None && !lacks_client_id(cfg) ==> startup_fault(
            cfg,
            ca_read,
            client_read,
        ) == Some(StartupError::Tls(TlsError::UnreadableCaFile)),
{
}

/// Assembles the client's connection options from `config` and from what its
/// certificate files held (`None`: the file could not be read; both are ignored on an
/// unencrypted connection).
///
/// Every fault that [`startup_fault`] names is reported as such. Without one the options
/// are built, unless a client key is presented and the TLS library refuses it.
pub fn connection_options(
    config: &Config,
    ca_read: &Option<Vec<u8>>,
    client_read: &Option<Vec<u8>>,
) -> (r: Result<MqttOptions, StartupError>)
    ensures
        match startup_fault(config@, contents(*ca_read), contents(*client_read)) {
            Some(fault) => r matches Err(e) && e == fault,
            None => if presents_client_key(config@, contents(*ca_read), contents(*client_read)) {
                r matches Err(e) ==> e == StartupError::Tls(TlsError::RejectedClientKey)
            } else {
                r is Ok
            },
        },
        r matches Ok(o) ==> settings_of(o) == wanted_settings(config@),
{
    let clean = config.wants_clean_session();
    if config.client_id.as_str().is_empty() && !clean {
        return Err(StartupError::Config(ConfigError::ClientIdRequired));
    }
    let mut options = new_options(
        config.client_id.as_str(),
        config.broker_address.as_str(),
        config.broker_port,
    );
    set_keep_alive(&mut options, KEEP_ALIVE_SECS);
    set_clean_session(&mut options, clean);
    match config.credentials() {
        Some((user, secret)) => {
            set_credentials(&mut options, user.as_str(), secret.as_str());
        },
        None => {},
    }
    if config.uses_tls() {
        match tls_client_config(config, ca_read, client_read) {
            Ok(tls) => {
                set_tls_transport(&mut options, tls);
            },
            Err(e) => {
                return Err(StartupError::Tls(e));
            },
        }
    }
    Ok(options)
}

/// A subscriber that is ready to connect: the client's options together with the
/// settings they were assembled from.
#[derive(Debug)]
pub struct MQ {
    pub mqtt_options: MqttOptions,
    pub broker_address: String,
    pub broker_port: u16,
    pub client_id: String,
    pub topics: Vec<String>,
    pub qos: Vec<i32>,
    pub clean_session: Option<bool>,
    pub username: Option<String>,
    pub password: Option<String>,
    pub ca_cert_path: Option<String>,
    pub client_combined_path: Option<String>,
}

impl MQ {
    /// The settings of `self` are those of the configuration `cfg`.
    pub open spec fn carries(&self, cfg: ConfigView) -> bool {
        &&& self.broker_address@ == cfg.broker_address
        &&& self.broker_port == cfg.broker_port
        &&& self.client_id@ == cfg.client_id
        &&& self.topics.deep_view() == cfg.topics
        &&& self.qos@ == cfg.qos
        &&& self.clean_session == cfg.clean_session
        &&& self.username.deep_view() == cfg.username
        &&& self.password.deep_view() == cfg.password
        &&& self.ca_cert_path.deep_view() == cfg.ca_cert_path
        &&& self.client_combined_path.deep_view() == cfg.client_combined_path
    }

    /// Assembles the connection options of `config` as [`connection_options`] does and
    /// keeps the configuration's settings beside them.
    pub fn new(config: Config, ca_read: &Option<Vec<u8>>, client_read: &Option<Vec<u8>>) -> (r:
        Result<MQ, StartupError>)
        ensures
            match startup_fault(config@, contents(*ca_read), contents(*client_read)) {
                Some(fault) => r matches Err(e) && e == fault,
                None => if presents_client_key(
                    config@,
                    contents(*ca_read),
                    contents(*client_read),
                ) {
                    r matches Err(e) ==> e == StartupError::Tls(TlsError::RejectedClientKey)
                } else {
                    r is Ok
                },
            },
            r matches Ok(mq) ==> mq.carries(config@) && settings_of(mq.mqtt_options)
                == wanted_settings(config@),
    {
        let mqtt_options = match connection_options(&config, ca_read, client_read) {
            Ok(options) => options,
            Err(e) => {
                return Err(e);
            },
        };
        Ok(
            MQ {
                mqtt_options,
                broker_address: config.broker_address,
                broker_port: config.broker_port,
                client_id: config.client_id,
                topics: config.topics,
                qos: config.qos,
                clean_session: config.clean_session,
                username: config.username,
                password: config.password,
                ca_cert_path: config.ca_cert_path,
                client_combined_path: config.client_combined_path,
            },
        )
    }
}

} // verus!
