//! Configuration.

use crate::model::{
    Agent, Cloud, Framework, Language, Network, Node, Process, Runtime, System, Tags, User,
};
use vstd::prelude::*;

verus! {

/// The field that carries the id of the trace to join.
pub const TRACE_ID_FIELD_NAME: &'static str = "trace_id";

/// The field that carries the id of the span to nest under.
pub const PARENT_ID_FIELD_NAME: &'static str = "parent_id";

/// How to authorize with the server.
pub enum Authorization {
    SecretToken(String),
    ApiKey { id: String, key: String },
}

/// What is known of the service, besides its name.
pub struct Service {
    pub id: Option<String>,
    pub version: Option<String>,
    pub environment: Option<String>,
    pub language: Option<Language>,
    pub runtime: Option<Runtime>,
    pub framework: Option<Framework>,
    pub agent: Option<Agent>,
    pub node: Option<Node>,
}

/// What a client needs to reach the server.
pub struct ClientSettings {
    pub apm_address: String,
    pub authorization: Option<Authorization>,
    pub allow_invalid_certs: bool,
    pub root_cert_path: Option<String>,
}

/// The configuration of a layer.
pub struct Config {
    pub apm_address: String,
    pub authorization: Option<Authorization>,
    pub allow_invalid_certs: bool,
    pub root_cert_path: Option<String>,
    pub service: Option<Service>,
    pub process: Option<Process>,
    pub system: Option<System>,
    pub user: Option<User>,
    pub cloud: Option<Cloud>,
    pub network: Option<Network>,
    pub labels: Option<Tags>,
}

impl Config {
    /// The configuration that names a server and nothing else.
    pub fn new(apm_address: String) -> (config: Config)
        ensures
            config == (Config {
                apm_address,
                authorization: None,
                allow_invalid_certs: false,
                root_cert_path: None,
                service: None,
                process: None,
                system: None,
                user: None,
                cloud: None,
                network: None,
                labels: None,
            }),
    {
        Config {
            apm_address,
            authorization: None,
            allow_invalid_certs: false,
            root_cert_path: None,
            service: None,
            process: None,
            system: None,
            user: None,
            cloud: None,
            network: None,
            labels: None,
        }
    }

    /// What a client needs of this configuration.
    pub open spec fn settings(self) -> ClientSettings {
        ClientSettings {
            apm_address: self.apm_address,
            authorization: self.authorization,
            allow_invalid_certs: self.allow_invalid_certs,
            root_cert_path: self.root_cert_path,
        }
    }

    /// Takes out what a client needs. The secrets leave the configuration, and the rest stays.
    pub fn take_client_settings(&mut self) -> (settings: ClientSettings)
        ensures
            settings == old(self).settings(),
            *final(self) == (Config { authorization: None, root_cert_path: None, ..*old(self) }),
    {
        ClientSettings {
            apm_address: self.apm_address.clone(),
            authorization: self.authorization.take(),
            allow_invalid_certs: self.allow_invalid_certs,
            root_cert_path: self.root_cert_path.take(),
        }
    }
}

} // verus!
