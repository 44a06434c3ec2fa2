//! The documents of the ingest API.

use crate::fields::{clone_fields, fields_of, no_fields, Fields};
use crate::json::Json;
use vstd::prelude::*;

verus! {

/// The tags of one event, or the labels of the stream.
pub type Tags = Fields;

/// The agent that sends the documents.
pub struct Agent {
    pub name: String,
    pub version: String,
    pub ephemeral_id: Option<String>,
    pub activation_method: Option<String>,
}

impl Clone for Agent {
    fn clone(&self) -> (copy: Agent)
        ensures
            copy == *self,
    {
        Agent {
            name: self.name.clone(),
            version: self.version.clone(),
            ephemeral_id: self.ephemeral_id.clone(),
            activation_method: self.activation_method.clone(),
        }
    }
}

/// The programming language of a service.
pub struct Language {
    pub name: String,
    pub version: Option<String>,
}

impl Clone for Language {
    fn clone(&self) -> (copy: Language)
        ensures
            copy == *self,
    {
        Language {
            name: self.name.clone(),
            version: self.version.clone(),
        }
    }
}

/// The runtime of a service.
pub struct Runtime {
    pub name: String,
    pub version: String,
}

impl Clone for Runtime {
    fn clone(&self) -> (copy: Runtime)
        ensures
            copy == *self,
    {
        Runtime {
            name: self.name.clone(),
            version: self.version.clone(),
        }
    }
}

/// The framework of a service.
pub struct Framework {
    pub name: Option<String>,
    pub version: Option<String>,
}

impl Clone for Framework {
    fn clone(&self) -> (copy: Framework)
        ensures
            copy == *self,
    {
        Framework {
            name: self.name.clone(),
            version: self.version.clone(),
        }
    }
}

/// The node that a service runs on.
pub struct Node {
    pub configured_name: Option<String>,
}

impl Clone for Node {
    fn clone(&self) -> (copy: Node)
        ensures
            copy == *self,
    {
        Node {
            configured_name: self.configured_name.clone(),
        }
    }
}

/// The service that is monitored.
pub struct Service {
    pub name: String,
    pub id: Option<String>,
    pub version: Option<String>,
    pub environment: Option<String>,
    pub language: Option<Language>,
    pub runtime: Option<Runtime>,
    pub framework: Option<Framework>,
    pub agent: Agent,
    pub node: Option<Node>,
}

impl Clone for Service {
    fn clone(&self) -> (copy: Service)
        ensures
            copy == *self,
    {
        Service {
            name: self.name.clone(),
            id: self.id.clone(),
            version: self.version.clone(),
            environment: self.environment.clone(),
            language: self.language.clone(),
            runtime: self.runtime.clone(),
            framework: self.framework.clone(),
            agent: self.agent.clone(),
            node: self.node.clone(),
        }
    }
}

/// The process of the service.
pub struct Process {
    pub pid: u32,
    pub ppid: Option<u32>,
    pub title: Option<String>,
}

impl Clone for Process {
    fn clone(&self) -> (copy: Process)
        ensures
            copy == *self,
    {
        Process {
            pid: self.pid,
            ppid: self.ppid,
            title: self.title.clone(),
        }
    }
}

/// The machine that the service runs on.
pub struct System {
    pub architecture: Option<String>,
    pub hostname: Option<String>,
    pub platform: Option<String>,
}

impl Clone for System {
    fn clone(&self) -> (copy: System)
        ensures
            copy == *self,
    {
        System {
            architecture: self.architecture.clone(),
            hostname: self.hostname.clone(),
            platform: self.platform.clone(),
        }
    }
}

/// The user on whose behalf the service runs.
pub struct User {
    pub id: Option<String>,
    pub username: Option<String>,
    pub email: Option<String>,
}

impl Clone for User {
    fn clone(&self) -> (copy: User)
        ensures
            copy == *self,
    {
        User {
            id: self.id.clone(),
            username: self.username.clone(),
            email: self.email.clone(),
        }
    }
}

/// The cloud that the service runs in.
pub struct Cloud {
    pub provider: String,
    pub region: Option<String>,
    pub availability_zone: Option<String>,
}

impl Clone for Cloud {
    fn clone(&self) -> (copy: Cloud)
        ensures
            copy == *self,
    {
        Cloud {
            provider: self.provider.clone(),
            region: self.region.clone(),
            availability_zone: self.availability_zone.clone(),
        }
    }
}

/// The network that the service is reached by.
pub struct Network {
    pub connection_type: Option<String>,
}

impl Clone for Network {
    fn clone(&self) -> (copy: Network)
        ensures
            copy == *self,
    {
        Network {
            connection_type: self.connection_type.clone(),
        }
    }
}

/// What holds for the whole stream of documents.
pub struct Metadata {
    pub service: Service,
    pub process: Option<Process>,
    pub system: Option<System>,
    pub user: Option<User>,
    pub cloud: Option<Cloud>,
    pub network: Option<Network>,
    pub labels: Option<Tags>,
}

impl Metadata {
    /// `self` and `other` describe the same origin, whatever their labels are.
    pub open spec fn same_origin(self, other: Metadata) -> bool {
        &&& self.service == other.service
        &&& self.process == other.process
        &&& self.system == other.system
        &&& self.user == other.user
        &&& self.cloud == other.cloud
        &&& self.network == other.network
    }

    /// The labels.
    pub open spec fn label_map(self) -> Map<Seq<char>, Json> {
        match self.labels {
            Some(labels) => fields_of(labels),
            None => no_fields(),
        }
    }
}

impl Clone for Metadata {
    fn clone(&self) -> (copy: Metadata)
        ensures
            copy.same_origin(*self),
            copy.labels is Some <==> self.labels is Some,
            copy.label_map() == self.label_map(),
    {
        Metadata {
            service: self.service.clone(),
            process: self.process.clone(),
            system: self.system.clone(),
            user: self.user.clone(),
            cloud: self.cloud.clone(),
            network: self.network.clone(),
            labels: match &self.labels {
                Some(labels) => Some(clone_fields(labels)),
                None => None,
            },
        }
    }
}

/// What surrounds a span.
pub struct SpanContext {
    pub tags: Option<Tags>,
}

/// What surrounds a transaction or an error.
pub struct TransactionContext {
    pub tags: Option<Tags>,
}

/// A unit of work within a transaction.
pub struct Span {
    pub id: String,
    pub trace_id: String,
    pub parent_id: String,
    /// When it began, in microseconds since the Unix epoch.
    pub timestamp: u64,
    pub name: String,
    pub span_type: String,
    /// How long it took, in microseconds.
    pub duration: u64,
    pub context: Option<SpanContext>,
}

/// A unit of work that is reported on its own.
pub struct Transaction {
    pub id: String,
    pub trace_id: String,
    pub parent_id: Option<String>,
    /// When it began, in microseconds since the Unix epoch.
    pub timestamp: u64,
    pub name: Option<String>,
    pub transaction_type: String,
    /// How long it took, in microseconds.
    pub duration: u64,
    pub context: Option<TransactionContext>,
}

/// A logged message.
pub struct Log {
    pub level: Option<String>,
    pub message: String,
}

/// An error.
pub struct Error {
    pub id: String,
    pub trace_id: Option<String>,
    pub parent_id: Option<String>,
    pub culprit: Option<String>,
    pub context: Option<TransactionContext>,
    pub log: Option<Log>,
}

/// What is sent at once: the metadata and what it comes with.
pub struct Batch {
    pub metadata: Metadata,
    pub transaction: Option<Transaction>,
    pub span: Option<Span>,
    pub error: Option<Error>,
}

impl Batch {
    /// Puts a batch together.
    pub fn new(
        metadata: Metadata,
        transaction: Option<Transaction>,
        span: Option<Span>,
        error: Option<Error>,
    ) -> (batch: Batch)
        ensures
            batch == (Batch { metadata, transaction, span, error }),
    {
        Batch { metadata, transaction, span, error }
    }
}

} // verus!
