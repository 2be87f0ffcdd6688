//! The errors of the client runtime.

use crate::registry::{pool_error_chars, pool_error_text};
use active_uuid_registry::UuidPoolError;
use vstd::prelude::*;

verus! {

/// What can go wrong with logging.
#[derive(Debug)]
pub enum LoggingError {
    InitializationError(String),
    ConfigurationError(String),
}

/// What can go wrong with metrics.
#[derive(Debug)]
pub enum MetricsError {
    InitializationError(String),
    RecordError(String),
}

/// What can go wrong with a client's configuration.
#[derive(Debug)]
pub enum ClientConfigError {
    NotFound(String),
    ParseError(String),
    InvalidValue(String),
}

impl From<String> for ClientConfigError {
    fn from(e: String) -> (r: Self) {
        ClientConfigError::InvalidValue(e)
    }
}

impl vstd::std_specs::convert::FromSpecImpl<String> for ClientConfigError {
    open spec fn obeys_from_spec() -> bool {
        true
    }

    open spec fn from_spec(e: String) -> Self {
        ClientConfigError::InvalidValue(e)
    }
}

/// What can go wrong in the life cycle of a runtime.
#[derive(Debug)]
pub enum LifecycleManagerError {
    FileMetadataError(String),
    SystemTimeError(String),
    SubscribeShutdownError(String),
    SendShutdownSignalError(String),
    ConfigError(String),
}

/// What can go wrong with the state of the actors.
pub enum StateManagerError {
    UuidPoolError(UuidPoolError),
    FailedToCreateReloadableModelError(String),
    ActorHandleNotFoundError(String),
    ActorInboxNotFoundError(String),
    ActorAlreadyTakenError(String),
    SubscribeShutdownError(LifecycleManagerError),
    ReceiveShutdownSignalError(String),
    ShutdownAllActorsError(String),
    SetActorIdError(String),
    GetActorsError(String),
    NewActorError(String),
    RemoveActorError(String),
    GetConfigError(String),
    SetConfigError(String),
    StepEnvError(String),
    SetEnvError(String),
    GetEnvCountError(String),
    IncreaseEnvCountError(String),
    DecreaseEnvCountError(String),
    RemoveEnvError(String),
}

/// What can go wrong with the routers.
#[derive(Debug)]
pub enum ScaleManagerError {
    GetRouterRuntimeParamsError(String),
    SendActionRequestError(String),
    ReceiveActionResponseError(String),
    SendFlagLastActionMessageError(String),
    SendModelVersionMessageError(String),
    ReceiveModelVersionResponseError(String),
    SendModelUpdateMessageError(String),
    TrajectoryMemoryNotFoundError(String),
}

/// What can go wrong with a transport.
#[derive(Debug)]
pub enum TransportError {
    InvalidState(String),
    NatsClientError(String),
    ListenForModelError(String),
    ModelHandshakeError(String),
    SendTrajError(String),
    SendClientIdsToServerError(String),
    SendScalingWarningError(String),
    SendScalingCompleteError(String),
    SendShutdownSignalError(String),
    SendAlgorithmInitRequestError(String),
    MultipleErrors(String, String),
    CircuitOpen,
    BackpressureExceeded,
    MaxRetriesExceeded { cause: String, attempts: u32 },
    ZmqPool(ZmqPoolError),
    UuidPoolError(UuidPoolError),
}

/// What can go wrong with the pool of ZeroMQ sockets.
#[derive(Debug)]
pub enum ZmqPoolError {
    /// The description of an error of the socket library.
    SocketError(String),
    UuidPoolError(UuidPoolError),
    ReadError(String),
    InitializationError(String),
}

/// What can go wrong with the reception of models.
pub enum TransportReceiverError {
    TransportError(TransportError),
    UuidPoolError(UuidPoolError),
    NoEntriesFound,
}

/// What can go wrong in a router. Of a filter or a trajectory sink it is the description.
pub enum RouterError {
    FilterError(String),
    TransportReceiverError(TransportReceiverError),
    TrajectorySinkError(String),
}

impl From<TransportReceiverError> for RouterError {
    fn from(e: TransportReceiverError) -> (r: Self) {
        RouterError::TransportReceiverError(e)
    }
}

impl vstd::std_specs::convert::FromSpecImpl<TransportReceiverError> for RouterError {
    open spec fn obeys_from_spec() -> bool {
        true
    }

    open spec fn from_spec(e: TransportReceiverError) -> Self {
        RouterError::TransportReceiverError(e)
    }
}

/// What can go wrong in a coordinator.
pub enum CoordinatorError {
    InvalidClientModesError(String),
    TransportError(TransportError),
    ScaleManagerError(ScaleManagerError),
    StateManagerError(StateManagerError),
    LifecycleManagerError(LifecycleManagerError),
    LoggingError(LoggingError),
    MetricsError(MetricsError),
    ConfigError(ClientConfigError),
    UuidPoolError(UuidPoolError),
    NoRuntimeInstanceError,
}

/// What can go wrong in an actor.
pub enum ActorError {
    ModelError(String),
    TrajectorySendError(String),
    InferenceRequestError(String),
    MessageHandlingError(String),
    TypeConversionError(String),
    SystemError(String),
    UuidPoolError(UuidPoolError),
    TransportError(TransportError),
}

impl From<UuidPoolError> for StateManagerError {
    fn from(e: UuidPoolError) -> (r: Self) {
        StateManagerError::UuidPoolError(e)
    }
}

impl vstd::std_specs::convert::FromSpecImpl<UuidPoolError> for StateManagerError {
    open spec fn obeys_from_spec() -> bool {
        true
    }

    open spec fn from_spec(e: UuidPoolError) -> Self {
        StateManagerError::UuidPoolError(e)
    }
}

impl From<UuidPoolError> for TransportReceiverError {
    fn from(e: UuidPoolError) -> (r: Self) {
        TransportReceiverError::UuidPoolError(e)
    }
}

impl vstd::std_specs::convert::FromSpecImpl<UuidPoolError> for TransportReceiverError {
    open spec fn obeys_from_spec() -> bool {
        true
    }

    open spec fn from_spec(e: UuidPoolError) -> Self {
        TransportReceiverError::UuidPoolError(e)
    }
}

/// `prefix` with `detail` behind it.
fn described(prefix: &str, detail: &String) -> (r: String)
    ensures
        r@ == prefix@ + detail@,
{
    let mut r = prefix.to_owned();
    r.append(detail.as_str());
    r
}

impl LoggingError {
    pub open spec fn spec_message(self) -> Seq<char> {
        match self {
            LoggingError::InitializationError(e) => "Failed to initialize logging: "@ + e@,
            LoggingError::ConfigurationError(e) => "Failed to configure logger: "@ + e@,
        }
    }

    /// The description of the error.
    pub fn message(&self) -> (r: String)
        ensures
            r@ == self.spec_message(),
    {
        match self {
            LoggingError::InitializationError(e) => described("Failed to initialize logging: ", e),
            LoggingError::ConfigurationError(e) => described("Failed to configure logger: ", e),
        }
    }
}

impl MetricsError {
    pub open spec fn spec_message(self) -> Seq<char> {
        match self {
            MetricsError::InitializationError(e) => "Failed to initialize metrics: "@ + e@,
            MetricsError::RecordError(e) => "Failed to record metric: "@ + e@,
        }
    }

    /// The description of the error.
    pub fn message(&self) -> (r: String)
        ensures
            r@ == self.spec_message(),
    {
        match self {
            MetricsError::InitializationError(e) => described("Failed to initialize metrics: ", e),
            MetricsError::RecordError(e) => described("Failed to record metric: ", e),
        }
    }
}

impl ClientConfigError {
    pub open spec fn spec_message(self) -> Seq<char> {
        match self {
            ClientConfigError::NotFound(e) => "Config file not found: "@ + e@,
            ClientConfigError::ParseError(e) => "Failed to parse config: "@ + e@,
            ClientConfigError::InvalidValue(e) => "Invalid config value: "@ + e@,
        }
    }

    /// The description of the error.
    pub fn message(&self) -> (r: String)
        ensures
            r@ == self.spec_message(),
    {
        match self {
            ClientConfigError::NotFound(e) => described("Config file not found: ", e),
            ClientConfigError::ParseError(e) => described("Failed to parse config: ", e),
            ClientConfigError::InvalidValue(e) => described("Invalid config value: ", e),
        }
    }
}

impl LifecycleManagerError {
    pub open spec fn spec_message(self) -> Seq<char> {
        match self {
            LifecycleManagerError::FileMetadataError(e) => "File metadata error: "@ + e@,
            LifecycleManagerError::SystemTimeError(e) => "System time error: "@ + e@,
            LifecycleManagerError::SubscribeShutdownError(e) => "Subscribe shutdown error: "@ + e@,
            LifecycleManagerError::SendShutdownSignalError(e) => "Send shutdown signal error: "@ + e@,
            LifecycleManagerError::ConfigError(e) => "Config error: "@ + e@,
        }
    }

    /// The description of the error.
    pub fn message(&self) -> (r: String)
        ensures
            r@ == self.spec_message(),
    {
        match self {
            LifecycleManagerError::FileMetadataError(e) => described("File metadata error: ", e),
            LifecycleManagerError::SystemTimeError(e) => described("System time error: ", e),
            LifecycleManagerError::SubscribeShutdownError(e) => described(
                "Subscribe shutdown error: ",
                e,
            ),
            LifecycleManagerError::SendShutdownSignalError(e) => described(
                "Send shutdown signal error: ",
                e,
            ),
            LifecycleManagerError::ConfigError(e) => described("Config error: ", e),
        }
    }
}

impl ZmqPoolError {
    pub open spec fn spec_message(self) -> Seq<char> {
        match self {
            ZmqPoolError::SocketError(e) => e@,
            ZmqPoolError::UuidPoolError(e) => pool_error_chars(e),
            ZmqPoolError::ReadError(e) => "Failed to read ZMQ pool: "@ + e@,
            ZmqPoolError::InitializationError(e) => "Failed to initialize ZMQ pool: "@ + e@,
        }
    }

    /// The description of the error.
    pub fn message(&self) -> (r: String)
        ensures
            r@ == self.spec_message(),
    {
        match self {
            ZmqPoolError::SocketError(e) => e.clone(),
            ZmqPoolError::UuidPoolError(e) => pool_error_text(e),
            ZmqPoolError::ReadError(e) => described("Failed to read ZMQ pool: ", e),
            ZmqPoolError::InitializationError(e) => described("Failed to initialize ZMQ pool: ", e),
        }
    }
}

impl ActorError {
    /// The description of the error, where the error is not a transport's. Of a registry error it
    /// is the registry's own text.
    pub fn message(&self) -> (r: Option<String>)
        ensures
            r is None <==> self is TransportError,
            match *self {
                ActorError::ModelError(e) => r->0@ == e@,
                ActorError::TrajectorySendError(e) => r->0@ == "Trajectory send failed: "@ + e@,
                ActorError::InferenceRequestError(e) => r->0@ == "Inference request failed: "@ + e@,
                ActorError::MessageHandlingError(e) => r->0@ == "Message handling failed: "@ + e@,
                ActorError::TypeConversionError(e) => r->0@ == "Type conversion failed: "@ + e@,
                ActorError::SystemError(e) => r->0@ == "System error: "@ + e@,
                ActorError::UuidPoolError(e) => r->0@ == pool_error_chars(e),
                ActorError::TransportError(_) => r is None,
            },
    {
        match self {
            ActorError::ModelError(e) => Some(e.clone()),
            ActorError::TrajectorySendError(e) => Some(described("Trajectory send failed: ", e)),
            ActorError::InferenceRequestError(e) => Some(described("Inference request failed: ", e)),
            ActorError::MessageHandlingError(e) => Some(described("Message handling failed: ", e)),
            ActorError::TypeConversionError(e) => Some(described("Type conversion failed: ", e)),
            ActorError::SystemError(e) => Some(described("System error: ", e)),
            ActorError::UuidPoolError(e) => Some(pool_error_text(e)),
            ActorError::TransportError(_) => None,
        }
    }
}

impl TransportReceiverError {
    /// The description of the error, where the error is not a transport's. Of a registry error it
    /// is the registry's own text.
    pub fn message(&self) -> (r: Option<String>)
        ensures
            r is None <==> self is TransportError,
            match *self {
                TransportReceiverError::UuidPoolError(e) => r->0@ == pool_error_chars(e),
                TransportReceiverError::NoEntriesFound => r->0@ == "No context entries found"@,
                TransportReceiverError::TransportError(_) => r is None,
            },
    {
        match self {
            TransportReceiverError::UuidPoolError(e) => Some(pool_error_text(e)),
            TransportReceiverError::NoEntriesFound => Some("No context entries found".to_owned()),
            TransportReceiverError::TransportError(_) => None,
        }
    }
}

/// What an error is called comes before what is told of it; an error of the socket library or of the
/// registry speaks for itself.
pub proof fn law_errors_are_called_by_their_kind(e: String, why: UuidPoolError)
    ensures
        LoggingError::InitializationError(e).spec_message() == "Failed to initialize logging: "@ + e@,
        LoggingError::ConfigurationError(e).spec_message() == "Failed to configure logger: "@ + e@,
        MetricsError::InitializationError(e).spec_message() == "Failed to initialize metrics: "@ + e@,
        MetricsError::RecordError(e).spec_message() == "Failed to record metric: "@ + e@,
        ClientConfigError::NotFound(e).spec_message() == "Config file not found: "@ + e@,
        ClientConfigError::ParseError(e).spec_message() == "Failed to parse config: "@ + e@,
        ClientConfigError::InvalidValue(e).spec_message() == "Invalid config value: "@ + e@,
        LifecycleManagerError::FileMetadataError(e).spec_message() == "File metadata error: "@ + e@,
        LifecycleManagerError::SystemTimeError(e).spec_message() == "System time error: "@ + e@,
        LifecycleManagerError::SubscribeShutdownError(e).spec_message()
            == "Subscribe shutdown error: "@ + e@,
        LifecycleManagerError::SendShutdownSignalError(e).spec_message()
            == "Send shutdown signal error: "@ + e@,
        LifecycleManagerError::ConfigError(e).spec_message() == "Config error: "@ + e@,
        ZmqPoolError::SocketError(e).spec_message() == e@,
        ZmqPoolError::UuidPoolError(why).spec_message() == pool_error_chars(why),
        ZmqPoolError::ReadError(e).spec_message() == "Failed to read ZMQ pool: "@ + e@,
        ZmqPoolError::InitializationError(e).spec_message() == "Failed to initialize ZMQ pool: "@
            + e@,
{
}

/// An error that is handed on stays what it is: it is wrapped as an error of its own kind.
pub proof fn law_errors_are_handed_on_as_they_are(text: String, e: TransportReceiverError, why: UuidPoolError)
    ensures
        <ClientConfigError as vstd::std_specs::convert::FromSpec<String>>::from_spec(text)
            == ClientConfigError::InvalidValue(text),
        <RouterError as vstd::std_specs::convert::FromSpec<TransportReceiverError>>::from_spec(e)
            == RouterError::TransportReceiverError(e),
        <StateManagerError as vstd::std_specs::convert::FromSpec<UuidPoolError>>::from_spec(why)
            == StateManagerError::UuidPoolError(why),
        <TransportReceiverError as vstd::std_specs::convert::FromSpec<UuidPoolError>>::from_spec(why)
            == TransportReceiverError::UuidPoolError(why),
{
}

} // verus!
