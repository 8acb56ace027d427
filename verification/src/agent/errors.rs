//! Errors of the workflow, the providers and the channels, with the text
//! that each one is shown as.
use vstd::prelude::*;
use vstd::string::*;
use vstd::std_specs::convert::FromSpecImpl;

verus! {

/// Why handling an incoming message failed.
#[derive(Debug)]
pub enum WorkflowError {
    General(String),
    Provider(ProviderError),
    Channel(ChannelError),
    Mailbox(String),
}

/// Why a completion could not be generated.
#[derive(Debug)]
pub enum ProviderError {
    General(String),
    CapacityExceeded,
    AuthError,
}

/// Why a message could not be delivered or a route not changed.
#[derive(Debug)]
pub enum ChannelError {
    General(String),
    NotFound(String),
    AlreadyRegistered(String),
}

impl ProviderError {
    /// The text the error is shown as.
    pub open spec fn text(&self) -> Seq<char> {
        match self {
            ProviderError::General(m) => "Provider error: "@ + m@,
            ProviderError::CapacityExceeded => "Capacity exceeded"@,
            ProviderError::AuthError => "Authentication failed"@,
        }
    }

    /// Renders the error as its text.
    pub fn message(&self) -> (r: String)
        ensures
            r@ == self.text(),
    {
        match self {
            ProviderError::General(m) => String::from_str("Provider error: ").concat(m.as_str()),
            ProviderError::CapacityExceeded => String::from_str("Capacity exceeded"),
            ProviderError::AuthError => String::from_str("Authentication failed"),
        }
    }
}

impl ChannelError {
    /// The text the error is shown as.
    pub open spec fn text(&self) -> Seq<char> {
        match self {
            ChannelError::General(m) => "Channel error: "@ + m@,
            ChannelError::NotFound(m) => "Target not found: "@ + m@,
            ChannelError::AlreadyRegistered(m) => "Already registered: "@ + m@,
        }
    }

    /// Renders the error as its text.
    pub fn message(&self) -> (r: String)
        ensures
            r@ == self.text(),
    {
        match self {
            ChannelError::General(m) => String::from_str("Channel error: ").concat(m.as_str()),
            ChannelError::NotFound(m) => String::from_str("Target not found: ").concat(m.as_str()),
            ChannelError::AlreadyRegistered(m) => String::from_str("Already registered: ").concat(
                m.as_str(),
            ),
        }
    }
}

impl WorkflowError {
    /// The text the error is shown as.
    pub open spec fn text(&self) -> Seq<char> {
        match self {
            WorkflowError::General(m) => "Workflow error: "@ + m@,
            WorkflowError::Provider(e) => "Provider error: "@ + e.text(),
            WorkflowError::Channel(e) => "Channel error: "@ + e.text(),
            WorkflowError::Mailbox(m) => "Mailbox error: "@ + m@,
        }
    }

    /// Renders the error as its text.
    pub fn message(&self) -> (r: String)
        ensures
            r@ == self.text(),
    {
        match self {
            WorkflowError::General(m) => String::from_str("Workflow error: ").concat(m.as_str()),
            WorkflowError::Provider(e) => {
                let inner = e.message();
                String::from_str("Provider error: ").concat(inner.as_str())
            },
            WorkflowError::Channel(e) => {
                let inner = e.message();
                String::from_str("Channel error: ").concat(inner.as_str())
            },
            WorkflowError::Mailbox(m) => String::from_str("Mailbox error: ").concat(m.as_str()),
        }
    }
}

impl From<ProviderError> for WorkflowError {
    fn from(e: ProviderError) -> (r: WorkflowError) {
        WorkflowError::Provider(e)
    }
}

impl FromSpecImpl<ProviderError> for WorkflowError {
    open spec fn obeys_from_spec() -> bool {
        true
    }

    open spec fn from_spec(e: ProviderError) -> WorkflowError {
        WorkflowError::Provider(e)
    }
}

impl From<ChannelError> for WorkflowError {
    fn from(e: ChannelError) -> (r: WorkflowError) {
        WorkflowError::Channel(e)
    }
}

impl FromSpecImpl<ChannelError> for WorkflowError {
    open spec fn obeys_from_spec() -> bool {
        true
    }

    open spec fn from_spec(e: ChannelError) -> WorkflowError {
        WorkflowError::Channel(e)
    }
}

} // verus!
