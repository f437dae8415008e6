//! Public embedding API: a small facade over the runtime.

use tokio_util::sync::CancellationToken;
use vstd::prelude::*;

use crate::config::Config;
use crate::models::ModelId;
use crate::runtime::{AgentRuntime, RuntimeError};

verus! {

/// A configured Nexus instance for embedding in another application.
pub struct Nexus<P> {
    runtime: AgentRuntime<P>,
}

impl<P> Nexus<P> {
    pub closed spec fn runtime_view(&self) -> AgentRuntime<P> {
        self.runtime
    }

    /// Starts building an embedded instance.
    pub fn builder() -> (b: NexusBuilder<P>)
        ensures
            b.config.default_agent@ == crate::config::spec_default_agent_name(),
            b.provider is None,
            b.model is None,
    {
        NexusBuilder::default()
    }

    /// The configured runtime, for advanced integrations.
    pub fn runtime(&self) -> (r: &AgentRuntime<P>)
        ensures
            *r == self.runtime_view(),
    {
        &self.runtime
    }
}

/// Builder for [`Nexus`]: a provider and a model must be given.
pub struct NexusBuilder<P> {
    pub config: Config,
    pub provider: Option<P>,
    pub model: Option<ModelId>,
}

impl<P> Default for NexusBuilder<P> {
    fn default() -> (b: Self)
        ensures
            b.config.default_agent@ == crate::config::spec_default_agent_name(),
            b.provider is None,
            b.model is None,
    {
        NexusBuilder { config: Config::default(), provider: None, model: None }
    }
}

/// Why an embedded run could not be built or did not finish.
#[derive(Debug)]
pub enum SdkError {
    MissingProvider,
    MissingModel,
    Cancelled,
    Runtime(RuntimeError),
}

impl<P> NexusBuilder<P> {
    pub fn config(self, config: Config) -> (b: Self)
        ensures
            b.config == config,
            b.provider == self.provider,
            b.model == self.model,
    {
        NexusBuilder { config, provider: self.provider, model: self.model }
    }

    pub fn provider(self, provider: P) -> (b: Self)
        ensures
            b.config == self.config,
            b.provider == Some(provider),
            b.model == self.model,
    {
        NexusBuilder { config: self.config, provider: Some(provider), model: self.model }
    }

    pub fn model(self, model: &str) -> (b: Self)
        ensures
            b.config == self.config,
            b.provider == self.provider,
            b.model matches Some(m) && m.0@ == model@,
    {
        NexusBuilder { config: self.config, provider: self.provider, model: Some(ModelId(model.to_owned())) }
    }

    /// A provider is required first, then a model.
    pub fn build(self) -> (r: Result<Nexus<P>, SdkError>)
        ensures
            self.provider is None <==> r matches Err(SdkError::MissingProvider),
            (self.provider is Some && self.model is None) <==> r matches Err(SdkError::MissingModel),
            (self.provider is Some && self.model is Some) ==> r is Ok,
            r matches Ok(n) ==> {
                &&& self.provider == Some(n.runtime_view().provider_view())
                &&& self.model == Some(n.runtime_view().model_view())
                &&& n.runtime_view().config_view() == self.config
            },
    {
        let provider = match self.provider {
            Some(p) => p,
            None => return Err(SdkError::MissingProvider),
        };
        let model = match self.model {
            Some(m) => m,
            None => return Err(SdkError::MissingModel),
        };
        Ok(Nexus { runtime: AgentRuntime::new(self.config, provider, model) })
    }
}

/// `CancellationToken::new`: a token that is not yet cancelled.
#[verifier::external_body]
fn new_token() -> CancellationToken {
    CancellationToken::new()
}

/// A cancellable execution request.
#[derive(Clone)]
pub struct RunRequest {
    pub prompt: String,
    pub cancellation: CancellationToken,
}

impl RunRequest {
    pub fn new(prompt: &str) -> (r: Self)
        ensures
            r.prompt@ == prompt@,
    {
        RunRequest { prompt: prompt.to_owned(), cancellation: new_token() }
    }

    pub fn with_cancellation(self, cancellation: CancellationToken) -> (r: Self)
        ensures
            r.prompt == self.prompt,
            r.cancellation == cancellation,
    {
        RunRequest { prompt: self.prompt, cancellation }
    }
}

} // verus!

verus! {

impl SdkError {
    /// Whether `text` is how the error reads; a runtime error reads as itself.
    pub open spec fn message_is(&self, text: Seq<char>) -> bool {
        match self {
            SdkError::MissingProvider => text == "a model provider must be configured"@,
            SdkError::MissingModel => text == "a model must be configured"@,
            SdkError::Cancelled => text == "Nexus execution was cancelled"@,
            SdkError::Runtime(e) => e.message_is(text),
        }
    }

    /// How the error reads.
    pub fn message(&self) -> (r: String)
        ensures
            self.message_is(r@),
    {
        match self {
            SdkError::MissingProvider => "a model provider must be configured".to_owned(),
            SdkError::MissingModel => "a model must be configured".to_owned(),
            SdkError::Cancelled => "Nexus execution was cancelled".to_owned(),
            SdkError::Runtime(e) => e.message(),
        }
    }
}

} // verus!
