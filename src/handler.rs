//! One invocation of the handler, as a sequence of decisions.
//!
//! An invocation goes Start → (ambient region) → configuration → publish →
//! reply. Each outside step (asking the ambient region provider, loading the
//! client configuration, publishing) is done by the caller: `step` takes what
//! happened and returns the next thing to do. The inbound request is never
//! read, so nothing it holds reaches the reply or the published message.

use vstd::prelude::*;
use crate::payload::{ascii_bytes, hello_payload};
use crate::region::{effective_region, resolve_region, text_of};

verus! {

/// Options fixed when the process starts.
#[derive(Debug, Clone, PartialEq, Eq)]
pub struct Opt {
    /// The region to use instead of the ambient one.
    pub region: Option<String>,
    /// Whether to display additional information. Nothing reads it yet.
    pub verbose: bool,
}

/// What to publish, and where.
#[derive(Debug, PartialEq, Eq)]
pub struct PublishRequest {
    pub topic: String,
    pub qos: i32,
    pub payload: Vec<u8>,
}

/// The HTTP answer to an invocation.
#[derive(Debug, PartialEq, Eq)]
pub struct HttpReply {
    pub status: u16,
    pub content_type: String,
    pub body: String,
}

/// Why an invocation ends without a reply.
#[derive(Debug, Clone, Copy, PartialEq, Eq, Structural)]
pub enum HandlerError {
    /// The publish call failed.
    Publish,
    /// An event came that the current stage does not wait for.
    OutOfOrder,
}

/// Where an invocation stands.
#[derive(Debug, Clone, Copy, PartialEq, Eq, Structural)]
pub enum Stage {
    Start,
    AwaitingAmbientRegion,
    AwaitingConfig,
    AwaitingPublish,
    Finished,
}

/// What the caller reports back.
#[derive(Debug, PartialEq, Eq)]
pub enum Event {
    /// The handler was invoked.
    Invoked,
    /// The ambient region provider answered, with a region or with none.
    AmbientRegion(Option<String>),
    /// The client configuration is loaded and the client built.
    ConfigLoaded,
    /// The publish call succeeded.
    Published,
    /// The publish call failed.
    PublishFailed,
}

/// What the caller does next.
#[derive(Debug, PartialEq, Eq)]
pub enum Action {
    /// Ask the ambient region provider.
    LookUpAmbientRegion,
    /// Load the client configuration for this region and build the client.
    LoadConfig(String),
    /// Publish this message.
    Publish(PublishRequest),
    /// Answer the invocation with this reply.
    Respond(HttpReply),
    /// End the invocation with this failure and no reply.
    Abort(HandlerError),
}

/// The topic that every message goes to.
pub fn device_topic() -> (r: String)
    ensures
        r@ == "esp32/sub"@,
{
    "esp32/sub".to_owned()
}

/// A message for the device topic at quality of service 1 (at least once).
pub fn publish_request(payload: Vec<u8>) -> (r: PublishRequest)
    ensures
        r.topic@ == "esp32/sub"@,
        r.qos == 1,
        r.payload@ == payload@,
{
    PublishRequest { topic: device_topic(), qos: 1, payload }
}

/// The message of every invocation.
pub open spec fn is_hello_publish(r: PublishRequest) -> bool {
    &&& r.topic@ == "esp32/sub"@
    &&& r.qos == 1
    &&& r.payload@ == ascii_bytes("{\"code\":401,\"message\":\"hello world\"}"@)
}

/// The reply of every invocation that publishes.
pub open spec fn is_success_reply(r: HttpReply) -> bool {
    &&& r.status == 200
    &&& r.content_type@ == "text/html"@
    &&& r.body@ == "Hello AWS Lambda HTTP request"@
}

/// The fixed reply: status 200, an HTML content type and a greeting.
pub fn success_reply() -> (r: HttpReply)
    ensures
        is_success_reply(r),
{
    HttpReply {
        status: 200,
        content_type: "text/html".to_owned(),
        body: "Hello AWS Lambda HTTP request".to_owned(),
    }
}

/// Whether a stage waits for an event.
pub open spec fn expects(stage: Stage, event: Event) -> bool {
    match stage {
        Stage::Start => event is Invoked,
        Stage::AwaitingAmbientRegion => event is AmbientRegion,
        Stage::AwaitingConfig => event is ConfigLoaded,
        Stage::AwaitingPublish => event is Published || event is PublishFailed,
        Stage::Finished => false,
    }
}

/// The state of one invocation.
pub struct Invocation {
    /// The region override of the options.
    pub region_override: Option<String>,
    pub stage: Stage,
}

impl Invocation {
    /// A new invocation under the given options.
    pub fn new(opt: &Opt) -> (r: Invocation)
        ensures
            r.stage == Stage::Start,
            text_of(r.region_override) == text_of(opt.region),
    {
        let region_override = match &opt.region {
            Some(r) => Some(r.clone()),
            None => None,
        };
        Invocation { region_override, stage: Stage::Start }
    }

    /// Takes what happened and returns what to do next.
    pub fn step(&mut self, event: Event) -> (action: Action)
        ensures
            text_of(final(self).region_override) == text_of(old(self).region_override),
            !expects(old(self).stage, event) ==> action == Action::Abort(HandlerError::OutOfOrder)
                && final(self).stage == Stage::Finished,
            old(self).stage == Stage::Start && event is Invoked ==> if old(
                self,
            ).region_override is Some {
                &&& action is LoadConfig
                &&& action->LoadConfig_0@ == effective_region(
                    text_of(old(self).region_override),
                    None,
                )
                &&& final(self).stage == Stage::AwaitingConfig
            } else {
                action is LookUpAmbientRegion && final(self).stage == Stage::AwaitingAmbientRegion
            },
            old(self).stage == Stage::AwaitingAmbientRegion && event is AmbientRegion ==> {
                &&& action is LoadConfig
                &&& action->LoadConfig_0@ == effective_region(
                    text_of(old(self).region_override),
                    text_of(event->AmbientRegion_0),
                )
                &&& final(self).stage == Stage::AwaitingConfig
            },
            old(self).stage == Stage::AwaitingConfig && event is ConfigLoaded ==> {
                &&& action is Publish
                &&& is_hello_publish(action->Publish_0)
                &&& final(self).stage == Stage::AwaitingPublish
            },
            old(self).stage == Stage::AwaitingPublish && event is Published ==> {
                &&& action is Respond
                &&& is_success_reply(action->Respond_0)
                &&& final(self).stage == Stage::Finished
            },
            old(self).stage == Stage::AwaitingPublish && event is PublishFailed ==> action
                == Action::Abort(HandlerError::Publish) && final(self).stage == Stage::Finished,
    {
        match (self.stage, event) {
            (Stage::Start, Event::Invoked) => match &self.region_override {
                Some(r) => {
                    self.stage = Stage::AwaitingConfig;
                    Action::LoadConfig(resolve_region(Some(r.clone()), None))
                },
                None => {
                    self.stage = Stage::AwaitingAmbientRegion;
                    Action::LookUpAmbientRegion
                },
            },
            (Stage::AwaitingAmbientRegion, Event::AmbientRegion(ambient)) => {
                self.stage = Stage::AwaitingConfig;
                let explicit = match &self.region_override {
                    Some(r) => Some(r.clone()),
                    None => None,
                };
                Action::LoadConfig(resolve_region(explicit, ambient))
            },
            (Stage::AwaitingConfig, Event::ConfigLoaded) => {
                self.stage = Stage::AwaitingPublish;
                Action::Publish(publish_request(hello_payload()))
            },
            (Stage::AwaitingPublish, Event::Published) => {
                self.stage = Stage::Finished;
                Action::Respond(success_reply())
            },
            (Stage::AwaitingPublish, Event::PublishFailed) => {
                self.stage = Stage::Finished;
                Action::Abort(HandlerError::Publish)
            },
            _ => {
                self.stage = Stage::Finished;
                Action::Abort(HandlerError::OutOfOrder)
            },
        }
    }
}

} // verus!
