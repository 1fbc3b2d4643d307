//! The request that starts a Grok conversation, with the options the library sets.
use vstd::prelude::*;
use crate::types::{DeepsearchPreset, ModelMode, ModelName};

verus! {

/// Options of a new conversation or a new response. Only the options given plain values
/// are kept; an option that is `None` is not sent.
#[derive(Debug, Clone)]
pub struct ChatOptions {
    pub model_name: Option<ModelName>,
    pub disable_search: Option<bool>,
    pub enable_image_generation: Option<bool>,
    pub image_generation_count: Option<u32>,
    pub force_concise: Option<bool>,
    pub custom_instructions: Option<String>,
    pub deepsearch_preset: Option<DeepsearchPreset>,
    pub is_reasoning: Option<bool>,
    pub webpage_urls: Option<Vec<String>>,
    pub disable_memory: Option<bool>,
    pub model_mode: Option<ModelMode>,
    pub enable_nsfw: Option<bool>,
    pub mode_id: Option<String>,
}

/// True when no option is set.
pub open spec fn no_options(o: ChatOptions) -> bool {
    &&& o.model_name is None
    &&& o.disable_search is None
    &&& o.enable_image_generation is None
    &&& o.image_generation_count is None
    &&& o.force_concise is None
    &&& o.custom_instructions is None
    &&& o.deepsearch_preset is None
    &&& o.is_reasoning is None
    &&& o.webpage_urls is None
    &&& o.disable_memory is None
    &&& o.model_mode is None
    &&& o.enable_nsfw is None
    &&& o.mode_id is None
}

impl ChatOptions {
    /// No option set.
    pub fn none() -> (r: ChatOptions)
        ensures
            no_options(r),
    {
        ChatOptions {
            model_name: None,
            disable_search: None,
            enable_image_generation: None,
            image_generation_count: None,
            force_concise: None,
            custom_instructions: None,
            deepsearch_preset: None,
            is_reasoning: None,
            webpage_urls: None,
            disable_memory: None,
            model_mode: None,
            enable_nsfw: None,
            mode_id: None,
        }
    }
}

/// The request that starts a conversation: its first message, its options, and whether
/// it is temporary (kept out of the history).
#[derive(Debug, Clone)]
pub struct NewConversationRequest {
    pub message: String,
    pub options: ChatOptions,
    pub temporary: Option<bool>,
}

/// Builds a [`NewConversationRequest`] one option at a time.
#[derive(Debug, Clone)]
pub struct NewConversationRequestBuilder(pub NewConversationRequest);

impl NewConversationRequest {
    /// A request with `message`, no option set and no temporary flag.
    pub fn new(message: &str) -> (r: NewConversationRequest)
        ensures
            r.message@ == message@,
            no_options(r.options),
            r.temporary is None,
    {
        NewConversationRequest {
            message: message.to_owned(),
            options: ChatOptions::none(),
            temporary: None,
        }
    }

    /// A builder that starts from [`NewConversationRequest::new`].
    pub fn builder(message: &str) -> (r: NewConversationRequestBuilder)
        ensures
            r.0.message@ == message@,
            no_options(r.0.options),
            r.0.temporary is None,
    {
        NewConversationRequestBuilder(NewConversationRequest::new(message))
    }
}

impl NewConversationRequestBuilder {
    /// Sets the model.
    pub fn model(self, model: ModelName) -> (r: Self)
        ensures
            r.0 == (NewConversationRequest {
                options: ChatOptions { model_name: Some(model), ..self.0.options },
                ..self.0
            }),
    {
        let mut b = self;
        b.0.options.model_name = Some(model);
        b
    }

    /// Sets the custom instructions.
    pub fn custom_instructions(self, instructions: &str) -> (r: Self)
        ensures
            r.0.options.custom_instructions matches Some(i) && i@ == instructions@,
            r.0 == (NewConversationRequest {
                options: ChatOptions {
                    custom_instructions: r.0.options.custom_instructions,
                    ..self.0.options
                },
                ..self.0
            }),
    {
        let mut b = self;
        b.0.options.custom_instructions = Some(instructions.to_owned());
        b
    }

    /// Sets whether the conversation is temporary.
    pub fn temporary(self, temp: bool) -> (r: Self)
        ensures
            r.0 == (NewConversationRequest { temporary: Some(temp), ..self.0 }),
    {
        let mut b = self;
        b.0.temporary = Some(temp);
        b
    }

    /// Sets whether the model reasons.
    pub fn reasoning(self, enabled: bool) -> (r: Self)
        ensures
            r.0 == (NewConversationRequest {
                options: ChatOptions { is_reasoning: Some(enabled), ..self.0.options },
                ..self.0
            }),
    {
        let mut b = self;
        b.0.options.is_reasoning = Some(enabled);
        b
    }

    /// Turns image generation on, with `count` images.
    pub fn image_generation(self, count: u32) -> (r: Self)
        ensures
            r.0 == (NewConversationRequest {
                options: ChatOptions {
                    enable_image_generation: Some(true),
                    image_generation_count: Some(count),
                    ..self.0.options
                },
                ..self.0
            }),
    {
        let mut b = self;
        b.0.options.enable_image_generation = Some(true);
        b.0.options.image_generation_count = Some(count);
        b
    }

    /// Turns web search off.
    pub fn disable_search(self) -> (r: Self)
        ensures
            r.0 == (NewConversationRequest {
                options: ChatOptions { disable_search: Some(true), ..self.0.options },
                ..self.0
            }),
    {
        let mut b = self;
        b.0.options.disable_search = Some(true);
        b
    }

    /// Turns memory off.
    pub fn disable_memory(self) -> (r: Self)
        ensures
            r.0 == (NewConversationRequest {
                options: ChatOptions { disable_memory: Some(true), ..self.0.options },
                ..self.0
            }),
    {
        let mut b = self;
        b.0.options.disable_memory = Some(true);
        b
    }

    /// Sets the DeepSearch preset.
    pub fn deepsearch(self, preset: DeepsearchPreset) -> (r: Self)
        ensures
            r.0 == (NewConversationRequest {
                options: ChatOptions { deepsearch_preset: Some(preset), ..self.0.options },
                ..self.0
            }),
    {
        let mut b = self;
        b.0.options.deepsearch_preset = Some(preset);
        b
    }

    /// Sets the model mode.
    pub fn model_mode(self, mode: ModelMode) -> (r: Self)
        ensures
            r.0 == (NewConversationRequest {
                options: ChatOptions { model_mode: Some(mode), ..self.0.options },
                ..self.0
            }),
    {
        let mut b = self;
        b.0.options.model_mode = Some(mode);
        b
    }

    /// Asks for concise answers.
    pub fn force_concise(self) -> (r: Self)
        ensures
            r.0 == (NewConversationRequest {
                options: ChatOptions { force_concise: Some(true), ..self.0.options },
                ..self.0
            }),
    {
        let mut b = self;
        b.0.options.force_concise = Some(true);
        b
    }

    /// Sets the web pages to read.
    pub fn webpage_urls(self, urls: Vec<String>) -> (r: Self)
        ensures
            r.0 == (NewConversationRequest {
                options: ChatOptions { webpage_urls: Some(urls), ..self.0.options },
                ..self.0
            }),
    {
        let mut b = self;
        b.0.options.webpage_urls = Some(urls);
        b
    }

    /// Sets whether NSFW content is allowed.
    pub fn nsfw(self, enabled: bool) -> (r: Self)
        ensures
            r.0 == (NewConversationRequest {
                options: ChatOptions { enable_nsfw: Some(enabled), ..self.0.options },
                ..self.0
            }),
    {
        let mut b = self;
        b.0.options.enable_nsfw = Some(enabled);
        b
    }

    /// The request built.
    pub fn build(self) -> (r: NewConversationRequest)
        ensures
            r == self.0,
    {
        self.0
    }
}

} // verus!
