//! A chat session: a model, an optional system instruction and generation
//! parameters, and the history of messages that is sent whole with each turn.
use std::marker::PhantomData;

use vstd::prelude::*;

use crate::client::{self, is_instruction, is_user_text, Client, Route};
use crate::types::{self, same_config, same_content};

verus! {

/// A chat with one model. `T` is [`Text`] for plain answers and [`Json`] for
/// answers in JSON.
pub struct Chat<T> {
    model: String,
    client: Client,
    system_instruction: Option<String>,
    history: Vec<types::Content>,
    config: Option<types::GenerationConfig>,
    phantom: PhantomData<T>,
}

/// The configuration `c` after it is set where it was absent.
pub open spec fn config_or_unset(c: Option<types::GenerationConfig>) -> types::GenerationConfig {
    match c {
        Some(g) => g,
        None => types::GenerationConfig::unset(),
    }
}

/// The optional system instruction of a request made from `instruction`.
pub open spec fn instruction_matches(
    s: Option<types::SystemInstructionContent>,
    instruction: Option<String>,
) -> bool {
    match instruction {
        Some(i) => s matches Some(x) && is_instruction(x, i@),
        None => s is None,
    }
}

/// The optional configuration of a request made from `config`.
pub open spec fn config_matches(
    c: Option<types::GenerationConfig>,
    config: Option<types::GenerationConfig>,
) -> bool {
    match config {
        Some(g) => c matches Some(x) && same_config(x, g),
        None => c is None,
    }
}

impl<T> Chat<T> {
    /// The model.
    pub closed spec fn spec_model(&self) -> Seq<char> {
        self.model@
    }

    /// The API key of the chat's client.
    pub closed spec fn spec_key(&self) -> Seq<char> {
        self.client.spec_key()
    }

    /// The system instruction.
    pub closed spec fn spec_system_instruction(&self) -> Option<String> {
        self.system_instruction
    }

    /// The messages so far.
    pub closed spec fn spec_history(&self) -> Seq<types::Content> {
        self.history@
    }

    /// The generation parameters.
    pub closed spec fn spec_config(&self) -> Option<types::GenerationConfig> {
        self.config
    }

    /// A chat with `model` through `client`, with no instruction, history or
    /// parameters.
    pub fn new(client: &Client, model: &str) -> (r: Self)
        ensures
            r.spec_model() == model@,
            r.spec_key() == client.spec_key(),
            r.spec_system_instruction() is None,
            r.spec_history().len() == 0,
            r.spec_config() is None,
    {
        Chat {
            model: String::from_str(model),
            client: client.share(),
            system_instruction: None,
            history: Vec::new(),
            config: None,
            phantom: PhantomData,
        }
    }

    /// The generation parameters, set to none where they were absent.
    pub fn config(&mut self) -> (r: &types::GenerationConfig)
        ensures
            *r == config_or_unset(old(self).spec_config()),
            final(self).spec_config() == Some(config_or_unset(old(self).spec_config())),
            final(self).spec_model() == old(self).spec_model(),
            final(self).spec_key() == old(self).spec_key(),
            final(self).spec_system_instruction() == old(self).spec_system_instruction(),
            final(self).spec_history() == old(self).spec_history(),
    {
        self.config_mut()
    }

    /// The same chat, asking for answers in JSON.
    pub fn to_json(self) -> (r: Chat<Json>)
        ensures
            r.spec_config() matches Some(c) && c.response_mime_type matches Some(m)
                && m@ == "application/json"@,
            r.spec_config() matches Some(c) && {
                let o = config_or_unset(self.spec_config());
                &&& c.temperature_bits == o.temperature_bits
                &&& c.top_p_bits == o.top_p_bits
                &&& c.top_k == o.top_k
                &&& c.candidate_count == o.candidate_count
                &&& c.max_output_tokens == o.max_output_tokens
                &&& c.stop_sequences == o.stop_sequences
                &&& c.response_schema == o.response_schema
            },
            r.spec_model() == self.spec_model(),
            r.spec_key() == self.spec_key(),
            r.spec_system_instruction() == self.spec_system_instruction(),
            r.spec_history() == self.spec_history(),
    {
        let mut chat = self;
        chat.config_mut().response_mime_type = Some(String::from_str("application/json"));
        Chat {
            model: chat.model,
            client: chat.client,
            system_instruction: chat.system_instruction,
            history: chat.history,
            config: chat.config,
            phantom: PhantomData,
        }
    }

    /// The generation parameters, to be changed in place; set to none where
    /// they were absent.
    pub fn config_mut(&mut self) -> (r: &mut types::GenerationConfig)
        ensures
            *r == config_or_unset(old(self).spec_config()),
            final(self).spec_config() == Some(*final(r)),
            final(self).spec_model() == old(self).spec_model(),
            final(self).spec_key() == old(self).spec_key(),
            final(self).spec_system_instruction() == old(self).spec_system_instruction(),
            final(self).spec_history() == old(self).spec_history(),
    {
        if self.config.is_none() {
            self.config = Some(types::GenerationConfig::empty());
        }
        match &mut self.config {
            Some(c) => c,
            None => unreached(),
        }
    }

    /// The messages so far.
    pub fn history(&self) -> (r: &[types::Content])
        ensures
            r@ == self.spec_history(),
    {
        self.history.as_slice()
    }

    /// The messages so far, to be changed in place.
    pub fn history_mut(&mut self) -> (r: &mut Vec<types::Content>)
        ensures
            r@ == old(self).spec_history(),
            final(self).spec_history() == final(r)@,
            final(self).spec_model() == old(self).spec_model(),
            final(self).spec_key() == old(self).spec_key(),
            final(self).spec_system_instruction() == old(self).spec_system_instruction(),
            final(self).spec_config() == old(self).spec_config(),
    {
        &mut self.history
    }

    /// The same chat with the given system instruction.
    pub fn system_instruction(self, instruction: &str) -> (r: Self)
        ensures
            r.spec_system_instruction() matches Some(i) && i@ == instruction@,
            r.spec_model() == self.spec_model(),
            r.spec_key() == self.spec_key(),
            r.spec_history() == self.spec_history(),
            r.spec_config() == self.spec_config(),
    {
        let mut chat = self;
        chat.system_instruction = Some(String::from_str(instruction));
        chat
    }

    /// The request for the next answer: the model, the instruction and the
    /// parameters of the chat, and its whole history.
    pub fn generate_content(&self) -> (r: Route<client::GenerateContent>)
        ensures
            r.spec_key() == self.spec_key(),
            r.spec_kind().model@ == self.spec_model(),
            instruction_matches(r.spec_kind().body.system_instruction, self.spec_system_instruction()),
            config_matches(r.spec_kind().body.generation_config, self.spec_config()),
            r.spec_kind().body.contents@.len() == self.spec_history().len(),
            forall|i: int|
                0 <= i < self.spec_history().len() ==> same_content(
                    #[trigger] r.spec_kind().body.contents@[i],
                    self.spec_history()[i],
                ),
            r.spec_kind().body.tools@.len() == 0,
            r.spec_kind().body.safety_settings@.len() == 0,
    {
        let mut generate_content = self.client.generate_content(self.model.as_str());
        if let Some(system_instruction) = &self.system_instruction {
            generate_content.kind_mut().system_instruction(system_instruction.as_str());
        }
        if let Some(config) = &self.config {
            generate_content.kind_mut().config(config.duplicate());
        }
        generate_content.kind_mut().contents(types::duplicate_contents(&self.history));
        generate_content
    }

    /// Adds a message from the user to the history, and gives the request for
    /// the answer to it.
    pub fn send_message(&mut self, message: &str) -> (r: Route<client::GenerateContent>)
        ensures
            final(self).spec_history().len() == old(self).spec_history().len() + 1,
            final(self).spec_history().take(old(self).spec_history().len() as int) == old(
                self,
            ).spec_history(),
            is_user_text(final(self).spec_history().last(), message@),
            final(self).spec_model() == old(self).spec_model(),
            final(self).spec_key() == old(self).spec_key(),
            final(self).spec_system_instruction() == old(self).spec_system_instruction(),
            final(self).spec_config() == old(self).spec_config(),
            r.spec_key() == final(self).spec_key(),
            r.spec_kind().model@ == final(self).spec_model(),
            instruction_matches(
                r.spec_kind().body.system_instruction,
                final(self).spec_system_instruction(),
            ),
            config_matches(r.spec_kind().body.generation_config, final(self).spec_config()),
            r.spec_kind().body.contents@.len() == final(self).spec_history().len(),
            forall|i: int|
                0 <= i < final(self).spec_history().len() ==> same_content(
                    #[trigger] r.spec_kind().body.contents@[i],
                    final(self).spec_history()[i],
                ),
    {
        self.history.push(
            types::Content { role: types::Role::User, parts: vec![types::Part::text(message)] },
        );
        assert(self.history@.take(old(self).history@.len() as int) =~= old(self).history@);
        self.generate_content()
    }
}

impl Chat<Json> {
    /// The same chat, asking for answers that follow `schema`.
    pub fn response_schema(self, schema: types::Schema) -> (r: Self)
        ensures
            r.spec_config() matches Some(c) && c.response_schema == Some(schema),
            r.spec_config() matches Some(c) && {
                let o = config_or_unset(self.spec_config());
                &&& c.temperature_bits == o.temperature_bits
                &&& c.top_p_bits == o.top_p_bits
                &&& c.top_k == o.top_k
                &&& c.candidate_count == o.candidate_count
                &&& c.max_output_tokens == o.max_output_tokens
                &&& c.stop_sequences == o.stop_sequences
                &&& c.response_mime_type == o.response_mime_type
            },
            r.spec_model() == self.spec_model(),
            r.spec_key() == self.spec_key(),
            r.spec_system_instruction() == self.spec_system_instruction(),
            r.spec_history() == self.spec_history(),
    {
        let mut chat = self;
        chat.config_mut().response_schema = Some(schema);
        chat
    }
}

/// Marks a chat whose answers are plain text.
pub struct Text {}

/// Marks a chat whose answers are JSON.
pub struct Json {}

} // verus!
