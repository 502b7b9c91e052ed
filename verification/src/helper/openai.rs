//! A chat model reachable through an OpenAI-compatible API: where it lives,
//! which model to ask, and how a question and an answer look.
use vstd::prelude::*;
use vstd::string::*;

verus! {

/// The system message sent with every question.
pub open spec fn system_prompt() -> Seq<char> {
    "You are a helpful assistant."@
}

/// One chat completion request: the endpoint and model it goes to, a fixed
/// system message and the user's text.
pub struct ChatRequest {
    pub base: String,
    pub model: String,
    pub system: String,
    pub user: String,
}

/// The model gave no text back.
#[derive(Debug)]
pub struct ChatError {
    pub model: String,
}

/// What a chat error says: the model gave no answer.
pub open spec fn no_reply_message() -> Seq<char> {
    "模型没有回复"@
}

/// The context a chat error is reported in: the model that was asked.
pub open spec fn model_context(model: Seq<char>) -> Seq<char> {
    "正在使用模型: "@ + model
}

impl ChatError {
    /// What the error says: `模型没有回复`.
    pub fn message(&self) -> (res: String)
        ensures
            res@ == no_reply_message(),
    {
        String::from_str("模型没有回复")
    }

    /// The context the error is reported in: `正在使用模型: ` and the model.
    pub fn context(&self) -> (res: String)
        ensures
            res@ == model_context(self.model@),
    {
        let mut res = String::from_str("正在使用模型: ");
        res.append(self.model.as_str());
        res
    }
}

/// Settings of one chat model endpoint.
pub struct Openai {
    base: String,
    model: String,
    key: String,
}

impl Openai {
    pub closed spec fn spec_base(&self) -> Seq<char> {
        self.base@
    }

    pub closed spec fn spec_model(&self) -> Seq<char> {
        self.model@
    }

    pub closed spec fn spec_key(&self) -> Seq<char> {
        self.key@
    }

    /// An endpoint at `base` that asks `model`, authenticated by `key`.
    pub fn new(base: String, model: String, key: String) -> (res: Openai)
        ensures
            res.spec_base() == base@,
            res.spec_model() == model@,
            res.spec_key() == key@,
    {
        Openai { base, model, key }
    }

    /// The API base URL.
    pub fn base(&self) -> (res: &str)
        ensures
            res@ == self.spec_base(),
    {
        self.base.as_str()
    }

    /// The model name.
    pub fn model(&self) -> (res: &str)
        ensures
            res@ == self.spec_model(),
    {
        self.model.as_str()
    }

    /// The API key.
    pub fn key(&self) -> (res: &str)
        ensures
            res@ == self.spec_key(),
    {
        self.key.as_str()
    }

    /// The request that asks this model `content`.
    pub fn chat_request(&self, content: String) -> (res: ChatRequest)
        ensures
            res.base@ == self.spec_base(),
            res.model@ == self.spec_model(),
            res.system@ == system_prompt(),
            res.user@ == content@,
    {
        let system = "You are a helpful assistant.".to_string();
        proof {
            vstd::string::to_string_from_display_ensures_for_str(
                "You are a helpful assistant.",
                system,
            );
        }
        ChatRequest { base: self.base.clone(), model: self.model.clone(), system, user: content }
    }

    /// The answer in a response whose choices carry the texts `choices`, in
    /// order: the text of the first choice.  Without a first choice, or when
    /// it carries no text, the model is named in the error.
    pub fn reply(&self, choices: Vec<Option<String>>) -> (res: Result<String, ChatError>)
        ensures
            match res {
                Ok(text) => choices@.len() > 0 && choices@[0] == Some(text),
                Err(e) => {
                    &&& e.model@ == self.spec_model()
                    &&& (choices@.len() == 0 || choices@[0] is None)
                },
            },
    {
        let mut choices = choices;
        if choices.len() == 0 {
            return Err(ChatError { model: self.model.clone() });
        }
        match choices.remove(0) {
            Some(text) => Ok(text),
            None => Err(ChatError { model: self.model.clone() }),
        }
    }
}

} // verus!
