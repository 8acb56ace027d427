//! Completion providers: the OpenAI-compatible one and an echoing stub.
pub mod openai;
pub mod stub;
