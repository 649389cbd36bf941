//! Assembly of the provider context from prompt layers and chat history.

pub mod builder;
