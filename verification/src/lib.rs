//! Request lowering and stream assembly for OpenAI-compatible model APIs.

pub mod assoc;
pub mod cache_control;
pub mod cache_laws;
pub mod chunk_laws;
pub mod codex_connections;
pub mod codex_laws;
pub mod codex_retry;
pub mod codex_stream;
pub mod codex_transport;
pub mod compat_laws;
pub mod completions_chunks;
pub mod completions_compat;
pub mod completions_laws;
pub mod completions_messages;
pub mod completions_request;
pub mod completions_run;
pub mod completions_stream;
pub mod completions_types;
pub mod completions_usage;
pub mod completions_wire;
pub mod constrained_sampling;
pub mod conversation_laws;
pub mod decode;
pub mod error_laws;
pub mod event_laws;
pub mod hash;
pub mod header_laws;
pub mod header_map;
pub mod headers;
pub mod id_laws;
pub mod input_laws;
pub mod js;
pub mod json;
pub mod message_laws;
pub mod openai_completions;
pub mod openai_prompt_cache;
pub mod openai_responses;
pub mod openai_responses_shared;
pub mod openai_sse;
pub mod option_laws;
pub mod order;
pub mod provider_error;
pub mod reasoning_details;
pub mod request_laws;
pub mod requests;
pub mod responses_events;
pub mod responses_input;
pub mod responses_request_laws;
pub mod responses_run;
pub mod responses_stream;
pub mod responses_wire;
pub mod run;
pub mod run_laws;
pub mod simple_options;
pub mod stream_laws;
pub mod text;
pub mod text_laws;
pub mod text_signature;
pub mod thinking_parameters;
pub mod tool_call_ids;
pub mod transform_laws;
pub mod transform_messages;
pub mod types;
pub mod wire;
pub mod wire_laws;

