//! Verified core logic of the ROSE Online LLM buddy-bot server: game data
//! enums, components and resources, the LLM event queue, tool planning,
//! prompt construction, chat routing and the bot registry.

pub mod status_effect;
pub mod event_types;
pub mod event_queue;
pub mod text;
pub mod components;
pub mod api_models;
pub mod api_channels;
pub mod llm_client;
pub mod tools;
pub mod tool_executor;
pub mod prompts;
pub mod context_builder;
pub mod chat_handler;
pub mod pending;
pub mod bot_registry;
pub mod resources;
pub mod bot_skills;
pub mod bot_idle;
pub mod buddy_bot_creation;
pub mod api_requests;
pub mod api_routes;
pub mod mcp_schemas;
pub mod mcp_server;
pub mod llm_config;
pub mod ids;
pub mod context_query;
pub mod event_collector;
pub mod feedback;
pub mod chat_routing;
pub mod game_events;
pub mod status_effect_database;
