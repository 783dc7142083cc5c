//! The statuses core of a federated microblogging server: addressing,
//! Activity construction, inbound Activity handling, interactions, polls and
//! the request-shape rules of the HTTP surface.

pub mod account_provider;
pub mod activity_builder;
pub mod addressing;
pub mod clock;
pub mod create_note;
pub mod domain;
pub mod effects;
pub mod endpoints;
pub mod error;
pub mod idempotency;
pub mod inbound_handlers;
pub mod inbound_note;
pub mod ingest_service;
pub mod interaction_repository;
pub mod interaction_rows;
pub mod interaction_service;
pub mod json;
pub mod laws;
pub mod model;
pub mod note_ingest;
pub mod notification_sink;
pub mod order;
pub mod poll_repository;
pub mod poll_service;
pub mod store;
pub mod text;
pub mod wire;
