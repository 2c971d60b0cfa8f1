//! Data model of a team messaging server.

pub mod calendar;
pub mod channel;
pub mod draft;
pub mod pattern;
pub mod plugin_constants;
pub mod post;
pub mod post_acknowledgement;
pub mod property_field;
pub mod reaction;
pub mod remote_cluster;
pub mod role;
pub mod scheduled_post;
pub mod scheduled_post_recurrence;
pub mod scheduled_recap;
pub mod scheme;
pub mod search_params;
pub mod search_requests;
pub mod security_bulletin;
pub mod serde_helpers;
pub mod service_environment;
pub mod session;
pub mod session_attributes;
pub mod shared_channel;
pub mod sidebar_category;
pub mod slack_compatibility;
pub mod stats;
pub mod status;
pub mod str_map;
pub mod support_packet;
pub mod switch_request;
pub mod system;
pub mod team;
pub mod team_member;
pub mod team_search;
pub mod temporary_post;
pub mod terms_of_service;
pub mod text;
pub mod thread;
pub mod timeutils;
pub mod timezones;
pub mod token;
pub mod typing_request;
pub mod unicode;
pub mod upload_session;
pub mod usage;
pub mod user;
pub mod user_access_token;
pub mod user_autocomplete;
pub mod user_count;
pub mod user_get;
pub mod user_search;
pub mod user_terms_of_service;
pub mod utils;
pub mod value;
