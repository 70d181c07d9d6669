pub mod add_post;
pub mod canister_data;
pub mod follow;
pub mod frontend;
pub mod known_principal;
pub mod platform_orchestrator;
pub mod post;
pub mod post_cache;
pub mod principal;
pub mod stable_memory;
pub mod subnet_orchestrator;
pub mod version_details;
