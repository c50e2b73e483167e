pub mod backoff;
pub mod deleter;
pub mod input;
pub mod lister;
pub mod pipeline;
pub mod snowflake;
pub mod stats;
