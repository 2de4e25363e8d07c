pub mod channel;
pub mod std_specs;
