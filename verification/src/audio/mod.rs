pub mod buffer;
pub mod supervisor;
pub mod capability;
pub mod codec;
pub mod engine;
pub mod icy;
pub mod legacy_loop;
pub mod metadata;
pub mod output;
pub mod prebuffer;
pub mod probe_reader;
pub mod recording;
pub mod visualizer;
pub mod worker;
