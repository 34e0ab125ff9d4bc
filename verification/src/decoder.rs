pub mod layer;

pub use layer::{DecoderLayer, DecoderLayerConfig};
