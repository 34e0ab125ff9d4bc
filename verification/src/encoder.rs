pub mod layer;

pub use layer::{EncoderLayer, EncoderLayerConfig};
