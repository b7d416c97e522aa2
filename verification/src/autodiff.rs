pub mod grad;
pub mod node;
pub mod scalar;
pub mod tape;
pub mod var;
