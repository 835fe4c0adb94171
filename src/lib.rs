//! Word-boundary inference for scripts written without spaces: the
//! tokenization, dictionary lookup and tag decoding around a bidirectional
//! LSTM segmentation model.

pub mod error;
pub mod structs;
pub mod tokenize;
pub mod lstm;
pub mod decimal;
