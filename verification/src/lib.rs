pub mod choreography;
pub mod seqs;
pub mod wire;
pub mod kernel;
pub mod port;
pub mod machine;
