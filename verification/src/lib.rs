//! Resumable computations modelled as explicit state machines, together with
//! the small verified companions of the same collection: compile-time-shaped
//! numeric containers and an infallible signing interface.

pub mod array_split;
pub mod bool_assertions;
pub mod coroutine;
pub mod data_pipeline;
pub mod fft;
pub mod fibonacci;
pub mod field_elements;
pub mod matrices;
pub mod merkle_tree;
pub mod polynomials;
pub mod ratio;
pub mod retry;
pub mod signing;
pub mod state_machine;
pub mod tasks;
pub mod text;

pub use array_split::split;
pub use bool_assertions::Assert;
pub use bool_assertions::IsTrue;
pub use bool_assertions::is_power_of_two;
pub use bool_assertions::log2;
pub use coroutine::CoroutineState;
pub use coroutine::Never;
pub use data_pipeline::Average;
pub use data_pipeline::PipelineStep;
pub use data_pipeline::run_pipeline;
pub use data_pipeline::MovingAverageCoroutine;
pub use data_pipeline::OutlierDetectorCoroutine;
pub use data_pipeline::moving_average_coroutine;
pub use data_pipeline::outlier_detector_coroutine;
pub use fft::FftArray;
pub use fibonacci::FibonacciCoroutine;
pub use field_elements::FieldElement;
pub use field_elements::Fp255;
pub use field_elements::Fp256;
pub use field_elements::Fp381;
pub use matrices::Matrix;
pub use merkle_tree::MerkleProof;
pub use merkle_tree::MerkleTree;
pub use fibonacci::fibonacci_coroutine;
pub use polynomials::Polynomial;
pub use ratio::Ratio;
pub use retry::RetryStep;
pub use retry::retry_decision;
pub use signing::CryptoBackend;
pub use signing::HsmBackend;
pub use signing::HsmError;
pub use signing::InMemoryKeys;
pub use signing::sign_document;
pub use tasks::guaranteed_fetch;
pub use tasks::listener_with_errors;
pub use tasks::try_fetch;
pub use state_machine::AIAction;
pub use state_machine::AiControllerCoroutine;
pub use state_machine::GameEvent;
pub use state_machine::ai_controller_coroutine;
