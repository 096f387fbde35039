//! A strict-FIFO queue built from two growable arrays, with amortized O(1)
//! push and pop, together with a handful of small verified utilities.

pub mod binary_tree;
pub mod characters;
pub mod fifo_laws;
pub mod http_status;
pub mod images;
pub mod numbers;
pub mod orderings;
pub mod queue;
pub mod rough_time;
pub mod slice_utils;
pub mod text;
pub mod users;
