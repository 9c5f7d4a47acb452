pub mod history;

pub use history::InputHistory;
