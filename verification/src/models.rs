pub use crate::chatgpt_4v::ChatGpt4v;
