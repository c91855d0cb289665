mod action_picker;
mod ai;
mod chatgpt_4v;
mod json;
pub mod models;

pub use crate::action_picker::{
    action_id_wf, action_line_spec, actions_text_spec, instructions_spec,
    lemma_prompt_deterministic, lemma_prompt_preserves_action_order, pick_action_from_image,
    prompt_spec, render_prompt, Action,
};
pub use crate::ai::{AiImageChat, AiImageChatError, ImagePath};
pub use crate::chatgpt_4v::{
    base64_char, base64_len, base64_of, check_status, data_uri_spec, extract_answer, make_payload,
    request_body_spec, resolve_local_image, ApiResponse, Choice, Message, Usage,
};
pub use crate::json::{append_json_escaped, json_escape_char_spec, json_escaped_spec};
