use pick_action_from_image::{
    pick_action_from_image, render_prompt, Action, AiImageChat, AiImageChatError, ImagePath,
};

struct TestAI {}

impl AiImageChat for TestAI {
    fn ask_about_image(
        &self,
        _question: &str,
        _image_path: &ImagePath,
    ) -> Result<String, AiImageChatError> {
        Ok("answer".to_string())
    }
}

fn action(id: &str, description: &str) -> Action {
    Action { id: id.to_string(), description: description.to_string() }
}

#[test]
fn test_pick_action_from_image() {
    let url = "https://www.petlandflorida.com/wp-content/uploads/2022/04/shutterstock_1290320698-1-scaled.jpg".to_string();
    let image_path = ImagePath::Url(url);
    let context = "What would make them happiest? They haven't eaten.";
    let actions = vec![
        action("give bone", "Give a delicious bone to chew on"),
        action("give belly rub", "Give a belly rub"),
        action("none", "Don't do anything"),
    ];

    let test_ai = TestAI {};
    let response = pick_action_from_image(&test_ai, context, &actions, &image_path).unwrap();
    assert_eq!(response, "answer");
}

#[test]
fn prompt_has_exactly_the_documented_shape() {
    let actions = vec![action("a", "first"), action("b", "second")];
    let prompt = render_prompt("ctx", &actions);
    let expected = "Given the context and instructions below, respond with only the single action id that best matches the image. Don't reply with anything else.\n\nContext: ctx\n\nPossible Actions:\n\na: first\n\nb: second\n\n";
    assert_eq!(prompt, expected);
}

#[test]
fn prompt_rendering_is_deterministic() {
    let actions = vec![
        action("give bone", "Give a delicious bone to chew on"),
        action("none", "Don't do anything"),
    ];
    let first = render_prompt("Is the dog hungry?", &actions);
    let second = render_prompt("Is the dog hungry?", &actions);
    assert_eq!(first, second);
}

#[test]
fn prompt_preserves_action_order() {
    let forward = render_prompt("c", &vec![action("x", "one"), action("y", "two")]);
    let backward = render_prompt("c", &vec![action("y", "two"), action("x", "one")]);
    assert!(forward.ends_with("x: one\n\ny: two\n\n"));
    assert!(backward.ends_with("y: two\n\nx: one\n\n"));
    assert_ne!(forward, backward);
}

#[test]
fn prompt_with_no_actions_is_just_the_header() {
    let prompt = render_prompt("empty", &vec![]);
    assert_eq!(
        prompt,
        "Given the context and instructions below, respond with only the single action id that best matches the image. Don't reply with anything else.\n\nContext: empty\n\nPossible Actions:\n\n"
    );
}

struct StubBackend {
    reply: String,
}

impl AiImageChat for StubBackend {
    fn ask_about_image(
        &self,
        _question: &str,
        _image_path: &ImagePath,
    ) -> Result<String, AiImageChatError> {
        Ok(self.reply.clone())
    }
}

#[test]
fn end_to_end_with_stub_backend_returns_the_picked_id() {
    let stub = StubBackend { reply: "give bone".to_string() };
    let image_path = ImagePath::Url("https://example.com/dog.jpg".to_string());
    let actions = vec![
        action("give bone", "Give a delicious bone to chew on"),
        action("none", "Don't do anything"),
    ];
    let response =
        pick_action_from_image(&stub, "Is the dog hungry?", &actions, &image_path).unwrap();
    assert_eq!(response, "give bone");
}

struct FailingBackend {}

impl AiImageChat for FailingBackend {
    fn ask_about_image(
        &self,
        _question: &str,
        _image_path: &ImagePath,
    ) -> Result<String, AiImageChatError> {
        Err(AiImageChatError::RequestFailed("boom".to_string()))
    }
}

#[test]
fn backend_errors_are_passed_through_verbatim() {
    let image_path = ImagePath::File("/tmp/dog.jpg".to_string());
    let actions = vec![action("none", "Don't do anything")];
    let err = pick_action_from_image(&FailingBackend {}, "c", &actions, &image_path).unwrap_err();
    assert!(matches!(err, AiImageChatError::RequestFailed(_)));
}

struct CountingBackend {
    calls: std::cell::Cell<usize>,
}

impl AiImageChat for CountingBackend {
    fn ask_about_image(
        &self,
        question: &str,
        _image_path: &ImagePath,
    ) -> Result<String, AiImageChatError> {
        self.calls.set(self.calls.get() + 1);
        Ok(question.to_string())
    }
}

#[test]
fn backend_is_invoked_exactly_once_with_the_rendered_prompt() {
    let counting = CountingBackend { calls: std::cell::Cell::new(0) };
    let image_path = ImagePath::Url("https://example.com/dog.jpg".to_string());
    let actions = vec![action("none", "Don't do anything")];
    let echoed = pick_action_from_image(&counting, "c", &actions, &image_path).unwrap();
    assert_eq!(counting.calls.get(), 1);
    assert_eq!(echoed, render_prompt("c", &actions));
}
