use vstd::prelude::*;

use crate::ai::{AiImageChat, AiImageChatError, ImagePath};

verus! {

/// An action that can be taken.
#[derive(Clone, Debug)]
pub struct Action {
    /// The ID of the action: the token the AI is asked to reply with.
    pub id: String,
    /// The description of the action.
    pub description: String,
}

/// A well-formed action id: a token with no embedded newline, so that it can
/// stand on its own line of the prompt and be the expected literal response.
pub open spec fn action_id_wf(a: Action) -> bool {
    forall|i: int| 0 <= i < a.id@.len() ==> a.id@[i] != '\n'
}

/// The fixed instruction sentence that opens every prompt.
pub open spec fn instructions_spec() -> Seq<char> {
    "Given the context and instructions below, respond with only the single action id that best matches the image. Don't reply with anything else."@
}

/// The line rendered for one action: `<id>: <description>` and a blank line.
pub open spec fn action_line_spec(a: Action) -> Seq<char> {
    a.id@ + ": "@ + a.description@ + "\n\n"@
}

/// The rendered action lines, one per action, in list order.
pub open spec fn actions_text_spec(actions: Seq<Action>) -> Seq<char>
    decreases actions.len(),
{
    if actions.len() == 0 {
        Seq::empty()
    } else {
        actions_text_spec(actions.drop_last()) + action_line_spec(actions.last())
    }
}

/// The whole prompt: instructions, context, and the action list, each part
/// separated by a blank line.
pub open spec fn prompt_spec(context: Seq<char>, actions: Seq<Action>) -> Seq<char> {
    instructions_spec() + "\n\n"@ + "Context: "@ + context + "\n\n"@ + "Possible Actions:\n\n"@
        + actions_text_spec(actions)
}

/// Render the decision prompt for a context and a list of candidate actions.
///
/// Rendering is total: it always succeeds, and the result is exactly
/// `prompt_spec` of the inputs.
pub fn render_prompt(context: &str, actions: &Vec<Action>) -> (r: String)
    ensures
        r@ == prompt_spec(context@, actions@),
{
    let mut p = String::new();
    p.append(
        "Given the context and instructions below, respond with only the single action id that best matches the image. Don't reply with anything else.",
    );
    p.append("\n\n");
    p.append("Context: ");
    p.append(context);
    p.append("\n\n");
    p.append("Possible Actions:\n\n");
    for i in 0..actions.len()
        invariant
            p@ == prompt_spec(context@, actions@.take(i as int)),
    {
        p.append(actions[i].id.as_str());
        p.append(": ");
        p.append(actions[i].description.as_str());
        p.append("\n\n");
        proof {
            assert(actions@.take(i + 1).drop_last() =~= actions@.take(i as int));
            assert(p@ =~= prompt_spec(context@, actions@.take(i + 1)));
        }
    }
    proof {
        assert(actions@.take(actions@.len() as int) =~= actions@);
    }
    p
}

/// Pick an action from an image and provided context.
///
/// Renders the prompt — which is proved never to fail, so no network call is
/// ever preceded by a prompt error — and delegates to the backend; the
/// backend's answer or error is passed through verbatim, and in particular
/// the answer is not validated against the supplied action ids.
///
/// The `ensures` pins that down as far as an open port allows: the result is
/// a possible return of the backend's `ask_about_image` for this image and a
/// question equal to the canonical prompt of `(context, actions)`. A caller
/// who knows more of its backend's contract recovers the pass-through from
/// this clause.
///
/// The action list is the caller's: it must be non-empty, and its ids must be
/// well formed and unique within the call, since the answer is matched by id
/// and duplicates would make it ambiguous.
pub fn pick_action_from_image<T: AiImageChat>(
    ai: &T,
    context: &str,
    actions: &Vec<Action>,
    image_path: &ImagePath,
) -> (r: Result<String, AiImageChatError>)
    requires
        actions@.len() > 0,
        forall|k: int| 0 <= k < actions@.len() ==> action_id_wf(#[trigger] actions@[k]),
        forall|i: int, j: int|
            0 <= i < j < actions@.len() ==> actions@[i].id@ != actions@[j].id@,
    ensures
        exists|prompt: &str|
            #[trigger] call_ensures(T::ask_about_image, (ai, prompt, image_path), r) && prompt@
                == prompt_spec(context@, actions@),
{
    let prompt = render_prompt(context, actions);
    proof {
        reveal_strlit("\n\n");
        assert(prompt@.len() > 0);
    }
    let question: &str = prompt.as_str();
    let response = match ai.ask_about_image(question, image_path) {
        Ok(answer) => answer,
        Err(e) => {
            return Err(e);
        },
    };
    Ok(response)
}

/// Law: rendering the prompt is deterministic. The prompt is a function of
/// the context and the action list alone, so two renderings of the same pair
/// are identical, character for character.
pub proof fn lemma_prompt_deterministic(
    context: Seq<char>,
    actions: Seq<Action>,
    p1: Seq<char>,
    p2: Seq<char>,
)
    requires
        p1 == prompt_spec(context, actions),
        p2 == prompt_spec(context, actions),
    ensures
        p1 == p2,
{
}

/// Law: action order is preserved verbatim in the rendered prompt — adding
/// an action at the end of the list appends exactly that action's line at
/// the end of the prompt, leaving everything before it unchanged.
pub proof fn lemma_prompt_preserves_action_order(
    context: Seq<char>,
    actions: Seq<Action>,
    a: Action,
)
    ensures
        prompt_spec(context, actions.push(a)) == prompt_spec(context, actions) + action_line_spec(
            a,
        ),
{
    assert(actions.push(a).drop_last() =~= actions);
    assert(prompt_spec(context, actions.push(a)) =~= prompt_spec(context, actions)
        + action_line_spec(a));
}

} // verus!
