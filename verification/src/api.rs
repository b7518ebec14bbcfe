//! The replies of the completion endpoint, and the text that the window
//! shows of them.
use vstd::prelude::*;

verus! {

/// One choice of a completion.
pub struct Choice {
    pub text: String,
}

/// A reply of the completion endpoint.
pub struct CompletionResponse {
    pub id: String,
    pub choices: Vec<Choice>,
}

/// What the window shows of a completion: the text of its first choice, or
/// an error where it has none.
pub open spec fn first_choice_text(choices: Seq<Choice>) -> Result<Seq<char>, Seq<char>> {
    if choices.len() > 0 {
        Ok(choices[0].text@)
    } else {
        Err("No response text received"@)
    }
}

/// The text of the first choice of `response`, or the error that none came.
pub fn response_text(response: &CompletionResponse) -> (r: Result<String, String>)
    ensures
        match r {
            Ok(t) => first_choice_text(response.choices@) == Ok::<Seq<char>, Seq<char>>(t@),
            Err(e) => first_choice_text(response.choices@) == Err::<Seq<char>, Seq<char>>(e@),
        },
{
    if response.choices.len() > 0 {
        Ok(response.choices[0].text.clone())
    } else {
        Err("No response text received".to_owned())
    }
}

/// The outcome of a completion request as the window receives it: the
/// reply's text, or the transport error (`error`) after "Error: ".
pub fn completion_outcome(outcome: Result<CompletionResponse, String>) -> (r: Result<String, String>)
    ensures
        match outcome {
            Ok(response) => match r {
                Ok(t) => first_choice_text(response.choices@) == Ok::<Seq<char>, Seq<char>>(t@),
                Err(e) => first_choice_text(response.choices@) == Err::<Seq<char>, Seq<char>>(e@),
            },
            Err(error) => match r {
                Err(e) => e@ == "Error: "@ + error@,
                Ok(_) => false,
            },
        },
{
    match outcome {
        Ok(response) => response_text(&response),
        Err(error) => {
            let mut e = "Error: ".to_owned();
            e.append(error.as_str());
            Err(e)
        },
    }
}

} // verus!
