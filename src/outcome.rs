use vstd::prelude::*;

verus! {

/// The terminal artifact of a request that the pipeline carried through.
#[derive(Debug, PartialEq, Eq)]
pub enum FormatResult {
    Success { formatted_content: String },
    Ignored,
    Error { error: String },
}

/// The text view of a (key, value) pair of the response.
pub open spec fn field_view(p: (String, String)) -> (Seq<char>, Seq<char>) {
    (p.0@, p.1@)
}

/// The response for an outcome, as the (key, value) pairs of its object in order.
/// `Err` stands for a failure of the pipeline itself.
pub open spec fn response_of(r: Result<FormatResult, String>) -> Seq<(Seq<char>, Seq<char>)> {
    match r {
        Ok(FormatResult::Success { formatted_content }) => seq![
            ("format-status"@, "success"@),
            ("formatted-content"@, formatted_content@),
        ],
        Ok(FormatResult::Ignored) => seq![("format-status"@, "ignored"@)],
        Ok(FormatResult::Error { error }) => seq![
            ("format-status"@, "error"@),
            ("format-error"@, error@),
        ],
        Err(m) => seq![("plugin-panic"@, m@)],
    }
}

/// Lays out the response object for an outcome: one shape for each of the
/// three results and a distinct one for a failure of the pipeline.
pub fn response_fields(r: &Result<FormatResult, String>) -> (v: Vec<(String, String)>)
    ensures
        v@.map_values(|p: (String, String)| field_view(p)) == response_of(*r),
{
    let mut v: Vec<(String, String)> = Vec::new();
    match r {
        Ok(FormatResult::Success { formatted_content }) => {
            v.push(("format-status".to_owned(), "success".to_owned()));
            v.push(("formatted-content".to_owned(), formatted_content.clone()));
        },
        Ok(FormatResult::Ignored) => {
            v.push(("format-status".to_owned(), "ignored".to_owned()));
        },
        Ok(FormatResult::Error { error }) => {
            v.push(("format-status".to_owned(), "error".to_owned()));
            v.push(("format-error".to_owned(), error.clone()));
        },
        Err(m) => {
            v.push(("plugin-panic".to_owned(), m.clone()));
        },
    }
    assert(v@.map_values(|p: (String, String)| field_view(p)) =~= response_of(*r));
    v
}

} // verus!
