//! The credential step: the API key comes from the `NOTION_API_KEY`
//! environment variable, read by the surrounding binary and handed in as a
//! plain value. When it is absent the run is fatal: three diagnostic lines go
//! to standard error and the process exits with code 1.

use vstd::prelude::*;
use vstd::string::StringExecFns;

verus! {

/// True when `needle` occurs contiguously inside `hay`.
pub open spec fn has_substring(hay: Seq<char>, needle: Seq<char>) -> bool {
    exists|i: int|
        0 <= i && i + needle.len() <= hay.len() && #[trigger] hay.subrange(i, i + needle.len())
            == needle
}

/// The three diagnostic lines printed when the API key is absent. The last
/// one points at the secrets file that the bootstrapper created or confirmed.
pub open spec fn missing_key_lines(secrets_path: Seq<char>) -> Seq<Seq<char>> {
    seq![
        "Error: NOTION_API_KEY environment variable is not set"@,
        "Hint: export NOTION_API_KEY='your-secret-notion-key'"@,
        "(You now also have "@ + secrets_path + " where you can choose to manage secrets later.)"@,
    ]
}

/// Builds the three missing-key diagnostic lines.
pub fn missing_key_diagnostics(secrets_path: &str) -> (lines: Vec<String>)
    ensures
        lines.deep_view() == missing_key_lines(secrets_path@),
{
    let mut lines: Vec<String> = Vec::new();
    lines.push(String::from_str("Error: NOTION_API_KEY environment variable is not set"));
    lines.push(String::from_str("Hint: export NOTION_API_KEY='your-secret-notion-key'"));
    lines.push(
        String::from_str("(You now also have ").concat(secrets_path).concat(
            " where you can choose to manage secrets later.)",
        ),
    );
    proof {
        assert(lines.deep_view() =~~= missing_key_lines(secrets_path@));
    }
    lines
}

/// Law: the missing-key diagnostic names the variable that is missing. The
/// first of the three lines contains `NOTION_API_KEY`, whatever the secrets
/// path.
pub proof fn lemma_missing_key_diagnostic_names_variable(secrets_path: Seq<char>)
    ensures
        has_substring(missing_key_lines(secrets_path)[0], "NOTION_API_KEY"@),
{
    reveal_strlit("Error: NOTION_API_KEY environment variable is not set");
    reveal_strlit("NOTION_API_KEY");
    let hay = missing_key_lines(secrets_path)[0];
    let needle = "NOTION_API_KEY"@;
    assert(hay.subrange(7, 7 + needle.len() as int) =~= needle);
}

} // verus!
