use vstd::prelude::*;

verus! {

/// `output` is `rest` preceded by a non-empty home directory.
pub open spec fn is_home_prefixed(rest: Seq<char>, output: Seq<char>) -> bool {
    &&& output.len() > rest.len()
    &&& output.subrange(output.len() - rest.len(), output.len() as int) == rest
}

/// `output` is what tilde expansion may make of `input`: text without a leading `~`
/// stays as it is; `~name...` stays as it is; `~` alone or followed by a separator
/// becomes a non-empty home directory followed by the rest of the text, or stays as it
/// is when no home directory is known.
pub open spec fn is_tilde_expansion(input: Seq<char>, output: Seq<char>) -> bool {
    if input.len() > 0 && input[0] == '~' {
        if input.len() > 1 && input[1] != '/' && input[1] != '\\' {
            output == input
        } else {
            output == input || is_home_prefixed(input.skip(1), output)
        }
    } else {
        output == input
    }
}

/// Expands a leading `~` of `input` into the user's home directory, through
/// `shellexpand::tilde`. Which home directory comes in depends on the environment, so
/// the contract says only what holds of every outcome: text without a leading tilde
/// and `~name` forms come back unchanged, and otherwise the result is either the text
/// unchanged (no home directory known) or the home directory followed by the text after
/// the tilde. The home directory is never empty: `dirs::home_dir` turns an empty `HOME`
/// or an empty password-database entry into "unknown".
#[verifier::external_body]
pub(crate) fn expand_tilde(input: &str) -> (expanded: String)
    ensures
        is_tilde_expansion(input@, expanded@),
{
    shellexpand::tilde(input).into_owned()
}

/// What becomes of a path that starts with `~`: it either stays as it is or becomes some
/// non-empty home directory followed by the text after the tilde; the tilde is never
/// just dropped.
pub proof fn law_tilde_is_kept_or_replaced(input: Seq<char>, output: Seq<char>)
    requires
        input.len() > 0,
        input[0] == '~',
        is_tilde_expansion(input, output),
    ensures
        output == input || exists|home: Seq<char>| home.len() > 0 && output == home + input.skip(1),
        output != input.skip(1),
{
    let rest = input.skip(1);
    if output != input {
        let home = output.subrange(0, output.len() - rest.len());
        assert(output =~= home + rest);
        assert(home.len() > 0);
    }
}

/// Text without a leading `~` comes back exactly as it was.
pub proof fn law_plain_path_unchanged(input: Seq<char>, output: Seq<char>)
    requires
        !(input.len() > 0 && input[0] == '~'),
        is_tilde_expansion(input, output),
    ensures
        output == input,
{
}

} // verus!
