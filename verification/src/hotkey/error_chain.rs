use vstd::prelude::*;

verus! {

#[verifier::external_type_specification]
#[verifier::external_body]
pub struct ExAnyhowError(anyhow::Error);

/// Calls `anyhow::Error::chain` and prints each cause with `to_string`.
/// Claimed: at least one message comes back, since the chain begins with the
/// error itself.  The texts are left unsaid: each is what the cause's own
/// `Display` prints, and an operating-system error prints through the C
/// library's message table, which follows the process locale.
#[verifier::external_body]
fn cause_messages(error: &anyhow::Error) -> (messages: Vec<String>)
    ensures
        messages@.len() >= 1,
{
    error.chain().map(|cause| cause.to_string()).collect()
}

/// Calls `to_string` on an `anyhow::Error`, which prints it with `Display`:
/// without the alternate flag, the error's own message.  Nothing is claimed
/// of the text, which the wrapped error's `Display` decides.
#[verifier::external_body]
pub fn error_message(error: &anyhow::Error) -> (message: String) {
    error.to_string()
}

/// `parts` written one after the other with `separator` between them.
pub open spec fn joined(parts: Seq<Seq<char>>, separator: Seq<char>) -> Seq<char>
    decreases parts.len(),
{
    if parts.len() == 0 {
        seq![]
    } else if parts.len() == 1 {
        parts[0]
    } else {
        joined(parts.drop_last(), separator) + separator + parts.last()
    }
}

/// An error without causes prints its own message; each cause adds `": "`
/// and its message at the end.
pub proof fn lemma_joined_steps(parts: Seq<Seq<char>>, more: Seq<char>, separator: Seq<char>)
    ensures
        joined(seq![more], separator) == more,
        parts.len() > 0 ==> joined(parts.push(more), separator) == joined(parts, separator) + separator
            + more,
{
    assert(parts.push(more).drop_last() =~= parts);
}

/// The messages joined with `": "` between them.
pub fn join_messages(messages: &Vec<String>) -> (text: String)
    ensures
        text@ == joined(messages@.map_values(|m: String| m@), ": "@),
{
    let ghost parts = messages@.map_values(|m: String| m@);
    let mut text = String::new();
    let n = messages.len();
    for i in 0..n
        invariant
            n == messages@.len(),
            parts == messages@.map_values(|m: String| m@),
            text@ == joined(parts.take(i as int), ": "@),
    {
        assert(parts.take(i + 1).drop_last() =~= parts.take(i as int));
        assert(parts.take(i + 1).last() == messages@[i as int]@);
        if i > 0 {
            text.append(": ");
        } else {
            assert(parts.take(0) =~= Seq::<Seq<char>>::empty());
            assert(text@ =~= Seq::<char>::empty());
        }
        text.append(messages[i].as_str());
        assert(text@ =~= joined(parts.take(i + 1), ": "@));
    }
    assert(parts.take(n as int) =~= parts);
    text
}

/// The message of every cause of `error`, outermost first, joined with `": "`
/// by `join_messages`.
pub fn format_error_chain(error: &anyhow::Error) -> (text: String)
    ensures
        exists|messages: Seq<Seq<char>>| messages.len() >= 1 && text@ == #[trigger] joined(messages, ": "@),
{
    let messages = cause_messages(error);
    join_messages(&messages)
}

} // verus!
