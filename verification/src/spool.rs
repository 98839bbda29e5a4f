//! The spool of proofs: a proof is written to disk before it is submitted, and waits there until the
//! node has taken it.

use crate::text::chars_of;
use crate::work::ShareSubmission;
use vstd::prelude::*;
use vstd::string::StringExecFns;

verus! {

/// What happened to a proof last.
#[derive(Clone, Copy, Debug, PartialEq, Eq, Structural)]
pub enum SpoolEvent {
    /// It was put into the form in which it is kept.
    Encoded,
    /// It was not.
    NotEncoded,
    /// It was written to disk.
    Written,
    /// It was not.
    NotWritten,
    /// It was found on disk and read.
    Found,
    /// The node answered to it.
    Answered { success: bool },
    /// The node did not answer to it.
    Unanswered,
}

/// What to do with a proof next.
#[derive(Clone, Copy, Debug, PartialEq, Eq, Structural)]
pub enum SpoolAction {
    /// Write it to disk.
    Write,
    /// Submit it to the node.
    Submit,
    /// Remove it from disk.
    Remove,
    /// Leave it on disk for another try.
    Leave,
    /// Give it up, for it never reached the disk.
    Abandon,
}

/// What to do with a proof after an event.
pub open spec fn action_after(event: SpoolEvent) -> SpoolAction {
    match event {
        SpoolEvent::Encoded => SpoolAction::Write,
        SpoolEvent::NotEncoded => SpoolAction::Abandon,
        SpoolEvent::Written => SpoolAction::Submit,
        SpoolEvent::NotWritten => SpoolAction::Abandon,
        SpoolEvent::Found => SpoolAction::Submit,
        SpoolEvent::Answered { success } => if success {
            SpoolAction::Remove
        } else {
            SpoolAction::Leave
        },
        SpoolEvent::Unanswered => SpoolAction::Leave,
    }
}

/// What to do with a proof after an event.
pub fn next_action(event: SpoolEvent) -> (action: SpoolAction)
    ensures
        action == action_after(event),
{
    match event {
        SpoolEvent::Encoded => SpoolAction::Write,
        SpoolEvent::NotEncoded => SpoolAction::Abandon,
        SpoolEvent::Written => SpoolAction::Submit,
        SpoolEvent::NotWritten => SpoolAction::Abandon,
        SpoolEvent::Found => SpoolAction::Submit,
        SpoolEvent::Answered { success } => if success {
            SpoolAction::Remove
        } else {
            SpoolAction::Leave
        },
        SpoolEvent::Unanswered => SpoolAction::Leave,
    }
}

/// Whether an event can come of an action.
pub open spec fn can_follow(action: SpoolAction, event: SpoolEvent) -> bool {
    match action {
        SpoolAction::Write => event is Written || event is NotWritten,
        SpoolAction::Submit => event is Answered || event is Unanswered,
        _ => false,
    }
}

/// Whether events are a way that a proof can go: it is new or was found on disk, and each event
/// comes of what was done after the one in front of it.
pub open spec fn is_way(events: Seq<SpoolEvent>) -> bool
    decreases events.len(),
{
    if events.len() <= 1 {
        events.len() == 1 && (events[0] is Encoded || events[0] is NotEncoded || events[0] is Found)
    } else {
        is_way(events.drop_last()) && can_follow(
            action_after(events.drop_last().last()),
            events.last(),
        )
    }
}

/// Whether a proof that went a way was on disk at some time.
pub open spec fn was_on_disk(events: Seq<SpoolEvent>) -> bool
    decreases events.len(),
{
    events.len() > 0 && (events.last() is Written || events.last() is Found || was_on_disk(
        events.drop_last(),
    ))
}

/// No proof is lost: it is submitted only once it is on disk, it is removed from disk only once the
/// node has taken it, and only one that never was on disk is given up.
pub proof fn proofs_are_not_lost(events: Seq<SpoolEvent>)
    requires
        is_way(events),
    ensures
        action_after(events.last()) is Submit ==> was_on_disk(events),
        action_after(events.last()) is Remove ==> was_on_disk(events) && events.last() == (
        SpoolEvent::Answered { success: true }),
        action_after(events.last()) is Abandon ==> !was_on_disk(events),
    decreases events.len(),
{
    reveal_with_fuel(is_way, 3);
    reveal_with_fuel(was_on_disk, 3);
    if events.len() > 1 {
        proofs_are_not_lost(events.drop_last());
    }
}

/// The name of the file in which a proof waits for submission.
pub fn proof_file_name(proof: &ShareSubmission) -> (name: String)
    ensures
        name@ == proof.header_hex@ + ".json"@,
{
    let mut name = proof.header_hex.clone();
    name.append(".json");
    name
}

/// Whether a file of the spool holds a proof: its name has the extension of one and more in front
/// of it.
pub open spec fn names_proof(name: Seq<char>) -> bool {
    name.len() > 5 && name.skip(name.len() - 5) == ".json"@
}

/// Whether a file of the spool holds a proof.
pub fn is_proof_file(name: &str) -> (holds: bool)
    ensures
        holds == names_proof(name@),
{
    proof {
        reveal_strlit(".json");
    }
    let chars = chars_of(name);
    let len = chars.len();
    if len <= 5 {
        return false;
    }
    let found = chars[len - 5] == '.' && chars[len - 4] == 'j' && chars[len - 3] == 's'
        && chars[len - 2] == 'o' && chars[len - 1] == 'n';
    proof {
        let tail = chars@.skip(len - 5);
        if found {
            assert(tail =~= ".json"@);
        } else {
            assert(tail[0] != '.' || tail[1] != 'j' || tail[2] != 's' || tail[3] != 'o' || tail[4]
                != 'n');
        }
    }
    found
}

/// Proofs of different headers wait in different files.
pub proof fn proofs_wait_in_files_of_their_own(a: ShareSubmission, b: ShareSubmission)
    requires
        a.header_hex@ + ".json"@ == b.header_hex@ + ".json"@,
    ensures
        a.header_hex@ == b.header_hex@,
{
    let name = a.header_hex@ + ".json"@;
    assert(name.len() == a.header_hex@.len() + ".json"@.len());
    assert(name.len() == b.header_hex@.len() + ".json"@.len());
    assert(name.take(a.header_hex@.len() as int) =~= a.header_hex@);
    assert(name.take(b.header_hex@.len() as int) =~= b.header_hex@);
}

/// A proof that was written is found again.
pub proof fn written_proofs_are_found_again(proof: ShareSubmission)
    requires
        proof.header_hex@.len() > 0,
    ensures
        names_proof(proof.header_hex@ + ".json"@),
{
    reveal_strlit(".json");
    let name = proof.header_hex@ + ".json"@;
    assert(name.skip(name.len() - 5) =~= ".json"@);
}

/// A proof is removed from disk if and only if the node has taken it, and left there if the node
/// answered anything else or nothing. It is written once it can be kept, submitted once it is on
/// disk, and given up if it cannot get there.
pub proof fn each_action_has_its_events(event: SpoolEvent)
    ensures
        action_after(event) is Remove <==> event == (SpoolEvent::Answered { success: true }),
        action_after(event) is Leave <==> event is Unanswered || event == (SpoolEvent::Answered {
            success: false,
        }),
        action_after(event) is Submit <==> event is Written || event is Found,
        action_after(event) is Write <==> event is Encoded,
        action_after(event) is Abandon <==> event is NotEncoded || event is NotWritten,
{
}

/// A file holds a proof if and only if its name ends in `.json` and has something in front of that.
pub proof fn proof_files_are_known_by_their_extension(stem: Seq<char>, extension: Seq<char>)
    requires
        extension.len() == 5,
    ensures
        names_proof(stem + extension) <==> stem.len() > 0 && extension == seq![
            '.',
            'j',
            's',
            'o',
            'n',
        ],
        !names_proof(extension),
{
    reveal_strlit(".json");
    let name = stem + extension;
    assert(name.skip(name.len() - 5) =~= extension);
    assert(".json"@ =~= seq!['.', 'j', 's', 'o', 'n']);
}

/// A proof waits in a file that is named by its header, and is found there again.
pub proof fn proofs_wait_in_the_file_of_their_header(
    proof: ShareSubmission,
    other: ShareSubmission,
    name: String,
    other_name: String,
)
    requires
        call_ensures(proof_file_name, (&proof,), name),
        call_ensures(proof_file_name, (&other,), other_name),
    ensures
        name@ == proof.header_hex@ + seq!['.', 'j', 's', 'o', 'n'],
        name@ == other_name@ <==> proof.header_hex@ == other.header_hex@,
        proof.header_hex@.len() > 0 ==> names_proof(name@),
{
    reveal_strlit(".json");
    assert(".json"@ =~= seq!['.', 'j', 's', 'o', 'n']);
    if name@ == other_name@ {
        proofs_wait_in_files_of_their_own(proof, other);
    }
    if proof.header_hex@.len() > 0 {
        written_proofs_are_found_again(proof);
    }
}

} // verus!
