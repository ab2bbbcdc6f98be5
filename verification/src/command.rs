//! Decisions of the `sign` command.
//!
//! Signing a commit alternates outside work and decisions: the repository is
//! read (commit bytes and existing signatures), the bytes are signed, the
//! updated signature list is written back, and the result is reported. The
//! decisions are a state machine: from the current state and the outcome of
//! the last piece of outside work it gives the next state and the next piece
//! of work to do. By default the new signature is appended, keeping every
//! earlier one (several keys, key rotation); with `replace` it is the only one
//! kept (after a key has been revoked).
use vstd::prelude::*;

verus! {

/// The signature list to store after signing: `existing` with `signature`
/// appended, or `signature` alone when replacing.
pub open spec fn updated_signature_list(existing: Seq<[u8; 64]>, signature: [u8; 64], replace: bool) -> Seq<[u8; 64]> {
    if replace {
        seq![signature]
    } else {
        existing.push(signature)
    }
}

/// Builds the signature list to store after signing: appends `signature` to
/// `existing`, or, when `replace` is set, keeps `signature` alone.
pub fn updated_signatures(existing: Vec<[u8; 64]>, signature: [u8; 64], replace: bool) -> (res: Vec<[u8; 64]>)
    ensures
        res@ == updated_signature_list(existing@, signature, replace),
{
    if replace {
        let mut res: Vec<[u8; 64]> = Vec::new();
        res.push(signature);
        assert(res@ =~= seq![signature]);
        res
    } else {
        let mut res = existing;
        res.push(signature);
        res
    }
}

/// Where a `sign` command stands.
pub enum SignState {
    /// The commit and its signatures are being read.
    LoadingCommit { replace: bool },
    /// The commit `rev` is being signed; `existing` are its stored signatures.
    Signing { rev: String, existing: Vec<[u8; 64]>, replace: bool },
    /// The updated signature list of `rev` is being written.
    Writing { rev: String },
    /// The command has finished.
    Done,
}

/// The outcome of the last piece of outside work.
pub enum SignEvent {
    /// The ref resolved to commit `rev`, whose serialized bytes are
    /// `commit_bytes` and whose stored signatures are `existing`.
    CommitLoaded { rev: String, commit_bytes: Vec<u8>, existing: Vec<[u8; 64]> },
    /// The signer returned `signature`.
    Signed { signature: [u8; 64] },
    /// The signature list was written.
    SignaturesWritten,
    /// The last piece of outside work failed, for the reason `message`.
    Failed { message: String },
}

/// The next piece of outside work.
pub enum SignAction {
    /// Open the repository, resolve the ref, load the commit bytes and read
    /// the stored signatures.
    LoadCommit,
    /// Sign `commit_bytes`.
    SignCommit { commit_bytes: Vec<u8> },
    /// Store `signatures` as the detached signature list of `rev`.
    WriteSignatures { rev: String, signatures: Vec<[u8; 64]> },
    /// Report `message` and stop.
    Finish { message: String },
    /// Stop with the error `message`; nothing more is done.
    Abort { message: String },
}

/// The report printed once commit `rev` is signed.
pub open spec fn signed_message(rev: Seq<char>) -> Seq<char> {
    "signed commit "@ + rev
}

/// Starts a `sign` command: the first piece of work is to load the commit.
pub fn start_sign(replace: bool) -> (res: (SignState, SignAction))
    ensures
        res.0 == (SignState::LoadingCommit { replace }),
        res.1 is LoadCommit,
{
    (SignState::LoadingCommit { replace }, SignAction::LoadCommit)
}

/// Advances a `sign` command by one step.
///
/// A loaded commit is sent for signing; a signature leads to writing the
/// updated list; a completed write leads to the report. A failure at any
/// stage before the end stops the command with that failure: after a failed
/// load nothing is signed, and after a failed or refused signing nothing is
/// written. A finished command takes no further event, and an event that does
/// not fit the state gives `None`.
pub fn sign_step(state: SignState, event: SignEvent) -> (res: Option<(SignState, SignAction)>)
    ensures
        state is Done ==> res is None,
        event is Failed ==> !(res matches Some((_, SignAction::SignCommit { .. })))
            && !(res matches Some((_, SignAction::WriteSignatures { .. }))),
        res matches Some((SignState::Done, _)) ==> res matches Some(
            (_, SignAction::Finish { .. }),
        ) || event is Failed,
        match (state, event) {
            (
                SignState::LoadingCommit { replace },
                SignEvent::CommitLoaded { rev, commit_bytes, existing },
            ) => res == Some(
                (
                    SignState::Signing { rev, existing, replace },
                    SignAction::SignCommit { commit_bytes },
                ),
            ),
            (SignState::Signing { rev, existing, replace }, SignEvent::Signed { signature }) => {
                &&& res matches Some((next, action))
                &&& next == (SignState::Writing { rev })
                &&& action matches SignAction::WriteSignatures { rev: target, signatures }
                &&& target == rev
                &&& signatures@ == updated_signature_list(existing@, signature, replace)
            },
            (SignState::Writing { rev }, SignEvent::SignaturesWritten) => {
                &&& res matches Some((next, action))
                &&& next is Done
                &&& action matches SignAction::Finish { message }
                &&& message@ == signed_message(rev@)
            },
            (SignState::Done, _) => res is None,
            (_, SignEvent::Failed { message }) => res == Some(
                (SignState::Done, SignAction::Abort { message }),
            ),
            _ => res is None,
        },
{
    match (state, event) {
        (
            SignState::LoadingCommit { replace },
            SignEvent::CommitLoaded { rev, commit_bytes, existing },
        ) => Some(
            (SignState::Signing { rev, existing, replace }, SignAction::SignCommit { commit_bytes }),
        ),
        (SignState::Signing { rev, existing, replace }, SignEvent::Signed { signature }) => {
            let signatures = updated_signatures(existing, signature, replace);
            let target = rev.clone();
            Some((SignState::Writing { rev }, SignAction::WriteSignatures { rev: target, signatures }))
        },
        (SignState::Writing { rev }, SignEvent::SignaturesWritten) => {
            let mut message = String::from_str("signed commit ");
            message.append(rev.as_str());
            Some((SignState::Done, SignAction::Finish { message }))
        },
        (SignState::Done, _) => None,
        (_, SignEvent::Failed { message }) => Some((SignState::Done, SignAction::Abort { message })),
        _ => None,
    }
}

/// Appending keeps every earlier signature, in order, and puts the new one
/// last; replacing keeps the new signature alone.
pub proof fn lemma_append_preserves_existing(existing: Seq<[u8; 64]>, signature: [u8; 64])
    ensures
        updated_signature_list(existing, signature, false).len() == existing.len() + 1,
        updated_signature_list(existing, signature, false).take(existing.len() as int)
            == existing,
        updated_signature_list(existing, signature, false).last() == signature,
        updated_signature_list(existing, signature, true) == seq![signature],
{
    assert(existing.push(signature).take(existing.len() as int) =~= existing);
}

/// Two signings in a row: without `replace` both new signatures follow the
/// earlier ones; with `replace` on the second only the second remains,
/// whatever the first did.
pub proof fn lemma_sign_twice(existing: Seq<[u8; 64]>, first: [u8; 64], second: [u8; 64], replace_first: bool)
    ensures
        updated_signature_list(updated_signature_list(existing, first, false), second, false)
            == existing + seq![first, second],
        updated_signature_list(
            updated_signature_list(existing, first, replace_first),
            second,
            true,
        ) == seq![second],
{
    assert(existing.push(first).push(second) =~= existing + seq![first, second]);
}

} // verus!
