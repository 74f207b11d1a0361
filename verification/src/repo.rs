//! What the prompt says of a repository: what is in progress there and
//! what its head points to.

use crate::prompt::{RepoStatus, RepoStatusView};
use vstd::prelude::*;
use vstd::string::StringExecFns;

verus! {

/// What can be in progress in a repository.
#[derive(Copy, Clone, PartialEq, Eq, Structural, Debug)]
pub enum InProgress {
    ApplyMailbox,
    ApplyMailboxRebase,
    Bisect,
    CherryPick,
    CherryPickSequence,
    Merge,
    Rebase,
    RebaseInteractive,
    Revert,
    RevertSequence,
}

/// The word that the prompt shows for what is in progress.
pub open spec fn state_label(state: InProgress) -> Seq<char> {
    match state {
        InProgress::ApplyMailbox | InProgress::ApplyMailboxRebase => "Applying"@,
        InProgress::Bisect => "Bisecting"@,
        InProgress::CherryPick | InProgress::CherryPickSequence => "🍒"@,
        InProgress::Merge => "Merging"@,
        InProgress::Rebase | InProgress::RebaseInteractive => "Rebasing"@,
        InProgress::Revert | InProgress::RevertSequence => "Reverting"@,
    }
}

pub fn repo_state(state: Option<InProgress>) -> (label: Option<&'static str>)
    ensures
        match state {
            Some(s) => label matches Some(l) && l@ == state_label(s),
            None => label is None,
        },
{
    match state {
        Some(InProgress::ApplyMailbox) | Some(InProgress::ApplyMailboxRebase) => Some("Applying"),
        Some(InProgress::Bisect) => Some("Bisecting"),
        Some(InProgress::CherryPick) | Some(InProgress::CherryPickSequence) => Some("🍒"),
        Some(InProgress::Merge) => Some("Merging"),
        Some(InProgress::Rebase) | Some(InProgress::RebaseInteractive) => Some("Rebasing"),
        Some(InProgress::Revert) | Some(InProgress::RevertSequence) => Some("Reverting"),
        None => None,
    }
}

/// Whether a repository counts as changed: only where a look at its status
/// found a change.
pub fn is_repo_dirty(found: Option<bool>) -> (dirty: bool)
    ensures
        dirty == (found == Some(true)),
{
    match found {
        Some(dirty) => dirty,
        None => false,
    }
}

/// What the head of a repository points to.
#[derive(Debug)]
pub enum HeadKind {
    /// A reference that exists, by its full name.
    Symbolic { name: String },
    /// An object, by the bytes of its id, and the object that this one
    /// leads to in the end, if that is known.
    Detached { target: Vec<u8>, peeled: Option<Vec<u8>> },
    /// A reference that does not exist yet, by its full name.
    Unborn { name: String },
}

/// A head as a value.
pub ghost enum HeadKindView {
    Symbolic { name: Seq<char> },
    Detached { target: Seq<u8>, peeled: Option<Seq<u8>> },
    Unborn { name: Seq<char> },
}

impl View for HeadKind {
    type V = HeadKindView;

    open spec fn view(&self) -> HeadKindView {
        match self {
            HeadKind::Symbolic { name } => HeadKindView::Symbolic { name: name@ },
            HeadKind::Detached { target, peeled } => HeadKindView::Detached {
                target: target@,
                peeled: match peeled {
                    Some(id) => Some(id@),
                    None => None,
                },
            },
            HeadKind::Unborn { name } => HeadKindView::Unborn { name: name@ },
        }
    }
}

/// The short form of a reference's full name, as gix's `FullName::shorten`
/// gives it; nothing for what is no name of a reference.
pub uninterp spec fn shortened_ref(full: Seq<char>) -> Option<Seq<char>>;

/// gix's `FullName::try_from` takes the names that are valid for a
/// reference, and `FullName::shorten` gives such a name without the
/// well-known prefix it starts with. Both depend on nothing but the name.
#[verifier::external_body]
fn shorten_ref(full: &str) -> (short: Option<String>)
    ensures
        match short {
            Some(s) => shortened_ref(full@) == Some(s@),
            None => shortened_ref(full@) is None,
        },
{
    gix::refs::FullName::try_from(full).ok().map(|name| name.shorten().to_string())
}

/// The hexadecimal digit of a number below sixteen, in lower case.
pub open spec fn hex_char(n: int) -> char {
    "0123456789abcdef"@[n]
}

/// The bytes in hexadecimal, two lower-case digits for each.
pub open spec fn lower_hex(bytes: Seq<u8>) -> Seq<char>
    decreases bytes.len(),
{
    if bytes.len() == 0 {
        Seq::empty()
    } else {
        lower_hex(bytes.drop_last()).push(hex_char(bytes.last() as int / 16)).push(
            hex_char(bytes.last() as int % 16),
        )
    }
}

/// The number of bytes of an object id.
pub const ID_BYTES: usize = 20;

/// The number of hexadecimal digits that an object id is shown with.
pub const SHORT_ID_DIGITS: usize = 7;

/// gix's `oid::try_from_bytes` takes a digest of twenty bytes, and
/// `oid::to_hex_with_len` writes the first `len` digits of its lower-case
/// hexadecimal form, or all of them where there are fewer.
#[verifier::external_body]
fn hex_prefix(id: &[u8], len: usize) -> (hex: Option<String>)
    ensures
        id@.len() == ID_BYTES ==> hex is Some,
        hex matches Some(h) ==> h@ == lower_hex(id@).take(
            if len <= lower_hex(id@).len() {
                len as int
            } else {
                lower_hex(id@).len() as int
            },
        ),
{
    gix::hash::oid::try_from_bytes(id).ok().map(|id| id.to_hex_with_len(len).to_string())
}

/// An id as a head is shown by it: the first digits of its hexadecimal
/// form, or all of them where there are fewer.
pub open spec fn short_id(id: Seq<u8>) -> Seq<char> {
    let hex = lower_hex(id);
    if hex.len() >= SHORT_ID_DIGITS {
        hex.take(SHORT_ID_DIGITS as int)
    } else {
        hex
    }
}

/// The first digits of an id, as many as a head is shown with.
fn short_hex(id: &[u8]) -> (hex: Option<String>)
    ensures
        id@.len() == ID_BYTES ==> hex is Some,
        hex matches Some(h) ==> h@ == short_id(id@),
{
    let hex = hex_prefix(id, SHORT_ID_DIGITS);
    proof {
        let all = lower_hex(id@);
        if all.len() < SHORT_ID_DIGITS {
            assert(all.take(all.len() as int) == all);
        }
    }
    hex
}

/// The id that a detached head is shown by: the one it leads to in the
/// end, where that is known.
pub open spec fn shown_id(target: Seq<u8>, peeled: Option<Seq<u8>>) -> Seq<u8> {
    match peeled {
        Some(id) => id,
        None => target,
    }
}

/// The description of a head: the short name of its reference, or the
/// first digits of its object's id.
pub fn repo_head_description(head: &HeadKind) -> (description: Option<String>)
    ensures
        match head@ {
            HeadKindView::Symbolic { name } | HeadKindView::Unborn { name } => match description {
                Some(d) => shortened_ref(name) == Some(d@),
                None => shortened_ref(name) is None,
            },
            HeadKindView::Detached { target, peeled } => {
                &&& shown_id(target, peeled).len() == ID_BYTES ==> description is Some
                &&& description matches Some(d) ==> d@ == short_id(shown_id(target, peeled))
            },
        },
{
    match head {
        HeadKind::Symbolic { name } => shorten_ref(name.as_str()),
        HeadKind::Detached { target, peeled } => match peeled {
            Some(id) => short_hex(id.as_slice()),
            None => short_hex(target.as_slice()),
        },
        HeadKind::Unborn { name } => shorten_ref(name.as_str()),
    }
}

/// What the prompt shows of a repository, from what was found in it.
pub fn repo_status(state: Option<InProgress>, head: Option<String>, found_changes: Option<bool>) -> (status:
    RepoStatus)
    ensures
        status@ == (RepoStatusView {
            state: match state {
                Some(s) => Some(state_label(s)),
                None => None,
            },
            head: match head {
                Some(h) => Some(h@),
                None => None,
            },
            dirty: found_changes == Some(true),
        }),
{
    let label = match repo_state(state) {
        Some(l) => Some(String::from_str(l)),
        None => None,
    };
    RepoStatus { state: label, head, dirty: is_repo_dirty(found_changes) }
}

} // verus!
