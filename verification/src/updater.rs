//! Progress reports of the self-updater.
use vstd::prelude::*;
use crate::text::{text_eq, trim, trimmed};

verus! {

pub enum UpdateState {
    CheckingNetwork,
    CheckingVersion,
    Cloning,
    Building,
    Installing,
    Success,
    UpToDate,
    Failed(String),
}

/// What the updater screen shows after a report.
pub struct UpdaterStatus {
    pub status: String,
    pub progress: usize,
    pub completed: bool,
}

pub const NO_INTERNET: &'static str = "No internet connection";

/// The message, progress percentage and completion shown for a report.
pub open spec fn status_for(state: UpdateState) -> (Seq<char>, usize, bool) {
    match state {
        UpdateState::CheckingNetwork => ("Checking network..."@, 10, false),
        UpdateState::CheckingVersion => ("Checking for updates..."@, 20, false),
        UpdateState::Cloning => ("Downloading latest version..."@, 40, false),
        UpdateState::Building => ("Compiling release build (this may take a minute)..."@, 70, false),
        UpdateState::Installing => ("Installing to local bin..."@, 90, false),
        UpdateState::Success => ("Update complete! Press Enter to restart/continue."@, 100, true),
        UpdateState::UpToDate => ("Aether is already up to date! Press Enter to return."@, 100, true),
        UpdateState::Failed(err) => (
            if err@ == NO_INTERNET@ {
                "No internet connection. Press Enter to return."@
            } else {
                "Update failed: "@ + err@ + ". Press Enter to return."@
            },
            100,
            true,
        ),
    }
}

/// The screen state for an update report; `completed` tells whether the
/// report ends the update (the screen keeps it once set).
pub fn status_update(state: UpdateState) -> (u: UpdaterStatus)
    ensures
        u.status@ == status_for(state).0,
        u.progress == status_for(state).1,
        u.completed == status_for(state).2,
{
    match state {
        UpdateState::CheckingNetwork => UpdaterStatus { status: "Checking network...".to_owned(), progress: 10, completed: false },
        UpdateState::CheckingVersion => UpdaterStatus { status: "Checking for updates...".to_owned(), progress: 20, completed: false },
        UpdateState::Cloning => UpdaterStatus { status: "Downloading latest version...".to_owned(), progress: 40, completed: false },
        UpdateState::Building => UpdaterStatus {
            status: "Compiling release build (this may take a minute)...".to_owned(),
            progress: 70,
            completed: false,
        },
        UpdateState::Installing => UpdaterStatus { status: "Installing to local bin...".to_owned(), progress: 90, completed: false },
        UpdateState::Success => UpdaterStatus {
            status: "Update complete! Press Enter to restart/continue.".to_owned(),
            progress: 100,
            completed: true,
        },
        UpdateState::UpToDate => UpdaterStatus {
            status: "Aether is already up to date! Press Enter to return.".to_owned(),
            progress: 100,
            completed: true,
        },
        UpdateState::Failed(err) => {
            if text_eq(err.as_str(), NO_INTERNET) {
                UpdaterStatus {
                    status: "No internet connection. Press Enter to return.".to_owned(),
                    progress: 100,
                    completed: true,
                }
            } else {
                let mut s = "Update failed: ".to_owned();
                s.append(err.as_str());
                s.append(". Press Enter to return.");
                UpdaterStatus { status: s, progress: 100, completed: true }
            }
        },
    }
}

/// `a` comes before or equals `b` in the order of strings (character by
/// character, a prefix first).
pub open spec fn text_le(a: Seq<char>, b: Seq<char>) -> bool
    decreases a.len(),
{
    if a.len() == 0 {
        true
    } else if b.len() == 0 {
        false
    } else if a[0] != b[0] {
        (a[0] as u32) < (b[0] as u32)
    } else {
        text_le(a.drop_first(), b.drop_first())
    }
}

/// The updater finds nothing newer when the version it read (trimmed) is
/// empty, equal to the running one, or ordered before it.
pub open spec fn up_to_date(remote: Seq<char>, current: Seq<char>) -> bool {
    let t = trimmed(remote);
    t == current || t.len() == 0 || text_le(t, current)
}

/// `text_le`.
pub fn text_at_most(a: &str, b: &str) -> (r: bool)
    ensures
        r == text_le(a@, b@),
{
    let x = crate::text::chars_of(a);
    let y = crate::text::chars_of(b);
    let mut i: usize = 0;
    assert(a@.skip(0) =~= a@);
    assert(b@.skip(0) =~= b@);
    while i < x.len() && i < y.len() && x[i] == y[i]
        invariant
            x@ == a@,
            y@ == b@,
            i <= x@.len(),
            i <= y@.len(),
            text_le(a@.skip(i as int), b@.skip(i as int)) == text_le(a@, b@),
        decreases x@.len() - i,
    {
        assert(a@.skip(i as int).drop_first() =~= a@.skip(i + 1));
        assert(b@.skip(i as int).drop_first() =~= b@.skip(i + 1));
        i = i + 1;
    }
    if i == x.len() {
        assert(a@.skip(i as int).len() == 0);
        true
    } else if i == y.len() {
        assert(b@.skip(i as int).len() == 0);
        false
    } else {
        assert(a@.skip(i as int)[0] == a@[i as int]);
        assert(b@.skip(i as int)[0] == b@[i as int]);
        (x[i] as u32) < (y[i] as u32)
    }
}

/// Whether the version the updater read, `remote`, is no newer than the
/// running version `current`.
pub fn is_up_to_date(remote: &str, current: &str) -> (r: bool)
    ensures
        r == up_to_date(remote@, current@),
{
    let t = trim(remote);
    text_eq(t, current) || t.unicode_len() == 0 || text_at_most(t, current)
}

} // verus!
