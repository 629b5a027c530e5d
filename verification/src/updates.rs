//! The once-per-launch update prompt: a native dialog offering to install a
//! newer signed release now or later. Checking, downloading, installing and
//! restarting are the updater's; this module words the dialog.

use crate::bridge::opt_str_view;
use vstd::prelude::*;

verus! {

/// What `str::trim` leaves of `s`.
pub uninterp spec fn spec_trim(s: Seq<char>) -> Seq<char>;

/// Calls `str::trim`. Claims that it yields the named trimmed text.
#[verifier::external_body]
fn trim(s: &str) -> (res: &str)
    ensures
        res@ == spec_trim(s@),
{
    s.trim()
}

/// Whether release notes say anything: present and not blank.
pub open spec fn has_notes(notes: Option<Seq<char>>) -> bool {
    match notes {
        Some(n) => spec_trim(n).len() > 0,
        None => false,
    }
}

/// The dialog's message for an available update.
pub open spec fn spec_update_message(version: Seq<char>, current_version: Seq<char>, notes: Option<Seq<char>>) -> Seq<char> {
    let head = "Sovereign "@ + version + " is available — you're on "@ + current_version + "."@;
    if has_notes(notes) {
        head + "\n\n"@ + notes.unwrap()
    } else {
        head
    }
}

/// Release notes are shown whole: where they are not blank, the message is
/// the message shown without notes, a blank line, and then every character
/// of the notes as given; blank or absent notes leave that message as it is.
pub proof fn lemma_update_message_carries_notes_verbatim(
    version: Seq<char>,
    current_version: Seq<char>,
    notes: Seq<char>,
)
    ensures
        ({
            let with_notes = spec_update_message(version, current_version, Some(notes));
            let without = spec_update_message(version, current_version, None);
            if has_notes(Some(notes)) {
                &&& with_notes.len() == without.len() + 2 + notes.len()
                &&& with_notes.take(without.len() as int) == without
                &&& with_notes.subrange(without.len() as int, without.len() + 2int) == "\n\n"@
                &&& with_notes.skip(without.len() + 2int) == notes
            } else {
                with_notes == without
            }
        }),
{
    reveal_strlit("\n\n");
    let with_notes = spec_update_message(version, current_version, Some(notes));
    let without = spec_update_message(version, current_version, None);
    if has_notes(Some(notes)) {
        assert(with_notes =~= without + "\n\n"@ + notes);
        assert(with_notes.take(without.len() as int) =~= without);
        assert(with_notes.subrange(without.len() as int, without.len() + 2int) =~= "\n\n"@);
        assert(with_notes.skip(without.len() + 2int) =~= notes);
    }
}

/// The update dialog.
pub struct UpdatePrompt {
    pub title: String,
    pub message: String,
    /// The button that downloads, installs and restarts.
    pub install_label: String,
    /// The button that dismisses until the next launch.
    pub later_label: String,
}

/// The dialog's message: which version is available and which is running,
/// followed by the release notes when they are not blank.
pub fn update_message(version: &str, current_version: &str, notes: Option<&str>) -> (res: String)
    ensures
        res@ == spec_update_message(version@, current_version@, opt_str_view(notes)),
{
    let mut message = String::from_str("Sovereign ");
    message.append(version);
    message.append(" is available — you're on ");
    message.append(current_version);
    message.append(".");
    if let Some(n) = notes {
        let trimmed = trim(n);
        if !trimmed.is_empty() {
            message.append("\n\n");
            message.append(n);
        }
    }
    message
}

/// The update dialog for an available update.
pub fn update_prompt(version: &str, current_version: &str, notes: Option<&str>) -> (res: UpdatePrompt)
    ensures
        res.title@ == "Update available"@,
        res.message@ == spec_update_message(version@, current_version@, opt_str_view(notes)),
        res.install_label@ == "Update Now"@,
        res.later_label@ == "Later"@,
{
    UpdatePrompt {
        title: String::from_str("Update available"),
        message: update_message(version, current_version, notes),
        install_label: String::from_str("Update Now"),
        later_label: String::from_str("Later"),
    }
}

} // verus!
