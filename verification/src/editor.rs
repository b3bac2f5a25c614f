use vstd::prelude::*;
use vstd::string::StringExecFns;

verus! {

/// The message that replaces the document when reading a chosen file fails:
/// a fixed prefix followed by the error's own description.
pub open spec fn open_failure_text(err: Seq<char>) -> Seq<char> {
    "Failed to open file: "@ + err
}

/// The view of an optional string, for contracts over dialog results.
pub open spec fn opt_view(o: Option<String>) -> Option<Seq<char>> {
    match o {
        Some(s) => Some(s@),
        None => None,
    }
}

/// The path associated with the document after a Save interaction:
/// a path confirmed in the save dialog replaces the stored one,
/// a cancelled (or skipped) dialog leaves it as it was.
pub open spec fn save_path_after(old_path: Seq<char>, chosen: Option<Seq<char>>) -> Seq<char> {
    match chosen {
        Some(p) => p,
        None => old_path,
    }
}

/// Where a Save interaction writes the buffer: to the path it ends up with,
/// and nowhere when no path is associated by then.
pub open spec fn save_target(old_path: Seq<char>, chosen: Option<Seq<char>>) -> Option<Seq<char>> {
    let p = save_path_after(old_path, chosen);
    if p.len() > 0 {
        Some(p)
    } else {
        None
    }
}

/// The editor's whole state: the text being edited and the path of the file
/// it belongs to, empty while none is associated.
pub struct Editor {
    pub text: String,
    pub path: String,
}

impl Editor {
    /// A path is associated exactly when the stored path is nonempty.
    pub open spec fn has_path(self) -> bool {
        self.path@.len() > 0
    }

    /// A fresh editor: empty buffer, no associated path.
    pub fn new() -> (e: Editor)
        ensures
            e.text@ == Seq::<char>::empty(),
            e.path@ == Seq::<char>::empty(),
    {
        Editor { text: String::new(), path: String::new() }
    }

    /// The New action: discard the document and its path, unconditionally.
    pub fn new_document(&mut self)
        ensures
            final(self).text@ == Seq::<char>::empty(),
            final(self).path@ == Seq::<char>::empty(),
    {
        self.text = String::new();
        self.path = String::new();
    }

    /// The Open action, once the open dialog has chosen `path` and reading that
    /// file has finished. On a successful read the document becomes the file's
    /// contents; on a failed read it becomes the failure message built from the
    /// error's description. Either way the chosen path is stored.
    pub fn open_document(&mut self, path: String, read_result: Result<String, String>)
        ensures
            final(self).path@ == path@,
            match read_result {
                Ok(content) => final(self).text@ == content@,
                Err(err) => final(self).text@ == open_failure_text(err@),
            },
    {
        self.path = path;
        match read_result {
            Ok(content) => {
                self.text = content;
            },
            Err(err) => {
                let mut message = String::from_str("Failed to open file: ");
                message.append(err.as_str());
                self.text = message;
            },
        }
    }

    /// The Save action asks the user for a path only while none is associated.
    pub fn save_needs_dialog(&self) -> (b: bool)
        ensures
            b == !self.has_path(),
    {
        self.path.as_str().is_empty()
    }

    /// The Save action, once the save dialog (shown only when no path was
    /// associated) has returned `chosen`: a confirmed path is stored, a
    /// cancelled or skipped dialog changes nothing. The result is the path the
    /// buffer must now be written to, or `None` when there is still no path and
    /// nothing is to be written. The buffer itself is never touched.
    pub fn prepare_save(&mut self, chosen: Option<String>) -> (target: Option<String>)
        ensures
            final(self).text@ == old(self).text@,
            final(self).path@ == save_path_after(old(self).path@, opt_view(chosen)),
            opt_view(target) == save_target(old(self).path@, opt_view(chosen)),
    {
        match chosen {
            Some(p) => {
                self.path = p;
            },
            None => {},
        }
        if self.path.as_str().is_empty() {
            None
        } else {
            Some(self.path.clone())
        }
    }
}

/// A Save with no associated path whose dialog the user cancelled stores no
/// path and writes nowhere; `prepare_save` states itself that the buffer is
/// never modified.
pub proof fn lemma_cancelled_save_writes_nothing(old_path: Seq<char>)
    requires
        old_path.len() == 0,
    ensures
        save_path_after(old_path, None) == old_path,
        save_target(old_path, None) is None,
{
}

/// Saving is idempotent: a second Save straight after a first one sees the
/// path the first stored, shows no dialog, keeps that path, and targets the
/// very same place (`prepare_save` keeps the buffer itself untouched, so the
/// same contents go there).
pub proof fn lemma_save_is_idempotent(old_path: Seq<char>, chosen: Option<Seq<char>>)
    ensures
        save_path_after(save_path_after(old_path, chosen), None) == save_path_after(
            old_path,
            chosen,
        ),
        save_target(save_path_after(old_path, chosen), None) == save_target(old_path, chosen),
{
}

} // verus!
