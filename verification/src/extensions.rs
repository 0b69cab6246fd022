//! The editor extensions that the remote workflow needs, and which of them
//! are missing from an editor's installed extensions.

use vstd::prelude::*;
use crate::error::InstallExtensionError;
use crate::string_map::{pairs_map, StringMap};
use crate::text::{
    chars_of, find_char_from, first_field, lines_of, second_field, string_of_range, text_lines,
    views_of,
};

verus! {

/// Access to the editor's extensions.
pub struct Extensions {}

/// The extensions that the remote workflow needs, in the order they are
/// checked.
pub open spec fn mandatory_extensions() -> Seq<Seq<char>> {
    seq![
        "ms-kubernetes-tools.vscode-kubernetes-tools"@,
        "ms-vscode-remote.remote-ssh"@,
        "ms-vscode.remote-server"@,
    ]
}

/// The views of a vector of strings.
pub open spec fn string_views(v: Seq<String>) -> Seq<Seq<char>> {
    v.map_values(|s: String| s@)
}

/// The extension that a listing line names (before the first `@`) and its
/// version (after it, up to a next `@`).
pub open spec fn listing_entry(line: Seq<char>) -> (Seq<char>, Seq<char>) {
    (first_field(line, '@'), second_field(line, '@')->0)
}

/// A listing of installed extensions in the form of
/// `code --list-extensions --show-versions`: every line holds an `@`.
pub open spec fn listing_well_formed(listing: Seq<char>) -> bool {
    forall|i: int| 0 <= i < text_lines(listing).len() ==> #[trigger] second_field(
        text_lines(listing)[i],
        '@',
    ) is Some
}

/// The installed extensions that a listing shows, each with its version; for
/// an extension listed twice, the later line counts.
pub open spec fn installed_extensions(listing: Seq<char>) -> Map<Seq<char>, Seq<char>> {
    pairs_map(text_lines(listing).map_values(|l: Seq<char>| listing_entry(l)))
}

/// The extensions of `exts` that `installed` does not hold, in order.
pub open spec fn missing_extensions(exts: Seq<Seq<char>>, installed: Map<Seq<char>, Seq<char>>) -> Seq<Seq<char>>
    decreases exts.len(),
{
    if exts.len() == 0 {
        Seq::empty()
    } else {
        let rest = missing_extensions(exts.drop_last(), installed);
        if installed.contains_key(exts.last()) {
            rest
        } else {
            rest.push(exts.last())
        }
    }
}

/// An extension is missing exactly when it is required and not installed.
pub proof fn lemma_missing_extensions_members(
    exts: Seq<Seq<char>>,
    installed: Map<Seq<char>, Seq<char>>,
    x: Seq<char>,
)
    ensures
        missing_extensions(exts, installed).contains(x) <==> exts.contains(x)
            && !installed.contains_key(x),
    decreases exts.len(),
{
    if exts.len() > 0 {
        let init = exts.drop_last();
        lemma_missing_extensions_members(init, installed, x);
        let rest = missing_extensions(init, installed);
        if exts.contains(x) && x != exts.last() {
            let i = choose|i: int| 0 <= i < exts.len() && exts[i] == x;
            assert(init[i] == x);
        }
        if init.contains(x) {
            let i = choose|i: int| 0 <= i < init.len() && init[i] == x;
            assert(exts[i] == x);
        }
        if !installed.contains_key(exts.last()) {
            assert(rest.push(exts.last()).last() == exts.last());
            if rest.push(exts.last()).contains(x) && x != exts.last() {
                let i = choose|i: int| 0 <= i < rest.len() + 1 && rest.push(exts.last())[i] == x;
                assert(rest[i] == x);
            }
            if rest.contains(x) {
                let i = choose|i: int| 0 <= i < rest.len() && rest[i] == x;
                assert(rest.push(exts.last())[i] == x);
            }
        }
        assert(exts[exts.len() - 1] == exts.last());
    }
}

/// An extension that a listing names on one of its lines is never reported
/// missing after that listing is read.
pub proof fn lemma_listed_extension_not_missing(listing: Seq<char>, i: int)
    requires
        0 <= i < text_lines(listing).len(),
    ensures
        installed_extensions(listing).contains_key(first_field(text_lines(listing)[i], '@')),
        !missing_extensions(mandatory_extensions(), installed_extensions(listing)).contains(
            first_field(text_lines(listing)[i], '@'),
        ),
{
    let entries = text_lines(listing).map_values(|l: Seq<char>| listing_entry(l));
    let name = first_field(text_lines(listing)[i], '@');
    assert(entries[i].0 == name);
    crate::string_map::lemma_pairs_map_keys(entries, name);
    lemma_missing_extensions_members(mandatory_extensions(), installed_extensions(listing), name);
}

/// The version recorded for an extension is the one on the last listing line
/// that names it.
pub proof fn lemma_listing_last_line_wins(listing: Seq<char>, i: int)
    requires
        0 <= i < text_lines(listing).len(),
        forall|j: int|
            i < j < text_lines(listing).len() ==> first_field(text_lines(listing)[j], '@')
                != first_field(text_lines(listing)[i], '@'),
    ensures
        installed_extensions(listing)[first_field(text_lines(listing)[i], '@')]
            == listing_entry(text_lines(listing)[i]).1,
{
    let entries = text_lines(listing).map_values(|l: Seq<char>| listing_entry(l));
    assert forall|j: int| i < j < entries.len() implies entries[j].0 != entries[i].0 by {
        assert(entries[j].0 == first_field(text_lines(listing)[j], '@'));
    }
    crate::string_map::lemma_pairs_map_last_value(entries, i);
}

impl Default for Extensions {
    fn default() -> (e: Extensions)
        ensures
            e == (Extensions {}),
    {
        Extensions::new()
    }
}

impl Extensions {
    /// Access to the editor's extensions.
    pub fn new() -> (e: Extensions)
        ensures
            e == (Extensions {}),
    {
        Extensions {}
    }

    /// The extensions that the remote workflow needs.
    pub fn get_mendatory_extensions(&self) -> (v: Vec<String>)
        ensures
            string_views(v@) == mandatory_extensions(),
    {
        let mut v: Vec<String> = Vec::new();
        v.push(String::from_str("ms-kubernetes-tools.vscode-kubernetes-tools"));
        v.push(String::from_str("ms-vscode-remote.remote-ssh"));
        v.push(String::from_str("ms-vscode.remote-server"));
        assert(string_views(v@) =~= mandatory_extensions());
        v
    }

    /// The installed extensions and their versions, read from the output of
    /// `code --list-extensions --show-versions` (one `name@version` per line).
    pub fn installed_from_listing(&self, listing: &str) -> (m: StringMap)
        requires
            listing_well_formed(listing@),
        ensures
            m.wf(),
            m@ == installed_extensions(listing@),
    {
        let chars = chars_of(listing);
        let lines = lines_of(&chars);
        let ghost entries = text_lines(listing@).map_values(|l: Seq<char>| listing_entry(l));
        let mut m = StringMap::new();
        let mut i: usize = 0;
        while i < lines.len()
            invariant
                i <= lines.len(),
                views_of(lines@) == text_lines(listing@),
                entries == text_lines(listing@).map_values(|l: Seq<char>| listing_entry(l)),
                listing_well_formed(listing@),
                m.wf(),
                m@ == pairs_map(entries.take(i as int)),
            decreases lines.len() - i,
        {
            let line = &lines[i];
            assert(line@ == text_lines(listing@)[i as int]);
            assert(second_field(text_lines(listing@)[i as int], '@') is Some);
            let at = find_char_from(line, '@', 0);
            let end = find_char_from(line, '@', at + 1);
            let name = string_of_range(line, 0, at);
            let version = string_of_range(line, at + 1, end);
            assert(entries[i as int] == (name@, version@));
            assert(entries.take(i + 1).drop_last() == entries.take(i as int));
            m.insert(name, version);
            i = i + 1;
        }
        assert(entries.take(lines.len() as int) == entries);
        m
    }

    /// The required extensions that `installed` does not hold, in the order
    /// of [`mandatory_extensions`].
    pub fn check_missing_extensions(&self, installed: &StringMap) -> (missing: Vec<String>)
        requires
            installed.wf(),
        ensures
            string_views(missing@) == missing_extensions(mandatory_extensions(), installed@),
    {
        let mandatory = self.get_mendatory_extensions();
        let mut missing: Vec<String> = Vec::new();
        let mut i: usize = 0;
        while i < mandatory.len()
            invariant
                i <= mandatory.len(),
                installed.wf(),
                string_views(mandatory@) == mandatory_extensions(),
                string_views(missing@) == missing_extensions(
                    mandatory_extensions().take(i as int),
                    installed@,
                ),
            decreases mandatory.len() - i,
        {
            let ext = &mandatory[i];
            assert(mandatory_extensions().take(i + 1).drop_last()
                == mandatory_extensions().take(i as int));
            assert(mandatory_extensions().take(i + 1).last() == ext@);
            if !installed.contains_key(ext) {
                let ghost before = string_views(missing@);
                missing.push(ext.clone());
                assert(string_views(missing@) == before.push(ext@));
            }
            i = i + 1;
        }
        assert(mandatory_extensions().take(3) == mandatory_extensions());
        missing
    }

    /// The shell command that installs `extension`:
    /// `code --install-extension ` followed by its name.
    pub fn install_command(&self, extension: &str) -> (cmd: String)
        ensures
            cmd@ == "code --install-extension "@ + extension@,
    {
        let mut cmd = String::from_str("code --install-extension ");
        cmd.append(extension);
        cmd
    }

    /// The outcome of an install from what the installer wrote on its error
    /// stream: any message there is a failure that carries it.
    pub fn install_outcome(&self, stderr: &str) -> (r: Result<(), InstallExtensionError>)
        ensures
            r is Ok <==> stderr@.len() == 0,
            r matches Err(InstallExtensionError::FailedToInstallExtension(msg)) ==> msg@ == stderr@,
            r is Err ==> r matches Err(InstallExtensionError::FailedToInstallExtension(_)),
    {
        if !stderr.is_empty() {
            return Err(InstallExtensionError::FailedToInstallExtension(String::from_str(stderr)));
        }
        Ok(())
    }
}

} // verus!
