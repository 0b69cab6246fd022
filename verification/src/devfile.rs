//! Workspace lifecycle: the JSON patch that starts or stops a workspace, the
//! reading of the user's answer to "start the workspace?", and the context of
//! devfile generation.

use vstd::prelude::*;

verus! {

/// `json_patch::Patch`, handed from the parser to the cluster client.
#[verifier::external_type_specification]
#[verifier::external_body]
pub struct ExJsonPatch(json_patch::Patch);

/// `json_patch::PatchOperation`, the element type of a patch.
#[verifier::external_type_specification]
#[verifier::external_body]
pub struct ExJsonPatchOperation(json_patch::PatchOperation);

/// Whether `serde_json::from_str` accepts `document` as a `json_patch::Patch`.
pub uninterp spec fn json_patch_parses(document: Seq<char>) -> bool;

/// Calls `serde_json::from_str::<json_patch::Patch>`. Trusted: the outcome
/// depends on the document alone (it is `json_patch_parses`); nothing is
/// stated of the operations of the parsed patch.
#[verifier::external_body]
fn parse_json_patch(document: &str) -> (r: Option<json_patch::Patch>)
    ensures
        r is Some <==> json_patch_parses(document@),
{
    serde_json::from_str::<json_patch::Patch>(document).ok()
}

/// The JSON literal of a boolean.
pub open spec fn json_bool(b: bool) -> Seq<char> {
    if b {
        "true"@
    } else {
        "false"@
    }
}

/// The JSON patch document that sets the `started` flag of a workspace
/// spec: one `replace` operation on `/spec/started`.
pub open spec fn started_patch_text(running: bool) -> Seq<char> {
    "[{\"op\":\"replace\",\"path\":\"/spec/started\",\"value\":"@ + json_bool(running) + "}]"@
}

/// The JSON patch document that starts (`running`) or stops a workspace.
pub fn started_patch_document(running: bool) -> (doc: String)
    ensures
        doc@ == started_patch_text(running),
{
    let mut doc = String::from_str("[{\"op\":\"replace\",\"path\":\"/spec/started\",\"value\":");
    if running {
        doc.append("true");
    } else {
        doc.append("false");
    }
    doc.append("}]");
    doc
}

/// The patch that starts (`running`) or stops a workspace, parsed from
/// [`started_patch_text`]; `None` when the parser refuses the document.
pub fn start_stop_patch(running: bool) -> (r: Option<json_patch::Patch>)
    ensures
        r is Some <==> json_patch_parses(started_patch_text(running)),
{
    let doc = started_patch_document(running);
    parse_json_patch(doc.as_str())
}

/// Whether the user's answer agrees to start the workspace: it does when it
/// holds a `y`, in either case.
pub open spec fn answer_agrees(answer: Seq<char>) -> bool {
    exists|i: int| 0 <= i < answer.len() && (answer[i] == 'y' || answer[i] == 'Y')
}

/// Whether the user's answer to "should the workspace be started?" agrees.
pub fn start_confirmed(answer: &str) -> (b: bool)
    ensures
        b == answer_agrees(answer@),
{
    for c in it: answer.chars()
        invariant
            it.seq() == answer@,
            forall|k: int| 0 <= k < it.index() ==> answer@[k] != 'y' && answer@[k] != 'Y',
    {
        if c == 'y' || c == 'Y' {
            return true;
        }
    }
    false
}

/// Where the devfile and the editor definition of a new workspace come from.
pub struct GenerateDevfileContext {
    pub devfile_path: Option<String>,
    pub devfile_url: Option<String>,
    pub devfile_content: Option<String>,
    pub editor_path: Option<String>,
    pub editor_url: Option<String>,
    pub editor_content: Option<String>,
}

impl GenerateDevfileContext {
    /// Generates the devfile context; there is nothing to do yet, and it
    /// always succeeds.
    pub fn generate(&self) -> (r: Result<(), ()>)
        ensures
            r is Ok,
    {
        Ok(())
    }
}

} // verus!
