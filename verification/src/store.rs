//! Store planning and the per-request decision function.
//!
//! Everything the filesystem needs for one store — the scramble directory,
//! the file path, the public URL — is computed and proved here; performing
//! the directory creation and the write is the caller's part, and the
//! response to each possible outcome of it is again decided here.

use vstd::prelude::*;
use crate::bytes::{push_all, tail_from};
use crate::outcome::Outcome;
use crate::paths::{is_strict_descendant, join_under, joined, lemma_scramble_confined, SLASH};
use crate::respond::{
    is_method_not_allowed_response, is_not_found_response, is_stored_response,
    is_storage_error_response, method_not_allowed_response, not_found_response, stored_response,
    storage_error_response, HttpResponse,
};
use crate::scramble::{derive_scramble, scramble_of, SCRAMBLE_LEN};
use crate::mac::is_b64_url_byte;

verus! {

/// The process-wide configuration: fixed at startup, read by every request,
/// never changed.
pub struct Context {
    /// The base directory, as bytes of its path, under which every stored
    /// file lives.
    pub file_root: Vec<u8>,
    /// The secret key of the keyed hash that derives storage directories.
    pub key: Vec<u8>,
    /// The prefix of every public URL the service hands out.
    pub root_url: Vec<u8>,
}

/// Everything one store needs from the filesystem's point of view: where
/// the directory goes, where the file goes, and the URL to answer with.
pub struct StorePlan {
    /// The derived storage-directory name.
    pub scramble: Vec<u8>,
    /// The directory to create: the scramble joined under the root.
    pub dir: Vec<u8>,
    /// The file to write: the name joined under the directory.
    pub file: Vec<u8>,
    /// The public URL of the stored file.
    pub url: Vec<u8>,
}

/// `p` is the one plan for storing `name` under the configuration `ctx`:
/// the scramble is the derived one, the directory is the scramble joined
/// under the root and stays strictly inside it, the file is the name joined
/// under the directory, and the URL is prefix, scramble, slash, name.
pub open spec fn is_plan_for(ctx: Context, name: Seq<u8>, p: StorePlan) -> bool {
    p.scramble@ == scramble_of(ctx.key@, name)
    && p.scramble@.len() == SCRAMBLE_LEN
    && (forall|i: int| 0 <= i < p.scramble@.len() ==> is_b64_url_byte(p.scramble@[i]))
    && p.dir@ == joined(ctx.file_root@, p.scramble@)
    && is_strict_descendant(p.dir@, ctx.file_root@)
    && p.file@ == joined(p.dir@, name)
    && p.url@ == ctx.root_url@ + p.scramble@ + seq![SLASH] + name
}

/// Computes the plan for storing `name` under `ctx`. The directory is
/// proved, not merely checked, to stay strictly inside the storage root.
pub fn plan_store(ctx: &Context, name: &Vec<u8>) -> (p: StorePlan)
    ensures
        is_plan_for(*ctx, name@, p),
{
    let scramble = derive_scramble(&ctx.key, name);
    proof {
        lemma_scramble_confined(ctx.file_root@, scramble@);
    }
    let dir = join_under(&ctx.file_root, &scramble);
    let file = join_under(&dir, name);
    let mut url = tail_from(&ctx.root_url, 0);
    push_all(&mut url, scramble.as_slice());
    url.push(SLASH);
    push_all(&mut url, name.as_slice());
    proof {
        assert(url@ =~= ctx.root_url@ + scramble@ + seq![SLASH] + name@);
    }
    StorePlan { scramble, dir, file, url }
}

/// What the filesystem reported back for one store attempt.
pub enum FsOutcome {
    /// The directory was created and the file was written in full.
    Created,
    /// The directory already existed: the name was stored before, and the
    /// earlier file is left untouched.
    DirExists,
    /// Creating the directory or writing the file failed.
    WriteFailed,
}

/// Decides the response to a finished store attempt: the URL on success,
/// the fixed storage-failure response otherwise. Success is reported if and
/// only if the filesystem created the slot.
pub fn store_result_response(plan: &StorePlan, fs: &FsOutcome) -> (r: HttpResponse)
    ensures
        fs is Created ==> is_stored_response(r, plan.url@),
        !(fs is Created) ==> is_storage_error_response(r),
        (r.status == 200) == (fs is Created),
{
    match fs {
        FsOutcome::Created => stored_response(&plan.url),
        FsOutcome::DirExists => storage_error_response(),
        FsOutcome::WriteFailed => storage_error_response(),
    }
}

/// End-to-end store: a successful store of `name` answers with exactly the
/// public URL built from the configured prefix, the derived scramble and the
/// name — in the body and in the `Location` header alike.
pub proof fn lemma_store_success_url(
    ctx: Context,
    name: Seq<u8>,
    p: StorePlan,
    r: HttpResponse,
)
    requires
        is_plan_for(ctx, name, p),
        is_stored_response(r, p.url@),
    ensures
        r.status == 200,
        r.body@ == ctx.root_url@ + scramble_of(ctx.key@, name) + seq![SLASH] + name,
        crate::respond::headers_view(r.headers@)[1] == (
            crate::text::location_name(),
            ctx.root_url@ + scramble_of(ctx.key@, name) + seq![SLASH] + name,
        ),
{
}

/// What the connection must do next once a request's body has been
/// buffered: either write a response now, or store the body as the plan
/// says and then answer as `store_result_response` decides.
pub enum NextAction {
    /// Send this response and finish the request.
    Respond { response: HttpResponse },
    /// Create the plan's directory, write the buffered body to the plan's
    /// file, and answer for the outcome.
    WriteFile { plan: StorePlan },
}

/// Decides the action for a classified request whose body has arrived: a
/// store outcome yields its write plan; the other outcomes yield their
/// fixed responses.
pub fn on_body_received(ctx: &Context, outcome: Outcome) -> (a: NextAction)
    ensures
        (outcome matches Outcome::Store { name } ==> (a matches NextAction::WriteFile { plan }
            && is_plan_for(*ctx, name@, plan))),
        (outcome is PageNotFound ==> (a matches NextAction::Respond { response }
            && is_not_found_response(response))),
        (outcome matches Outcome::MethodNotAllowed { allow } ==> (a
            matches NextAction::Respond { response }
            && is_method_not_allowed_response(response, allow@))),
{
    match outcome {
        Outcome::Store { name } => NextAction::WriteFile { plan: plan_store(ctx, &name) },
        Outcome::PageNotFound => NextAction::Respond { response: not_found_response() },
        Outcome::MethodNotAllowed { allow } => NextAction::Respond {
            response: method_not_allowed_response(&allow),
        },
    }
}

} // verus!
