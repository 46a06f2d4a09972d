//! The gates in front of the mutation handlers and the composed write path.
//! A deployment picks one `Authorizer` — the signed bearer token of the
//! primary deployment or the pre-shared header of the edge deployment — and
//! every protected request runs gate first, handler only if admitted. An
//! unauthorized request is answered terminally and the store is untouched.

use vstd::prelude::*;
use crate::auth::bearer_admits;
use crate::auth::check_bearer;
use crate::auth::claims_of;
use crate::auth::opt_view;
use crate::auth::spec_bearer_token;
use crate::content::CreateProjectRequest;
use crate::content::CreateSkillRequest;
use crate::content::Project;
use crate::content::Skill;
use crate::content::Store;
use crate::content::UpdateProjectRequest;
use crate::content::UpdateSkillRequest;
use crate::content::create_project;
use crate::content::create_project_applies;
use crate::content::create_skill;
use crate::content::create_skill_applies;
use crate::content::delete_project;
use crate::content::delete_skill;
use crate::content::has_pid;
use crate::content::has_sid;
use crate::content::remove_pid;
use crate::content::remove_sid;
use crate::content::set_featured;
use crate::content::spec_set_featured;
use crate::content::update_project;
use crate::content::update_project_applies;
use crate::content::update_skill;
use crate::content::update_skill_applies;
use crate::error::AppError;

verus! {

/// When the pre-shared secret admits a request: the configured value and
/// the header are both present, non-empty, equal, and the configured value
/// is not the sentinel that switches this authorizer off.
pub open spec fn spec_shared_secret_ok(
    configured: Option<Seq<char>>,
    header: Option<Seq<char>>,
) -> bool {
    match (configured, header) {
        (Some(s), Some(h)) => s == h && s.len() > 0 && s != "disable_if_not_set"@,
        _ => false,
    }
}

/// The edge deployment's gate: compare the request's secret header with the
/// configured secret.
pub fn is_authorized(configured: Option<&String>, header: Option<&String>) -> (r: bool)
    ensures
        r == spec_shared_secret_ok(opt_view(configured), opt_view(header)),
{
    match (configured, header) {
        (Some(s), Some(h)) => {
            let placeholder = "disable_if_not_set".to_owned();
            !s.as_str().is_empty() && *s == *h && !(*s == placeholder)
        },
        _ => false,
    }
}

/// Which credential check a deployment runs: the signed, time-limited
/// bearer token, or the pre-shared header value (weaker: no expiry, no
/// signature; a deliberate simplification of the edge deployment).
pub enum Authorizer {
    Bearer { secret: String },
    SharedSecret { secret: String },
}

impl Authorizer {
    /// Admit or reject a request from its two credential headers at `now`.
    /// Each arm admits exactly when its gate is satisfied; every rejection
    /// is the same terminal 401.
    pub fn authorize(
        &self,
        bearer_header: Option<&String>,
        admin_header: Option<&String>,
        now: u64,
    ) -> (r: Result<(), AppError>)
        ensures
            r matches Err(e) ==> e is Unauthorized,
            self matches Authorizer::Bearer { secret } ==> (r is Ok) == bearer_admits(
                opt_view(bearer_header),
                secret@,
                now,
            ),
            self matches Authorizer::SharedSecret { secret } ==> (r is Ok)
                == spec_shared_secret_ok(Some(secret@), opt_view(admin_header)),
    {
        match self {
            Authorizer::Bearer { secret } => match check_bearer(
                bearer_header,
                secret.as_str(),
                now,
            ) {
                Ok(_) => Ok(()),
                Err(e) => Err(e),
            },
            Authorizer::SharedSecret { secret } => {
                if is_authorized(Some(secret), admin_header) {
                    Ok(())
                } else {
                    Err(AppError::Unauthorized("Unauthorized".to_owned()))
                }
            },
        }
    }
}

/// One write operation of the protected surface, with the values the server
/// assigns (a fresh id, the creation time) already chosen by the caller.
pub enum MutationRequest {
    CreateProject { payload: CreateProjectRequest, id: u128, created_at: i64 },
    UpdateProject { id: u128, payload: UpdateProjectRequest },
    DeleteProject { id: u128 },
    SetFeatured { id: u128 },
    CreateSkill { payload: CreateSkillRequest, id: u128, created_at: i64 },
    UpdateSkill { id: u128, payload: UpdateSkillRequest },
    DeleteSkill { id: u128 },
}

/// What a successful mutation hands back: the created or updated entity,
/// or nothing for a deletion or a featured-flag toggle.
#[derive(Debug)]
pub enum MutationOutcome {
    ProjectEntity(Project),
    SkillEntity(Skill),
    Done,
}

/// A creation's server-assigned id must not collide with a stored one.
pub open spec fn req_admissible(s: &Store, req: &MutationRequest) -> bool {
    match req {
        MutationRequest::CreateProject { id, .. } => !has_pid(s.projects.deep_view(), *id),
        MutationRequest::CreateSkill { id, .. } => !has_sid(s.skills.deep_view(), *id),
        _ => true,
    }
}

/// What applying a mutation means, per operation: exactly the contract of
/// the handler it dispatches to.
pub open spec fn mutation_applies(
    pre: Store,
    post: Store,
    req: MutationRequest,
    r: Result<MutationOutcome, AppError>,
) -> bool {
    match req {
        MutationRequest::CreateProject { payload, id, created_at } => match r {
            Ok(out) => out matches MutationOutcome::ProjectEntity(p) && create_project_applies(
                pre,
                post,
                payload,
                id,
                created_at,
                Ok(p),
            ),
            Err(e) => create_project_applies(pre, post, payload, id, created_at, Err(e)),
        },
        MutationRequest::UpdateProject { id, payload } => match r {
            Ok(out) => out matches MutationOutcome::ProjectEntity(p) && update_project_applies(
                pre,
                post,
                payload,
                id,
                Ok(p),
            ),
            Err(e) => update_project_applies(pre, post, payload, id, Err(e)),
        },
        MutationRequest::DeleteProject { id } => r matches Ok(out) && out is Done && post.skills
            == pre.skills && post.projects.deep_view() == remove_pid(
            pre.projects.deep_view(),
            id,
        ),
        MutationRequest::SetFeatured { id } => r matches Ok(out) && out is Done && post.skills
            == pre.skills && post.projects.deep_view() == spec_set_featured(
            pre.projects.deep_view(),
            id,
        ),
        MutationRequest::CreateSkill { payload, id, created_at } => match r {
            Ok(out) => out matches MutationOutcome::SkillEntity(p) && create_skill_applies(
                pre,
                post,
                payload,
                id,
                created_at,
                Ok(p),
            ),
            Err(e) => create_skill_applies(pre, post, payload, id, created_at, Err(e)),
        },
        MutationRequest::UpdateSkill { id, payload } => match r {
            Ok(out) => out matches MutationOutcome::SkillEntity(p) && update_skill_applies(
                pre,
                post,
                payload,
                id,
                Ok(p),
            ),
            Err(e) => update_skill_applies(pre, post, payload, id, Err(e)),
        },
        MutationRequest::DeleteSkill { id } => r matches Ok(out) && out is Done && post.projects
            == pre.projects && post.skills.deep_view() == remove_sid(pre.skills.deep_view(), id),
    }
}

/// Dispatch one write operation to its handler.
pub fn apply_mutation(store: &mut Store, req: MutationRequest) -> (r: Result<
    MutationOutcome,
    AppError,
>)
    requires
        old(store).wf(),
        req_admissible(old(store), &req),
    ensures
        mutation_applies(*old(store), *final(store), req, r),
        final(store).wf(),
{
    match req {
        MutationRequest::CreateProject { payload, id, created_at } => match create_project(
            store,
            &payload,
            id,
            created_at,
        ) {
            Ok(p) => Ok(MutationOutcome::ProjectEntity(p)),
            Err(e) => Err(e),
        },
        MutationRequest::UpdateProject { id, payload } => match update_project(
            store,
            id,
            &payload,
        ) {
            Ok(p) => Ok(MutationOutcome::ProjectEntity(p)),
            Err(e) => Err(e),
        },
        MutationRequest::DeleteProject { id } => {
            delete_project(store, id);
            Ok(MutationOutcome::Done)
        },
        MutationRequest::SetFeatured { id } => {
            set_featured(store, id);
            Ok(MutationOutcome::Done)
        },
        MutationRequest::CreateSkill { payload, id, created_at } => match create_skill(
            store,
            &payload,
            id,
            created_at,
        ) {
            Ok(p) => Ok(MutationOutcome::SkillEntity(p)),
            Err(e) => Err(e),
        },
        MutationRequest::UpdateSkill { id, payload } => match update_skill(store, id, &payload) {
            Ok(p) => Ok(MutationOutcome::SkillEntity(p)),
            Err(e) => Err(e),
        },
        MutationRequest::DeleteSkill { id } => {
            delete_skill(store, id);
            Ok(MutationOutcome::Done)
        },
    }
}

/// The protected write path end to end: the configured gate first, the
/// handler only after it admits. A request is answered 401 exactly when its
/// gate rejects it — a missing or unusable bearer header, a failed
/// signature, an expiry at or before `now`, a wrong shared secret — and the
/// store is then exactly as it was: no validation runs and nothing is
/// written. An admitted request falls through to the dispatched handler.
pub fn guarded_mutation(
    auth: &Authorizer,
    bearer_header: Option<&String>,
    admin_header: Option<&String>,
    now: u64,
    store: &mut Store,
    req: MutationRequest,
) -> (r: Result<MutationOutcome, AppError>)
    requires
        old(store).wf(),
        req_admissible(old(store), &req),
    ensures
        final(store).wf(),
        (r matches Err(e) && e is Unauthorized) ==> *final(store) == *old(store),
        !(r matches Err(e) && e is Unauthorized) ==> mutation_applies(
            *old(store),
            *final(store),
            req,
            r,
        ),
        auth matches Authorizer::Bearer { secret } ==> ((r matches Err(e) && e is Unauthorized)
            <==> !bearer_admits(opt_view(bearer_header), secret@, now)),
        auth matches Authorizer::SharedSecret { secret } ==> ((r matches Err(e)
            && e is Unauthorized) <==> !spec_shared_secret_ok(
            Some(secret@),
            opt_view(admin_header),
        )),
{
    match auth.authorize(bearer_header, admin_header, now) {
        Err(e) => Err(e),
        Ok(()) => apply_mutation(store, req),
    }
}

/// The four CORS headers attached to every response, success and error
/// alike; a preflight is answered with exactly these and reaches no
/// handler.
pub fn cors_headers() -> (r: Vec<(String, String)>)
    ensures
        r@.len() == 4,
        r@[0].0@ == "Access-Control-Allow-Origin"@ && r@[0].1@ == "*"@,
        r@[1].0@ == "Access-Control-Allow-Methods"@ && r@[1].1@
            == "GET, POST, PUT, DELETE, OPTIONS"@,
        r@[2].0@ == "Access-Control-Allow-Headers"@ && r@[2].1@ == "Content-Type, x-admin-secret"@,
        r@[3].0@ == "Access-Control-Max-Age"@ && r@[3].1@ == "86400"@,
{
    let mut v: Vec<(String, String)> = Vec::new();
    v.push(("Access-Control-Allow-Origin".to_owned(), "*".to_owned()));
    v.push(("Access-Control-Allow-Methods".to_owned(), "GET, POST, PUT, DELETE, OPTIONS".to_owned()));
    v.push(("Access-Control-Allow-Headers".to_owned(), "Content-Type, x-admin-secret".to_owned()));
    v.push(("Access-Control-Max-Age".to_owned(), "86400".to_owned()));
    v
}

} // verus!
