//! The content the site serves and the verified model of its store: two
//! tables of records with unique ids, and the create / update / delete
//! handlers the authenticated write path runs against them. The store is an
//! in-memory image of the database tables; the surrounding program reads and
//! persists it, the logic here decides and is proved.

use vstd::prelude::*;
use vstd::pervasive::VecAdditionalExecFns;
use crate::error::AppError;
use crate::validate::is_blank;
use crate::validate::is_blank_str;

verus! {

/// A portfolio project as stored. `id` and `created_at` are
/// server-populated; clients never send them.
#[derive(Debug)]
pub struct Project {
    pub id: u128,
    pub title: String,
    pub description: String,
    pub tech_stack: Vec<String>,
    pub image_url: Option<String>,
    pub github_url: Option<String>,
    pub demo_url: Option<String>,
    pub is_featured: bool,
    pub created_at: i64,
}

/// The mathematical image of a `Project`: every text field a sequence.
#[verifier::ext_equal]
pub struct ProjectV {
    pub id: u128,
    pub title: Seq<char>,
    pub description: Seq<char>,
    pub tech_stack: Seq<Seq<char>>,
    pub image_url: Option<Seq<char>>,
    pub github_url: Option<Seq<char>>,
    pub demo_url: Option<Seq<char>>,
    pub is_featured: bool,
    pub created_at: i64,
}

impl DeepView for Project {
    type V = ProjectV;

    open spec fn deep_view(&self) -> ProjectV {
        ProjectV {
            id: self.id,
            title: self.title@,
            description: self.description@,
            tech_stack: self.tech_stack.deep_view(),
            image_url: self.image_url.deep_view(),
            github_url: self.github_url.deep_view(),
            demo_url: self.demo_url.deep_view(),
            is_featured: self.is_featured,
            created_at: self.created_at,
        }
    }
}

/// A skill entry as stored.
#[derive(Debug)]
pub struct Skill {
    pub id: u128,
    pub name: String,
    pub category: String,
    pub proficiency: String,
    pub icon: Option<String>,
    pub created_at: i64,
}

/// The mathematical image of a `Skill`.
#[verifier::ext_equal]
pub struct SkillV {
    pub id: u128,
    pub name: Seq<char>,
    pub category: Seq<char>,
    pub proficiency: Seq<char>,
    pub icon: Option<Seq<char>>,
    pub created_at: i64,
}

impl DeepView for Skill {
    type V = SkillV;

    open spec fn deep_view(&self) -> SkillV {
        SkillV {
            id: self.id,
            name: self.name@,
            category: self.category@,
            proficiency: self.proficiency@,
            icon: self.icon.deep_view(),
            created_at: self.created_at,
        }
    }
}

/// The client payload for creating a project.
pub struct CreateProjectRequest {
    pub title: String,
    pub description: String,
    pub tech_stack: Vec<String>,
    pub image_url: Option<String>,
    pub github_url: Option<String>,
    pub demo_url: Option<String>,
}

/// The client payload for updating a project.
pub struct UpdateProjectRequest {
    pub title: String,
    pub description: String,
    pub tech_stack: Vec<String>,
    pub image_url: Option<String>,
    pub github_url: Option<String>,
    pub demo_url: Option<String>,
}

/// The client payload for creating a skill.
pub struct CreateSkillRequest {
    pub name: String,
    pub category: String,
    pub proficiency: String,
    pub icon: Option<String>,
}

/// The client payload for updating a skill.
pub struct UpdateSkillRequest {
    pub name: String,
    pub category: String,
    pub proficiency: String,
    pub icon: Option<String>,
}

impl CreateProjectRequest {
    /// A project payload is acceptable when its title is not blank.
    pub open spec fn valid(&self) -> bool {
        !is_blank(self.title@)
    }

    /// The record this payload becomes, once the server assigns an id and a
    /// creation time. A new project is never featured.
    pub open spec fn entity(&self, id: u128, created_at: i64) -> ProjectV {
        ProjectV {
            id,
            title: self.title@,
            description: self.description@,
            tech_stack: self.tech_stack.deep_view(),
            image_url: self.image_url.deep_view(),
            github_url: self.github_url.deep_view(),
            demo_url: self.demo_url.deep_view(),
            is_featured: false,
            created_at,
        }
    }
}

impl UpdateProjectRequest {
    pub open spec fn valid(&self) -> bool {
        !is_blank(self.title@)
    }

    /// The record an existing project becomes: the payload's fields, the
    /// target's id, and the stored creation time and featured flag kept.
    pub open spec fn entity(&self, id: u128, created_at: i64, is_featured: bool) -> ProjectV {
        ProjectV {
            id,
            title: self.title@,
            description: self.description@,
            tech_stack: self.tech_stack.deep_view(),
            image_url: self.image_url.deep_view(),
            github_url: self.github_url.deep_view(),
            demo_url: self.demo_url.deep_view(),
            is_featured,
            created_at,
        }
    }
}

impl CreateSkillRequest {
    /// A skill payload is acceptable when its name is not blank.
    pub open spec fn valid(&self) -> bool {
        !is_blank(self.name@)
    }

    pub open spec fn entity(&self, id: u128, created_at: i64) -> SkillV {
        SkillV {
            id,
            name: self.name@,
            category: self.category@,
            proficiency: self.proficiency@,
            icon: self.icon.deep_view(),
            created_at,
        }
    }
}

impl UpdateSkillRequest {
    pub open spec fn valid(&self) -> bool {
        !is_blank(self.name@)
    }

    pub open spec fn entity(&self, id: u128, created_at: i64) -> SkillV {
        SkillV {
            id,
            name: self.name@,
            category: self.category@,
            proficiency: self.proficiency@,
            icon: self.icon.deep_view(),
            created_at,
        }
    }
}

/// Whether some record in the sequence carries this id.
pub open spec fn has_pid(s: Seq<ProjectV>, id: u128) -> bool {
    exists|i: int| 0 <= i < s.len() && s[i].id == id
}

pub open spec fn has_sid(s: Seq<SkillV>, id: u128) -> bool {
    exists|i: int| 0 <= i < s.len() && s[i].id == id
}

/// No two records share an id.
pub open spec fn unique_pids(s: Seq<ProjectV>) -> bool {
    forall|i: int, j: int| 0 <= i < j < s.len() ==> s[i].id != s[j].id
}

pub open spec fn unique_sids(s: Seq<SkillV>) -> bool {
    forall|i: int, j: int| 0 <= i < j < s.len() ==> s[i].id != s[j].id
}

/// The sequence with every record of this id taken out, order kept.
pub open spec fn remove_pid(s: Seq<ProjectV>, id: u128) -> Seq<ProjectV>
    decreases s.len(),
{
    if s.len() == 0 {
        Seq::empty()
    } else {
        let rest = remove_pid(s.drop_last(), id);
        if s.last().id == id {
            rest
        } else {
            rest.push(s.last())
        }
    }
}

pub open spec fn remove_sid(s: Seq<SkillV>, id: u128) -> Seq<SkillV>
    decreases s.len(),
{
    if s.len() == 0 {
        Seq::empty()
    } else {
        let rest = remove_sid(s.drop_last(), id);
        if s.last().id == id {
            rest
        } else {
            rest.push(s.last())
        }
    }
}

/// The record with its featured flag replaced.
pub open spec fn with_featured(p: ProjectV, f: bool) -> ProjectV {
    ProjectV { is_featured: f, ..p }
}

/// The featured flag set on the record with this id and cleared everywhere
/// else.
pub open spec fn spec_set_featured(s: Seq<ProjectV>, id: u128) -> Seq<ProjectV> {
    Seq::new(s.len(), |i: int| with_featured(s[i], s[i].id == id))
}

/// The in-memory image of the content tables.
pub struct Store {
    pub projects: Vec<Project>,
    pub skills: Vec<Skill>,
}

impl Store {
    /// Well-formed: ids are unique within each table.
    pub open spec fn wf(&self) -> bool {
        unique_pids(self.projects.deep_view()) && unique_sids(self.skills.deep_view())
    }

    pub fn new() -> (s: Store)
        ensures
            s.wf(),
            s.projects@.len() == 0,
            s.skills@.len() == 0,
    {
        Store { projects: Vec::new(), skills: Vec::new() }
    }
}

/// All projects, as stored.
pub fn get_projects(store: &Store) -> (r: &Vec<Project>)
    ensures
        r == &store.projects,
{
    &store.projects
}

/// All skills, as stored.
pub fn get_skills(store: &Store) -> (r: &Vec<Skill>)
    ensures
        r == &store.skills,
{
    &store.skills
}

fn clone_string_vec(v: &Vec<String>) -> (r: Vec<String>)
    ensures
        r.deep_view() == v.deep_view(),
{
    let mut r: Vec<String> = Vec::new();
    let n = v.len();
    let mut i: usize = 0;
    while i < n
        invariant
            0 <= i <= n,
            n == v.len(),
            r.len() == i,
            forall|j: int| 0 <= j < i ==> r.deep_view()[j] == v.deep_view()[j],
        decreases n - i,
    {
        r.push(v[i].clone());
        i += 1;
    }
    assert(r.deep_view() =~= v.deep_view());
    r
}

fn clone_opt_string(o: &Option<String>) -> (r: Option<String>)
    ensures
        r.deep_view() == o.deep_view(),
{
    match o {
        None => None,
        Some(s) => Some(s.clone()),
    }
}

impl Clone for Project {
    fn clone(&self) -> (r: Self)
        ensures
            r.deep_view() == self.deep_view(),
    {
        let r = Project {
            id: self.id,
            title: self.title.clone(),
            description: self.description.clone(),
            tech_stack: clone_string_vec(&self.tech_stack),
            image_url: clone_opt_string(&self.image_url),
            github_url: clone_opt_string(&self.github_url),
            demo_url: clone_opt_string(&self.demo_url),
            is_featured: self.is_featured,
            created_at: self.created_at,
        };
        assert(r.deep_view() =~= self.deep_view());
        r
    }
}

impl Clone for Skill {
    fn clone(&self) -> (r: Self)
        ensures
            r.deep_view() == self.deep_view(),
    {
        let r = Skill {
            id: self.id,
            name: self.name.clone(),
            category: self.category.clone(),
            proficiency: self.proficiency.clone(),
            icon: clone_opt_string(&self.icon),
            created_at: self.created_at,
        };
        assert(r.deep_view() =~= self.deep_view());
        r
    }
}

fn materialize_project_create(payload: &CreateProjectRequest, id: u128, created_at: i64) -> (p:
    Project)
    ensures
        p.deep_view() == payload.entity(id, created_at),
{
    let p = Project {
        id,
        title: payload.title.clone(),
        description: payload.description.clone(),
        tech_stack: clone_string_vec(&payload.tech_stack),
        image_url: clone_opt_string(&payload.image_url),
        github_url: clone_opt_string(&payload.github_url),
        demo_url: clone_opt_string(&payload.demo_url),
        is_featured: false,
        created_at,
    };
    assert(p.deep_view() =~= payload.entity(id, created_at));
    p
}

fn materialize_project_update(
    payload: &UpdateProjectRequest,
    id: u128,
    created_at: i64,
    is_featured: bool,
) -> (p: Project)
    ensures
        p.deep_view() == payload.entity(id, created_at, is_featured),
{
    let p = Project {
        id,
        title: payload.title.clone(),
        description: payload.description.clone(),
        tech_stack: clone_string_vec(&payload.tech_stack),
        image_url: clone_opt_string(&payload.image_url),
        github_url: clone_opt_string(&payload.github_url),
        demo_url: clone_opt_string(&payload.demo_url),
        is_featured,
        created_at,
    };
    assert(p.deep_view() =~= payload.entity(id, created_at, is_featured));
    p
}

fn materialize_skill_create(payload: &CreateSkillRequest, id: u128, created_at: i64) -> (p: Skill)
    ensures
        p.deep_view() == payload.entity(id, created_at),
{
    let p = Skill {
        id,
        name: payload.name.clone(),
        category: payload.category.clone(),
        proficiency: payload.proficiency.clone(),
        icon: clone_opt_string(&payload.icon),
        created_at,
    };
    assert(p.deep_view() =~= payload.entity(id, created_at));
    p
}

fn materialize_skill_update(payload: &UpdateSkillRequest, id: u128, created_at: i64) -> (p: Skill)
    ensures
        p.deep_view() == payload.entity(id, created_at),
{
    let p = Skill {
        id,
        name: payload.name.clone(),
        category: payload.category.clone(),
        proficiency: payload.proficiency.clone(),
        icon: clone_opt_string(&payload.icon),
        created_at,
    };
    assert(p.deep_view() =~= payload.entity(id, created_at));
    p
}

/// What `create_project` promises: on a valid payload the new record is
/// appended with exactly the payload's fields and is returned; on a blank
/// title a field-scoped validation error and no change at all.
pub open spec fn create_project_applies(
    pre: Store,
    post: Store,
    payload: CreateProjectRequest,
    id: u128,
    created_at: i64,
    r: Result<Project, AppError>,
) -> bool {
    match r {
        Ok(p) => {
            &&& payload.valid()
            &&& post.skills == pre.skills
            &&& p.deep_view() == payload.entity(id, created_at)
            &&& post.projects.deep_view() == pre.projects.deep_view().push(p.deep_view())
        },
        Err(e) => {
            &&& !payload.valid()
            &&& e matches AppError::ValidationError(m) && m@ == "Title cannot be empty"@
            &&& post == pre
        },
    }
}

pub fn create_project(
    store: &mut Store,
    payload: &CreateProjectRequest,
    id: u128,
    created_at: i64,
) -> (r: Result<Project, AppError>)
    requires
        old(store).wf(),
        !has_pid(old(store).projects.deep_view(), id),
    ensures
        create_project_applies(*old(store), *final(store), *payload, id, created_at, r),
        final(store).wf(),
{
    if is_blank_str(payload.title.as_str()) {
        return Err(AppError::ValidationError("Title cannot be empty".to_owned()));
    }
    let p = materialize_project_create(payload, id, created_at);
    let ret = materialize_project_create(payload, id, created_at);
    store.projects.push(p);
    proof {
        assert(store.projects.deep_view() =~= old(store).projects.deep_view().push(
            payload.entity(id, created_at),
        ));
    }
    Ok(ret)
}

/// What `update_project` promises: on a valid payload and a present id, the
/// one record with that id is replaced by the payload's fields (creation
/// time and featured flag kept) and the new record returned; a blank title
/// is a validation error, a missing id is not-found, and in both failure
/// cases nothing changes.
pub open spec fn update_project_applies(
    pre: Store,
    post: Store,
    payload: UpdateProjectRequest,
    id: u128,
    r: Result<Project, AppError>,
) -> bool {
    let s = pre.projects.deep_view();
    let t = post.projects.deep_view();
    match r {
        Ok(p) => {
            &&& payload.valid()
            &&& has_pid(s, id)
            &&& post.skills == pre.skills
            &&& t.len() == s.len()
            &&& forall|i: int| 0 <= i < s.len() && s[i].id != id ==> t[i] == s[i]
            &&& forall|i: int|
                0 <= i < s.len() && s[i].id == id ==> t[i] == payload.entity(
                    id,
                    s[i].created_at,
                    s[i].is_featured,
                )
            &&& exists|i: int|
                0 <= i < s.len() && s[i].id == id && p.deep_view() == payload.entity(
                    id,
                    s[i].created_at,
                    s[i].is_featured,
                )
        },
        Err(e) => post == pre && match e {
            AppError::ValidationError(m) => !payload.valid() && m@ == "Title cannot be empty"@,
            AppError::NotFound(m) => payload.valid() && !has_pid(s, id) && m@
                == "Project not found"@,
            _ => false,
        },
    }
}

pub fn update_project(store: &mut Store, id: u128, payload: &UpdateProjectRequest) -> (r: Result<
    Project,
    AppError,
>)
    requires
        old(store).wf(),
    ensures
        update_project_applies(*old(store), *final(store), *payload, id, r),
        final(store).wf(),
{
    if is_blank_str(payload.title.as_str()) {
        return Err(AppError::ValidationError("Title cannot be empty".to_owned()));
    }
    let n = store.projects.len();
    let mut i: usize = 0;
    while i < n
        invariant
            0 <= i <= n,
            n == store.projects.len(),
            *store == *old(store),
            old(store).wf(),
            payload.valid(),
            forall|j: int| 0 <= j < i ==> store.projects.deep_view()[j].id != id,
        decreases n - i,
    {
        if store.projects[i].id == id {
            let created_at = store.projects[i].created_at;
            let was_featured = store.projects[i].is_featured;
            let newp = materialize_project_update(payload, id, created_at, was_featured);
            let ret = materialize_project_update(payload, id, created_at, was_featured);
            store.projects.set(i, newp);
            proof {
                let s = old(store).projects.deep_view();
                let t = store.projects.deep_view();
                assert(s[i as int].id == id);
                assert(s[i as int] == old(store).projects@[i as int].deep_view());
                assert(s[i as int].created_at == created_at);
                assert(s[i as int].is_featured == was_featured);
                assert forall|j: int| 0 <= j < s.len() && j != i implies t[j] == s[j] by {
                    assert(store.projects@[j] == old(store).projects@[j]);
                }
                assert(t[i as int] == newp.deep_view());
                assert(t[i as int] == payload.entity(id, s[i as int].created_at, s[i as int].is_featured));
                assert(forall|j: int|
                    0 <= j < s.len() && s[j].id == id ==> j == i) by {
                    assert(unique_pids(s));
                }
                assert(unique_pids(t));
            }
            return Ok(ret);
        }
        i += 1;
    }
    assert(!has_pid(old(store).projects.deep_view(), id));
    Err(AppError::NotFound("Project not found".to_owned()))
}

/// What `delete_project` promises: every record with this id is gone, the
/// rest are kept in order, and the call succeeds whether or not the id was
/// present.
pub fn delete_project(store: &mut Store, id: u128)
    requires
        old(store).wf(),
    ensures
        final(store).skills == old(store).skills,
        final(store).projects.deep_view() == remove_pid(old(store).projects.deep_view(), id),
        final(store).wf(),
{
    let n = store.projects.len();
    let mut out: Vec<Project> = Vec::new();
    let mut i: usize = 0;
    while i < n
        invariant
            0 <= i <= n,
            n == store.projects.len(),
            *store == *old(store),
            out.deep_view() == remove_pid(store.projects.deep_view().take(i as int), id),
        decreases n - i,
    {
        proof {
            let s = store.projects.deep_view();
            assert(s.take(i + 1).drop_last() =~= s.take(i as int));
            assert(s.take(i + 1).last() == s[i as int]);
        }
        let p = &store.projects[i];
        if p.id != id {
            out.push(p.clone());
        }
        i += 1;
    }
    proof {
        let s = store.projects.deep_view();
        assert(s.take(n as int) =~= s);
        lemma_remove_pid_unique(s, id);
    }
    store.projects = out;
}

pub fn delete_skill(store: &mut Store, id: u128)
    requires
        old(store).wf(),
    ensures
        final(store).projects == old(store).projects,
        final(store).skills.deep_view() == remove_sid(old(store).skills.deep_view(), id),
        final(store).wf(),
{
    let n = store.skills.len();
    let mut out: Vec<Skill> = Vec::new();
    let mut i: usize = 0;
    while i < n
        invariant
            0 <= i <= n,
            n == store.skills.len(),
            *store == *old(store),
            out.deep_view() == remove_sid(store.skills.deep_view().take(i as int), id),
        decreases n - i,
    {
        proof {
            let s = store.skills.deep_view();
            assert(s.take(i + 1).drop_last() =~= s.take(i as int));
            assert(s.take(i + 1).last() == s[i as int]);
        }
        let p = &store.skills[i];
        if p.id != id {
            out.push(p.clone());
        }
        i += 1;
    }
    proof {
        let s = store.skills.deep_view();
        assert(s.take(n as int) =~= s);
        lemma_remove_sid_unique(s, id);
    }
    store.skills = out;
}

/// Every id surviving `remove_pid` was there before and is not the removed
/// one; uniqueness survives.
proof fn lemma_remove_pid_unique(s: Seq<ProjectV>, id: u128)
    requires
        unique_pids(s),
    ensures
        unique_pids(remove_pid(s, id)),
        forall|k: int|
            #![trigger remove_pid(s, id)[k]]
            0 <= k < remove_pid(s, id).len() ==> remove_pid(s, id)[k].id != id && (exists|i: int|
                #![trigger s[i]]
                0 <= i < s.len() && s[i] == remove_pid(s, id)[k]),
    decreases s.len(),
{
    if s.len() > 0 {
        assert(unique_pids(s.drop_last()));
        lemma_remove_pid_unique(s.drop_last(), id);
        let d = s.drop_last();
        let rest = remove_pid(d, id);
        assert forall|k: int| #![trigger rest[k]] 0 <= k < rest.len() implies exists|i: int|
            #![trigger s[i]]
            0 <= i < s.len() && s[i] == rest[k] by {
            let i = choose|i: int| #![trigger d[i]] 0 <= i < d.len() && d[i] == rest[k];
            assert(s[i] == rest[k]);
        }
        if s.last().id != id {
            assert forall|k: int| 0 <= k < rest.len() implies rest[k].id != s.last().id by {
                let i = choose|i: int| #![trigger d[i]] 0 <= i < d.len() && d[i] == rest[k];
                assert(s[i] == d[i]);
                assert(s[i].id != s[s.len() - 1].id);
            }
            assert(unique_pids(rest.push(s.last())));
            assert forall|k: int|
                0 <= k < rest.push(s.last()).len() implies #[trigger] rest.push(s.last())[k].id
                != id && (exists|i: int| #![trigger s[i]] 0 <= i < s.len() && s[i] == rest.push(
                s.last(),
            )[k]) by {
                if k < rest.len() {
                    assert(rest.push(s.last())[k] == rest[k]);
                } else {
                    assert(s[s.len() - 1] == rest.push(s.last())[k]);
                }
            }
        }
    }
}

proof fn lemma_remove_sid_unique(s: Seq<SkillV>, id: u128)
    requires
        unique_sids(s),
    ensures
        unique_sids(remove_sid(s, id)),
        forall|k: int|
            #![trigger remove_sid(s, id)[k]]
            0 <= k < remove_sid(s, id).len() ==> remove_sid(s, id)[k].id != id && (exists|i: int|
                #![trigger s[i]]
                0 <= i < s.len() && s[i] == remove_sid(s, id)[k]),
    decreases s.len(),
{
    if s.len() > 0 {
        assert(unique_sids(s.drop_last()));
        lemma_remove_sid_unique(s.drop_last(), id);
        let d = s.drop_last();
        let rest = remove_sid(d, id);
        assert forall|k: int| #![trigger rest[k]] 0 <= k < rest.len() implies exists|i: int|
            #![trigger s[i]]
            0 <= i < s.len() && s[i] == rest[k] by {
            let i = choose|i: int| #![trigger d[i]] 0 <= i < d.len() && d[i] == rest[k];
            assert(s[i] == rest[k]);
        }
        if s.last().id != id {
            assert forall|k: int| 0 <= k < rest.len() implies rest[k].id != s.last().id by {
                let i = choose|i: int| #![trigger d[i]] 0 <= i < d.len() && d[i] == rest[k];
                assert(s[i] == d[i]);
                assert(s[i].id != s[s.len() - 1].id);
            }
            assert(unique_sids(rest.push(s.last())));
            assert forall|k: int|
                0 <= k < rest.push(s.last()).len() implies #[trigger] rest.push(s.last())[k].id
                != id && (exists|i: int| #![trigger s[i]] 0 <= i < s.len() && s[i] == rest.push(
                s.last(),
            )[k]) by {
                if k < rest.len() {
                    assert(rest.push(s.last())[k] == rest[k]);
                } else {
                    assert(s[s.len() - 1] == rest.push(s.last())[k]);
                }
            }
        }
    }
}

/// Deleting by an id is idempotent: a second deletion of the same id finds
/// nothing left to take out and leaves the table exactly as the first left
/// it.
pub proof fn lemma_delete_idempotent(s: Seq<ProjectV>, id: u128)
    ensures
        remove_pid(remove_pid(s, id), id) == remove_pid(s, id),
    decreases s.len(),
{
    if s.len() > 0 {
        lemma_delete_idempotent(s.drop_last(), id);
        if s.last().id != id {
            let rest = remove_pid(s.drop_last(), id);
            assert(rest.push(s.last()).drop_last() =~= rest);
            assert(rest.push(s.last()).last() == s.last());
        }
    }
}

/// What `create_skill` promises, in the shape of `create_project_applies`.
pub open spec fn create_skill_applies(
    pre: Store,
    post: Store,
    payload: CreateSkillRequest,
    id: u128,
    created_at: i64,
    r: Result<Skill, AppError>,
) -> bool {
    match r {
        Ok(p) => {
            &&& payload.valid()
            &&& post.projects == pre.projects
            &&& p.deep_view() == payload.entity(id, created_at)
            &&& post.skills.deep_view() == pre.skills.deep_view().push(p.deep_view())
        },
        Err(e) => {
            &&& !payload.valid()
            &&& e matches AppError::ValidationError(m) && m@ == "Name cannot be empty"@
            &&& post == pre
        },
    }
}

pub fn create_skill(store: &mut Store, payload: &CreateSkillRequest, id: u128, created_at: i64) -> (r:
    Result<Skill, AppError>)
    requires
        old(store).wf(),
        !has_sid(old(store).skills.deep_view(), id),
    ensures
        create_skill_applies(*old(store), *final(store), *payload, id, created_at, r),
        final(store).wf(),
{
    if is_blank_str(payload.name.as_str()) {
        return Err(AppError::ValidationError("Name cannot be empty".to_owned()));
    }
    let p = materialize_skill_create(payload, id, created_at);
    let ret = materialize_skill_create(payload, id, created_at);
    store.skills.push(p);
    proof {
        assert(store.skills.deep_view() =~= old(store).skills.deep_view().push(
            payload.entity(id, created_at),
        ));
    }
    Ok(ret)
}

/// What `update_skill` promises, in the shape of `update_project_applies`.
pub open spec fn update_skill_applies(
    pre: Store,
    post: Store,
    payload: UpdateSkillRequest,
    id: u128,
    r: Result<Skill, AppError>,
) -> bool {
    let s = pre.skills.deep_view();
    let t = post.skills.deep_view();
    match r {
        Ok(p) => {
            &&& payload.valid()
            &&& has_sid(s, id)
            &&& post.projects == pre.projects
            &&& t.len() == s.len()
            &&& forall|i: int| 0 <= i < s.len() && s[i].id != id ==> t[i] == s[i]
            &&& forall|i: int|
                0 <= i < s.len() && s[i].id == id ==> t[i] == payload.entity(id, s[i].created_at)
            &&& exists|i: int|
                0 <= i < s.len() && s[i].id == id && p.deep_view() == payload.entity(
                    id,
                    s[i].created_at,
                )
        },
        Err(e) => post == pre && match e {
            AppError::ValidationError(m) => !payload.valid() && m@ == "Name cannot be empty"@,
            AppError::NotFound(m) => payload.valid() && !has_sid(s, id) && m@
                == "Skill not found"@,
            _ => false,
        },
    }
}

pub fn update_skill(store: &mut Store, id: u128, payload: &UpdateSkillRequest) -> (r: Result<
    Skill,
    AppError,
>)
    requires
        old(store).wf(),
    ensures
        update_skill_applies(*old(store), *final(store), *payload, id, r),
        final(store).wf(),
{
    if is_blank_str(payload.name.as_str()) {
        return Err(AppError::ValidationError("Name cannot be empty".to_owned()));
    }
    let n = store.skills.len();
    let mut i: usize = 0;
    while i < n
        invariant
            0 <= i <= n,
            n == store.skills.len(),
            *store == *old(store),
            old(store).wf(),
            payload.valid(),
            forall|j: int| 0 <= j < i ==> store.skills.deep_view()[j].id != id,
        decreases n - i,
    {
        if store.skills[i].id == id {
            let created_at = store.skills[i].created_at;
            let newp = materialize_skill_update(payload, id, created_at);
            let ret = materialize_skill_update(payload, id, created_at);
            store.skills.set(i, newp);
            proof {
                let s = old(store).skills.deep_view();
                let t = store.skills.deep_view();
                assert(s[i as int].id == id);
                assert(s[i as int] == old(store).skills@[i as int].deep_view());
                assert(s[i as int].created_at == created_at);
                assert forall|j: int| 0 <= j < s.len() && j != i implies t[j] == s[j] by {
                    assert(store.skills@[j] == old(store).skills@[j]);
                }
                assert(t[i as int] == newp.deep_view());
                assert(t[i as int] == payload.entity(id, s[i as int].created_at));
                assert(forall|j: int|
                    0 <= j < s.len() && s[j].id == id ==> j == i) by {
                    assert(unique_sids(s));
                }
                assert(unique_sids(t));
            }
            return Ok(ret);
        }
        i += 1;
    }
    assert(!has_sid(old(store).skills.deep_view(), id));
    Err(AppError::NotFound("Skill not found".to_owned()))
}

/// The toggle's first write: clear the featured flag on every project.
pub open spec fn spec_clear_featured(s: Seq<ProjectV>) -> Seq<ProjectV> {
    Seq::new(s.len(), |i: int| with_featured(s[i], false))
}

/// The toggle's second write: set the flag on every record with this id,
/// leaving the rest as they are.
pub open spec fn spec_feature_target(s: Seq<ProjectV>, id: u128) -> Seq<ProjectV> {
    Seq::new(
        s.len(),
        |i: int|
            if s[i].id == id {
                with_featured(s[i], true)
            } else {
                s[i]
            },
    )
}

fn clear_featured(store: &mut Store)
    requires
        old(store).wf(),
    ensures
        final(store).skills == old(store).skills,
        final(store).projects.deep_view() == spec_clear_featured(old(store).projects.deep_view()),
        final(store).wf(),
{
    let n = store.projects.len();
    let mut i: usize = 0;
    while i < n
        invariant
            0 <= i <= n,
            n == store.projects.len(),
            n as nat == old(store).projects@.len(),
            store.skills == old(store).skills,
            forall|j: int| i <= j < n ==> store.projects@[j] == old(store).projects@[j],
            forall|j: int|
                0 <= j < i ==> store.projects@[j].deep_view() == with_featured(
                    old(store).projects.deep_view()[j],
                    false,
                ),
        decreases n - i,
    {
        let mut q = store.projects[i].clone();
        q.is_featured = false;
        proof {
            assert(old(store).projects.deep_view()[i as int] == old(
                store,
            ).projects@[i as int].deep_view());
            assert(q.deep_view() =~= with_featured(
                old(store).projects.deep_view()[i as int],
                false,
            ));
        }
        store.projects.set(i, q);
        i += 1;
    }
    proof {
        let s = old(store).projects.deep_view();
        let t = store.projects.deep_view();
        assert forall|j: int| 0 <= j < n implies t[j] == spec_clear_featured(s)[j] by {
            assert(t[j] == store.projects@[j].deep_view());
        }
        assert(t =~= spec_clear_featured(s));
        assert(forall|j: int| 0 <= j < t.len() ==> t[j].id == s[j].id);
        assert(unique_pids(t));
    }
}

fn feature_target(store: &mut Store, id: u128)
    requires
        old(store).wf(),
    ensures
        final(store).skills == old(store).skills,
        final(store).projects.deep_view() == spec_feature_target(
            old(store).projects.deep_view(),
            id,
        ),
        final(store).wf(),
{
    let n = store.projects.len();
    let mut i: usize = 0;
    while i < n
        invariant
            0 <= i <= n,
            n == store.projects.len(),
            n as nat == old(store).projects@.len(),
            store.skills == old(store).skills,
            forall|j: int| i <= j < n ==> store.projects@[j] == old(store).projects@[j],
            forall|j: int|
                0 <= j < i ==> store.projects@[j].deep_view() == spec_feature_target(
                    old(store).projects.deep_view(),
                    id,
                )[j],
        decreases n - i,
    {
        if store.projects[i].id == id {
            let mut q = store.projects[i].clone();
            q.is_featured = true;
            proof {
                assert(old(store).projects.deep_view()[i as int] == old(
                    store,
                ).projects@[i as int].deep_view());
                assert(q.deep_view() =~= with_featured(
                    old(store).projects.deep_view()[i as int],
                    true,
                ));
            }
            store.projects.set(i, q);
        }
        i += 1;
    }
    proof {
        let s = old(store).projects.deep_view();
        let t = store.projects.deep_view();
        assert forall|j: int| 0 <= j < n implies t[j] == spec_feature_target(s, id)[j] by {
            assert(t[j] == store.projects@[j].deep_view());
        }
        assert(t =~= spec_feature_target(s, id));
        assert(forall|j: int| 0 <= j < t.len() ==> t[j].id == s[j].id);
        assert(unique_pids(t));
    }
}

/// Make the project with this id the one featured project: the flag is set
/// there and cleared on every other record; nothing else moves. As in the
/// storage variant this is two sequential writes — clear the flag on all
/// projects, then set it on the target — not one atomic statement; a crash
/// between the two leaves no project featured.
pub fn set_featured(store: &mut Store, id: u128)
    requires
        old(store).wf(),
    ensures
        final(store).skills == old(store).skills,
        final(store).projects.deep_view() == spec_set_featured(
            old(store).projects.deep_view(),
            id,
        ),
        final(store).wf(),
{
    clear_featured(store);
    feature_target(store, id);
    proof {
        let s = old(store).projects.deep_view();
        assert(store.projects.deep_view() =~= spec_set_featured(s, id));
    }
}

/// Setting the featured flag leaves exactly the target featured: the flag
/// follows the id pointwise, and with unique ids and a present target there
/// is one featured record and no other.
pub proof fn lemma_featured_exclusive(s: Seq<ProjectV>, id: u128)
    requires
        unique_pids(s),
        has_pid(s, id),
    ensures
        forall|i: int|
            0 <= i < spec_set_featured(s, id).len() ==> (spec_set_featured(s, id)[i].is_featured
                <==> s[i].id == id),
        exists|i: int| 0 <= i < spec_set_featured(s, id).len() && spec_set_featured(s, id)[i].is_featured,
        forall|i: int, j: int|
            0 <= i < s.len() && 0 <= j < s.len() && spec_set_featured(s, id)[i].is_featured
                && spec_set_featured(s, id)[j].is_featured ==> i == j,
{
    let r = spec_set_featured(s, id);
    let w = choose|i: int| 0 <= i < s.len() && s[i].id == id;
    assert(r[w].is_featured);
    assert forall|i: int, j: int|
        0 <= i < s.len() && 0 <= j < s.len() && r[i].is_featured && r[j].is_featured implies i
        == j by {
        assert(s[i].id == id && s[j].id == id);
    }
}

/// Creating a record and then fetching by its id finds exactly the record
/// the payload described: the server fills id and creation time, every
/// other field is the payload's.
pub proof fn lemma_create_then_get(
    s: Seq<ProjectV>,
    payload: CreateProjectRequest,
    id: u128,
    created_at: i64,
)
    requires
        !has_pid(s, id),
    ensures
        has_pid(s.push(payload.entity(id, created_at)), id),
        forall|i: int|
            0 <= i < s.push(payload.entity(id, created_at)).len() && s.push(
                payload.entity(id, created_at),
            )[i].id == id ==> s.push(payload.entity(id, created_at))[i] == payload.entity(
                id,
                created_at,
            ),
{
    let t = s.push(payload.entity(id, created_at));
    assert(t[s.len() as int].id == id);
    assert forall|i: int| 0 <= i < t.len() && t[i].id == id implies t[i] == payload.entity(
        id,
        created_at,
    ) by {
        if i < s.len() {
            assert(s[i].id != id);
        }
    }
}

/// The loosely-typed flag value a client may send for `is_featured`.
pub enum FlagValue {
    Missing,
    Truth(bool),
    Number(i64),
    Text(String),
}

/// How a loose flag reads as a boolean: a boolean as itself, a number by
/// being nonzero, the texts "true" and "1" as set, anything else as clear.
pub open spec fn spec_coerce_flag(v: &FlagValue) -> bool {
    match v {
        FlagValue::Missing => false,
        FlagValue::Truth(b) => *b,
        FlagValue::Number(n) => *n != 0,
        FlagValue::Text(s) => s@ == "true"@ || s@ == "1"@,
    }
}

/// Read a client-sent featured flag, whatever loose shape it arrived in.
pub fn coerce_featured(v: &FlagValue) -> (r: bool)
    ensures
        r == spec_coerce_flag(v),
{
    match v {
        FlagValue::Missing => false,
        FlagValue::Truth(b) => *b,
        FlagValue::Number(n) => *n != 0,
        FlagValue::Text(s) => {
            let t = "true".to_owned();
            let o = "1".to_owned();
            *s == t || *s == o
        },
    }
}

} // verus!
