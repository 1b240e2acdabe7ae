use crate::states::{
    artifacts_view, BuildArtifact, BuildInfo, BuildStates, BuildStatus, StatusView,
};
use crate::text::{
    after, before, has_char, join2, join4, signed_decimal, signed_text, text_after, text_before,
};
use vstd::prelude::*;

verus! {

/// The kinds of package that can be built.
#[derive(Clone, Copy, Debug, PartialEq, Eq, Structural)]
pub enum PackageType {
    Docker,
    Maven2,
}

/// Where the sources of a package live.
#[derive(Clone, Debug)]
pub enum SourceRepository {
    Git { url: String, tag: String },
}

/// A request to build a package.
#[derive(Clone, Debug)]
pub struct MappingInfo {
    pub package_type: PackageType,
    pub package_specific_id: String,
    pub source_repository: Option<SourceRepository>,
    pub build_spec_url: Option<String>,
}

/// Why a build request was refused before any job was created.
#[derive(Clone, Debug)]
pub enum BuildError {
    /// The request lacks what its package type needs.
    MalformedRequest,
    /// No build recipe could be read for the package type.
    RecipeUnavailable(String),
    /// The job's working directory or recipe could not be set up.
    SetupFailure(String),
}

/// Everything needed to run the external build of one job.
#[derive(Clone, Debug)]
pub struct BuildPlan {
    pub id: String,
    /// The job's own working directory.
    pub working_dir: String,
    /// Where the recipe for the package type is read from.
    pub recipe_source: String,
    /// The recipe's file name inside the working directory.
    pub recipe_file: String,
    /// The program that runs the recipe.
    pub program: String,
    pub args: Vec<String>,
}

/// One entry of a job's artifacts directory: its name, when it is valid
/// UTF-8, and whether it is a regular file.
#[derive(Clone, Debug)]
pub struct ArtifactEntry {
    pub file_name: Option<String>,
    pub is_file: bool,
}

/// What a request for an artifact of a job comes to.
#[derive(Clone, Debug)]
pub enum ArtifactLookup {
    /// No such job.
    NotFound,
    /// The job is still running.
    Pending,
    /// The job failed, for this reason.
    Gone(String),
    /// The job succeeded: read the artifact from this path.
    Fetch(String),
}

pub open spec fn package_name(t: PackageType) -> Seq<char> {
    match t {
        PackageType::Docker => "Docker"@,
        PackageType::Maven2 => "Maven2"@,
    }
}

impl PackageType {
    /// The package type's name.
    pub fn name(&self) -> (r: String)
        ensures
            r@ == package_name(*self),
    {
        match self {
            PackageType::Docker => String::from_str("Docker"),
            PackageType::Maven2 => String::from_str("Maven2"),
        }
    }
}

/// The views of a sequence of strings.
pub open spec fn texts(v: Seq<String>) -> Seq<Seq<char>> {
    v.map_values(|s: String| s@)
}

/// The directory under which each job gets a directory of its own.
pub open spec fn work_root() -> Seq<char> {
    "/tmp/pyrsia-build-pipeline/"@
}

pub open spec fn work_dir(id: Seq<char>) -> Seq<char> {
    work_root() + id
}

/// The recipe's file name for a package type.
pub open spec fn recipe_file(t: PackageType) -> Seq<char> {
    "build-"@ + package_name(t) + ".sh"@
}

/// The separator of a container image reference: `@` before a digest, else
/// `:` before a tag.
pub open spec fn docker_separator(id: Seq<char>) -> char {
    if id.contains('@') {
        '@'
    } else {
        ':'
    }
}

/// The repository path of an image reference, under `library/` when the
/// name has no path segment.
pub open spec fn docker_repository(id: Seq<char>) -> Seq<char> {
    let head = before(id, docker_separator(id));
    if head.contains('/') {
        head
    } else {
        "library/"@ + head
    }
}

/// The tag or digest of an image reference: what stands between its first
/// separator and the next one.
pub open spec fn docker_reference(id: Seq<char>) -> Seq<char> {
    let sep = docker_separator(id);
    before(after(id, sep), sep)
}

/// A request is consistent when an image reference holds a separator and a
/// library package names its source repository.
pub open spec fn well_formed(m: MappingInfo) -> bool {
    match m.package_type {
        PackageType::Docker => m.package_specific_id@.contains('@')
            || m.package_specific_id@.contains(':'),
        PackageType::Maven2 => m.source_repository is Some,
    }
}

/// The arguments that depend on the package type.
pub open spec fn type_args(m: MappingInfo) -> Seq<Seq<char>> {
    match m.package_type {
        PackageType::Docker => seq![
            docker_repository(m.package_specific_id@),
            docker_reference(m.package_specific_id@),
        ],
        PackageType::Maven2 => match m.source_repository {
            Some(SourceRepository::Git { url, tag }) => seq![url@, tag@] + match m.build_spec_url {
                Some(u) => seq![u@],
                None => Seq::empty(),
            },
            None => Seq::empty(),
        },
    }
}

/// The arguments of the external build of job `id`.
pub open spec fn command_args(m: MappingInfo, id: Seq<char>) -> Seq<Seq<char>> {
    seq![recipe_file(m.package_type), package_name(m.package_type), m.package_specific_id@, id]
        + type_args(m)
}

/// `p` is the plan for building `m` as job `id`.
pub open spec fn plan_for(p: BuildPlan, m: MappingInfo, id: Seq<char>) -> bool {
    &&& p.id@ == id
    &&& p.working_dir@ == work_dir(id)
    &&& p.recipe_source@ == "pipelines/"@ + recipe_file(m.package_type)
    &&& p.recipe_file@ == recipe_file(m.package_type)
    &&& p.program@ == "sh"@
    &&& texts(p.args@) == command_args(m, id)
}

/// Whether `m` is consistent.
pub fn is_well_formed(m: &MappingInfo) -> (r: bool)
    ensures
        r == well_formed(*m),
{
    match m.package_type {
        PackageType::Docker => has_char(m.package_specific_id.as_str(), '@') || has_char(
            m.package_specific_id.as_str(),
            ':',
        ),
        PackageType::Maven2 => m.source_repository.is_some(),
    }
}

/// Splits an image reference into its repository path and its tag or digest.
pub fn split_docker_id(id: &str) -> (r: (String, String))
    ensures
        r.0@ == docker_repository(id@),
        r.1@ == docker_reference(id@),
{
    let sep = if has_char(id, '@') {
        '@'
    } else {
        ':'
    };
    let head = text_before(id, sep);
    let rest = text_after(id, sep);
    let reference = text_before(rest.as_str(), sep);
    let repository = if has_char(head.as_str(), '/') {
        head
    } else {
        join2("library/", head.as_str())
    };
    (repository, reference)
}

/// The plan for building `mapping_info` as job `id`; a request that is not
/// consistent is refused.
pub fn build_command(mapping_info: &MappingInfo, id: &str) -> (r: Result<BuildPlan, BuildError>)
    ensures
        well_formed(*mapping_info) ==> r is Ok && plan_for(r->Ok_0, *mapping_info, id@),
        !well_formed(*mapping_info) ==> r is Err && r->Err_0 is MalformedRequest,
{
    if !is_well_formed(mapping_info) {
        return Err(BuildError::MalformedRequest);
    }
    let name = mapping_info.package_type.name();
    let recipe = join2(join2("build-", name.as_str()).as_str(), ".sh");
    let mut args: Vec<String> = Vec::new();
    args.push(recipe.clone());
    args.push(name.clone());
    args.push(mapping_info.package_specific_id.clone());
    args.push(String::from_str(id));
    let ghost fixed = texts(args@);
    match mapping_info.package_type {
        PackageType::Docker => {
            let (repository, reference) = split_docker_id(
                mapping_info.package_specific_id.as_str(),
            );
            args.push(repository);
            args.push(reference);
        },
        PackageType::Maven2 => {
            match &mapping_info.source_repository {
                Some(SourceRepository::Git { url, tag }) => {
                    args.push(url.clone());
                    args.push(tag.clone());
                },
                None => {},
            }
            match &mapping_info.build_spec_url {
                Some(u) => {
                    args.push(u.clone());
                },
                None => {},
            }
        },
    }
    assert(texts(args@) =~= command_args(*mapping_info, id@));
    Ok(
        BuildPlan {
            id: String::from_str(id),
            working_dir: join2("/tmp/pyrsia-build-pipeline/", id),
            recipe_source: join2("pipelines/", recipe.as_str()),
            recipe_file: recipe,
            program: String::from_str("sh"),
            args,
        },
    )
}

/// How many fresh ids a request draws before it gives up.
pub const ID_ATTEMPTS: u32 = 8;

/// Relies on uuid::Uuid::new_v4 and the Display of Uuid: a random version-4
/// UUID written in hyphenated form, which is 36 characters long.
#[verifier::external_body]
fn new_build_id() -> (r: String)
    ensures
        r@.len() == 36,
{
    uuid::Uuid::new_v4().to_string()
}

/// Draws a job id that `states` does not know and plans the build of
/// `mapping_info` under it. Nothing is recorded: a job begins with
/// `BuildStates::begin_build` once its working directory is set up.
pub fn plan_build(states: &BuildStates, mapping_info: &MappingInfo) -> (r: Result<
    BuildPlan,
    BuildError,
>)
    requires
        states.wf(),
    ensures
        !well_formed(*mapping_info) ==> r is Err && r->Err_0 is MalformedRequest,
        well_formed(*mapping_info) ==> match r {
            Ok(p) => p.id@.len() == 36 && !states@.contains_key(p.id@) && plan_for(
                p,
                *mapping_info,
                p.id@,
            ),
            Err(e) => e is SetupFailure,
        },
        well_formed(*mapping_info) && (forall|k: Seq<char>| #[trigger]
            states@.contains_key(k) ==> k.len() != 36) ==> r is Ok,
{
    if !is_well_formed(mapping_info) {
        return Err(BuildError::MalformedRequest);
    }
    let mut attempt: u32 = 0;
    while attempt < ID_ATTEMPTS
        invariant
            states.wf(),
            well_formed(*mapping_info),
            attempt > 0 ==> exists|k: Seq<char>| #[trigger]
                states@.contains_key(k) && k.len() == 36,
        decreases ID_ATTEMPTS - attempt,
    {
        let id = new_build_id();
        if !states.has_build(id.as_str()) {
            return build_command(mapping_info, id.as_str());
        }
        attempt = attempt + 1;
    }
    Err(BuildError::SetupFailure(String::from_str("no fresh build id could be drawn")))
}

/// Where an artifact of job `id` can be fetched.
pub open spec fn artifact_url(id: Seq<char>, name: Seq<char>) -> Seq<char> {
    "/build/"@ + id + "/artifacts/"@ + name
}

/// Where an artifact of job `id` lies on disk.
pub open spec fn artifact_path(id: Seq<char>, name: Seq<char>) -> Seq<char> {
    work_root() + id + "/artifacts/"@ + name
}

/// The artifacts of job `id`: one for each regular file with a valid name,
/// in the order of the entries.
pub open spec fn located(id: Seq<char>, entries: Seq<ArtifactEntry>) -> Seq<
    (Seq<char>, Seq<char>),
>
    decreases entries.len(),
{
    if entries.len() == 0 {
        Seq::empty()
    } else {
        let rest = located(id, entries.drop_last());
        let e = entries.last();
        match e.file_name {
            Some(name) => if e.is_file {
                rest.push((artifact_url(id, name@), name@))
            } else {
                rest
            },
            None => rest,
        }
    }
}

/// The artifacts that job `build_id` exposes, from the entries of its
/// artifacts directory.
pub fn locate_artifacts(build_id: &str, entries: &Vec<ArtifactEntry>) -> (r: Vec<BuildArtifact>)
    ensures
        artifacts_view(r@) == located(build_id@, entries@),
{
    let mut out: Vec<BuildArtifact> = Vec::new();
    let mut i: usize = 0;
    while i < entries.len()
        invariant
            i <= entries.len(),
            artifacts_view(out@) == located(build_id@, entries@.subrange(0, i as int)),
        decreases entries.len() - i,
    {
        let ghost prev = out@;
        assert(entries@.subrange(0, i + 1).drop_last() =~= entries@.subrange(0, i as int));
        let e = &entries[i];
        match &e.file_name {
            Some(name) => {
                if e.is_file {
                    out.push(
                        BuildArtifact {
                            artifact_url: join4("/build/", build_id, "/artifacts/", name.as_str()),
                            source_artifact_url: name.clone(),
                        },
                    );
                    assert(artifacts_view(out@) =~= artifacts_view(prev).push(out@.last()@));
                }
            },
            None => {},
        }
        i = i + 1;
    }
    assert(entries@.subrange(0, entries.len() as int) =~= entries@);
    out
}

/// The reason recorded when the build exits without success.
pub open spec fn failure_text(exit_code: Option<i32>) -> Seq<char> {
    match exit_code {
        Some(code) => signed_decimal(code as int),
        None => "process terminated abnormally"@,
    }
}

/// The reason for a build that exited with `exit_code`, or without one.
pub fn failure_reason(exit_code: Option<i32>) -> (r: String)
    ensures
        r@ == failure_text(exit_code),
{
    match exit_code {
        Some(code) => signed_text(code),
        None => String::from_str("process terminated abnormally"),
    }
}

/// Whether an exit code is a success.
pub open spec fn exit_success(exit_code: Option<i32>) -> bool {
    exit_code == Some(0i32)
}

/// Whether the build succeeded, so that its artifacts are to be listed.
pub fn exited_successfully(exit_code: Option<i32>) -> (r: bool)
    ensures
        r == exit_success(exit_code),
{
    match exit_code {
        Some(code) => code == 0,
        None => false,
    }
}

/// The terminal status of a job whose build exited with `exit_code`.
pub open spec fn outcome(id: Seq<char>, exit_code: Option<i32>, entries: Seq<ArtifactEntry>) -> StatusView {
    if exit_success(exit_code) {
        StatusView::Success(located(id, entries))
    } else {
        StatusView::Failure(failure_text(exit_code))
    }
}

/// The record of job `build_id` once its build has exited with `exit_code`;
/// `entries` are those of its artifacts directory, read after a success.
pub fn build_outcome(build_id: &str, exit_code: Option<i32>, entries: &Vec<ArtifactEntry>) -> (r:
    BuildInfo)
    ensures
        r@ == (build_id@, outcome(build_id@, exit_code, entries@)),
        r.status@.is_terminal(),
{
    let status = if exited_successfully(exit_code) {
        BuildStatus::Success { artifacts: locate_artifacts(build_id, entries) }
    } else {
        BuildStatus::Failure(failure_reason(exit_code))
    };
    BuildInfo { id: String::from_str(build_id), status }
}

/// What a request for artifact `filename` of job `build_id` comes to: the
/// file is only looked for once the job has succeeded.
pub fn lookup_artifact(states: &BuildStates, build_id: &str, filename: &str) -> (r: ArtifactLookup)
    requires
        states.wf(),
    ensures
        !states@.contains_key(build_id@) ==> r is NotFound,
        states@.contains_key(build_id@) ==> match states@[build_id@].1 {
            StatusView::Running => r is Pending,
            StatusView::Failure(reason) => r is Gone && r->Gone_0@ == reason,
            StatusView::Success(_) => r is Fetch && r->Fetch_0@ == artifact_path(
                build_id@,
                filename@,
            ),
        },
{
    match states.get_build_info(build_id) {
        None => ArtifactLookup::NotFound,
        Some(info) => match info.status {
            BuildStatus::Running => ArtifactLookup::Pending,
            BuildStatus::Failure(reason) => ArtifactLookup::Gone(reason),
            BuildStatus::Success { .. } => ArtifactLookup::Fetch(
                join4("/tmp/pyrsia-build-pipeline/", build_id, "/artifacts/", filename),
            ),
        },
    }
}

} // verus!
