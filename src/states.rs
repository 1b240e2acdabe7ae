use vstd::prelude::*;

verus! {

/// A file produced by a successful build: where to fetch it, and its name
/// within the job's artifacts directory.
#[derive(Clone, Debug)]
pub struct BuildArtifact {
    pub artifact_url: String,
    pub source_artifact_url: String,
}

/// The lifecycle state of a build job.
#[derive(Clone, Debug)]
pub enum BuildStatus {
    Running,
    Success { artifacts: Vec<BuildArtifact> },
    Failure(String),
}

/// The record of one build job.
#[derive(Clone, Debug)]
pub struct BuildInfo {
    pub id: String,
    pub status: BuildStatus,
}

/// The mathematical value of a `BuildStatus`.
pub enum StatusView {
    Running,
    Success(Seq<(Seq<char>, Seq<char>)>),
    Failure(Seq<char>),
}

impl StatusView {
    pub open spec fn is_terminal(self) -> bool {
        !(self is Running)
    }
}

impl View for BuildArtifact {
    type V = (Seq<char>, Seq<char>);

    open spec fn view(&self) -> Self::V {
        (self.artifact_url@, self.source_artifact_url@)
    }
}

/// The views of a sequence of artifacts.
pub open spec fn artifacts_view(a: Seq<BuildArtifact>) -> Seq<(Seq<char>, Seq<char>)> {
    a.map_values(|x: BuildArtifact| x@)
}

impl View for BuildStatus {
    type V = StatusView;

    open spec fn view(&self) -> StatusView {
        match self {
            BuildStatus::Running => StatusView::Running,
            BuildStatus::Success { artifacts } => StatusView::Success(artifacts_view(artifacts@)),
            BuildStatus::Failure(reason) => StatusView::Failure(reason@),
        }
    }
}

impl View for BuildInfo {
    type V = (Seq<char>, StatusView);

    open spec fn view(&self) -> Self::V {
        (self.id@, self.status@)
    }
}

impl BuildArtifact {
    /// A copy with the same view.
    pub fn copy(&self) -> (r: BuildArtifact)
        ensures
            r@ == self@,
    {
        BuildArtifact {
            artifact_url: self.artifact_url.clone(),
            source_artifact_url: self.source_artifact_url.clone(),
        }
    }
}

impl BuildStatus {
    /// A copy with the same view.
    pub fn copy(&self) -> (r: BuildStatus)
        ensures
            r@ == self@,
    {
        match self {
            BuildStatus::Running => BuildStatus::Running,
            BuildStatus::Success { artifacts } => {
                let mut out: Vec<BuildArtifact> = Vec::new();
                let mut i: usize = 0;
                while i < artifacts.len()
                    invariant
                        i <= artifacts.len(),
                        out@.len() == i,
                        forall|j: int| 0 <= j < i ==> out@[j]@ == artifacts@[j]@,
                    decreases artifacts.len() - i,
                {
                    out.push(artifacts[i].copy());
                    i = i + 1;
                }
                assert(artifacts_view(out@) =~= artifacts_view(artifacts@));
                BuildStatus::Success { artifacts: out }
            },
            BuildStatus::Failure(reason) => BuildStatus::Failure(reason.clone()),
        }
    }

    /// Whether the status is `Running`.
    pub fn is_running(&self) -> (r: bool)
        ensures
            r == (self@ is Running),
    {
        match self {
            BuildStatus::Running => true,
            _ => false,
        }
    }
}

impl BuildInfo {
    /// A copy with the same view.
    pub fn copy(&self) -> (r: BuildInfo)
        ensures
            r@ == self@,
    {
        BuildInfo { id: self.id.clone(), status: self.status.copy() }
    }
}

/// What the registry holds: for each job key, the view of its record.
pub type RegistryView = Map<Seq<char>, (Seq<char>, StatusView)>;

/// No key disappears, and a record that was terminal stays as it was.
pub open spec fn settled(before: RegistryView, after: RegistryView) -> bool {
    forall|k: Seq<char>| #[trigger]
        before.contains_key(k) ==> after.contains_key(k) && (before[k].1.is_terminal()
            ==> after[k] == before[k])
}

/// One step of the job lifecycle: the registry is `settled`, and a key that
/// appears starts out `Running`.
pub open spec fn lifecycle_step(before: RegistryView, after: RegistryView) -> bool {
    &&& settled(before, after)
    &&& forall|k: Seq<char>|
        #[trigger] after.contains_key(k) && !before.contains_key(k) ==> after[k].1 is Running
}

/// The observed lifecycle of every job is a prefix of running-then-terminal:
/// over any sequence of lifecycle steps no job disappears, and a terminal
/// record never changes again (in particular it never returns to `Running`).
pub proof fn lemma_lifecycle_composes(a: RegistryView, b: RegistryView, c: RegistryView)
    requires
        settled(a, b),
        settled(b, c),
    ensures
        settled(a, c),
{
}

/// Over any run of registry states, each a lifecycle step from the one
/// before, every later state is `settled` with respect to every earlier one:
/// a job once seen is always seen, and once it is terminal every later read
/// returns that same record, so it never returns to `Running`.
pub proof fn lemma_lifecycle_run(run: Seq<RegistryView>, i: int, j: int)
    requires
        forall|n: int| 0 <= n < run.len() - 1 ==> #[trigger] lifecycle_step(run[n], run[n + 1]),
        0 <= i <= j < run.len(),
    ensures
        settled(run[i], run[j]),
    decreases j - i,
{
    if i < j {
        lemma_lifecycle_run(run, i, j - 1);
        let n = j - 1;
        assert(lifecycle_step(run[n], run[n + 1]));
        assert(n + 1 == j);
        lemma_lifecycle_composes(run[i], run[j - 1], run[j]);
    }
}

/// An id that the registry does not hold now was never issued at any
/// earlier state: ids are never removed, so a fresh one is new.
pub proof fn lemma_fresh_never_issued(earlier: RegistryView, now: RegistryView, id: Seq<char>)
    requires
        settled(earlier, now),
        !now.contains_key(id),
    ensures
        !earlier.contains_key(id),
{
}

/// The view of what a read returned.
pub open spec fn info_view(r: Option<BuildInfo>) -> Option<(Seq<char>, StatusView)> {
    match r {
        Some(info) => Some(info@),
        None => None,
    }
}

/// `got` is what a read of `id` from `s` returns: the record, when there is one.
pub open spec fn read_of(s: RegistryView, id: Seq<char>, got: Option<(Seq<char>, StatusView)>) -> bool {
    match got {
        Some(v) => s.contains_key(id) && v == s[id],
        None => !s.contains_key(id),
    }
}

/// The registry of build jobs, keyed by job id.
pub struct BuildStates {
    entries: Vec<(String, BuildInfo)>,
    contents: Ghost<RegistryView>,
}

impl View for BuildStates {
    type V = RegistryView;

    closed spec fn view(&self) -> RegistryView {
        self.contents@
    }
}

impl BuildStates {
    /// The entries hold each key once, and agree with the view.
    pub closed spec fn wf(&self) -> bool {
        &&& forall|i: int, j: int|
            0 <= i < j < self.entries@.len() ==> self.entries@[i].0@ != self.entries@[j].0@
        &&& forall|i: int|
            0 <= i < self.entries@.len() ==> self.contents@.contains_key(
                #[trigger] self.entries@[i].0@,
            ) && self.contents@[self.entries@[i].0@] == self.entries@[i].1@
        &&& forall|k: Seq<char>| #[trigger]
            self.contents@.contains_key(k) ==> exists|i: int|
                0 <= i < self.entries@.len() && self.entries@[i].0@ == k
    }

    /// An empty registry.
    pub fn new() -> (r: BuildStates)
        ensures
            r.wf(),
            r@ == RegistryView::empty(),
    {
        BuildStates { entries: Vec::new(), contents: Ghost(Map::empty()) }
    }

    fn find(&self, key: &str) -> (r: Option<usize>)
        requires
            self.wf(),
        ensures
            match r {
                Some(i) => i < self.entries@.len() && self.entries@[i as int].0@ == key@,
                None => !self@.contains_key(key@),
            },
    {
        let k = String::from_str(key);
        let mut i: usize = 0;
        while i < self.entries.len()
            invariant
                self.wf(),
                k@ == key@,
                i <= self.entries@.len(),
                forall|j: int| 0 <= j < i ==> self.entries@[j].0@ != key@,
            decreases self.entries.len() - i,
        {
            if self.entries[i].0 == k {
                return Some(i);
            }
            i = i + 1;
        }
        None
    }

    fn put(&mut self, key: &str, build_info: BuildInfo)
        requires
            old(self).wf(),
        ensures
            final(self).wf(),
            final(self)@ == old(self)@.insert(key@, build_info@),
    {
        let ghost v = build_info@;
        let ghost at: int;
        match self.find(key) {
            Some(i) => {
                self.entries.set(i, (String::from_str(key), build_info));
                proof {
                    at = i as int;
                }
            },
            None => {
                self.entries.push((String::from_str(key), build_info));
                proof {
                    at = self.entries@.len() - 1;
                }
            },
        }
        self.contents = Ghost(self.contents@.insert(key@, v));
        assert(self.entries@[at].0@ == key@);
        assert forall|k: Seq<char>| #[trigger]
            self.contents@.contains_key(k) implies exists|i: int|
                0 <= i < self.entries@.len() && self.entries@[i].0@ == k by {
            if k != key@ {
                let i = choose|i: int|
                    0 <= i < old(self).entries@.len() && old(self).entries@[i].0@ == k;
                assert(self.entries@[i].0@ == k);
            }
        }
    }

    /// Inserts or replaces the record under `key`; the last write wins.
    pub fn update_build_info(&mut self, key: &str, build_info: BuildInfo)
        requires
            old(self).wf(),
        ensures
            final(self).wf(),
            final(self)@ == old(self)@.insert(key@, build_info@),
    {
        self.put(key, build_info)
    }

    /// Whether a record is held under `key`.
    pub fn has_build(&self, key: &str) -> (r: bool)
        requires
            self.wf(),
        ensures
            r == self@.contains_key(key@),
    {
        self.find(key).is_some()
    }

    /// A copy of the record under `key`, if there is one.
    pub fn get_build_info(&self, key: &str) -> (r: Option<BuildInfo>)
        requires
            self.wf(),
        ensures
            read_of(self@, key@, info_view(r)),
    {
        match self.find(key) {
            Some(i) => Some(self.entries[i].1.copy()),
            None => None,
        }
    }

    /// Records a new job `id` as `Running`, unless `id` is already known.
    pub fn begin_build(&mut self, id: &str) -> (r: Option<BuildInfo>)
        requires
            old(self).wf(),
        ensures
            final(self).wf(),
            lifecycle_step(old(self)@, final(self)@),
            r is Some <==> !old(self)@.contains_key(id@),
            match r {
                Some(info) => info@ == (id@, StatusView::Running) && final(self)@ == old(
                    self,
                )@.insert(id@, info@),
                None => final(self)@ == old(self)@,
            },
    {
        match self.find(id) {
            Some(_) => None,
            None => {
                let info = BuildInfo { id: String::from_str(id), status: BuildStatus::Running };
                let r = info.copy();
                self.put(id, info);
                Some(r)
            },
        }
    }

    /// Writes the terminal `status` of job `id`. Only a job that is known and
    /// still `Running` takes it, and only a terminal status is written.
    pub fn finish_build(&mut self, id: &str, status: BuildStatus) -> (r: bool)
        requires
            old(self).wf(),
        ensures
            final(self).wf(),
            lifecycle_step(old(self)@, final(self)@),
            r == (old(self)@.contains_key(id@) && old(self)@[id@].1 is Running
                && status@.is_terminal()),
            r ==> final(self)@ == old(self)@.insert(id@, (id@, status@)),
            !r ==> final(self)@ == old(self)@,
    {
        if status.is_running() {
            return false;
        }
        match self.find(id) {
            Some(i) => {
                if self.entries[i].1.status.is_running() {
                    let info = BuildInfo { id: String::from_str(id), status };
                    self.put(id, info);
                    true
                } else {
                    false
                }
            },
            None => false,
        }
    }
}

impl Default for BuildStates {
    /// An empty registry.
    fn default() -> (r: BuildStates)
        ensures
            r.wf(),
            r@ == RegistryView::empty(),
    {
        BuildStates::new()
    }
}

/// A `get` of `id` right after a `put(id, r)` returns `r`.
pub proof fn lemma_get_after_put(
    s: RegistryView,
    id: Seq<char>,
    r: (Seq<char>, StatusView),
    got: Option<(Seq<char>, StatusView)>,
)
    requires
        read_of(s.insert(id, r), id, got),
    ensures
        got == Some(r),
{
}

/// Two reads of `id` from the same registry, with no write between them,
/// return the same record.
pub proof fn lemma_reads_agree(
    s: RegistryView,
    id: Seq<char>,
    first: Option<(Seq<char>, StatusView)>,
    second: Option<(Seq<char>, StatusView)>,
)
    requires
        read_of(s, id, first),
        read_of(s, id, second),
    ensures
        first == second,
{
}

} // verus!
