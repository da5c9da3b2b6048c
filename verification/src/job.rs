//! Resolution of path fields and loading of the job list.
//!
//! The logic here is pure: the filesystem is consulted only through a
//! list of already-answered existence questions (`FsFacts`), and every
//! file creation or write the loader wants is returned as an `FsAction`
//! for the surrounding program to perform. When resolution needs the
//! existence of a path that the facts do not answer yet, loading stops
//! with `NeedProbe`; the caller probes the path, appends the answer to
//! the facts and calls again.

use vstd::prelude::*;
use crate::node::{Node, spec_get, str_equal};
use crate::types::{
    Job, JobView, LoadError, LoadErrorView, PathType, PathTypeView, Platform, ResolveError,
    ResolveErrorView,
};

verus! {

/// Answered existence questions: each entry pairs a path with whether it
/// exists on disk. Earlier entries win on a repeated path.
pub type FsFacts = Vec<(String, bool)>;

/// The answer recorded in `facts` for `path`, if any.
pub open spec fn facts_lookup(facts: Seq<(String, bool)>, path: Seq<char>) -> Option<bool>
    decreases facts.len(),
{
    if facts.len() == 0 {
        None
    } else if facts[0].0@ == path {
        Some(facts[0].1)
    } else {
        facts_lookup(facts.drop_first(), path)
    }
}

/// Looks a path up in the answered existence questions.
fn lookup_fact(facts: &FsFacts, path: &str) -> (r: Option<bool>)
    ensures
        r == facts_lookup(facts@, path@),
{
    let n = facts.len();
    proof {
        assert(facts@.skip(0) =~= facts@);
    }
    for i in 0..n
        invariant
            n == facts@.len(),
            facts_lookup(facts@, path@) == facts_lookup(facts@.skip(i as int), path@),
    {
        proof {
            assert(facts@.skip(i as int)[0] == facts@[i as int]);
            assert(facts@.skip(i as int).drop_first() =~= facts@.skip(i + 1));
        }
        if str_equal(facts[i].0.as_str(), path) {
            proof {
                assert(facts_lookup(facts@.skip(i as int), path@) == Some(facts@[i as int].1));
            }
            return Some(facts[i].1);
        }
    }
    None
}

/// The tokens of `s` from position `i` on, with `cur` the partial token
/// read so far: maximal space-free runs, empty tokens dropped.
pub open spec fn split_from(s: Seq<char>, i: int, cur: Seq<char>) -> Seq<Seq<char>>
    decreases s.len() - i,
{
    if i < 0 || i >= s.len() {
        if cur.len() > 0 {
            seq![cur]
        } else {
            Seq::empty()
        }
    } else if s[i] == ' ' {
        (if cur.len() > 0 {
            seq![cur]
        } else {
            Seq::empty()
        }) + split_from(s, i + 1, Seq::empty())
    } else {
        split_from(s, i + 1, cur.push(s[i]))
    }
}

/// The options string split on spaces, with empty tokens dropped.
pub open spec fn split_spec(s: Seq<char>) -> Seq<Seq<char>> {
    split_from(s, 0, Seq::empty())
}

proof fn lemma_split_from_no_empty_token(s: Seq<char>, i: int, cur: Seq<char>)
    ensures
        forall|j: int|
            0 <= j < split_from(s, i, cur).len() ==> #[trigger] split_from(s, i, cur)[j].len()
                > 0,
    decreases s.len() - i,
{
    if i < 0 || i >= s.len() {
        assert forall|j: int|
            0 <= j < split_from(s, i, cur).len() implies #[trigger] split_from(s, i, cur)[j].len()
            > 0 by {
            assert(split_from(s, i, cur)[j] == cur);
        }
    } else if s[i] == ' ' {
        lemma_split_from_no_empty_token(s, i + 1, Seq::empty());
        let pre: Seq<Seq<char>> = if cur.len() > 0 {
            seq![cur]
        } else {
            Seq::empty()
        };
        let rest = split_from(s, i + 1, Seq::<char>::empty());
        assert(split_from(s, i, cur) == pre + rest);
        assert forall|j: int|
            0 <= j < split_from(s, i, cur).len() implies #[trigger] split_from(s, i, cur)[j].len()
            > 0 by {
            if j < pre.len() {
                assert(split_from(s, i, cur)[j] == cur);
            } else {
                assert(split_from(s, i, cur)[j] == rest[j - pre.len()]);
            }
        }
    } else {
        lemma_split_from_no_empty_token(s, i + 1, cur.push(s[i]));
        assert(split_from(s, i, cur) == split_from(s, i + 1, cur.push(s[i])));
    }
}

/// Splitting an options string never yields an empty token, so a job's
/// `options` never contains an empty-string element.
pub proof fn lemma_split_no_empty_token(s: Seq<char>)
    ensures
        forall|j: int|
            0 <= j < split_spec(s).len() ==> #[trigger] split_spec(s)[j].len() > 0,
{
    lemma_split_from_no_empty_token(s, 0, Seq::empty());
}

/// The outcome of one resolution attempt over the facts known so far.
#[derive(Debug, PartialEq, Eq)]
pub enum ResolveStep {
    /// A selector was produced; the flag asks the caller to create an
    /// empty file at the (local) path before using it.
    Resolved(PathType, bool),
    /// The facts do not say whether this path exists; probe it first.
    NeedProbe(String),
}

/// Spec-level mirror of [`ResolveStep`].
#[verifier::ext_equal]
pub enum ResolveStepView {
    Resolved(PathTypeView, bool),
    NeedProbe(Seq<char>),
}

impl View for ResolveStep {
    type V = ResolveStepView;

    open spec fn view(&self) -> ResolveStepView {
        match self {
            ResolveStep::Resolved(p, c) => ResolveStepView::Resolved(p@, *c),
            ResolveStep::NeedProbe(p) => ResolveStepView::NeedProbe(p@),
        }
    }
}

/// [`ResolveStep`] results under the view.
pub open spec fn step_view(r: Result<ResolveStep, ResolveError>) -> Result<
    ResolveStepView,
    ResolveErrorView,
> {
    match r {
        Ok(s) => Ok(s@),
        Err(e) => Err(e@),
    }
}

/// What resolving the path node `val` yields, given the platform, the
/// permission to create a missing file, and the answered existence
/// questions. In order: a bare string is a local path, taken as is; a
/// mapping with `remote` (alone) is a remote identifier; otherwise the
/// platform's key is consulted and the path it names must exist on
/// disk, unless `create_file` allows creating it.
pub open spec fn resolve_spec(
    val: Node,
    platform: Platform,
    create_file: bool,
    facts: Seq<(String, bool)>,
) -> Result<ResolveStepView, ResolveErrorView> {
    match val {
        Node::Str(s) => Ok(ResolveStepView::Resolved(PathTypeView::Local(s@), false)),
        Node::Mapping(_) => match spec_get(val, "remote"@) {
            Some(rnode) => {
                if spec_get(val, "windows"@) is Some || spec_get(val, "linux"@) is Some {
                    Err(ResolveErrorView::ConflictingPathVariant)
                } else {
                    match rnode {
                        Node::Str(rs) => Ok(
                            ResolveStepView::Resolved(PathTypeView::Remote(rs@), false),
                        ),
                        _ => Err(ResolveErrorView::MalformedValue),
                    }
                }
            },
            None => match spec_get(val, platform.spec_key()) {
                None => Err(ResolveErrorView::MissingOsVariant),
                Some(pnode) => match pnode {
                    Node::Str(p) => match facts_lookup(facts, p@) {
                        None => Ok(ResolveStepView::NeedProbe(p@)),
                        Some(true) => Ok(
                            ResolveStepView::Resolved(PathTypeView::Local(p@), false),
                        ),
                        Some(false) => if create_file {
                            Ok(ResolveStepView::Resolved(PathTypeView::Local(p@), true))
                        } else {
                            Err(ResolveErrorView::PathNotFound(p@))
                        },
                    },
                    _ => Err(ResolveErrorView::MalformedValue),
                },
            },
        },
        _ => Err(ResolveErrorView::MalformedValue),
    }
}

/// Resolves one path-like field of a job as far as the answered
/// existence questions allow.
pub fn extract_path_field(
    val: &Node,
    platform: Platform,
    create_file: bool,
    facts: &FsFacts,
) -> (r: Result<ResolveStep, ResolveError>)
    ensures
        step_view(r) == resolve_spec(*val, platform, create_file, facts@),
{
    match val {
        Node::Str(s) => Ok(ResolveStep::Resolved(PathType::Local(s.clone()), false)),
        Node::Mapping(_) => {
            match val.get("remote") {
                Some(rnode) => {
                    if val.get("windows").is_some() || val.get("linux").is_some() {
                        return Err(ResolveError::ConflictingPathVariant);
                    }
                    match rnode.as_str() {
                        Some(rs) => Ok(
                            ResolveStep::Resolved(PathType::Remote(rs.clone()), false),
                        ),
                        None => Err(ResolveError::MalformedValue),
                    }
                },
                None => {
                    match val.get(platform.key()) {
                        None => Err(ResolveError::MissingOsVariant),
                        Some(pnode) => match pnode.as_str() {
                            None => Err(ResolveError::MalformedValue),
                            Some(p) => match lookup_fact(facts, p.as_str()) {
                                None => Ok(ResolveStep::NeedProbe(p.clone())),
                                Some(true) => Ok(
                                    ResolveStep::Resolved(PathType::Local(p.clone()), false),
                                ),
                                Some(false) => {
                                    if create_file {
                                        Ok(
                                            ResolveStep::Resolved(PathType::Local(p.clone()), true),
                                        )
                                    } else {
                                        Err(ResolveError::PathNotFound(p.clone()))
                                    }
                                },
                            },
                        },
                    }
                },
            }
        },
        _ => Err(ResolveError::MalformedValue),
    }
}

/// A bare string node resolves to `Local` of that very string, whatever
/// the platform, the creation permission and the filesystem facts: no
/// existence question is ever consulted.
pub proof fn lemma_bare_string_is_local(
    s: String,
    platform: Platform,
    create_file: bool,
    facts: Seq<(String, bool)>,
)
    ensures
        resolve_spec(Node::Str(s), platform, create_file, facts) == Ok::<ResolveStepView, ResolveErrorView>(
            ResolveStepView::Resolved(PathTypeView::Local(s@), false),
        ),
{
}

/// A mapping that combines `remote` with an OS-specific variant fails
/// with `ConflictingPathVariant`, in whatever order the keys stand and
/// whatever else the mapping holds.
pub proof fn lemma_remote_conflicts_with_os_variant(
    val: Node,
    platform: Platform,
    create_file: bool,
    facts: Seq<(String, bool)>,
)
    requires
        spec_get(val, "remote"@) is Some,
        spec_get(val, "windows"@) is Some || spec_get(val, "linux"@) is Some,
    ensures
        resolve_spec(val, platform, create_file, facts) == Err::<ResolveStepView, ResolveErrorView>(
            ResolveErrorView::ConflictingPathVariant,
        ),
{
}

/// A mapping whose platform key names a path that the facts say does
/// not exist: resolution fails with `PathNotFound` unless creation is
/// allowed, in which case it succeeds and asks for the file to be
/// created; once the path exists, resolution succeeds without asking
/// for any creation, so re-resolving after the creation is idempotent.
pub proof fn lemma_missing_path_creation_idempotent(
    val: Node,
    platform: Platform,
    p: String,
    facts_absent: Seq<(String, bool)>,
    facts_present: Seq<(String, bool)>,
)
    requires
        spec_get(val, "remote"@) is None,
        spec_get(val, platform.spec_key()) == Some(Node::Str(p)),
        facts_lookup(facts_absent, p@) == Some(false),
        facts_lookup(facts_present, p@) == Some(true),
    ensures
        resolve_spec(val, platform, false, facts_absent) == Err::<ResolveStepView, ResolveErrorView>(
            ResolveErrorView::PathNotFound(p@),
        ),
        resolve_spec(val, platform, true, facts_absent) == Ok::<ResolveStepView, ResolveErrorView>(
            ResolveStepView::Resolved(PathTypeView::Local(p@), true),
        ),
        forall|create_file: bool|
            resolve_spec(val, platform, create_file, facts_present) == Ok::<ResolveStepView, ResolveErrorView>(
                ResolveStepView::Resolved(PathTypeView::Local(p@), false),
            ),
{
}

/// A filesystem effect the loader asks the surrounding program to
/// perform once the whole job list has loaded successfully.
#[derive(Debug, PartialEq, Eq)]
pub enum FsAction {
    /// Create an empty file at this path (a missing log file whose
    /// creation was allowed).
    CreateEmpty(String),
    /// Create the per-job filter file at this path and write the given
    /// patterns to it, one per line. An empty list still creates the
    /// (empty) file.
    WriteFilters(String, Vec<String>),
}

/// Spec-level mirror of [`FsAction`].
#[verifier::ext_equal]
pub enum FsActionView {
    CreateEmpty(Seq<char>),
    WriteFilters(Seq<char>, Seq<Seq<char>>),
}

impl View for FsAction {
    type V = FsActionView;

    open spec fn view(&self) -> FsActionView {
        match self {
            FsAction::CreateEmpty(p) => FsActionView::CreateEmpty(p@),
            FsAction::WriteFilters(p, lines) => FsActionView::WriteFilters(p@, lines.deep_view()),
        }
    }
}

/// What one call of the loader produced over the facts known so far.
#[derive(Debug, PartialEq, Eq)]
pub enum LoadStep {
    /// The facts do not say whether this path exists; probe it, record
    /// the answer and load again.
    NeedProbe(String),
    /// The whole job list, with the filesystem actions to perform
    /// before the jobs run, in order.
    Loaded(Vec<Job>, Vec<FsAction>),
}

/// The jobs of `jobs`, each under its view.
pub open spec fn jobs_view(jobs: Seq<Job>) -> Seq<JobView> {
    jobs.map_values(|j: Job| j@)
}

/// The actions of `acts`, each under its view.
pub open spec fn actions_view(acts: Seq<FsAction>) -> Seq<FsActionView> {
    acts.map_values(|a: FsAction| a@)
}

/// Spec-level mirror of [`LoadStep`].
#[verifier::ext_equal]
pub enum LoadStepView {
    NeedProbe(Seq<char>),
    Loaded(Seq<JobView>, Seq<FsActionView>),
}

impl View for LoadStep {
    type V = LoadStepView;

    open spec fn view(&self) -> LoadStepView {
        match self {
            LoadStep::NeedProbe(p) => LoadStepView::NeedProbe(p@),
            LoadStep::Loaded(jobs, acts) => LoadStepView::Loaded(
                jobs_view(jobs@),
                actions_view(acts@),
            ),
        }
    }
}

/// [`LoadStep`] results under the view.
pub open spec fn load_view(r: Result<LoadStep, LoadError>) -> Result<
    LoadStepView,
    LoadErrorView,
> {
    match r {
        Ok(s) => Ok(s@),
        Err(e) => Err(e@),
    }
}

/// A resolution failure placed at a job's field.
pub open spec fn field_error_view(job: Seq<char>, field: Seq<char>, e: ResolveErrorView)
    -> LoadErrorView {
    match e {
        ResolveErrorView::ConflictingPathVariant => LoadErrorView::ConflictingPathVariant {
            job,
            field,
        },
        ResolveErrorView::MissingOsVariant => LoadErrorView::MissingOsVariant { job, field },
        ResolveErrorView::PathNotFound(path) => LoadErrorView::PathNotFound { job, field, path },
        ResolveErrorView::MalformedValue => LoadErrorView::MalformedValue { job, field },
    }
}

/// Attaches the job and field names to a resolution failure.
fn field_error(job: &str, field: &str, e: ResolveError) -> (r: LoadError)
    ensures
        r@ == field_error_view(job@, field@, e@),
{
    match e {
        ResolveError::ConflictingPathVariant => LoadError::ConflictingPathVariant {
            job: job.to_owned(),
            field: field.to_owned(),
        },
        ResolveError::MissingOsVariant => LoadError::MissingOsVariant {
            job: job.to_owned(),
            field: field.to_owned(),
        },
        ResolveError::PathNotFound(path) => LoadError::PathNotFound {
            job: job.to_owned(),
            field: field.to_owned(),
            path,
        },
        ResolveError::MalformedValue => LoadError::MalformedValue {
            job: job.to_owned(),
            field: field.to_owned(),
        },
    }
}

/// The outcome of reading one required path field of a job.
#[derive(Debug, PartialEq, Eq)]
pub enum FieldStep {
    /// Probe this path first.
    Probe(String),
    /// Loading fails with this error.
    Fail(LoadError),
    /// The field's resolved path-or-identifier string.
    Got(String),
}

/// Spec-level mirror of [`FieldStep`].
#[verifier::ext_equal]
pub enum FieldOutcome {
    Probe(Seq<char>),
    Fail(LoadErrorView),
    Got(Seq<char>),
}

impl View for FieldStep {
    type V = FieldOutcome;

    open spec fn view(&self) -> FieldOutcome {
        match self {
            FieldStep::Probe(p) => FieldOutcome::Probe(p@),
            FieldStep::Fail(e) => FieldOutcome::Fail(e@),
            FieldStep::Got(s) => FieldOutcome::Got(s@),
        }
    }
}

/// Reading the required path field `key` of job `name`: a missing key
/// fails with `MissingField`, a resolution failure is placed at the
/// field, and a successful resolution of either variant unwraps to the
/// underlying string.
pub open spec fn required_path_spec(
    name: Seq<char>,
    jv: Node,
    key: Seq<char>,
    platform: Platform,
    facts: Seq<(String, bool)>,
) -> FieldOutcome {
    match spec_get(jv, key) {
        None => FieldOutcome::Fail(LoadErrorView::MissingField { job: name, field: key }),
        Some(nd) => match resolve_spec(nd, platform, false, facts) {
            Err(e) => FieldOutcome::Fail(field_error_view(name, key, e)),
            Ok(ResolveStepView::NeedProbe(p)) => FieldOutcome::Probe(p),
            Ok(ResolveStepView::Resolved(sel, _)) => FieldOutcome::Got(sel.inner()),
        },
    }
}

/// Reads and resolves one required path field of a job.
pub fn required_path(
    name: &str,
    jv: &Node,
    key: &str,
    platform: Platform,
    facts: &FsFacts,
) -> (r: FieldStep)
    ensures
        r@ == required_path_spec(name@, *jv, key@, platform, facts@),
{
    match jv.get(key) {
        None => FieldStep::Fail(
            LoadError::MissingField { job: name.to_owned(), field: key.to_owned() },
        ),
        Some(nd) => match extract_path_field(nd, platform, false, facts) {
            Err(e) => FieldStep::Fail(field_error(name, key, e)),
            Ok(ResolveStep::NeedProbe(p)) => FieldStep::Probe(p),
            Ok(ResolveStep::Resolved(sel, _)) => FieldStep::Got(sel.into_inner()),
        },
    }
}

/// The outcome of reading the optional `log_path` field.
pub enum LogOutcome {
    Probe(Seq<char>),
    Fail(LoadErrorView),
    /// The log path kept on the job, if any, and the file creation the
    /// resolution asked for, if any.
    Got(Option<Seq<char>>, Seq<FsActionView>),
}

/// Reading the optional `log_path` field of job `name`: an absent key is
/// an informational skip; a resolution failure is fatal; a `Remote`
/// resolution is silently discarded, logs being local-only.
pub open spec fn log_path_spec(
    name: Seq<char>,
    jv: Node,
    platform: Platform,
    facts: Seq<(String, bool)>,
) -> LogOutcome {
    match spec_get(jv, "log_path"@) {
        None => LogOutcome::Got(None, Seq::empty()),
        Some(ln) => match resolve_spec(ln, platform, true, facts) {
            Err(e) => LogOutcome::Fail(field_error_view(name, "log_path"@, e)),
            Ok(ResolveStepView::NeedProbe(p)) => LogOutcome::Probe(p),
            Ok(ResolveStepView::Resolved(PathTypeView::Local(lp), create)) => LogOutcome::Got(
                Some(lp),
                if create {
                    seq![FsActionView::CreateEmpty(lp)]
                } else {
                    Seq::empty()
                },
            ),
            Ok(ResolveStepView::Resolved(PathTypeView::Remote(_), _)) => LogOutcome::Got(
                None,
                Seq::empty(),
            ),
        },
    }
}

/// Whether every node of `items` is a string scalar.
pub open spec fn all_strings(items: Seq<Node>) -> bool {
    forall|i: int| 0 <= i < items.len() ==> items[i] is Str
}

/// The string values of a sequence of string nodes.
pub open spec fn filter_lines(items: Seq<Node>) -> Seq<Seq<char>> {
    items.map_values(|n: Node| n->Str_0@)
}

/// Reading the optional `filters` field of job `name`: an absent key
/// yields no patterns; a present one must be a sequence of strings.
pub open spec fn filters_spec(name: Seq<char>, jv: Node) -> Result<Seq<Seq<char>>, LoadErrorView> {
    match spec_get(jv, "filters"@) {
        None => Ok(Seq::empty()),
        Some(fnode) => match fnode {
            Node::List(items) => if all_strings(items@) {
                Ok(filter_lines(items@))
            } else {
                Err(LoadErrorView::MalformedValue { job: name, field: "filters"@ })
            },
            _ => Err(LoadErrorView::MalformedValue { job: name, field: "filters"@ }),
        },
    }
}

/// The per-job filter file: a file named after the job under the
/// caller-supplied temporary directory.
pub open spec fn filter_path_spec(tmp_dir: Seq<char>, name: Seq<char>) -> Seq<char> {
    tmp_dir + "/"@ + name
}

/// The outcome of loading one named job entry.
#[derive(Debug, PartialEq, Eq)]
pub enum EntryStep {
    /// Probe this path first.
    Probe(String),
    /// Loading fails with this error.
    Fail(LoadError),
    /// The job, and the filesystem actions it asks for, in order.
    Built(Job, Vec<FsAction>),
}

/// Spec-level mirror of [`EntryStep`].
#[verifier::ext_equal]
pub enum EntryOutcome {
    Probe(Seq<char>),
    Fail(LoadErrorView),
    Built(JobView, Seq<FsActionView>),
}

impl View for EntryStep {
    type V = EntryOutcome;

    open spec fn view(&self) -> EntryOutcome {
        match self {
            EntryStep::Probe(p) => EntryOutcome::Probe(p@),
            EntryStep::Fail(e) => EntryOutcome::Fail(e@),
            EntryStep::Built(job, acts) => EntryOutcome::Built(job@, actions_view(acts@)),
        }
    }
}

/// Loading one named job entry: `source` and `dest` are required and
/// resolved without file creation; `options` is a required string,
/// split on spaces; `log_path` is optional, resolved with file creation
/// allowed, and kept only when local; the filter file is named after
/// the job and written (possibly empty) in any case.
pub open spec fn load_entry(
    name: Seq<char>,
    jv: Node,
    platform: Platform,
    tmp_dir: Seq<char>,
    facts: Seq<(String, bool)>,
) -> EntryOutcome {
    match required_path_spec(name, jv, "source"@, platform, facts) {
        FieldOutcome::Probe(p) => EntryOutcome::Probe(p),
        FieldOutcome::Fail(e) => EntryOutcome::Fail(e),
        FieldOutcome::Got(source) => match required_path_spec(name, jv, "dest"@, platform, facts) {
            FieldOutcome::Probe(p) => EntryOutcome::Probe(p),
            FieldOutcome::Fail(e) => EntryOutcome::Fail(e),
            FieldOutcome::Got(destination) => match spec_get(jv, "options"@) {
                None => EntryOutcome::Fail(
                    LoadErrorView::MissingField { job: name, field: "options"@ },
                ),
                Some(onode) => match onode {
                    Node::Str(os) => match log_path_spec(name, jv, platform, facts) {
                        LogOutcome::Probe(p) => EntryOutcome::Probe(p),
                        LogOutcome::Fail(e) => EntryOutcome::Fail(e),
                        LogOutcome::Got(log_path, log_actions) => match filters_spec(name, jv) {
                            Err(e) => EntryOutcome::Fail(e),
                            Ok(lines) => EntryOutcome::Built(
                                JobView {
                                    source,
                                    destination,
                                    options: split_spec(os@),
                                    log_path,
                                    filters: lines,
                                    tmp_filter_file: filter_path_spec(tmp_dir, name),
                                },
                                log_actions + seq![
                                    FsActionView::WriteFilters(
                                        filter_path_spec(tmp_dir, name),
                                        lines,
                                    ),
                                ],
                            ),
                        },
                    },
                    _ => EntryOutcome::Fail(
                        LoadErrorView::MalformedValue { job: name, field: "options"@ },
                    ),
                },
            },
        },
    }
}

/// Copies a vector of strings.
fn clone_strings(v: &Vec<String>) -> (r: Vec<String>)
    ensures
        r@ == v@,
{
    let mut r: Vec<String> = Vec::new();
    let n = v.len();
    for i in 0..n
        invariant
            n == v@.len(),
            r@ == v@.take(i as int),
    {
        r.push(v[i].clone());
        proof {
            assert(v@.take(i as int).push(v@[i as int]) =~= v@.take(i + 1));
        }
    }
    proof {
        assert(v@.take(n as int) =~= v@);
    }
    r
}

/// Loads one named job entry as far as the answered existence questions
/// allow.
pub fn load_job(
    name: &str,
    jv: &Node,
    platform: Platform,
    tmp_dir: &str,
    facts: &FsFacts,
) -> (r: EntryStep)
    ensures
        r@ == load_entry(name@, *jv, platform, tmp_dir@, facts@),
{
    let source = match required_path(name, jv, "source", platform, facts) {
        FieldStep::Probe(p) => { return EntryStep::Probe(p); },
        FieldStep::Fail(e) => { return EntryStep::Fail(e); },
        FieldStep::Got(s) => s,
    };
    let destination = match required_path(name, jv, "dest", platform, facts) {
        FieldStep::Probe(p) => { return EntryStep::Probe(p); },
        FieldStep::Fail(e) => { return EntryStep::Fail(e); },
        FieldStep::Got(s) => s,
    };
    let options = match jv.get("options") {
        None => {
            return EntryStep::Fail(
                LoadError::MissingField { job: name.to_owned(), field: "options".to_owned() },
            );
        },
        Some(onode) => match onode.as_str() {
            None => {
                return EntryStep::Fail(
                    LoadError::MalformedValue { job: name.to_owned(), field: "options".to_owned() },
                );
            },
            Some(os) => split_options(os.as_str()),
        },
    };
    let mut actions: Vec<FsAction> = Vec::new();
    let log_path = match jv.get("log_path") {
        None => None,
        Some(ln) => match extract_path_field(ln, platform, true, facts) {
            Err(e) => { return EntryStep::Fail(field_error(name, "log_path", e)); },
            Ok(ResolveStep::NeedProbe(p)) => { return EntryStep::Probe(p); },
            Ok(ResolveStep::Resolved(PathType::Local(lp), create)) => {
                if create {
                    actions.push(FsAction::CreateEmpty(lp.clone()));
                    proof {
                        assert(actions_view(actions@) =~= seq![
                            FsActionView::CreateEmpty(lp@),
                        ]);
                    }
                }
                Some(lp)
            },
            Ok(ResolveStep::Resolved(PathType::Remote(_), _)) => None,
        },
    };
    proof {
        if actions@.len() == 0 {
            assert(actions_view(actions@) =~= Seq::<FsActionView>::empty());
        }
    }
    let lines = match jv.get("filters") {
        None => {
            let v: Vec<String> = Vec::new();
            proof {
                assert(v.deep_view() =~= Seq::<Seq<char>>::empty());
            }
            v
        },
        Some(fnode) => match fnode {
            Node::List(items) => {
                let mut lines: Vec<String> = Vec::new();
                let m = items.len();
                for k in 0..m
                    invariant
                        m == items@.len(),
                        lines@.len() == k,
                        forall|t: int| 0 <= t < k ==> items@[t] is Str,
                        forall|t: int| 0 <= t < k ==> lines@[t]@ == items@[t]->Str_0@,
                        !all_strings(items@) ==> load_entry(
                            name@,
                            *jv,
                            platform,
                            tmp_dir@,
                            facts@,
                        ) == EntryOutcome::Fail(
                            LoadErrorView::MalformedValue { job: name@, field: "filters"@ },
                        ),
                {
                    match items[k].as_str() {
                        Some(s) => { lines.push(s.clone()); },
                        None => {
                            proof {
                                assert(!all_strings(items@)) by {
                                    assert(!(items@[k as int] is Str));
                                }
                            }
                            return EntryStep::Fail(
                                LoadError::MalformedValue {
                                    job: name.to_owned(),
                                    field: "filters".to_owned(),
                                },
                            );
                        },
                    }
                }
                proof {
                    assert(lines.deep_view() =~= filter_lines(items@));
                }
                lines
            },
            _ => {
                return EntryStep::Fail(
                    LoadError::MalformedValue { job: name.to_owned(), field: "filters".to_owned() },
                );
            },
        },
    };
    let fpath = String::from_str(tmp_dir).concat("/").concat(name);
    let job = Job {
        source,
        destination,
        options,
        log_path,
        filters: clone_strings(&lines),
        tmp_filter_file: fpath.clone(),
    };
    let ghost prev_actions = actions_view(actions@);
    actions.push(FsAction::WriteFilters(fpath, lines));
    proof {
        assert(actions_view(actions@) =~= prev_actions + seq![
            FsActionView::WriteFilters(job@.tmp_filter_file, job@.filters),
        ]);
    }
    EntryStep::Built(job, actions)
}

/// Prepends already-loaded jobs and actions to the outcome of loading
/// the remaining entries.
pub open spec fn loaded_prefix(
    jobs: Seq<JobView>,
    actions: Seq<FsActionView>,
    rest: Result<LoadStepView, LoadErrorView>,
) -> Result<LoadStepView, LoadErrorView> {
    match rest {
        Ok(LoadStepView::Loaded(js, acts)) => Ok(
            LoadStepView::Loaded(jobs + js, actions + acts),
        ),
        Ok(LoadStepView::NeedProbe(p)) => Ok(LoadStepView::NeedProbe(p)),
        Err(e) => Err(e),
    }
}

proof fn lemma_loaded_prefix_empty(rest: Result<LoadStepView, LoadErrorView>)
    ensures
        loaded_prefix(Seq::empty(), Seq::empty(), rest) == rest,
{
    match rest {
        Ok(LoadStepView::Loaded(js, acts)) => {
            assert(Seq::<JobView>::empty() + js =~= js);
            assert(Seq::<FsActionView>::empty() + acts =~= acts);
        },
        _ => {},
    }
}

proof fn lemma_loaded_prefix_assoc(
    j1: Seq<JobView>,
    a1: Seq<FsActionView>,
    j2: Seq<JobView>,
    a2: Seq<FsActionView>,
    rest: Result<LoadStepView, LoadErrorView>,
)
    ensures
        loaded_prefix(j1, a1, loaded_prefix(j2, a2, rest)) == loaded_prefix(j1 + j2, a1 + a2, rest),
{
    match rest {
        Ok(LoadStepView::Loaded(js, acts)) => {
            assert(j1 + (j2 + js) =~= (j1 + j2) + js);
            assert(a1 + (a2 + acts) =~= (a1 + a2) + acts);
        },
        _ => {},
    }
}

/// Loading the document's entries in order: the first failure aborts the
/// whole load; the first unanswered existence question surfaces as
/// `NeedProbe`; otherwise every entry becomes a job, and the requested
/// filesystem actions are collected in entry order. An entry whose key
/// is not a string makes the document malformed.
pub open spec fn entries_spec(
    pairs: Seq<(Node, Node)>,
    platform: Platform,
    tmp_dir: Seq<char>,
    facts: Seq<(String, bool)>,
) -> Result<LoadStepView, LoadErrorView>
    decreases pairs.len(),
{
    if pairs.len() == 0 {
        Ok(LoadStepView::Loaded(Seq::empty(), Seq::empty()))
    } else {
        match pairs[0].0 {
            Node::Str(name) => match load_entry(name@, pairs[0].1, platform, tmp_dir, facts) {
                EntryOutcome::Probe(p) => Ok(LoadStepView::NeedProbe(p)),
                EntryOutcome::Fail(e) => Err(e),
                EntryOutcome::Built(job, acts) => loaded_prefix(
                    seq![job],
                    acts,
                    entries_spec(pairs.drop_first(), platform, tmp_dir, facts),
                ),
            },
            _ => Err(LoadErrorView::MalformedValue { job: Seq::empty(), field: Seq::empty() }),
        }
    }
}

/// Loading a whole document: its root must be a mapping of named jobs.
pub open spec fn jobs_spec(
    doc: Node,
    platform: Platform,
    tmp_dir: Seq<char>,
    facts: Seq<(String, bool)>,
) -> Result<LoadStepView, LoadErrorView> {
    match doc {
        Node::Mapping(pairs) => entries_spec(pairs@, platform, tmp_dir, facts),
        _ => Err(LoadErrorView::MalformedValue { job: Seq::empty(), field: Seq::empty() }),
    }
}

/// Loads the job list from a parsed document as far as the answered
/// existence questions allow. On `Ok(LoadStep::Loaded(jobs, actions))`
/// the caller performs the actions in order — creating the missing log
/// files and writing the filter files — before handing the jobs on.
pub fn get_jobs(doc: &Node, platform: Platform, tmp_dir: &str, facts: &FsFacts) -> (r: Result<
    LoadStep,
    LoadError,
>)
    ensures
        load_view(r) == jobs_spec(*doc, platform, tmp_dir@, facts@),
{
    let pairs = match doc {
        Node::Mapping(pairs) => pairs,
        _ => {
            return Err(LoadError::MalformedValue { job: String::new(), field: String::new() });
        },
    };
    let n = pairs.len();
    let mut jobs: Vec<Job> = Vec::new();
    let mut actions: Vec<FsAction> = Vec::new();
    proof {
        assert(pairs@.skip(0) =~= pairs@);
        lemma_loaded_prefix_empty(entries_spec(pairs@, platform, tmp_dir@, facts@));
        assert(jobs_view(jobs@) =~= Seq::<JobView>::empty());
        assert(actions_view(actions@) =~= Seq::<FsActionView>::empty());
    }
    for i in 0..n
        invariant
            n == pairs@.len(),
            jobs_spec(*doc, platform, tmp_dir@, facts@) == loaded_prefix(
                jobs_view(jobs@),
                actions_view(actions@),
                entries_spec(pairs@.skip(i as int), platform, tmp_dir@, facts@),
            ),
    {
        proof {
            assert(pairs@.skip(i as int)[0] == pairs@[i as int]);
            assert(pairs@.skip(i as int).drop_first() =~= pairs@.skip(i + 1));
        }
        let name = match &pairs[i].0 {
            Node::Str(name) => name,
            _ => {
                return Err(
                    LoadError::MalformedValue { job: String::new(), field: String::new() },
                );
            },
        };
        match load_job(name.as_str(), &pairs[i].1, platform, tmp_dir, facts) {
            EntryStep::Probe(p) => {
                return Ok(LoadStep::NeedProbe(p));
            },
            EntryStep::Fail(e) => {
                return Err(e);
            },
            EntryStep::Built(job, mut acts) => {
                let ghost prev_jobs = jobs_view(jobs@);
                let ghost prev_actions = actions_view(actions@);
                let ghost new_job = job@;
                let ghost new_actions = actions_view(acts@);
                proof {
                    lemma_loaded_prefix_assoc(
                        prev_jobs,
                        prev_actions,
                        seq![new_job],
                        new_actions,
                        entries_spec(pairs@.skip(i + 1), platform, tmp_dir@, facts@),
                    );
                }
                jobs.push(job);
                actions.append(&mut acts);
                proof {
                    assert(jobs_view(jobs@) =~= prev_jobs + seq![new_job]);
                    assert(actions_view(actions@) =~= prev_actions + new_actions);
                }
            },
        }
    }
    proof {
        assert(pairs@.skip(n as int) =~= Seq::<(Node, Node)>::empty());
        assert(jobs_view(jobs@) + Seq::<JobView>::empty() =~= jobs_view(jobs@));
        assert(actions_view(actions@) + Seq::<FsActionView>::empty() =~= actions_view(actions@));
    }
    Ok(LoadStep::Loaded(jobs, actions))
}

/// A job entry with no `source` key fails with `MissingField` naming the
/// job and the field.
pub proof fn lemma_missing_source_fails(
    name: Seq<char>,
    jv: Node,
    platform: Platform,
    tmp_dir: Seq<char>,
    facts: Seq<(String, bool)>,
)
    requires
        spec_get(jv, "source"@) is None,
    ensures
        load_entry(name, jv, platform, tmp_dir, facts) == EntryOutcome::Fail(
            LoadErrorView::MissingField { job: name, field: "source"@ },
        ),
{
}

/// A job entry whose `source` resolves but which has no `dest` key fails
/// with `MissingField` naming the job and the field.
pub proof fn lemma_missing_dest_fails(
    name: Seq<char>,
    jv: Node,
    platform: Platform,
    tmp_dir: Seq<char>,
    facts: Seq<(String, bool)>,
)
    requires
        required_path_spec(name, jv, "source"@, platform, facts) is Got,
        spec_get(jv, "dest"@) is None,
    ensures
        load_entry(name, jv, platform, tmp_dir, facts) == EntryOutcome::Fail(
            LoadErrorView::MissingField { job: name, field: "dest"@ },
        ),
{
}

/// When the first `k` entries of a document load cleanly and entry `k`
/// fails, the whole load fails with that entry's error.
pub proof fn lemma_first_failing_entry(
    pairs: Seq<(Node, Node)>,
    k: int,
    platform: Platform,
    tmp_dir: Seq<char>,
    facts: Seq<(String, bool)>,
)
    requires
        0 <= k < pairs.len(),
        entries_spec(pairs.take(k), platform, tmp_dir, facts) matches Ok(
            LoadStepView::Loaded(_, _),
        ),
        pairs[k].0 is Str,
    ensures
        load_entry(pairs[k].0->Str_0@, pairs[k].1, platform, tmp_dir, facts) matches
            EntryOutcome::Fail(e) ==> entries_spec(pairs, platform, tmp_dir, facts) == Err::<
            LoadStepView,
            LoadErrorView,
        >(e),
    decreases k,
{
    if k == 0 {
    } else {
        let head = pairs.take(k)[0];
        assert(head == pairs[0]);
        let tail = pairs.drop_first();
        assert(pairs.take(k).drop_first() =~= tail.take(k - 1));
        assert(tail[k - 1] == pairs[k]);
        lemma_first_failing_entry(tail, k - 1, platform, tmp_dir, facts);
    }
}

/// For all documents missing `source` or `dest` on some job (every
/// earlier entry loading cleanly, and for `dest` the job's `source`
/// resolving), loading fails with `MissingField` naming that job and
/// that field.
pub proof fn lemma_doc_missing_required_field(
    pairs: Seq<(Node, Node)>,
    k: int,
    field: Seq<char>,
    platform: Platform,
    tmp_dir: Seq<char>,
    facts: Seq<(String, bool)>,
)
    requires
        0 <= k < pairs.len(),
        entries_spec(pairs.take(k), platform, tmp_dir, facts) matches Ok(
            LoadStepView::Loaded(_, _),
        ),
        pairs[k].0 is Str,
        spec_get(pairs[k].1, field) is None,
        field == "source"@ || (field == "dest"@ && required_path_spec(
            pairs[k].0->Str_0@,
            pairs[k].1,
            "source"@,
            platform,
            facts,
        ) is Got),
    ensures
        entries_spec(pairs, platform, tmp_dir, facts) == Err::<LoadStepView, LoadErrorView>(
            LoadErrorView::MissingField { job: pairs[k].0->Str_0@, field },
        ),
{
    let name = pairs[k].0->Str_0@;
    if field == "source"@ {
        lemma_missing_source_fails(name, pairs[k].1, platform, tmp_dir, facts);
    } else {
        lemma_missing_dest_fails(name, pairs[k].1, platform, tmp_dir, facts);
    }
    lemma_first_failing_entry(pairs, k, platform, tmp_dir, facts);
}

/// A `log_path` field that resolves to a remote identifier is silently
/// discarded: the job the entry builds carries no log path, so no log
/// header will be written and no log-file flag will be assembled.
pub proof fn lemma_remote_log_path_discarded(
    name: Seq<char>,
    jv: Node,
    platform: Platform,
    tmp_dir: Seq<char>,
    facts: Seq<(String, bool)>,
)
    requires
        spec_get(jv, "log_path"@) matches Some(ln) && resolve_spec(ln, platform, true, facts)
            matches Ok(ResolveStepView::Resolved(PathTypeView::Remote(_), _)),
    ensures
        load_entry(name, jv, platform, tmp_dir, facts) matches EntryOutcome::Built(job, _)
            ==> job.log_path is None,
{
}

/// A job an entry builds never carries an empty options token.
pub proof fn lemma_built_job_options_nonempty(
    name: Seq<char>,
    jv: Node,
    platform: Platform,
    tmp_dir: Seq<char>,
    facts: Seq<(String, bool)>,
)
    ensures
        load_entry(name, jv, platform, tmp_dir, facts) matches EntryOutcome::Built(job, _)
            ==> forall|t: int|
            0 <= t < job.options.len() ==> #[trigger] job.options[t].len() > 0,
{
    match spec_get(jv, "options"@) {
        Some(Node::Str(os)) => lemma_split_no_empty_token(os@),
        _ => (),
    }
}

/// Splits a whitespace-delimited options string into its tokens,
/// dropping empty ones.
pub fn split_options(s: &str) -> (r: Vec<String>)
    ensures
        r.deep_view() == split_spec(s@),
{
    let n = s.unicode_len();
    let mut out: Vec<String> = Vec::new();
    let mut i: usize = 0;
    while i < n
        invariant
            n == s@.len(),
            i <= n,
            split_spec(s@) == out.deep_view() + split_from(s@, i as int, Seq::empty()),
        decreases n - i,
    {
        if s.get_char(i) == ' ' {
            proof {
                assert(Seq::<Seq<char>>::empty() + split_from(s@, i + 1, Seq::<char>::empty())
                    =~= split_from(s@, i + 1, Seq::<char>::empty()));
            }
            i = i + 1;
        } else {
            let start = i;
            proof {
                assert(Seq::<char>::empty().push(s@[start as int]) =~= s@.subrange(
                    start as int,
                    start + 1,
                ));
            }
            i = i + 1;
            while i < n && s.get_char(i) != ' '
                invariant
                    n == s@.len(),
                    start < i <= n,
                    split_from(s@, start as int, Seq::empty()) == split_from(
                        s@,
                        i as int,
                        s@.subrange(start as int, i as int),
                    ),
                decreases n - i,
            {
                proof {
                    assert(s@.subrange(start as int, i as int).push(s@[i as int]) =~= s@.subrange(
                        start as int,
                        i + 1,
                    ));
                }
                i = i + 1;
            }
            let token = s.substring_char(start, i).to_owned();
            let ghost cur = s@.subrange(start as int, i as int);
            let ghost prev = out.deep_view();
            out.push(token);
            let next_i: usize = if i < n {
                i + 1
            } else {
                i
            };
            proof {
                assert(out.deep_view() =~= prev.push(cur));
                if i < n {
                    assert(split_from(s@, i as int, cur) == seq![cur] + split_from(
                        s@,
                        next_i as int,
                        Seq::<char>::empty(),
                    ));
                } else {
                    assert(split_from(s@, i as int, cur) =~= seq![cur] + split_from(
                        s@,
                        next_i as int,
                        Seq::<char>::empty(),
                    ));
                }
                assert(prev + (seq![cur] + split_from(s@, next_i as int, Seq::<char>::empty()))
                    =~= prev.push(cur) + split_from(s@, next_i as int, Seq::<char>::empty()));
            }
            i = next_i;
        }
    }
    proof {
        assert(split_from(s@, n as int, Seq::<char>::empty()) =~= Seq::<Seq<char>>::empty());
        assert(out.deep_view() + Seq::<Seq<char>>::empty() =~= out.deep_view());
    }
    out
}

} // verus!
