//! Projects: the directories that hold session files, and how a working
//! directory is turned into the name of its project directory.

use vstd::prelude::*;
use crate::claude_logs::order::{
    lemma_newest_first_of_views, newest_first, sort_newest_first, Stamp, Stamped,
};
use crate::text::{begins_with, replace_char, replaced, starts_with};

verus! {

/// A point in time: seconds since the Unix epoch, and the nanoseconds into
/// that second.
#[derive(Clone, Copy, Debug, PartialEq, Eq, Structural)]
pub struct Timestamp {
    pub secs: i64,
    pub nanos: u32,
}

/// What is listed of one project.
#[derive(Debug)]
pub struct ProjectInfo {
    pub name: String,
    pub path: String,
    pub session_count: usize,
    pub last_updated: Option<String>,
}

/// Mathematical form of a [`ProjectInfo`].
pub struct ProjectInfoView {
    pub name: Seq<char>,
    pub path: Seq<char>,
    pub session_count: usize,
    pub last_updated: Option<Seq<char>>,
}

impl DeepView for ProjectInfo {
    type V = ProjectInfoView;

    open spec fn deep_view(&self) -> ProjectInfoView {
        ProjectInfoView {
            name: self.name@,
            path: self.path@,
            session_count: self.session_count,
            last_updated: self.last_updated.deep_view(),
        }
    }
}

impl Stamp for ProjectInfo {
    open spec fn stamp(&self) -> Option<Seq<char>> {
        self.last_updated.deep_view()
    }
}

impl Stamp for ProjectInfoView {
    open spec fn stamp(&self) -> Option<Seq<char>> {
        self.last_updated
    }
}

impl Stamped for ProjectInfo {
    fn stamp_ref(&self) -> (s: &Option<String>) {
        &self.last_updated
    }
}

/// One project directory as the host found it: for each session file in it
/// the time it was last modified, where that could be read.
#[derive(Debug)]
pub struct ProjectDir {
    pub dir_name: String,
    pub path: String,
    pub sessions: Vec<Option<Timestamp>>,
}

/// Mathematical form of a [`ProjectDir`].
pub struct ProjectDirView {
    pub dir_name: Seq<char>,
    pub path: Seq<char>,
    pub sessions: Seq<Option<Timestamp>>,
}

impl DeepView for ProjectDir {
    type V = ProjectDirView;

    open spec fn deep_view(&self) -> ProjectDirView {
        ProjectDirView { dir_name: self.dir_name@, path: self.path@, sessions: self.sessions@ }
    }
}

/// Whether `a` is earlier than `b`.
pub open spec fn earlier(a: Timestamp, b: Timestamp) -> bool {
    a.secs < b.secs || (a.secs == b.secs && a.nanos < b.nanos)
}

/// The latest of the known times among `times`, if any is known.
pub open spec fn newest_of(times: Seq<Option<Timestamp>>) -> Option<Timestamp>
    decreases times.len(),
{
    if times.len() == 0 {
        None
    } else {
        let before = newest_of(times.drop_last());
        match times.last() {
            Some(t) => if before is None || earlier(before->0, t) {
                Some(t)
            } else {
                before
            },
            None => before,
        }
    }
}

/// The latest time is one of the known times, and none of them is later; it
/// is missing only where no time is known.
pub proof fn law_newest_is_latest(times: Seq<Option<Timestamp>>)
    ensures
        newest_of(times) is None <==> forall|i: int| 0 <= i < times.len() ==> times[i] is None,
        newest_of(times) matches Some(t) ==> {
            &&& exists|i: int| 0 <= i < times.len() && times[i] == Some(t)
            &&& forall|i: int| 0 <= i < times.len() && times[i] is Some ==> !earlier(t, times[i]->0)
        },
    decreases times.len(),
{
    if times.len() > 0 {
        let before = times.drop_last();
        law_newest_is_latest(before);
        let last = times.len() - 1;
        assert forall|i: int| 0 <= i < before.len() implies before[i] == times[i] by {}
        match newest_of(times) {
            Some(t) => {
                if newest_of(before) == Some(t) {
                    let k = choose|k: int| 0 <= k < before.len() && before[k] == Some(t);
                    assert(times[k] == Some(t));
                } else {
                    assert(times[last] == Some(t));
                }
                assert forall|i: int| 0 <= i < times.len() && times[i] is Some implies !earlier(
                    t,
                    times[i]->0,
                ) by {
                    if i < last {
                        assert(before[i] == times[i]);
                    }
                }
            },
            None => {
                assert forall|i: int| 0 <= i < times.len() implies times[i] is None by {
                    if i < last {
                        assert(before[i] == times[i]);
                    }
                }
            },
        }
        if forall|i: int| 0 <= i < times.len() ==> times[i] is None {
            assert(times[last] is None);
            assert forall|i: int| 0 <= i < before.len() implies before[i] is None by {
                assert(times[i] is None);
            }
        }
    }
}

/// Finds the latest of the known times.
pub fn newest(times: &Vec<Option<Timestamp>>) -> (latest: Option<Timestamp>)
    ensures
        latest == newest_of(times@),
{
    let mut latest: Option<Timestamp> = None;
    for i in 0..times.len()
        invariant
            latest == newest_of(times@.take(i as int)),
    {
        proof {
            assert(times@.take(i + 1).drop_last() == times@.take(i as int));
        }
        match times[i] {
            Some(t) => {
                let replace = match latest {
                    None => true,
                    Some(l) => l.secs < t.secs || (l.secs == t.secs && l.nanos < t.nanos),
                };
                if replace {
                    latest = Some(t);
                }
            },
            None => {},
        }
    }
    proof {
        assert(times@.take(times.len() as int) == times@);
    }
    latest
}

/// The text of a point in time as RFC 3339 writes it, in UTC; none for a time
/// beyond the years that can be written.
pub uninterp spec fn rfc3339_text(secs: i64, nanos: u32) -> Option<Seq<char>>;

/// `chrono::DateTime::from_timestamp`, and `to_rfc3339` on the time it made:
/// the point in time as text, where the calendar reaches that far. The text
/// depends on the seconds and nanoseconds alone.
#[verifier::external_body]
fn rfc3339(secs: i64, nanos: u32) -> (text: Option<String>)
    ensures
        text.deep_view() == rfc3339_text(secs, nanos),
{
    match chrono::DateTime::from_timestamp(secs, nanos) {
        Some(time) => Some(time.to_rfc3339()),
        None => None,
    }
}

/// The name of a project: the name of its directory with every `-` turned
/// into `/`.
pub open spec fn project_name(dir_name: Seq<char>) -> Seq<char> {
    replaced(dir_name, '-', seq!['/'])
}

/// What is listed of a directory with session files, `last_updated` being
/// what was written for the latest of their times.
pub open spec fn project_of(dir: ProjectDirView, last_updated: Option<Seq<char>>) -> Option<
    ProjectInfoView,
> {
    if dir.sessions.len() == 0 {
        None
    } else {
        Some(
            ProjectInfoView {
                name: project_name(dir.dir_name),
                path: dir.path,
                session_count: dir.sessions.len() as usize,
                last_updated,
            },
        )
    }
}

/// What is written for the latest time.
pub open spec fn written(latest: Option<Timestamp>) -> Option<Seq<char>> {
    match latest {
        Some(t) => rfc3339_text(t.secs, t.nanos),
        None => None,
    }
}

/// What is listed of a directory: its name decoded, its sessions counted, and
/// the latest of their known times written out. A directory without session
/// files is not listed.
pub open spec fn info_of(dir: ProjectDirView) -> Option<ProjectInfoView> {
    project_of(dir, written(newest_of(dir.sessions)))
}

/// What is listed of `dirs`, in their order.
pub open spec fn infos_of(dirs: Seq<ProjectDirView>) -> Seq<ProjectInfoView>
    decreases dirs.len(),
{
    if dirs.len() == 0 {
        Seq::empty()
    } else {
        let before = infos_of(dirs.drop_last());
        match info_of(dirs.last()) {
            Some(info) => before.push(info),
            None => before,
        }
    }
}

/// Describes a directory, given what was written for the latest of its times.
pub fn describe_with(dir: &ProjectDir, last_updated: Option<String>) -> (info: Option<ProjectInfo>)
    ensures
        info.deep_view() == project_of(dir.deep_view(), last_updated.deep_view()),
{
    if dir.sessions.len() == 0 {
        return None;
    }
    proof {
        reveal_strlit("/");
        assert("/"@ =~= seq!['/']);
    }
    Some(
        ProjectInfo {
            name: replace_char(dir.dir_name.as_str(), '-', "/"),
            path: dir.path.clone(),
            session_count: dir.sessions.len(),
            last_updated,
        },
    )
}

/// What is listed of one project directory; nothing for a directory without
/// session files.
pub fn describe_project(dir: &ProjectDir) -> (info: Option<ProjectInfo>)
    ensures
        info.deep_view() == info_of(dir.deep_view()),
{
    let last_updated = match newest(&dir.sessions) {
        Some(t) => rfc3339(t.secs, t.nanos),
        None => None,
    };
    describe_with(dir, last_updated)
}

/// Lists the projects: one item for each directory that holds session files,
/// the one updated last first.
pub fn list_projects(dirs: &Vec<ProjectDir>) -> (projects: Vec<ProjectInfo>)
    ensures
        projects.deep_view() == newest_first(infos_of(dirs.deep_view())),
{
    let mut found: Vec<ProjectInfo> = Vec::new();
    let ghost views = dirs.deep_view();
    for i in 0..dirs.len()
        invariant
            views == dirs.deep_view(),
            found.deep_view() == infos_of(views.take(i as int)),
    {
        proof {
            assert(views.take(i + 1).drop_last() == views.take(i as int));
            assert(views.take(i + 1).last() == dirs[i as int].deep_view());
        }
        match describe_project(&dirs[i]) {
            Some(info) => {
                let ghost before = found.deep_view();
                found.push(info);
                proof {
                    assert(found.deep_view() =~= before.push(info.deep_view()));
                }
            },
            None => {},
        }
    }
    proof {
        assert(views.take(dirs.len() as int) == views);
        lemma_newest_first_of_views(found@);
        assert(found@.map_values(|s: ProjectInfo| s.deep_view()) =~= found.deep_view());
    }
    let projects = sort_newest_first(found);
    proof {
        assert(projects@.map_values(|s: ProjectInfo| s.deep_view()) =~= projects.deep_view());
    }
    projects
}

/// The name of the project directory of a working directory: the path with
/// every `/` and every `.` turned into `-`.
pub open spec fn encoded_dir_name(cwd: Seq<char>) -> Seq<char> {
    replaced(replaced(cwd, '/', seq!['-']), '.', seq!['-'])
}

/// Turns a working directory into the name of its project directory.
pub fn encode_dir_name(cwd: &str) -> (name: String)
    ensures
        name@ == encoded_dir_name(cwd@),
{
    proof {
        reveal_strlit("-");
        assert("-"@ =~= seq!['-']);
    }
    let slashes = replace_char(cwd, '/', "-");
    replace_char(slashes.as_str(), '.', "-")
}

/// Where the sessions of a working directory are looked for.
#[derive(Debug)]
pub enum ProjectDirChoice {
    /// The path is a project directory already; it is taken as it is.
    AsGiven,
    /// The directory of this name under the root of all projects.
    Named(String),
}

/// Decides where the sessions of `cwd` are looked for, `projects_root` being
/// the directory that holds all project directories: a path that begins with
/// the root is a project directory itself, any other is encoded.
pub fn choose_project_dir(cwd: &str, projects_root: &str) -> (choice: ProjectDirChoice)
    ensures
        starts_with(cwd@, projects_root@) ==> choice is AsGiven,
        !starts_with(cwd@, projects_root@) ==> choice is Named && choice->Named_0@
            == encoded_dir_name(cwd@),
{
    if begins_with(cwd, projects_root) {
        ProjectDirChoice::AsGiven
    } else {
        ProjectDirChoice::Named(encode_dir_name(cwd))
    }
}

} // verus!
