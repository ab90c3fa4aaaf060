//! From change notifications to a batch of paths: every path of every event
//! in the order of delivery, with adjacent repeats collapsed.

use vstd::prelude::*;

verus! {

/// A path as the processing strategies read it: its text, and its final
/// component where it has one.
#[derive(Debug, PartialEq, Eq)]
pub struct SourcePath {
    pub path: String,
    pub file_name: Option<String>,
}

/// What a `SourcePath` holds.
pub ghost struct PathView {
    pub path: Seq<char>,
    pub file_name: Option<Seq<char>>,
}

impl View for SourcePath {
    type V = PathView;

    open spec fn view(&self) -> PathView {
        PathView {
            path: self.path@,
            file_name: match self.file_name {
                Some(name) => Some(name@),
                None => None,
            },
        }
    }
}

impl DeepView for SourcePath {
    type V = PathView;

    open spec fn deep_view(&self) -> PathView {
        self@
    }
}

impl Clone for SourcePath {
    fn clone(&self) -> (copy: SourcePath)
        ensures
            copy@ == self@,
    {
        let file_name = match &self.file_name {
            Some(name) => Some(name.clone()),
            None => None,
        };
        SourcePath { path: self.path.clone(), file_name }
    }
}

/// `Path::file_name` of std on the path that a text spells, read as text: the
/// final component of the path, if it has one. What counts as a component
/// is the platform's affair, so nothing is stated of the result.
#[verifier::external_body]
pub(crate) fn file_name_of(path: &str) -> (name: Option<String>) {
    match std::path::Path::new(path).file_name() {
        Some(name) => Some(name.to_string_lossy().into_owned()),
        None => None,
    }
}

impl SourcePath {
    /// The path that a text spells, with the final component that the
    /// platform finds in it.
    pub fn from_path(path: &str) -> (p: SourcePath)
        ensures
            p@.path == path@,
    {
        SourcePath { path: path.to_owned(), file_name: file_name_of(path) }
    }

    /// A path with the given text and final component.
    pub fn new(path: &str, file_name: Option<&str>) -> (p: SourcePath)
        ensures
            p@.path == path@,
            p@.file_name == match file_name {
                Some(name) => Some(name@),
                None => None,
            },
    {
        let file_name = match file_name {
            Some(name) => Some(name.to_owned()),
            None => None,
        };
        SourcePath { path: path.to_owned(), file_name }
    }
}

/// One change notification: the paths it refers to, in its own order.
#[derive(Debug)]
pub struct FileEvent {
    pub paths: Vec<SourcePath>,
}

impl DeepView for FileEvent {
    type V = Seq<PathView>;

    open spec fn deep_view(&self) -> Seq<PathView> {
        self.paths.deep_view()
    }
}

/// The paths of all events, one event after the other.
pub open spec fn concat_paths(events: Seq<Seq<PathView>>) -> Seq<PathView>
    decreases events.len(),
{
    if events.len() == 0 {
        Seq::empty()
    } else {
        concat_paths(events.drop_last()) + events.last()
    }
}

/// A sequence of paths without its adjacent repeats: a path stays unless the
/// one just before it has the same text.
pub open spec fn dedup(paths: Seq<PathView>) -> Seq<PathView>
    decreases paths.len(),
{
    if paths.len() <= 1 {
        paths
    } else {
        let front = dedup(paths.drop_last());
        if paths[paths.len() - 2].path == paths.last().path {
            front
        } else {
            front.push(paths.last())
        }
    }
}

/// The batch that a delivery of events stands for.
pub open spec fn work_batch(events: Seq<Seq<PathView>>) -> Seq<PathView> {
    dedup(concat_paths(events))
}

/// Nothing is left of no paths, and what is left is never longer than what
/// went in.
pub proof fn lemma_dedup_len(paths: Seq<PathView>)
    ensures
        dedup(paths).len() <= paths.len(),
        paths.len() > 0 ==> dedup(paths).len() > 0,
    decreases paths.len(),
{
    if paths.len() > 1 {
        lemma_dedup_len(paths.drop_last());
    }
}

/// What is left ends as the input ends, text for text.
pub proof fn lemma_dedup_last(paths: Seq<PathView>)
    requires
        paths.len() > 0,
    ensures
        dedup(paths).len() > 0,
        dedup(paths).last().path == paths.last().path,
    decreases paths.len(),
{
    if paths.len() > 1 {
        lemma_dedup_last(paths.drop_last());
    }
}

/// No two neighbours of what is left have the same text.
pub proof fn lemma_dedup_no_adjacent_repeat(paths: Seq<PathView>, i: int)
    requires
        0 <= i,
        i + 1 < dedup(paths).len(),
    ensures
        dedup(paths)[i].path != dedup(paths)[i + 1].path,
    decreases paths.len(),
{
    if paths.len() > 1 {
        let front = dedup(paths.drop_last());
        lemma_dedup_len(paths.drop_last());
        if paths[paths.len() - 2].path == paths.last().path {
            lemma_dedup_no_adjacent_repeat(paths.drop_last(), i);
        } else if i + 1 < front.len() {
            lemma_dedup_no_adjacent_repeat(paths.drop_last(), i);
        } else {
            lemma_dedup_last(paths.drop_last());
        }
    }
}

/// A sequence in which no two neighbours have the same text is left as it
/// is: collapsing a second time changes nothing.
pub proof fn lemma_dedup_fixed(paths: Seq<PathView>)
    requires
        forall|i: int, j: int|
            0 <= i && j == i + 1 && j < paths.len() ==> #[trigger] paths[i].path
                != #[trigger] paths[j].path,
    ensures
        dedup(paths) == paths,
    decreases paths.len(),
{
    if paths.len() > 1 {
        let front = paths.drop_last();
        assert forall|i: int, j: int| 0 <= i && j == i + 1 && j < front.len() implies #[trigger] front[i].path
            != #[trigger] front[j].path by {
            assert(front[i] == paths[i]);
            assert(front[j] == paths[j]);
        }
        lemma_dedup_fixed(front);
        assert(paths[paths.len() - 2].path != paths[paths.len() - 1].path);
        assert(front.push(paths.last()) =~= paths);
    }
}

/// Collapsing what was collapsed changes nothing.
pub proof fn lemma_dedup_idempotent(paths: Seq<PathView>)
    ensures
        dedup(dedup(paths)) == dedup(paths),
{
    let kept = dedup(paths);
    assert forall|i: int, j: int| 0 <= i && j == i + 1 && j < kept.len() implies #[trigger] kept[i].path
        != #[trigger] kept[j].path by {
        lemma_dedup_no_adjacent_repeat(paths, i);
    }
    lemma_dedup_fixed(kept);
}

/// The paths of all events in the order of delivery.
pub fn collect_paths(events: &Vec<FileEvent>) -> (paths: Vec<SourcePath>)
    ensures
        paths.deep_view() == concat_paths(events.deep_view()),
{
    let mut paths: Vec<SourcePath> = Vec::new();
    let mut i: usize = 0;
    assert(events.deep_view().take(0) =~= Seq::<Seq<PathView>>::empty());
    assert(paths.deep_view() =~= concat_paths(events.deep_view().take(0)));
    while i < events.len()
        invariant
            i <= events.len(),
            paths.deep_view() == concat_paths(events.deep_view().take(i as int)),
        decreases events.len() - i,
    {
        let event = &events[i];
        let ghost before = paths.deep_view();
        let mut j: usize = 0;
        assert(paths.deep_view() =~= before + event.paths.deep_view().take(0));
        while j < event.paths.len()
            invariant
                j <= event.paths.len(),
                paths.deep_view() == before + event.paths.deep_view().take(j as int),
            decreases event.paths.len() - j,
        {
            let ghost old_view = paths.deep_view();
            paths.push(event.paths[j].clone());
            assert(paths.deep_view() =~= old_view.push(event.paths[j as int]@));
            assert(event.paths.deep_view().take(j + 1) =~= event.paths.deep_view().take(
                j as int,
            ).push(event.paths[j as int]@));
            j += 1;
        }
        proof {
            let all = events.deep_view();
            assert(event.paths.deep_view().take(j as int) =~= event.paths.deep_view());
            assert(all.take(i + 1).drop_last() =~= all.take(i as int));
            assert(all.take(i + 1).last() == event.deep_view());
        }
        i += 1;
    }
    assert(events.deep_view().take(i as int) =~= events.deep_view());
    paths
}

/// The paths without their adjacent repeats.
pub fn dedup_paths(paths: &Vec<SourcePath>) -> (kept: Vec<SourcePath>)
    ensures
        kept.deep_view() == dedup(paths.deep_view()),
{
    let mut kept: Vec<SourcePath> = Vec::new();
    let mut i: usize = 0;
    let ghost all = paths.deep_view();
    assert(kept.deep_view() =~= dedup(all.take(0)));
    while i < paths.len()
        invariant
            i <= paths.len(),
            all == paths.deep_view(),
            kept.deep_view() == dedup(all.take(i as int)),
        decreases paths.len() - i,
    {
        let ghost old_view = kept.deep_view();
        proof {
            assert(all.take(i + 1).drop_last() =~= all.take(i as int));
            assert(all.take(i + 1).last() == paths[i as int]@);
            if i > 0 {
                assert(all.take(i + 1)[i - 1] == paths[i - 1]@);
            }
        }
        if i == 0 || paths[i - 1].path != paths[i].path {
            kept.push(paths[i].clone());
            assert(kept.deep_view() =~= old_view.push(paths[i as int]@));
            assert(i == 0 ==> all.take(1) =~= old_view.push(paths[i as int]@));
        }
        i += 1;
    }
    assert(all.take(i as int) =~= all);
    kept
}

/// The batch of a delivery: every path of every event in the order of
/// delivery, adjacent repeats collapsed. No events give an empty batch.
pub fn flatten(events: &Vec<FileEvent>) -> (batch: Vec<SourcePath>)
    ensures
        batch.deep_view() == work_batch(events.deep_view()),
{
    let paths = collect_paths(events);
    dedup_paths(&paths)
}

} // verus!
