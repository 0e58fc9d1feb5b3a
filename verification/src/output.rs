//! The files that a conversion asks its caller to write.

use vstd::prelude::*;

verus! {

/// A file to write: where, and what.
#[derive(Clone, Debug, PartialEq, Eq)]
pub struct OutputFile {
    pub path: String,
    pub content: String,
}

/// What an [`OutputFile`] stands for.
pub struct OutputFileView {
    pub path: Seq<char>,
    pub content: Seq<char>,
}

impl View for OutputFile {
    type V = OutputFileView;

    open spec fn view(&self) -> OutputFileView {
        OutputFileView { path: self.path@, content: self.content@ }
    }
}

impl DeepView for OutputFile {
    type V = OutputFileView;

    open spec fn deep_view(&self) -> OutputFileView {
        self@
    }
}

/// A destination as a map from paths to contents, after the files were
/// written to it one by one, a later file replacing an earlier one of the
/// same path.
pub open spec fn written(
    destination: Map<Seq<char>, Seq<char>>,
    files: Seq<OutputFileView>,
) -> Map<Seq<char>, Seq<char>>
    decreases files.len(),
{
    if files.len() == 0 {
        destination
    } else {
        written(destination, files.drop_last()).insert(files.last().path, files.last().content)
    }
}

/// The content that the last of the files of a path holds.
pub open spec fn last_content(files: Seq<OutputFileView>, path: Seq<char>) -> Seq<char>
    decreases files.len(),
{
    if files.len() == 0 {
        Seq::empty()
    } else if files.last().path == path {
        files.last().content
    } else {
        last_content(files.drop_last(), path)
    }
}

/// Whether one of the files has the path.
pub open spec fn has_path(files: Seq<OutputFileView>, path: Seq<char>) -> bool {
    exists|i: int| 0 <= i < files.len() && #[trigger] files[i].path == path
}

/// After files were written, a path that one of them has holds what the last
/// of them holds, and every other path holds what it held before.
pub proof fn lemma_written(
    destination: Map<Seq<char>, Seq<char>>,
    files: Seq<OutputFileView>,
    path: Seq<char>,
)
    ensures
        written(destination, files).contains_key(path) <==> destination.contains_key(path)
            || has_path(files, path),
        has_path(files, path) ==> written(destination, files)[path] == last_content(files, path),
        !has_path(files, path) ==> written(destination, files)[path] == destination[path],
    decreases files.len(),
{
    if files.len() > 0 {
        let earlier = files.drop_last();
        lemma_written(destination, earlier, path);
        if has_path(files, path) && files.last().path != path {
            let i = choose|i: int| 0 <= i < files.len() && #[trigger] files[i].path == path;
            assert(earlier[i].path == path);
        }
    }
}

} // verus!
