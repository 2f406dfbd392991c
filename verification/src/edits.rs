//! The files that the agent has edited.

use crate::text;
use crate::thread_view::ThreadView;
use vstd::prelude::*;
use vstd::string::*;

verus! {

/// An edited buffer. A buffer without a file has no path.
pub struct EditedBuffer {
    /// The parts of the path in the project.
    pub path: Option<Vec<String>>,
    /// The path with that of the project.
    pub full_path: String,
    pub separator: String,
    /// The icon for the file.
    pub icon: Option<String>,
    pub lines_added: u32,
    pub lines_removed: u32,
}

/// The row of an edited file.
pub struct EditedFileRow {
    /// The place of the row, counting buffers without a file.
    pub index: usize,
    /// The place of the buffer among the edited ones.
    pub buffer: usize,
    /// The icon of the file; a plain one where there is none.
    pub icon: Option<String>,
    pub file_name: Option<String>,
    /// The path of the directory, with a separator behind it.
    pub directory: Option<String>,
    pub full_path: String,
    pub lines_added: u32,
    pub lines_removed: u32,
    pub has_bottom_border: bool,
    /// Whether the buttons that reject and keep the edits are disabled.
    pub is_disabled: bool,
}

/// The heading above the edited files.
pub struct EditsSummary {
    pub is_expanded: bool,
    pub label: String,
    /// The lines added and removed in all, once the edits are complete.
    pub stats: Option<(u32, u32)>,
    pub is_disabled: bool,
    /// Why the buttons that reject and keep all edits are disabled.
    pub disabled_tooltip: Option<&'static str>,
}

/// Whether a path comes before another, part by part.
pub open spec fn path_precedes(a: Seq<Seq<char>>, b: Seq<Seq<char>>) -> bool
    decreases a.len(),
{
    if b.len() == 0 {
        false
    } else if a.len() == 0 {
        true
    } else {
        text::precedes(a[0], b[0]) || (a[0] == b[0] && path_precedes(a.skip(1), b.skip(1)))
    }
}

/// The parts of the path of a buffer.
pub open spec fn parts(buffer: EditedBuffer) -> Option<Seq<Seq<char>>> {
    match buffer.path {
        Some(path) => Some(text::views(path@)),
        None => None,
    }
}

/// Whether a buffer comes before another: buffers without a file first, then by path.
pub open spec fn buffer_precedes(a: EditedBuffer, b: EditedBuffer) -> bool {
    match (parts(a), parts(b)) {
        (None, None) => false,
        (None, Some(_)) => true,
        (Some(_), None) => false,
        (Some(a), Some(b)) => path_precedes(a, b),
    }
}

proof fn lemma_path_order_is_strict(a: Seq<Seq<char>>, b: Seq<Seq<char>>, c: Seq<Seq<char>>)
    ensures
        !path_precedes(a, a),
        path_precedes(a, b) && path_precedes(b, c) ==> path_precedes(a, c),
    decreases a.len() + b.len() + c.len(),
{
    if a.len() > 0 {
        if b.len() > 0 && c.len() > 0 {
            text::dictionary_order_is_strict(a[0], b[0], c[0]);
            lemma_path_order_is_strict(a.skip(1), b.skip(1), c.skip(1));
        } else {
            text::dictionary_order_is_strict(a[0], a[0], a[0]);
            lemma_path_order_is_strict(a.skip(1), seq![], seq![]);
        }
    }
}

proof fn lemma_buffer_order_is_strict(a: EditedBuffer, b: EditedBuffer, c: EditedBuffer)
    ensures
        !buffer_precedes(a, a),
        buffer_precedes(a, b) && buffer_precedes(b, c) ==> buffer_precedes(a, c),
{
    let empty = Seq::<Seq<char>>::empty();
    let path_a = match parts(a) {
        Some(p) => p,
        None => empty,
    };
    let path_b = match parts(b) {
        Some(p) => p,
        None => empty,
    };
    let path_c = match parts(c) {
        Some(p) => p,
        None => empty,
    };
    lemma_path_order_is_strict(path_a, path_b, path_c);
}

fn path_comes_before(a: &Vec<String>, b: &Vec<String>) -> (r: bool)
    ensures
        r == path_precedes(text::views(a@), text::views(b@)),
{
    let ghost left = text::views(a@);
    let ghost right = text::views(b@);
    let mut i: usize = 0;
    assert(left.skip(0) =~= left);
    assert(right.skip(0) =~= right);
    while i < a.len() && i < b.len()
        invariant
            left == text::views(a@),
            right == text::views(b@),
            i <= a@.len(),
            i <= b@.len(),
            path_precedes(left, right) == path_precedes(left.skip(i as int), right.skip(i as int)),
        decreases a@.len() - i,
    {
        assert(left.skip(i as int)[0] == a@[i as int]@);
        assert(right.skip(i as int)[0] == b@[i as int]@);
        assert(left.skip(i as int).skip(1) =~= left.skip(i + 1));
        assert(right.skip(i as int).skip(1) =~= right.skip(i + 1));
        if !text::same_text(a[i].as_str(), b[i].as_str()) {
            return text::comes_before(a[i].as_str(), b[i].as_str());
        }
        proof {
            text::dictionary_order_is_strict(left[i as int], left[i as int], left[i as int]);
        }
        i = i + 1;
    }
    i < b.len()
}

fn buffer_comes_before(a: &EditedBuffer, b: &EditedBuffer) -> (r: bool)
    ensures
        r == buffer_precedes(*a, *b),
{
    match (&a.path, &b.path) {
        (None, None) => false,
        (None, Some(_)) => true,
        (Some(_), None) => false,
        (Some(left), Some(right)) => path_comes_before(left, right),
    }
}

/// Whether these are the places of all buffers, sorted by path; where two paths are the same,
/// the buffer that came first stays first.
pub open spec fn is_sorted_order(order: Seq<usize>, buffers: Seq<EditedBuffer>) -> bool {
    &&& order.len() == buffers.len()
    &&& order.no_duplicates()
    &&& forall|i: int| 0 <= i < order.len() ==> (#[trigger] order[i]) < buffers.len()
    &&& forall|b: usize| b < buffers.len() ==> #[trigger] order.contains(b)
    &&& forall|i: int, j: int|
        #![trigger order[i], order[j]]
        0 <= i < j < order.len() ==> {
            &&& !buffer_precedes(buffers[order[j] as int], buffers[order[i] as int])
            &&& !buffer_precedes(buffers[order[i] as int], buffers[order[j] as int]) ==> order[i]
                < order[j]
        }
}

proof fn lemma_insert_keeps_order(
    order: Seq<usize>,
    buffers: Seq<EditedBuffer>,
    n: int,
    place: int,
)
    requires
        0 <= n < buffers.len() <= usize::MAX,
        is_sorted_order(order, buffers.take(n)),
        0 <= place <= order.len(),
        forall|i: int|
            0 <= i < place ==> !buffer_precedes(buffers[n], buffers[#[trigger] order[i] as int]),
        place < order.len() ==> buffer_precedes(buffers[n], buffers[order[place] as int]),
    ensures
        is_sorted_order(order.insert(place, n as usize), buffers.take(n + 1)),
{
    let before = buffers.take(n);
    let after = buffers.take(n + 1);
    let result = order.insert(place, n as usize);
    assert forall|i: int, j: int| 0 <= i < j < result.len() implies result[i] != result[j] by {
        if i != place && j != place {
            let a = if i < place {
                i
            } else {
                i - 1
            };
            let b = if j < place {
                j
            } else {
                j - 1
            };
            assert(result[i] == order[a]);
            assert(result[j] == order[b]);
        } else if i == place {
            assert(result[j] == order[j - 1]);
        } else {
            assert(result[i] == order[i]);
        }
    }
    assert(result.no_duplicates());
    assert forall|i: int| 0 <= i < result.len() implies (#[trigger] result[i]) < after.len() by {
        if i < place {
            assert(result[i] == order[i]);
        } else if i > place {
            assert(result[i] == order[i - 1]);
        }
    }
    assert forall|b: usize| b < after.len() implies #[trigger] result.contains(b) by {
        if b == n {
            assert(result[place] == b);
        } else {
            assert(order.contains(b));
            let i = choose|i: int| 0 <= i < order.len() && order[i] == b;
            assert(result[if i < place {
                i
            } else {
                i + 1
            }] == b);
        }
    }
    assert forall|i: int, j: int|
        #![trigger result[i], result[j]]
        0 <= i < j < result.len() implies {
        &&& !buffer_precedes(after[result[j] as int], after[result[i] as int])
        &&& !buffer_precedes(after[result[i] as int], after[result[j] as int]) ==> result[i]
            < result[j]
    } by {
        if i != place && j != place {
            let a = if i < place {
                i
            } else {
                i - 1
            };
            let b = if j < place {
                j
            } else {
                j - 1
            };
            assert(result[i] == order[a]);
            assert(result[j] == order[b]);
            assert(before[order[a] as int] == after[order[a] as int]);
            assert(before[order[b] as int] == after[order[b] as int]);
        } else if j == place {
            assert(result[i] == order[i]);
            assert(before[order[i] as int] == after[order[i] as int]);
        } else {
            // The new buffer comes before the one at its place, and so before all behind it.
            let b = j - 1;
            assert(result[j] == order[b]);
            assert(before[order[b] as int] == after[order[b] as int]);
            assert(before[order[place] as int] == after[order[place] as int]);
            let new = buffers[n];
            let at_place = buffers[order[place] as int];
            let behind = buffers[order[b] as int];
            lemma_buffer_order_is_strict(behind, new, at_place);
            lemma_buffer_order_is_strict(new, behind, new);
            if b > place {
                assert(!buffer_precedes(behind, at_place));
                if !buffer_precedes(new, behind) {
                    lemma_buffers_without_order_are_alike(new, behind, at_place);
                }
            }
        }
    }
}

proof fn lemma_paths_without_order_are_alike(a: Seq<Seq<char>>, b: Seq<Seq<char>>)
    requires
        !path_precedes(a, b),
        !path_precedes(b, a),
    ensures
        a == b,
    decreases a.len(),
{
    if a.len() > 0 && b.len() > 0 {
        if a[0] != b[0] {
            text::dictionary_order_is_total(a[0], b[0]);
        }
        lemma_paths_without_order_are_alike(a.skip(1), b.skip(1));
        assert(a =~= seq![a[0]] + a.skip(1));
        assert(b =~= seq![b[0]] + b.skip(1));
    } else {
        assert(a =~= b);
    }
}

proof fn lemma_buffers_without_order_are_alike(a: EditedBuffer, b: EditedBuffer, c: EditedBuffer)
    requires
        !buffer_precedes(a, b),
        !buffer_precedes(b, a),
    ensures
        buffer_precedes(a, c) == buffer_precedes(b, c),
{
    match (parts(a), parts(b)) {
        (Some(left), Some(right)) => {
            lemma_paths_without_order_are_alike(left, right);
        },
        _ => {},
    }
}

/// The places of the buffers, sorted by path.
pub fn sorted_buffers(buffers: &Vec<EditedBuffer>) -> (order: Vec<usize>)
    ensures
        is_sorted_order(order@, buffers@),
{
    let total = buffers.len();
    let mut order: Vec<usize> = Vec::new();
    let mut n: usize = 0;
    while n < total
        invariant
            n <= total == buffers@.len(),
            is_sorted_order(order@, buffers@.take(n as int)),
        decreases buffers@.len() - n,
    {
        let mut place: usize = 0;
        while place < order.len() && !buffer_comes_before(&buffers[n], &buffers[order[place]])
            invariant
                n < total == buffers@.len(),
                is_sorted_order(order@, buffers@.take(n as int)),
                place <= order@.len(),
                forall|i: int|
                    0 <= i < place ==> !buffer_precedes(
                        buffers@[n as int],
                        buffers@[#[trigger] order@[i] as int],
                    ),
            decreases order@.len() - place,
        {
            place = place + 1;
        }
        proof {
            lemma_insert_keeps_order(order@, buffers@, n as int, place as int);
        }
        order.insert(place, n);
        n = n + 1;
    }
    assert(buffers@.take(n as int) == buffers@);
    order
}

proof fn lemma_orders_agree(
    first: Seq<usize>,
    second: Seq<usize>,
    buffers: Seq<EditedBuffer>,
    n: int,
)
    requires
        is_sorted_order(first, buffers),
        is_sorted_order(second, buffers),
        0 <= n <= buffers.len(),
    ensures
        first.take(n) == second.take(n),
    decreases n,
{
    if n > 0 {
        let k = n - 1;
        lemma_orders_agree(first, second, buffers, k);
        assert forall|i: int| 0 <= i < k implies first[i] == second[i] by {
            assert(first.take(k)[i] == second.take(k)[i]);
        }
        if first[k] != second[k] {
            assert(second.contains(first[k]));
            assert(first.contains(second[k]));
            let i = choose|i: int| 0 <= i < second.len() && second[i] == first[k];
            let j = choose|j: int| 0 <= j < first.len() && first[j] == second[k];
            if i < k {
                assert(first[i] == first[k]);
            }
            if j < k {
                assert(second[j] == second[k]);
            }
            assert(i > k && j > k);
            assert(first[k] < first[j] || buffer_precedes(
                buffers[first[k] as int],
                buffers[first[j] as int],
            ));
            assert(second[k] < second[i] || buffer_precedes(
                buffers[second[k] as int],
                buffers[second[i] as int],
            ));
            assert(false);
        }
        assert(first.take(n) =~= first.take(k).push(first[k]));
        assert(second.take(n) =~= second.take(k).push(second[k]));
    }
}

/// Edited buffers can be sorted in one way only.
pub proof fn sorting_has_one_result(
    first: Seq<usize>,
    second: Seq<usize>,
    buffers: Seq<EditedBuffer>,
)
    requires
        is_sorted_order(first, buffers),
        is_sorted_order(second, buffers),
    ensures
        first == second,
{
    lemma_orders_agree(first, second, buffers, buffers.len() as int);
    assert(first.take(buffers.len() as int) =~= first);
    assert(second.take(buffers.len() as int) =~= second);
}

/// The full path of a file without a name in its project, which stands for the name.
pub open spec fn nameless_full_path(path: Seq<Seq<char>>, full_path: Seq<char>) -> Option<Seq<char>> {
    if path.len() > 0 || full_path.len() == 0 {
        None
    } else {
        Some(full_path)
    }
}

/// The full path of a file without a name in its project, which stands for the name.
pub fn full_path_for_empty_project_path(path: &Vec<String>, full_path: &str) -> (r: Option<String>)
    ensures
        text::optional_view(r) == nameless_full_path(text::views(path@), full_path@),
{
    if path.len() > 0 {
        return None;
    }
    if full_path.is_empty() {
        None
    } else {
        Some(full_path.to_owned())
    }
}

/// What the row of an edited file shows.
pub open spec fn file_row_shows(
    row: EditedFileRow,
    buffer: EditedBuffer,
    path: Seq<Seq<char>>,
    index: int,
    order: Seq<usize>,
    pending_edits: bool,
) -> bool {
    let fallback = nameless_full_path(path, buffer.full_path@);
    &&& row.index == index
    &&& row.buffer == order[index]
    &&& text::optional_view(row.icon) == text::optional_view(buffer.icon)
    &&& text::optional_view(row.file_name) == (if path.len() > 0 {
        Some(path.last())
    } else {
        fallback
    })
    &&& text::optional_view(row.directory) == (if path.len() > 1 {
        Some(text::joined(path.drop_last(), buffer.separator@) + buffer.separator@)
    } else {
        None
    })
    &&& row.full_path@ == (match fallback {
        Some(full_path) => full_path,
        None => text::joined(path, buffer.separator@),
    })
    &&& row.lines_added == buffer.lines_added
    &&& row.lines_removed == buffer.lines_removed
    &&& row.has_bottom_border == (index < order.len() - 1)
    &&& row.is_disabled == pending_edits
}

/// The places in the order whose buffers have a file.
pub open spec fn places_with_files(order: Seq<usize>, buffers: Seq<EditedBuffer>) -> Seq<int>
    decreases order.len(),
{
    if order.len() == 0 {
        seq![]
    } else {
        let before = places_with_files(order.drop_last(), buffers);
        if parts(buffers[order.last() as int]) is Some {
            before.push(order.len() - 1)
        } else {
            before
        }
    }
}

/// What the row of the buffer at `place` in the order shows.
pub open spec fn row_at_shows(
    row: EditedFileRow,
    order: Seq<usize>,
    buffers: Seq<EditedBuffer>,
    place: int,
    pending_edits: bool,
) -> bool {
    let buffer = buffers[order[place] as int];
    match parts(buffer) {
        Some(path) => file_row_shows(row, buffer, path, place, order, pending_edits),
        None => false,
    }
}

/// What the rows of the edited files show.
pub open spec fn file_rows_show(
    rows: Seq<EditedFileRow>,
    order: Seq<usize>,
    buffers: Seq<EditedBuffer>,
    pending_edits: bool,
) -> bool {
    let places = places_with_files(order, buffers);
    &&& rows.len() == places.len()
    &&& forall|i: int|
        #![trigger rows[i]]
        0 <= i < rows.len() ==> row_at_shows(rows[i], order, buffers, places[i], pending_edits)
}

fn parent_of(path: &Vec<String>) -> (r: Vec<String>)
    requires
        path@.len() > 0,
    ensures
        text::views(r@) == text::views(path@).drop_last(),
{
    let mut parent: Vec<String> = Vec::new();
    let mut i: usize = 0;
    while i < path.len() - 1
        invariant
            i < path@.len(),
            parent@.len() == i,
            forall|j: int| 0 <= j < i ==> (#[trigger] parent@[j])@ == path@[j]@,
        decreases path@.len() - i,
    {
        parent.push(path[i].clone());
        i = i + 1;
    }
    assert(text::views(parent@) =~= text::views(path@).drop_last());
    parent
}

fn render_edited_file(
    buffer: &EditedBuffer,
    path: &Vec<String>,
    index: usize,
    order: &Vec<usize>,
    pending_edits: bool,
) -> (r: EditedFileRow)
    requires
        index < order@.len(),
    ensures
        file_row_shows(r, *buffer, text::views(path@), index as int, order@, pending_edits),
{
    let separator = buffer.separator.as_str();
    let fallback = full_path_for_empty_project_path(path, buffer.full_path.as_str());
    let directory = if path.len() > 1 {
        let parent = parent_of(path);
        Some(text::concat2(text::join(&parent, separator).as_str(), separator))
    } else {
        None
    };
    let file_name = if path.len() > 0 {
        Some(path[path.len() - 1].clone())
    } else {
        text::copy_option(&fallback)
    };
    let full_path = match fallback {
        Some(full_path) => full_path,
        None => text::join(path, separator),
    };
    EditedFileRow {
        index,
        buffer: order[index],
        icon: text::copy_option(&buffer.icon),
        file_name,
        directory,
        full_path,
        lines_added: buffer.lines_added,
        lines_removed: buffer.lines_removed,
        has_bottom_border: index < order.len() - 1,
        is_disabled: pending_edits,
    }
}

/// The rows of the edited files, sorted by path. Buffers without a file have no row.
pub fn render_edited_files(buffers: &Vec<EditedBuffer>, pending_edits: bool) -> (r: (
    Vec<usize>,
    Vec<EditedFileRow>,
))
    ensures
        is_sorted_order(r.0@, buffers@),
        file_rows_show(r.1@, r.0@, buffers@, pending_edits),
{
    let order = sorted_buffers(buffers);
    let mut rows: Vec<EditedFileRow> = Vec::new();
    let mut i: usize = 0;
    while i < order.len()
        invariant
            i <= order@.len(),
            is_sorted_order(order@, buffers@),
            rows@.len() == places_with_files(order@.take(i as int), buffers@).len(),
            forall|j: int|
                #![trigger rows@[j]]
                0 <= j < rows@.len() ==> row_at_shows(
                    rows@[j],
                    order@,
                    buffers@,
                    places_with_files(order@.take(i as int), buffers@)[j],
                    pending_edits,
                ),
        decreases order@.len() - i,
    {
        assert(order@.take(i + 1).drop_last() == order@.take(i as int));
        assert(order@.take(i + 1).last() == order@[i as int]);
        let buffer = &buffers[order[i]];
        if let Some(path) = &buffer.path {
            rows.push(render_edited_file(buffer, path, i, &order, pending_edits));
        }
        i = i + 1;
    }
    assert(order@.take(i as int) == order@);
    (order, rows)
}

/// The word for files.
pub open spec fn files_word(count: nat) -> Seq<char> {
    if count == 1 {
        "file"@
    } else {
        "files"@
    }
}

/// What the heading above the edited files shows.
pub open spec fn edits_summary_shows(
    summary: EditsSummary,
    count: nat,
    expanded: bool,
    pending_edits: bool,
    stats: (u32, u32),
) -> bool {
    &&& summary.is_expanded == expanded
    &&& summary.label@ == (if pending_edits {
        "Editing "@ + text::decimal(count) + " "@ + files_word(count) + "…"@
    } else {
        text::decimal(count) + " "@ + files_word(count)
    })
    &&& summary.stats == (if pending_edits {
        None
    } else {
        Some(stats)
    })
    &&& summary.is_disabled == pending_edits
    &&& text::reference_view(summary.disabled_tooltip) == (if pending_edits {
        Some("Wait until file edits are complete."@)
    } else {
        None
    })
}

/// The heading above the edited files. `stats` are the lines added and removed in all.
pub fn render_edits_summary(
    count: usize,
    expanded: bool,
    pending_edits: bool,
    stats: (u32, u32),
) -> (r: EditsSummary)
    ensures
        edits_summary_shows(r, count as nat, expanded, pending_edits, stats),
{
    let word = if count == 1 {
        "file"
    } else {
        "files"
    };
    let mut label = if pending_edits {
        text::with_count("Editing ", count)
    } else {
        text::count(count)
    };
    label.append(" ");
    label.append(word);
    if pending_edits {
        label.append("…");
    }
    let disabled_tooltip: Option<&'static str> = if pending_edits {
        Some("Wait until file edits are complete.")
    } else {
        None
    };
    EditsSummary {
        is_expanded: expanded,
        label,
        stats: if pending_edits {
            None
        } else {
            Some(stats)
        },
        is_disabled: pending_edits,
        disabled_tooltip,
    }
}

impl ThreadView {
    /// Shows or hides the edited files.
    pub fn toggle_edits_expanded(&mut self)
        ensures
            *final(self) == (ThreadView {
                edits_expanded: !old(self).edits_expanded,
                ..*old(self)
            }),
    {
        self.edits_expanded = !self.edits_expanded;
    }

    /// The pointer has come to the buttons of a file, or has left them. Leaving the buttons of
    /// another file changes nothing.
    pub fn hover_edited_file_buttons(&mut self, index: usize, is_hovered: bool)
        ensures
            *final(self) == (ThreadView {
                hovered_edited_file_buttons: if is_hovered {
                    Some(index)
                } else if old(self).hovered_edited_file_buttons == Some(index) {
                    None
                } else {
                    old(self).hovered_edited_file_buttons
                },
                ..*old(self)
            }),
    {
        let is_same = match self.hovered_edited_file_buttons {
            Some(hovered) => hovered == index,
            None => false,
        };
        if is_hovered {
            self.hovered_edited_file_buttons = Some(index);
        } else if is_same {
            self.hovered_edited_file_buttons = None;
        }
    }

    /// Whether a note that offers to undo is shown after all edits were rejected.
    /// That takes a file that was changed, and a workspace to show the note in.
    pub fn reject_all(&self, changed_buffers: usize, has_workspace: bool) -> (offers_undo: bool)
        ensures
            offers_undo == (changed_buffers > 0 && has_workspace),
    {
        changed_buffers > 0 && has_workspace
    }
}

/// Files are sorted by their paths part by part: the first part that differs decides, and a
/// directory comes before what is in it. Buffers without a file come first.
pub proof fn paths_are_sorted_part_by_part(
    start: Seq<Seq<char>>,
    x: Seq<char>,
    y: Seq<char>,
    a: Seq<Seq<char>>,
    b: Seq<Seq<char>>,
)
    requires
        text::precedes(x, y),
    ensures
        path_precedes(start + seq![x] + a, start + seq![y] + b),
        !path_precedes(start + seq![y] + b, start + seq![x] + a),
        a.len() > 0 ==> path_precedes(start, start + a),
        !path_precedes(start, start),
    decreases start.len(),
{
    let left = start + seq![x] + a;
    let right = start + seq![y] + b;
    text::dictionary_order_is_strict(x, y, x);
    lemma_path_order_is_strict(start, start, start);
    if start.len() > 0 {
        let rest = start.skip(1);
        text::dictionary_order_is_strict(start[0], start[0], start[0]);
        paths_are_sorted_part_by_part(rest, x, y, a, b);
        assert(left.skip(1) =~= rest + seq![x] + a);
        assert(right.skip(1) =~= rest + seq![y] + b);
        assert((start + a).skip(1) =~= rest + a);
    } else {
        assert(left[0] == x && right[0] == y);
    }
}

/// Buffers without a file come before the others, and two of them are not told apart; files are
/// told apart by their paths.
pub proof fn buffers_without_files_come_first(a: EditedBuffer, b: EditedBuffer)
    ensures
        a.path is None && b.path is Some ==> buffer_precedes(a, b) && !buffer_precedes(b, a),
        a.path is None && b.path is None ==> !buffer_precedes(a, b),
        a.path is Some && b.path is Some ==> buffer_precedes(a, b) == path_precedes(
            text::views(a.path->0@),
            text::views(b.path->0@),
        ),
        parts(a) is Some <==> a.path is Some,
        parts(a) is Some ==> parts(a)->0 == text::views(a.path->0@),
{
}

/// A sorted order names every buffer once, and no buffer comes before one that it should follow.
pub proof fn a_sorted_order_names_every_buffer(
    order: Seq<usize>,
    buffers: Seq<EditedBuffer>,
    i: int,
    j: int,
)
    requires
        is_sorted_order(order, buffers),
        0 <= i < j < order.len(),
    ensures
        order.len() == buffers.len(),
        order[i] != order[j],
        order[i] < buffers.len() && order[j] < buffers.len(),
        !buffer_precedes(buffers[order[j] as int], buffers[order[i] as int]),
        buffers[order[i] as int].path is Some ==> buffers[order[j] as int].path is Some,
        forall|b: usize| b < buffers.len() ==> #[trigger] order.contains(b),
{
}

/// The full path stands for the name of a file only where the file has none in its project.
pub proof fn nameless_files_go_by_their_full_path(path: Seq<Seq<char>>, full_path: Seq<char>)
    ensures
        path.len() > 0 ==> nameless_full_path(path, full_path) is None,
        path.len() == 0 && full_path.len() > 0 ==> nameless_full_path(path, full_path) == Some(
            full_path,
        ),
        path.len() == 0 && full_path.len() == 0 ==> nameless_full_path(path, full_path) is None,
{
}

/// The row of a file shows its name, its directory with a separator behind it, its whole path and
/// how much was edited. All rows but the last have a border.
pub proof fn rows_show_the_file_and_its_edits(
    row: EditedFileRow,
    order: Seq<usize>,
    buffers: Seq<EditedBuffer>,
    place: int,
    pending_edits: bool,
    name: Seq<char>,
    directory: Seq<Seq<char>>,
)
    requires
        0 <= place < order.len(),
        row_at_shows(row, order, buffers, place, pending_edits),
    ensures
        ({
            let buffer = buffers[order[place] as int];
            &&& buffer.path is Some
            &&& row.index == place
            &&& row.buffer == order[place]
            &&& row.lines_added == buffer.lines_added
            &&& row.lines_removed == buffer.lines_removed
            &&& row.has_bottom_border <==> place + 1 < order.len()
            &&& row.is_disabled == pending_edits
            &&& row.icon is Some <==> buffer.icon is Some
            &&& row.icon is Some ==> row.icon->0@ == buffer.icon->0@
            &&& text::views(buffer.path->0@) == directory.push(name) ==> {
                &&& row.file_name is Some && row.file_name->0@ == name
                &&& row.directory is Some <==> directory.len() > 0
                &&& row.directory is Some ==> row.directory->0@ == text::joined(
                    directory,
                    buffer.separator@,
                ) + buffer.separator@
                &&& row.full_path@ == text::joined(directory.push(name), buffer.separator@)
            }
            &&& buffer.path->0@.len() == 0 && buffer.full_path@.len() > 0 ==> row.full_path@
                == buffer.full_path@ && row.file_name is Some && row.file_name->0@
                == buffer.full_path@ && row.directory is None
        }),
{
    let buffer = buffers[order[place] as int];
    if text::views(buffer.path->0@) == directory.push(name) {
        assert(directory.push(name).drop_last() =~= directory);
        assert(directory.push(name).last() == name);
    }
}

/// The rows are for the buffers with a file, in the sorted order.
pub proof fn buffers_with_files_have_rows(
    first: Seq<usize>,
    place: usize,
    buffers: Seq<EditedBuffer>,
)
    requires
        place < buffers.len(),
    ensures
        buffers[place as int].path is Some ==> places_with_files(first.push(place), buffers)
            == places_with_files(first, buffers).push(first.len() as int),
        buffers[place as int].path is None ==> places_with_files(first.push(place), buffers)
            == places_with_files(first, buffers),
        places_with_files(Seq::empty(), buffers).len() == 0,
{
    assert(first.push(place).drop_last() =~= first);
}

/// There is a row for each buffer with a file, and it shows that buffer.
pub proof fn each_file_has_its_row(
    rows: Seq<EditedFileRow>,
    order: Seq<usize>,
    buffers: Seq<EditedBuffer>,
    pending_edits: bool,
    i: int,
)
    requires
        file_rows_show(rows, order, buffers, pending_edits),
        0 <= i < rows.len(),
    ensures
        rows.len() == places_with_files(order, buffers).len(),
        row_at_shows(
            rows[i],
            order,
            buffers,
            places_with_files(order, buffers)[i],
            pending_edits,
        ),
{
}

/// The heading counts the files, one of them by its own form. While edits are pending it says
/// so, shows no lines, and tells why nothing can be decided yet.
pub proof fn the_heading_counts_the_files(
    summary: EditsSummary,
    count: nat,
    expanded: bool,
    pending_edits: bool,
    stats: (u32, u32),
)
    requires
        edits_summary_shows(summary, count, expanded, pending_edits, stats),
    ensures
        summary.is_expanded == expanded,
        !pending_edits && count == 1 ==> summary.label@ == text::decimal(1) + " "@ + "file"@,
        !pending_edits && count != 1 ==> summary.label@ == text::decimal(count) + " "@ + "files"@,
        pending_edits && count == 1 ==> summary.label@ == "Editing "@ + text::decimal(1) + " "@
            + "file"@ + "…"@,
        pending_edits && count != 1 ==> summary.label@ == "Editing "@ + text::decimal(count) + " "@
            + "files"@ + "…"@,
        summary.stats is Some <==> !pending_edits,
        summary.stats is Some ==> summary.stats->0 == stats,
        summary.is_disabled <==> pending_edits,
        summary.disabled_tooltip is Some <==> pending_edits,
{
}

/// While the files are being edited their heading cannot be used, and says why.
pub proof fn headings_of_edits_wait(
    summary: EditsSummary,
    count: nat,
    expanded: bool,
    pending_edits: bool,
    stats: (u32, u32),
)
    requires
        edits_summary_shows(summary, count, expanded, pending_edits, stats),
    ensures
        summary.is_disabled <==> pending_edits,
        summary.disabled_tooltip is Some <==> pending_edits,
        summary.disabled_tooltip matches Some(words) ==> words@
            == "Wait until file edits are complete."@,
{
}

} // verus!
