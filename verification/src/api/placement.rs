//! The files of a rich layout, and what stands in their place when they are
//! uploaded with the message.
use crate::api::media;
use crate::api::media::ResolvedFile;
use crate::content::{LayoutColumn, LayoutNode, Media, MediaGalleryItem, RichLayout, TableCell};
use crate::source;
use crate::source::{make_file_by_id, File, FileView};
use crate::telegram::Upload;
use crate::text;
use crate::text::{joined, u64_text};
use vstd::prelude::*;

verus! {

// ---------------------------------------------------------------------------
// The files of a layout
// ---------------------------------------------------------------------------

/// The files of media: its own, and its thumbnail.
pub open spec fn media_files(media: Media) -> Seq<File> {
    match media.thumbnail {
        Some(thumbnail) => seq![media.file, thumbnail],
        None => seq![media.file],
    }
}

/// The files of gallery items, in order.
pub open spec fn items_files(items: Seq<MediaGalleryItem>) -> Seq<File>
    decreases items.len(),
{
    if items.len() == 0 {
        Seq::empty()
    } else {
        items_files(items.drop_last()) + media_files(items.last().media)
    }
}

/// The files of columns, from the last one on.
pub open spec fn columns_files(columns: Seq<LayoutColumn>) -> Seq<File>
    decreases columns,
{
    if columns.len() == 0 {
        Seq::empty()
    } else {
        nodes_files(columns.last().nodes@) + columns_files(columns.drop_last())
    }
}

/// The files of list items, from the last one on.
pub open spec fn lists_files(lists: Seq<Vec<LayoutNode>>) -> Seq<File>
    decreases lists,
{
    if lists.len() == 0 {
        Seq::empty()
    } else {
        nodes_files(lists.last()@) + lists_files(lists.drop_last())
    }
}

/// The files of table cells, from the last one on.
pub open spec fn cells_files(cells: Seq<TableCell>) -> Seq<File>
    decreases cells,
{
    if cells.len() == 0 {
        Seq::empty()
    } else {
        nodes_files(cells.last().content@) + cells_files(cells.drop_last())
    }
}

/// The files of table rows, from the last one on.
pub open spec fn rows_files(rows: Seq<Vec<TableCell>>) -> Seq<File>
    decreases rows,
{
    if rows.len() == 0 {
        Seq::empty()
    } else {
        cells_files(rows.last()@) + rows_files(rows.drop_last())
    }
}

/// The files of a node.
pub open spec fn node_files(node: LayoutNode) -> Seq<File>
    decreases node,
{
    match node {
        LayoutNode::Section { children, accessory, .. } => match accessory {
            Some(inner) => node_files(*inner) + nodes_files(children@),
            None => nodes_files(children@),
        },
        LayoutNode::Container { children, .. } => nodes_files(children@),
        LayoutNode::Grid { children, .. } => nodes_files(children@),
        LayoutNode::Details { children, .. } => nodes_files(children@),
        LayoutNode::Columns(columns) => columns_files(columns@),
        LayoutNode::Image(media) => media_files(media),
        LayoutNode::File(media) => media_files(media),
        LayoutNode::MediaGallery(items) => items_files(items@),
        LayoutNode::List { items, .. } => lists_files(items@),
        LayoutNode::Table { rows } => rows_files(rows@),
        _ => Seq::empty(),
    }
}

/// The files of nodes, from the last node on.
pub open spec fn nodes_files(nodes: Seq<LayoutNode>) -> Seq<File>
    decreases nodes,
{
    if nodes.len() == 0 {
        Seq::empty()
    } else {
        node_files(nodes.last()) + nodes_files(nodes.drop_last())
    }
}

// ---------------------------------------------------------------------------
// What stands in their place
// ---------------------------------------------------------------------------

/// How many of the files have to be uploaded.
pub open spec fn uploads_among(files: Seq<ResolvedFile>) -> nat
    decreases files.len(),
{
    if files.len() == 0 {
        0
    } else {
        uploads_among(files.drop_last()) + if files.last() is Upload {
            1nat
        } else {
            0nat
        }
    }
}

/// The name under which the upload after `n` others goes.
pub open spec fn part_name(n: nat) -> Seq<char> {
    "rich_media_"@ + text::decimal(n as int)
}

/// How the layout refers to a file before which `n` others are uploaded.
pub open spec fn reference(file: ResolvedFile, n: nat) -> Seq<char> {
    match file {
        ResolvedFile::Remote(found) => found@,
        ResolvedFile::Upload(_) => "attach://"@ + part_name(n),
    }
}

/// What stands in the place of the files, one after the other.
pub open spec fn references(files: Seq<ResolvedFile>) -> Seq<FileView>
    decreases files.len(),
{
    if files.len() == 0 {
        Seq::empty()
    } else {
        references(files.drop_last()).push(
            source::file_by_id(reference(files.last(), uploads_among(files.drop_last()))),
        )
    }
}

/// The uploads under their names.
pub open spec fn parts(files: Seq<ResolvedFile>) -> Seq<(Seq<char>, Upload)>
    decreases files.len(),
{
    if files.len() == 0 {
        Seq::empty()
    } else {
        match files.last() {
            ResolvedFile::Remote(_) => parts(files.drop_last()),
            ResolvedFile::Upload(upload) => parts(files.drop_last()).push(
                (part_name(uploads_among(files.drop_last())), upload),
            ),
        }
    }
}

/// The same media but for its files.
pub open spec fn same_media(a: Media, b: Media) -> bool {
    &&& a.caption == b.caption
    &&& a.width == b.width
    &&& a.height == b.height
    &&& a.duration == b.duration
    &&& a.spoiler == b.spoiler
    &&& a.alt_text == b.alt_text
    &&& a.waveform == b.waveform
    &&& a.platform_data == b.platform_data
    &&& a.thumbnail is Some == b.thumbnail is Some
}

/// The same node but for the files in it.
pub open spec fn same_node(a: LayoutNode, b: LayoutNode) -> bool
    decreases a,
{
    match (a, b) {
        (
            LayoutNode::Section { children, accessory, style },
            LayoutNode::Section { children: others, accessory: other, style: other_style },
        ) => style == other_style && same_nodes(children@, others@) && match (accessory, other) {
            (Some(x), Some(y)) => same_node(*x, *y),
            (None, None) => true,
            _ => false,
        },
        (
            LayoutNode::Container { children, style },
            LayoutNode::Container { children: others, style: other_style },
        ) => style == other_style && same_nodes(children@, others@),
        (
            LayoutNode::Grid { columns, children },
            LayoutNode::Grid { columns: other_columns, children: others },
        ) => columns == other_columns && same_nodes(children@, others@),
        (
            LayoutNode::Details { summary, children, open },
            LayoutNode::Details { summary: other_summary, children: others, open: other_open },
        ) => summary == other_summary && open == other_open && same_nodes(children@, others@),
        (LayoutNode::Columns(columns), LayoutNode::Columns(others)) => same_columns(
            columns@,
            others@,
        ),
        (LayoutNode::Image(x), LayoutNode::Image(y)) => same_media(x, y),
        (LayoutNode::File(x), LayoutNode::File(y)) => same_media(x, y),
        (LayoutNode::MediaGallery(xs), LayoutNode::MediaGallery(ys)) => same_items(xs@, ys@),
        (
            LayoutNode::List { ordered, items },
            LayoutNode::List { ordered: other_ordered, items: others },
        ) => ordered == other_ordered && same_lists(items@, others@),
        (LayoutNode::Table { rows }, LayoutNode::Table { rows: others }) => same_rows(
            rows@,
            others@,
        ),
        _ => node_files(a).len() == 0 && a == b,
    }
}

/// The same nodes but for the files in them.
pub open spec fn same_nodes(a: Seq<LayoutNode>, b: Seq<LayoutNode>) -> bool
    decreases a,
{
    a.len() == b.len() && forall|i: int| 0 <= i < a.len() ==> same_node(#[trigger] a[i], b[i])
}

/// The same gallery items but for their files.
pub open spec fn same_items(a: Seq<MediaGalleryItem>, b: Seq<MediaGalleryItem>) -> bool {
    a.len() == b.len() && forall|i: int|
        0 <= i < a.len() ==> (#[trigger] a[i]).kind == b[i].kind && same_media(
            a[i].media,
            b[i].media,
        )
}

/// The same columns but for the files in them.
pub open spec fn same_columns(a: Seq<LayoutColumn>, b: Seq<LayoutColumn>) -> bool
    decreases a,
{
    a.len() == b.len() && forall|i: int|
        0 <= i < a.len() ==> (#[trigger] a[i]).width == b[i].width && same_nodes(
            a[i].nodes@,
            b[i].nodes@,
        )
}

/// The same list items but for the files in them.
pub open spec fn same_lists(a: Seq<Vec<LayoutNode>>, b: Seq<Vec<LayoutNode>>) -> bool
    decreases a,
{
    a.len() == b.len() && forall|i: int| 0 <= i < a.len() ==> same_nodes((#[trigger] a[i])@, b[i]@)
}

/// The same table cells but for the files in them.
pub open spec fn same_cells(a: Seq<TableCell>, b: Seq<TableCell>) -> bool
    decreases a,
{
    a.len() == b.len() && forall|i: int|
        0 <= i < a.len() ==> (#[trigger] a[i]).header == b[i].header && a[i].colspan
            == b[i].colspan && a[i].rowspan == b[i].rowspan && same_nodes(
            a[i].content@,
            b[i].content@,
        )
}

/// The same table rows but for the files in them.
pub open spec fn same_rows(a: Seq<Vec<TableCell>>, b: Seq<Vec<TableCell>>) -> bool
    decreases a,
{
    a.len() == b.len() && forall|i: int| 0 <= i < a.len() ==> same_cells((#[trigger] a[i])@, b[i]@)
}

// ---------------------------------------------------------------------------
// Finding the files
// ---------------------------------------------------------------------------

/// What is known of files.
pub open spec fn known(files: Seq<File>) -> Seq<FileView> {
    Seq::new(files.len(), |i: int| files[i]@)
}

/// References to files, by the files.
pub open spec fn pointed(files: Seq<&File>) -> Seq<File> {
    Seq::new(files.len(), |i: int| *files[i])
}

fn joined_lists<'a>(first: Vec<&'a File>, second: Vec<&'a File>) -> (list: Vec<&'a File>)
    ensures
        pointed(list@) == pointed(first@) + pointed(second@),
{
    let mut list = first;
    let mut second = second;
    let ghost a = pointed(list@);
    let ghost b = pointed(second@);
    list.append(&mut second);
    assert(pointed(list@) =~= a + b);
    list
}

fn no_files<'a>() -> (list: Vec<&'a File>)
    ensures
        pointed(list@) == Seq::<File>::empty(),
{
    let list: Vec<&'a File> = Vec::new();
    assert(pointed(list@) =~= Seq::<File>::empty());
    list
}

fn find_media<'a>(media: &'a Media) -> (list: Vec<&'a File>)
    ensures
        pointed(list@) == media_files(*media),
{
    let mut list: Vec<&'a File> = Vec::new();
    list.push(&media.file);
    if let Some(thumbnail) = &media.thumbnail {
        list.push(thumbnail);
    }
    assert(pointed(list@) =~= media_files(*media));
    list
}

fn find_items<'a>(items: &'a Vec<MediaGalleryItem>, n: usize) -> (list: Vec<&'a File>)
    requires
        n <= items@.len(),
    ensures
        pointed(list@) == items_files(items@.take(n as int)),
    decreases n,
{
    if n == 0 {
        return no_files();
    }
    assert(items@.take(n as int).drop_last() =~= items@.take(n - 1));
    let front = find_items(items, n - 1);
    joined_lists(front, find_media(&items[n - 1].media))
}

fn find_columns<'a>(columns: &'a Vec<LayoutColumn>, n: usize) -> (list: Vec<&'a File>)
    requires
        n <= columns@.len(),
    ensures
        pointed(list@) == columns_files(columns@.take(n as int)),
    decreases columns, n,
{
    if n == 0 {
        return no_files();
    }
    assert(columns@.take(n as int).drop_last() =~= columns@.take(n - 1));
    let nodes: &'a Vec<LayoutNode> = &columns[n - 1].nodes;
    assert(decreases_to!(columns => columns@[n - 1]));
    assert(nodes@.take(nodes@.len() as int) =~= nodes@);
    let last = find_nodes(nodes, nodes.len());
    joined_lists(last, find_columns(columns, n - 1))
}

fn find_lists<'a>(lists: &'a Vec<Vec<LayoutNode>>, n: usize) -> (list: Vec<&'a File>)
    requires
        n <= lists@.len(),
    ensures
        pointed(list@) == lists_files(lists@.take(n as int)),
    decreases lists, n,
{
    if n == 0 {
        return no_files();
    }
    assert(lists@.take(n as int).drop_last() =~= lists@.take(n - 1));
    let nodes: &'a Vec<LayoutNode> = &lists[n - 1];
    assert(decreases_to!(lists => lists@[n - 1]));
    assert(nodes@.take(nodes@.len() as int) =~= nodes@);
    let last = find_nodes(nodes, nodes.len());
    joined_lists(last, find_lists(lists, n - 1))
}

fn find_cells<'a>(cells: &'a Vec<TableCell>, n: usize) -> (list: Vec<&'a File>)
    requires
        n <= cells@.len(),
    ensures
        pointed(list@) == cells_files(cells@.take(n as int)),
    decreases cells, n,
{
    if n == 0 {
        return no_files();
    }
    assert(cells@.take(n as int).drop_last() =~= cells@.take(n - 1));
    let nodes: &'a Vec<LayoutNode> = &cells[n - 1].content;
    assert(decreases_to!(cells => cells@[n - 1]));
    assert(nodes@.take(nodes@.len() as int) =~= nodes@);
    let last = find_nodes(nodes, nodes.len());
    joined_lists(last, find_cells(cells, n - 1))
}

fn find_rows<'a>(rows: &'a Vec<Vec<TableCell>>, n: usize) -> (list: Vec<&'a File>)
    requires
        n <= rows@.len(),
    ensures
        pointed(list@) == rows_files(rows@.take(n as int)),
    decreases rows, n,
{
    if n == 0 {
        return no_files();
    }
    assert(rows@.take(n as int).drop_last() =~= rows@.take(n - 1));
    let cells: &'a Vec<TableCell> = &rows[n - 1];
    assert(decreases_to!(rows => rows@[n - 1]));
    assert(cells@.take(cells@.len() as int) =~= cells@);
    let last = find_cells(cells, cells.len());
    joined_lists(last, find_rows(rows, n - 1))
}

fn find_node<'a>(node: &'a LayoutNode) -> (list: Vec<&'a File>)
    ensures
        pointed(list@) == node_files(*node),
    decreases node, 0usize,
{
    match node {
        LayoutNode::Section { children, accessory, .. } => {
            assert(children@.take(children@.len() as int) =~= children@);
            match accessory {
                Some(inner) => {
                    let first = find_node(&**inner);
                    joined_lists(first, find_nodes(children, children.len()))
                },
                None => find_nodes(children, children.len()),
            }
        },
        LayoutNode::Container { children, .. } => {
            assert(children@.take(children@.len() as int) =~= children@);
            find_nodes(children, children.len())
        },
        LayoutNode::Grid { children, .. } => {
            assert(children@.take(children@.len() as int) =~= children@);
            find_nodes(children, children.len())
        },
        LayoutNode::Details { children, .. } => {
            assert(children@.take(children@.len() as int) =~= children@);
            find_nodes(children, children.len())
        },
        LayoutNode::Columns(columns) => {
            assert(columns@.take(columns@.len() as int) =~= columns@);
            find_columns(columns, columns.len())
        },
        LayoutNode::Image(media) => find_media(media),
        LayoutNode::File(media) => find_media(media),
        LayoutNode::MediaGallery(items) => {
            assert(items@.take(items@.len() as int) =~= items@);
            find_items(items, items.len())
        },
        LayoutNode::List { items, .. } => {
            assert(items@.take(items@.len() as int) =~= items@);
            find_lists(items, items.len())
        },
        LayoutNode::Table { rows } => {
            assert(rows@.take(rows@.len() as int) =~= rows@);
            find_rows(rows, rows.len())
        },
        _ => no_files(),
    }
}

fn find_nodes<'a>(nodes: &'a Vec<LayoutNode>, n: usize) -> (list: Vec<&'a File>)
    requires
        n <= nodes@.len(),
    ensures
        pointed(list@) == nodes_files(nodes@.take(n as int)),
    decreases nodes, n,
{
    if n == 0 {
        return no_files();
    }
    assert(nodes@.take(n as int).drop_last() =~= nodes@.take(n - 1));
    assert(decreases_to!(nodes => nodes@[n - 1]));
    let last = find_node(&nodes[n - 1]);
    joined_lists(last, find_nodes(nodes, n - 1))
}

/// Finds the files of a layout, in the order in which they are uploaded.
pub fn layout_files<'a>(layout: &'a RichLayout) -> (files: Vec<&'a File>)
    ensures
        pointed(files@) == nodes_files(layout.nodes@),
{
    assert(layout.nodes@.take(layout.nodes@.len() as int) =~= layout.nodes@);
    find_nodes(&layout.nodes, layout.nodes.len())
}

// ---------------------------------------------------------------------------
// Placing the files
// ---------------------------------------------------------------------------

/// The files that are still to be placed, the next one last, and the uploads
/// so far.
struct Placement {
    queue: Vec<ResolvedFile>,
    uploads: Vec<(String, Upload)>,
}

impl Placement {
    /// The first `p` of all the files are placed.
    spec fn at(&self, all: Seq<ResolvedFile>, p: int) -> bool {
        &&& 0 <= p <= all.len()
        &&& self.queue@ == all.skip(p).reverse()
        &&& media::named(self.uploads@) == parts(all.take(p))
        &&& self.uploads@.len() == uploads_among(all.take(p))
    }
}

proof fn lemma_references(all: Seq<ResolvedFile>)
    ensures
        references(all).len() == all.len(),
        forall|i: int|
            0 <= i < all.len() ==> #[trigger] references(all)[i] == source::file_by_id(
                reference(all[i], uploads_among(all.take(i))),
            ),
    decreases all.len(),
{
    if all.len() > 0 {
        let front = all.drop_last();
        lemma_references(front);
        assert forall|i: int| 0 <= i < all.len() implies #[trigger] references(all)[i]
            == source::file_by_id(reference(all[i], uploads_among(all.take(i)))) by {
            if i < front.len() {
                assert(references(front)[i] == references(all)[i]);
                assert(front.take(i) =~= all.take(i));
            } else {
                assert(all.take(i) =~= front);
            }
        }
    }
}

proof fn lemma_known_add(a: Seq<File>, b: Seq<File>)
    ensures
        known(a + b) == known(a) + known(b),
{
    assert(known(a + b) =~= known(a) + known(b));
}

fn place_file(
    state: &mut Placement,
    Ghost(all): Ghost<Seq<ResolvedFile>>,
    Ghost(p): Ghost<int>,
) -> (file: File)
    requires
        old(state).at(all, p),
        p < all.len(),
    ensures
        final(state).at(all, p + 1),
        file@ == references(all)[p],
{
    proof {
        lemma_references(all);
        assert(state.queue@.len() > 0);
        assert(state.queue@.last() == all[p]);
        assert(all.take(p + 1).drop_last() =~= all.take(p));
        assert(all.skip(p).reverse().drop_last() =~= all.skip(p + 1).reverse());
    }
    let ghost old_parts = media::named(state.uploads@);
    match state.queue.pop() {
        Some(ResolvedFile::Remote(found)) => make_file_by_id(found),
        Some(ResolvedFile::Upload(upload)) => {
            let number = u64_text(state.uploads.len() as u64);
            let name = joined("rich_media_", number.as_str());
            let found = joined("attach://", name.as_str());
            state.uploads.push((name, upload));
            assert(media::named(state.uploads@) =~= old_parts.push((name@, upload)));
            make_file_by_id(found)
        },
        None => make_file_by_id(String::new()),
    }
}

fn place_media(
    media: Media,
    state: &mut Placement,
    Ghost(all): Ghost<Seq<ResolvedFile>>,
    Ghost(p): Ghost<int>,
) -> (result: Media)
    requires
        old(state).at(all, p),
        p + media_files(media).len() <= all.len(),
    ensures
        final(state).at(all, p + media_files(media).len()),
        same_media(media, result),
        known(media_files(result)) == references(all).subrange(
            p,
            p + media_files(media).len() as int,
        ),
{
    proof {
        lemma_references(all);
    }
    let file = place_file(state, Ghost(all), Ghost(p));
    let thumbnail = match media.thumbnail {
        Some(_) => Some(place_file(state, Ghost(all), Ghost(p + 1))),
        None => None,
    };
    let result = Media {
        file,
        caption: media.caption,
        thumbnail,
        width: media.width,
        height: media.height,
        duration: media.duration,
        spoiler: media.spoiler,
        alt_text: media.alt_text,
        waveform: media.waveform,
        platform_data: media.platform_data,
    };
    assert(known(media_files(result)) =~= references(all).subrange(
        p,
        p + media_files(media).len() as int,
    ));
    result
}

fn place_items(
    list: Vec<MediaGalleryItem>,
    state: &mut Placement,
    Ghost(all): Ghost<Seq<ResolvedFile>>,
    Ghost(p): Ghost<int>,
) -> (result: Vec<MediaGalleryItem>)
    requires
        old(state).at(all, p),
        p + items_files(list@).len() <= all.len(),
    ensures
        final(state).at(all, p + items_files(list@).len()),
        same_items(list@, result@),
        known(items_files(result@)) == references(all).subrange(
            p,
            p + items_files(list@).len() as int,
        ),
    decreases list@.len(),
{
    let ghost before = list@;
    let mut list = list;
    proof {
        lemma_references(all);
    }
    match list.pop() {
        None => {
            assert(known(items_files(list@)) =~= Seq::<FileView>::empty());
            assert(references(all).subrange(p, p) =~= Seq::<FileView>::empty());
            list
        },
        Some(last) => {
            assert(list@ =~= before.drop_last());
            let ghost middle = p + items_files(list@).len() as int;
            let mut result = place_items(list, state, Ghost(all), Ghost(p));
            let ghost front = result@;
            let media = place_media(last.media, state, Ghost(all), Ghost(middle));
            let placed = MediaGalleryItem { kind: last.kind, media };
            result.push(placed);
            proof {
                assert(result@.drop_last() =~= front);
                assert forall|i: int| 0 <= i < before.len() implies (#[trigger] before[i]).kind == result@[i].kind && same_media(before[i].media, result@[i].media) by {
                    if i < front.len() {
                        assert(before.drop_last()[i] == before[i]);
                    }
                }
                lemma_known_add(items_files(front), media_files(placed.media));
                assert(references(all).subrange(p, middle) + references(all).subrange(
                    middle,
                    p + items_files(before).len() as int,
                ) =~= references(all).subrange(p, p + items_files(before).len() as int));
            }
            result
        },
    }
}

fn place_nodes(
    list: Vec<LayoutNode>,
    state: &mut Placement,
    Ghost(all): Ghost<Seq<ResolvedFile>>,
    Ghost(p): Ghost<int>,
) -> (result: Vec<LayoutNode>)
    requires
        old(state).at(all, p),
        p + nodes_files(list@).len() <= all.len(),
    ensures
        final(state).at(all, p + nodes_files(list@).len()),
        same_nodes(list@, result@),
        known(nodes_files(result@)) == references(all).subrange(
            p,
            p + nodes_files(list@).len() as int,
        ),
    decreases list@,
{
    let ghost before = list@;
    let mut list = list;
    proof {
        lemma_references(all);
    }
    match list.pop() {
        None => {
            assert(known(nodes_files(list@)) =~= Seq::<FileView>::empty());
            assert(references(all).subrange(p, p) =~= Seq::<FileView>::empty());
            list
        },
        Some(last) => {
            assert(decreases_to!(before => before[before.len() - 1]));
            assert(list@ =~= before.drop_last());
            assert(decreases_to!(before => before.drop_last()));
            let placed = place_node(last, state, Ghost(all), Ghost(p));
            let ghost middle = p + node_files(last).len() as int;
            let mut result = place_nodes(list, state, Ghost(all), Ghost(middle));
            let ghost front = result@;
            result.push(placed);
            proof {
                assert(result@.drop_last() =~= front);
                assert forall|i: int| 0 <= i < before.len() implies same_node(#[trigger] before[i], result@[i]) by {
                    if i < front.len() {
                        assert(before.drop_last()[i] == before[i]);
                    }
                }
                lemma_known_add(node_files(placed), nodes_files(front));
                assert(references(all).subrange(p, middle) + references(all).subrange(
                    middle,
                    p + nodes_files(before).len() as int,
                ) =~= references(all).subrange(p, p + nodes_files(before).len() as int));
            }
            result
        },
    }
}

fn place_columns(
    list: Vec<LayoutColumn>,
    state: &mut Placement,
    Ghost(all): Ghost<Seq<ResolvedFile>>,
    Ghost(p): Ghost<int>,
) -> (result: Vec<LayoutColumn>)
    requires
        old(state).at(all, p),
        p + columns_files(list@).len() <= all.len(),
    ensures
        final(state).at(all, p + columns_files(list@).len()),
        same_columns(list@, result@),
        known(columns_files(result@)) == references(all).subrange(
            p,
            p + columns_files(list@).len() as int,
        ),
    decreases list@,
{
    let ghost before = list@;
    let mut list = list;
    proof {
        lemma_references(all);
    }
    match list.pop() {
        None => {
            assert(known(columns_files(list@)) =~= Seq::<FileView>::empty());
            assert(references(all).subrange(p, p) =~= Seq::<FileView>::empty());
            list
        },
        Some(last) => {
            assert(decreases_to!(before => before[before.len() - 1]));
            assert(list@ =~= before.drop_last());
            assert(decreases_to!(before => before.drop_last()));
            assert(decreases_to!(last => last.nodes));
            let nodes = place_nodes(last.nodes, state, Ghost(all), Ghost(p));
            let placed = LayoutColumn { width: last.width, nodes };
            let ghost middle = p + nodes_files(last.nodes@).len() as int;
            let mut result = place_columns(list, state, Ghost(all), Ghost(middle));
            let ghost front = result@;
            result.push(placed);
            proof {
                assert(result@.drop_last() =~= front);
                assert forall|i: int| 0 <= i < before.len() implies (#[trigger] before[i]).width == result@[i].width && same_nodes(before[i].nodes@, result@[i].nodes@) by {
                    if i < front.len() {
                        assert(before.drop_last()[i] == before[i]);
                    }
                }
                lemma_known_add(nodes_files(placed.nodes@), columns_files(front));
                assert(references(all).subrange(p, middle) + references(all).subrange(
                    middle,
                    p + columns_files(before).len() as int,
                ) =~= references(all).subrange(p, p + columns_files(before).len() as int));
            }
            result
        },
    }
}

fn place_lists(
    list: Vec<Vec<LayoutNode>>,
    state: &mut Placement,
    Ghost(all): Ghost<Seq<ResolvedFile>>,
    Ghost(p): Ghost<int>,
) -> (result: Vec<Vec<LayoutNode>>)
    requires
        old(state).at(all, p),
        p + lists_files(list@).len() <= all.len(),
    ensures
        final(state).at(all, p + lists_files(list@).len()),
        same_lists(list@, result@),
        known(lists_files(result@)) == references(all).subrange(
            p,
            p + lists_files(list@).len() as int,
        ),
    decreases list@,
{
    let ghost before = list@;
    let mut list = list;
    proof {
        lemma_references(all);
    }
    match list.pop() {
        None => {
            assert(known(lists_files(list@)) =~= Seq::<FileView>::empty());
            assert(references(all).subrange(p, p) =~= Seq::<FileView>::empty());
            list
        },
        Some(last) => {
            assert(decreases_to!(before => before[before.len() - 1]));
            assert(list@ =~= before.drop_last());
            assert(decreases_to!(before => before.drop_last()));
            let placed = place_nodes(last, state, Ghost(all), Ghost(p));
            let ghost middle = p + nodes_files(last@).len() as int;
            let mut result = place_lists(list, state, Ghost(all), Ghost(middle));
            let ghost front = result@;
            result.push(placed);
            proof {
                assert(result@.drop_last() =~= front);
                assert forall|i: int| 0 <= i < before.len() implies same_nodes((#[trigger] before[i])@, result@[i]@) by {
                    if i < front.len() {
                        assert(before.drop_last()[i] == before[i]);
                    }
                }
                lemma_known_add(nodes_files(placed@), lists_files(front));
                assert(references(all).subrange(p, middle) + references(all).subrange(
                    middle,
                    p + lists_files(before).len() as int,
                ) =~= references(all).subrange(p, p + lists_files(before).len() as int));
            }
            result
        },
    }
}

fn place_cells(
    list: Vec<TableCell>,
    state: &mut Placement,
    Ghost(all): Ghost<Seq<ResolvedFile>>,
    Ghost(p): Ghost<int>,
) -> (result: Vec<TableCell>)
    requires
        old(state).at(all, p),
        p + cells_files(list@).len() <= all.len(),
    ensures
        final(state).at(all, p + cells_files(list@).len()),
        same_cells(list@, result@),
        known(cells_files(result@)) == references(all).subrange(
            p,
            p + cells_files(list@).len() as int,
        ),
    decreases list@,
{
    let ghost before = list@;
    let mut list = list;
    proof {
        lemma_references(all);
    }
    match list.pop() {
        None => {
            assert(known(cells_files(list@)) =~= Seq::<FileView>::empty());
            assert(references(all).subrange(p, p) =~= Seq::<FileView>::empty());
            list
        },
        Some(last) => {
            assert(decreases_to!(before => before[before.len() - 1]));
            assert(list@ =~= before.drop_last());
            assert(decreases_to!(before => before.drop_last()));
            assert(decreases_to!(last => last.content));
            let content = place_nodes(last.content, state, Ghost(all), Ghost(p));
            let placed = TableCell {
                content,
                header: last.header,
                colspan: last.colspan,
                rowspan: last.rowspan,
            };
            let ghost middle = p + nodes_files(last.content@).len() as int;
            let mut result = place_cells(list, state, Ghost(all), Ghost(middle));
            let ghost front = result@;
            result.push(placed);
            proof {
                assert(result@.drop_last() =~= front);
                assert forall|i: int| 0 <= i < before.len() implies (#[trigger] before[i]).header == result@[i].header && before[i].colspan == result@[i].colspan && before[i].rowspan == result@[i].rowspan && same_nodes(before[i].content@, result@[i].content@) by {
                    if i < front.len() {
                        assert(before.drop_last()[i] == before[i]);
                    }
                }
                lemma_known_add(nodes_files(placed.content@), cells_files(front));
                assert(references(all).subrange(p, middle) + references(all).subrange(
                    middle,
                    p + cells_files(before).len() as int,
                ) =~= references(all).subrange(p, p + cells_files(before).len() as int));
            }
            result
        },
    }
}

fn place_rows(
    list: Vec<Vec<TableCell>>,
    state: &mut Placement,
    Ghost(all): Ghost<Seq<ResolvedFile>>,
    Ghost(p): Ghost<int>,
) -> (result: Vec<Vec<TableCell>>)
    requires
        old(state).at(all, p),
        p + rows_files(list@).len() <= all.len(),
    ensures
        final(state).at(all, p + rows_files(list@).len()),
        same_rows(list@, result@),
        known(rows_files(result@)) == references(all).subrange(
            p,
            p + rows_files(list@).len() as int,
        ),
    decreases list@,
{
    let ghost before = list@;
    let mut list = list;
    proof {
        lemma_references(all);
    }
    match list.pop() {
        None => {
            assert(known(rows_files(list@)) =~= Seq::<FileView>::empty());
            assert(references(all).subrange(p, p) =~= Seq::<FileView>::empty());
            list
        },
        Some(last) => {
            assert(decreases_to!(before => before[before.len() - 1]));
            assert(list@ =~= before.drop_last());
            assert(decreases_to!(before => before.drop_last()));
            let placed = place_cells(last, state, Ghost(all), Ghost(p));
            let ghost middle = p + cells_files(last@).len() as int;
            let mut result = place_rows(list, state, Ghost(all), Ghost(middle));
            let ghost front = result@;
            result.push(placed);
            proof {
                assert(result@.drop_last() =~= front);
                assert forall|i: int| 0 <= i < before.len() implies same_cells((#[trigger] before[i])@, result@[i]@) by {
                    if i < front.len() {
                        assert(before.drop_last()[i] == before[i]);
                    }
                }
                lemma_known_add(cells_files(placed@), rows_files(front));
                assert(references(all).subrange(p, middle) + references(all).subrange(
                    middle,
                    p + rows_files(before).len() as int,
                ) =~= references(all).subrange(p, p + rows_files(before).len() as int));
            }
            result
        },
    }
}

fn place_node(
    node: LayoutNode,
    state: &mut Placement,
    Ghost(all): Ghost<Seq<ResolvedFile>>,
    Ghost(p): Ghost<int>,
) -> (result: LayoutNode)
    requires
        old(state).at(all, p),
        p + node_files(node).len() <= all.len(),
    ensures
        final(state).at(all, p + node_files(node).len()),
        same_node(node, result),
        known(node_files(result)) == references(all).subrange(
            p,
            p + node_files(node).len() as int,
        ),
    decreases node,
{
    proof {
        lemma_references(all);
    }
    match node {
        LayoutNode::Section { children, accessory, style } => {
            match accessory {
                Some(inner) => {
                    let ghost middle = p + node_files(*inner).len() as int;
                    let placed = place_node(*inner, state, Ghost(all), Ghost(p));
                    let children = place_nodes(children, state, Ghost(all), Ghost(middle));
                    let result = LayoutNode::Section {
                        children,
                        accessory: Some(Box::new(placed)),
                        style,
                    };
                    proof {
                        lemma_known_add(node_files(placed), nodes_files(children@));
                        assert(references(all).subrange(p, middle) + references(all).subrange(
                            middle,
                            p + node_files(node).len() as int,
                        ) =~= references(all).subrange(p, p + node_files(node).len() as int));
                    }
                    result
                },
                None => {
                    let children = place_nodes(children, state, Ghost(all), Ghost(p));
                    LayoutNode::Section { children, accessory: None, style }
                },
            }
        },
        LayoutNode::Container { children, style } => {
            let children = place_nodes(children, state, Ghost(all), Ghost(p));
            LayoutNode::Container { children, style }
        },
        LayoutNode::Grid { columns, children } => {
            let children = place_nodes(children, state, Ghost(all), Ghost(p));
            LayoutNode::Grid { columns, children }
        },
        LayoutNode::Details { summary, children, open } => {
            let children = place_nodes(children, state, Ghost(all), Ghost(p));
            LayoutNode::Details { summary, children, open }
        },
        LayoutNode::Columns(columns) => LayoutNode::Columns(
            place_columns(columns, state, Ghost(all), Ghost(p)),
        ),
        LayoutNode::Image(media) => LayoutNode::Image(
            place_media(media, state, Ghost(all), Ghost(p)),
        ),
        LayoutNode::File(media) => LayoutNode::File(
            place_media(media, state, Ghost(all), Ghost(p)),
        ),
        LayoutNode::MediaGallery(items) => LayoutNode::MediaGallery(
            place_items(items, state, Ghost(all), Ghost(p)),
        ),
        LayoutNode::List { ordered, items } => {
            let items = place_lists(items, state, Ghost(all), Ghost(p));
            LayoutNode::List { ordered, items }
        },
        LayoutNode::Table { rows } => {
            let rows = place_rows(rows, state, Ghost(all), Ghost(p));
            LayoutNode::Table { rows }
        },
        other => {
            assert(known(node_files(other)) =~= Seq::<FileView>::empty());
            assert(references(all).subrange(p, p) =~= Seq::<FileView>::empty());
            other
        },
    }
}

fn reversed_files(files: Vec<ResolvedFile>) -> (result: Vec<ResolvedFile>)
    ensures
        result@ == files@.reverse(),
{
    let ghost all = files@;
    let mut files = files;
    let mut result: Vec<ResolvedFile> = Vec::new();
    let mut left: usize = files.len();
    while left > 0
        invariant
            left == files@.len(),
            left <= all.len(),
            files@ == all.take(left as int),
            result@ == all.skip(left as int).reverse(),
        decreases left,
    {
        if let Some(file) = files.pop() {
            result.push(file);
        }
        left -= 1;
        assert(files@ =~= all.take(left as int));
        assert(result@ =~= all.skip(left as int).reverse());
    }
    assert(all.skip(0) =~= all);
    result
}

/// Puts the files of a layout in their places: what Telegram finds by itself
/// by its reference, an upload by the name of its part. `files` are those that
/// `layout_files` lists, in the same order.
pub fn prepare_rich_layout_uploads(layout: RichLayout, files: Vec<ResolvedFile>) -> (result: (
    RichLayout,
    Vec<(String, Upload)>,
))
    requires
        files@.len() == nodes_files(layout.nodes@).len(),
    ensures
        same_nodes(layout.nodes@, result.0.nodes@),
        known(nodes_files(result.0.nodes@)) == references(files@),
        result.0.fallback_text == layout.fallback_text,
        result.0.platform_data == layout.platform_data,
        media::named(result.1@) == parts(files@),
{
    let ghost all = files@;
    let queue = reversed_files(files);
    let mut state = Placement { queue, uploads: Vec::new() };
    proof {
        assert(all.skip(0) =~= all);
        assert(all.take(0) =~= Seq::<ResolvedFile>::empty());
        assert(media::named(state.uploads@) =~= Seq::<(Seq<char>, Upload)>::empty());
        lemma_references(all);
    }
    let nodes = place_nodes(layout.nodes, &mut state, Ghost(all), Ghost(0));
    assert(references(all).subrange(0, all.len() as int) =~= references(all));
    assert(all.take(all.len() as int) =~= all);
    (
        RichLayout {
            nodes,
            fallback_text: layout.fallback_text,
            platform_data: layout.platform_data,
        },
        state.uploads,
    )
}

/// Every upload of a layout goes under a name of its own, and the place where
/// its file stood refers to that name.
pub proof fn law_uploads_are_referenced(files: Seq<ResolvedFile>)
    requires
        files.len() <= i64::MAX,
    ensures
        parts(files).len() == uploads_among(files),
        forall|i: int, j: int|
            0 <= i < j < parts(files).len() ==> (#[trigger] parts(files)[i]).0 != (
            #[trigger] parts(files)[j]).0,
        forall|i: int|
            0 <= i < files.len() ==> ((#[trigger] files[i]) matches ResolvedFile::Upload(upload)
                ==> exists|k: int|
                0 <= k < parts(files).len() && (#[trigger] parts(files)[k]).1 == upload
                    && references(files)[i] == source::file_by_id(
                    "attach://"@ + parts(files)[k].0,
                )),
{
    lemma_parts(files);
    assert forall|i: int, j: int| 0 <= i < j < parts(files).len() implies (#[trigger] parts(
        files,
    )[i]).0 != (#[trigger] parts(files)[j]).0 by {
        reveal_strlit("rich_media_");
        text::lemma_decimal_round_trip(i);
        text::lemma_decimal_round_trip(j);
        let a = part_name(i as nat);
        let b = part_name(j as nat);
        assert(a.skip(11) =~= text::decimal(i));
        assert(b.skip(11) =~= text::decimal(j));
    }
}

proof fn lemma_parts(files: Seq<ResolvedFile>)
    ensures
        parts(files).len() == uploads_among(files),
        uploads_among(files) <= files.len(),
        references(files).len() == files.len(),
        forall|k: int|
            0 <= k < parts(files).len() ==> (#[trigger] parts(files)[k]).0 == part_name(k as nat),
        forall|i: int|
            0 <= i < files.len() ==> ((#[trigger] files[i]) matches ResolvedFile::Upload(upload)
                ==> exists|k: int|
                0 <= k < parts(files).len() && (#[trigger] parts(files)[k]).1 == upload
                    && references(files)[i] == source::file_by_id(
                    "attach://"@ + parts(files)[k].0,
                )),
    decreases files.len(),
{
    if files.len() > 0 {
        let before = files.drop_last();
        lemma_parts(before);
        assert forall|i: int| 0 <= i < files.len() implies ((
        #[trigger] files[i]) matches ResolvedFile::Upload(upload) ==> exists|k: int|
            0 <= k < parts(files).len() && (#[trigger] parts(files)[k]).1 == upload && references(
                files,
            )[i] == source::file_by_id("attach://"@ + parts(files)[k].0)) by {
            if files[i] is Upload {
                let upload = files[i]->Upload_0;
                if i < before.len() {
                    assert(before[i] == files[i]);
                    let k = choose|k: int|
                        0 <= k < parts(before).len() && (#[trigger] parts(before)[k]).1 == upload
                            && references(before)[i] == source::file_by_id(
                            "attach://"@ + parts(before)[k].0,
                        );
                    assert(parts(files)[k] == parts(before)[k]);
                    assert(references(files)[i] == references(before)[i]);
                } else {
                    let k = parts(before).len() as int;
                    assert(parts(files)[k].1 == upload);
                }
            }
        }
    }
}

/// Each file keeps its place: there is one reference for each, and a file that
/// Telegram can find is referred to by what it is found by.
pub proof fn law_files_keep_their_place(files: Seq<ResolvedFile>, i: int)
    requires
        0 <= i < files.len(),
    ensures
        references(files).len() == files.len(),
        files[i] matches ResolvedFile::Remote(found) ==> references(files)[i].id == Some(found@),
        files[i] is Upload ==> (references(files)[i].id matches Some(id) && id.take(9)
            == "attach://"@),
    decreases files.len(),
{
    let before = files.drop_last();
    if i < before.len() {
        law_files_keep_their_place(before, i);
    } else {
        if before.len() > 0 {
            law_files_keep_their_place(before, 0);
        }
        reveal_strlit("attach://");
        let name = part_name(uploads_among(before));
        assert(("attach://"@ + name).take(9) =~= "attach://"@);
    }
}

} // verus!
