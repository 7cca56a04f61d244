//! The outline of a source file, and the search for a symbol in it.
use crate::text::{lemma_filter_push, views};
use vstd::prelude::*;

verus! {

/// A place in a text document.
#[derive(Debug, Clone, Copy, PartialEq, Eq)]
pub struct Position {
    pub line: usize,
    pub character: usize,
    pub byte_offset: usize,
}

/// A stretch of a text document.
#[derive(Debug, Clone, Copy, PartialEq, Eq)]
pub struct Range {
    pub start_position: Position,
    pub end_position: Position,
}

/// What an outline says of one symbol.
#[derive(Debug, PartialEq, Eq)]
pub struct OutlineNodeContent {
    name: String,
    range: Range,
    fs_file_path: String,
}

pub struct OutlineNodeContentView {
    pub name: Seq<char>,
    pub range: Range,
    pub fs_file_path: Seq<char>,
}

impl View for OutlineNodeContent {
    type V = OutlineNodeContentView;

    closed spec fn view(&self) -> OutlineNodeContentView {
        OutlineNodeContentView {
            name: self.name@,
            range: self.range,
            fs_file_path: self.fs_file_path@,
        }
    }
}

impl Clone for OutlineNodeContent {
    fn clone(&self) -> (copied: Self)
        ensures
            copied@ == self@,
    {
        OutlineNodeContent {
            name: self.name.clone(),
            range: self.range,
            fs_file_path: self.fs_file_path.clone(),
        }
    }
}

impl OutlineNodeContent {
    pub fn new(name: String, range: Range, fs_file_path: String) -> (content: Self)
        ensures
            content@ == (OutlineNodeContentView {
                name: name@,
                range,
                fs_file_path: fs_file_path@,
            }),
    {
        OutlineNodeContent { name, range, fs_file_path }
    }

    pub fn name(&self) -> (name: &String)
        ensures
            name@ == self@.name,
    {
        &self.name
    }

    pub fn range(&self) -> (range: &Range)
        ensures
            *range == self@.range,
    {
        &self.range
    }

    pub fn fs_file_path(&self) -> (path: &String)
        ensures
            path@ == self@.fs_file_path,
    {
        &self.fs_file_path
    }
}

/// A top-level symbol of a file, with the members of a class.
#[derive(Debug, Clone, PartialEq, Eq)]
pub struct OutlineNode {
    class: bool,
    content: OutlineNodeContent,
    children: Vec<OutlineNodeContent>,
}

pub struct OutlineNodeView {
    pub class: bool,
    pub content: OutlineNodeContentView,
    pub children: Seq<OutlineNodeContentView>,
}

impl View for OutlineNode {
    type V = OutlineNodeView;

    closed spec fn view(&self) -> OutlineNodeView {
        OutlineNodeView {
            class: self.class,
            content: self.content@,
            children: views(self.children@),
        }
    }
}

impl OutlineNode {
    pub fn new(class: bool, content: OutlineNodeContent, children: Vec<OutlineNodeContent>) -> (node:
        Self)
        ensures
            node@ == (OutlineNodeView {
                class,
                content: content@,
                children: views(children@),
            }),
    {
        OutlineNode { class, content, children }
    }

    pub fn is_class(&self) -> (class: bool)
        ensures
            class == self@.class,
    {
        self.class
    }

    pub fn content(&self) -> (content: &OutlineNodeContent)
        ensures
            content@ == self@.content,
    {
        &self.content
    }

    pub fn children(&self) -> (children: &Vec<OutlineNodeContent>)
        ensures
            views(children@) == self@.children,
    {
        &self.children
    }
}

/// Whether a symbol bears a name.
pub open spec fn named(name: Seq<char>) -> spec_fn(OutlineNodeContentView) -> bool {
    |content: OutlineNodeContentView| content.name == name
}

/// What one top-level symbol offers under a name: itself if it bears the name;
/// otherwise, if it is a class, its members that do.
pub open spec fn offered(node: OutlineNodeView, name: Seq<char>) -> Seq<OutlineNodeContentView> {
    if node.content.name == name {
        seq![node.content]
    } else if node.class {
        node.children.filter(named(name))
    } else {
        seq![]
    }
}

/// What a whole outline offers under a name, in the order of the file.
pub open spec fn grabbed(nodes: Seq<OutlineNodeView>, name: Seq<char>) -> Seq<
    OutlineNodeContentView,
> {
    nodes.flat_map(|node: OutlineNodeView| offered(node, name))
}

/// The symbols of a list that bear a name.
fn filter_named(contents: &Vec<OutlineNodeContent>, name: &String) -> (found: Vec<
    OutlineNodeContent,
>)
    ensures
        views(found@) == views(contents@).filter(named(name@)),
{
    let mut found: Vec<OutlineNodeContent> = Vec::new();
    let ghost all = views(contents@);
    assert(views(found@) =~= all.take(0).filter(named(name@))) by {
        reveal(Seq::filter);
    }
    for i in 0..contents.len()
        invariant
            all == views(contents@),
            views(found@) == all.take(i as int).filter(named(name@)),
    {
        let ghost before = found@;
        assert(all[i as int] == contents@[i as int]@);
        if *contents[i].name() == *name {
            found.push(contents[i].clone());
            assert(views(found@) =~= views(before).push(all[i as int]));
        }
        proof {
            lemma_filter_push(all.take(i as int), all[i as int], named(name@));
            assert(all.take(i + 1) =~= all.take(i as int).push(all[i as int]));
        }
    }
    assert(all.take(contents@.len() as int) =~= all);
    found
}

/// The symbols that an outline offers under a name.
pub fn grab_symbols(nodes: &Vec<OutlineNode>, name: &String) -> (found: Vec<OutlineNodeContent>)
    ensures
        views(found@) == grabbed(views(nodes@), name@),
{
    let mut found: Vec<OutlineNodeContent> = Vec::new();
    let ghost all = views(nodes@);
    let ghost offer = |node: OutlineNodeView| offered(node, name@);
    assert(all.take(0) =~= Seq::<OutlineNodeView>::empty());
    assert(views(found@) =~= all.take(0).flat_map(offer));
    for i in 0..nodes.len()
        invariant
            all == views(nodes@),
            offer == (|node: OutlineNodeView| offered(node, name@)),
            views(found@) == all.take(i as int).flat_map(offer),
    {
        let ghost before = found@;
        let node: &OutlineNode = &nodes[i];
        assert(all[i as int] == node@);
        let mut offers: Vec<OutlineNodeContent> = Vec::new();
        if *node.content().name() == *name {
            offers.push(node.content().clone());
        } else if node.is_class() {
            offers = filter_named(node.children(), name);
        }
        assert(views(offers@) =~= offered(node@, name@));
        let ghost offered_now = offers@;
        found.append(&mut offers);
        proof {
            assert(views(found@) =~= views(before) + views(offered_now));
            all.lemma_flat_map_take_append(offer, i as int);
        }
    }
    assert(all.take(nodes@.len() as int) =~= all);
    found
}

} // verus!
