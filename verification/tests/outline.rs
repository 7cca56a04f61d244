use sidecar::manager::SymbolManager;
use sidecar::outline::{OutlineNode, OutlineNodeContent, Position, Range};
use std::sync::Arc;

fn range(line: usize) -> Range {
    let start_position = Position { line, character: 0, byte_offset: line * 10 };
    let end_position = Position { line: line + 2, character: 1, byte_offset: line * 10 + 25 };
    Range { start_position, end_position }
}

fn content(name: &str, line: usize) -> OutlineNodeContent {
    OutlineNodeContent::new(name.to_string(), range(line), "/repo/a.rs".to_string())
}

fn grab(nodes: Vec<OutlineNode>, name: &str) -> Vec<OutlineNodeContent> {
    let manager = SymbolManager::new(Arc::new(()), Arc::new(()), "http://editor".to_string());
    manager.grab_symbols_from_outline(nodes, name)
}

#[test]
fn nothing_is_grabbed_from_an_empty_outline() {
    assert_eq!(grab(vec![], "Shelf"), vec![]);
}

#[test]
fn a_class_is_grabbed_by_its_own_name() {
    let node = OutlineNode::new(true, content("Shelf", 1), vec![content("Shelf", 2)]);
    assert_eq!(grab(vec![node], "Shelf"), vec![content("Shelf", 1)]);
}

#[test]
fn members_of_a_class_are_grabbed_in_their_order() {
    let node = OutlineNode::new(
        true,
        content("Shelf", 1),
        vec![content("put", 2), content("take", 3), content("put", 4)],
    );
    assert_eq!(grab(vec![node], "put"), vec![content("put", 2), content("put", 4)]);
}

#[test]
fn members_of_what_is_no_class_are_not_looked_at() {
    let node = OutlineNode::new(false, content("shelve", 1), vec![content("put", 2)]);
    assert_eq!(grab(vec![node], "put"), vec![]);
}

#[test]
fn offers_come_in_the_order_of_the_file() {
    let nodes = vec![
        OutlineNode::new(true, content("Shelf", 1), vec![content("put", 2)]),
        OutlineNode::new(false, content("other", 5), vec![]),
        OutlineNode::new(false, content("put", 7), vec![]),
    ];
    assert_eq!(grab(nodes, "put"), vec![content("put", 2), content("put", 7)]);
}

#[test]
fn whatever_is_grabbed_bears_the_name() {
    let nodes = vec![
        OutlineNode::new(true, content("A", 1), vec![content("b", 2), content("c", 3)]),
        OutlineNode::new(true, content("b", 4), vec![content("c", 5)]),
        OutlineNode::new(false, content("c", 6), vec![content("b", 7)]),
    ];
    let offers = grab(nodes, "b");
    assert_eq!(offers.len(), 2);
    for offer in offers.iter() {
        assert_eq!(offer.name(), "b");
    }
    assert_eq!(*offers[1].range(), range(4));
    assert_eq!(offers[1].fs_file_path(), "/repo/a.rs");
}
