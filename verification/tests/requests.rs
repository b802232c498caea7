use linkplan::document::{parse_config, Node};
use linkplan::request::{
    collect_requests, extract_request, read_path, read_section, LinkKind, LinkRequest, PathFault,
    SectionShapeError, ShapeFault,
};

fn one(config: &str) -> Node {
    let mut docs = parse_config(config).unwrap();
    assert_eq!(docs.len(), 1);
    docs.remove(0)
}

fn request(kind: LinkKind, src: &str, dst: &str) -> LinkRequest {
    LinkRequest::new(kind, src.to_string(), dst.to_string()).unwrap()
}

fn fault(kind: LinkKind, fault: ShapeFault) -> SectionShapeError {
    SectionShapeError { kind, fault }
}

fn section_fault(config: &str) -> ShapeFault {
    let doc = one(config);
    let section = doc.find("symlink").unwrap();
    extract_request(LinkKind::Symlink, section).unwrap_err().fault
}

#[test]
fn section_keys_by_kind() {
    assert_eq!(LinkKind::Symlink.section_name(), "symlink");
    assert_eq!(LinkKind::Hardlink.section_name(), "hardlink");
    assert_eq!(LinkKind::DirSymlink.section_name(), "symlink-dir");
    assert!(LinkKind::Symlink.is_file_link());
    assert!(LinkKind::Hardlink.is_file_link());
    assert!(!LinkKind::DirSymlink.is_file_link());
}

#[test]
fn request_holds_what_it_was_made_of() {
    let made = request(LinkKind::Hardlink, "a.txt", "b.txt");
    assert_eq!(made.kind(), LinkKind::Hardlink);
    assert_eq!(made.raw_src(), "a.txt");
    assert_eq!(made.raw_dst(), "b.txt");
}

#[test]
fn request_needs_both_paths() {
    assert_eq!(
        LinkRequest::new(LinkKind::Symlink, String::new(), "b".to_string()),
        Err(ShapeFault::Source(PathFault::Empty))
    );
    assert_eq!(
        LinkRequest::new(LinkKind::Symlink, "a".to_string(), String::new()),
        Err(ShapeFault::Destination(PathFault::Empty))
    );
    assert_eq!(
        LinkRequest::new(LinkKind::Symlink, String::new(), String::new()),
        Err(ShapeFault::Source(PathFault::Empty))
    );
}

#[test]
fn extracts_each_kind_of_section() {
    let doc = one(
        "symlink: [{src: s1},{dst: d1}]\n\
         hardlink: [{src: s2},{dst: d2}]\n\
         symlink-dir: [{src: s3},{dst: d3}]\n",
    );
    assert_eq!(
        collect_requests(&doc),
        vec![
            Ok(request(LinkKind::Symlink, "s1", "d1")),
            Ok(request(LinkKind::Hardlink, "s2", "d2")),
            Ok(request(LinkKind::DirSymlink, "s3", "d3")),
        ]
    );
}

#[test]
fn sections_come_in_fixed_order_whatever_the_text_has() {
    let doc = one(
        "symlink-dir: [{src: s3},{dst: d3}]\n\
         hardlink: [{src: s2},{dst: d2}]\n\
         symlink: [{src: s1},{dst: d1}]\n",
    );
    assert_eq!(
        collect_requests(&doc),
        vec![
            Ok(request(LinkKind::Symlink, "s1", "d1")),
            Ok(request(LinkKind::Hardlink, "s2", "d2")),
            Ok(request(LinkKind::DirSymlink, "s3", "d3")),
        ]
    );
}

#[test]
fn absent_sections_ask_for_nothing() {
    assert_eq!(collect_requests(&one("other: 1")), Vec::new());
    assert_eq!(collect_requests(&one("- symlink")), Vec::new());
    assert_eq!(collect_requests(&one("symlink")), Vec::new());
    assert_eq!(collect_requests(&Node::Invalid), Vec::new());
    assert_eq!(
        collect_requests(&one("hardlink: [{src: a.txt},{dst: b.txt}]")),
        vec![Ok(request(LinkKind::Hardlink, "a.txt", "b.txt"))]
    );
}

#[test]
fn section_with_invalid_value_counts_as_absent() {
    assert_eq!(collect_requests(&one("symlink: !!int abc")), Vec::new());
}

#[test]
fn malformed_section_does_not_keep_others_out() {
    let doc = one(
        "symlink: [{dst: d1},{src: s1}]\n\
         hardlink: [{src: s2},{dst: d2}]\n\
         symlink-dir: 5\n",
    );
    assert_eq!(
        collect_requests(&doc),
        vec![
            Err(fault(LinkKind::Symlink, ShapeFault::Source(PathFault::Missing))),
            Ok(request(LinkKind::Hardlink, "s2", "d2")),
            Err(fault(LinkKind::DirSymlink, ShapeFault::NotAPair)),
        ]
    );
}

#[test]
fn section_must_be_a_sequence_of_two() {
    assert_eq!(section_fault("symlink: ~"), ShapeFault::NotAPair);
    assert_eq!(section_fault("symlink: text"), ShapeFault::NotAPair);
    assert_eq!(section_fault("symlink: {src: a, dst: b}"), ShapeFault::NotAPair);
    assert_eq!(section_fault("symlink: {0: {src: a}, 1: {dst: b}}"), ShapeFault::NotAPair);
    assert_eq!(section_fault("symlink: []"), ShapeFault::NotAPair);
    assert_eq!(section_fault("symlink: [{src: a}]"), ShapeFault::NotAPair);
    assert_eq!(section_fault("symlink: [{src: a},{dst: b},{x: y}]"), ShapeFault::NotAPair);
}

#[test]
fn source_must_be_given_by_the_first_element() {
    assert_eq!(section_fault("symlink: [{dst: b},{src: a}]"), ShapeFault::Source(PathFault::Missing));
    assert_eq!(section_fault("symlink: [a,{dst: b}]"), ShapeFault::Source(PathFault::Missing));
    assert_eq!(section_fault("symlink: [{SRC: a},{dst: b}]"), ShapeFault::Source(PathFault::Missing));
    assert_eq!(
        section_fault("symlink: [{src: !!int x},{dst: b}]"),
        ShapeFault::Source(PathFault::Missing)
    );
    assert_eq!(section_fault("symlink: [{src: 5},{dst: b}]"), ShapeFault::Source(PathFault::NotText));
    assert_eq!(section_fault("symlink: [{src: [a]},{dst: b}]"), ShapeFault::Source(PathFault::NotText));
    assert_eq!(section_fault("symlink: [{src: ~},{dst: b}]"), ShapeFault::Source(PathFault::NotText));
    assert_eq!(section_fault("symlink: [{src: ''},{dst: b}]"), ShapeFault::Source(PathFault::Empty));
}

#[test]
fn destination_must_be_given_by_the_second_element() {
    assert_eq!(
        section_fault("symlink: [{src: a},{src: b}]"),
        ShapeFault::Destination(PathFault::Missing)
    );
    assert_eq!(
        section_fault("symlink: [{src: a, dst: b},{x: y}]"),
        ShapeFault::Destination(PathFault::Missing)
    );
    assert_eq!(
        section_fault("symlink: [{src: a},{dst: true}]"),
        ShapeFault::Destination(PathFault::NotText)
    );
    assert_eq!(
        section_fault("symlink: [{src: a},{dst: \"\"}]"),
        ShapeFault::Destination(PathFault::Empty)
    );
}

#[test]
fn source_fault_is_reported_before_destination_fault() {
    assert_eq!(section_fault("symlink: [{src: 1},{dst: 2}]"), ShapeFault::Source(PathFault::NotText));
    assert_eq!(section_fault("symlink: [{x: 1},{y: 2}]"), ShapeFault::Source(PathFault::Missing));
}

#[test]
fn extra_keys_are_passed_over() {
    let doc = one("symlink: [{note: n, src: a},{dst: b, src: c}]");
    assert_eq!(collect_requests(&doc), vec![Ok(request(LinkKind::Symlink, "a", "b"))]);
}

#[test]
fn reads_one_path() {
    let element = Node::Mapping(vec![
        (Node::Text("src".to_string()), Node::Text("a.txt".to_string())),
        (Node::Text("n".to_string()), Node::Integer(1)),
        (Node::Text("e".to_string()), Node::Text(String::new())),
    ]);
    assert_eq!(read_path(&element, "src"), Ok(&"a.txt".to_string()));
    assert_eq!(read_path(&element, "dst"), Err(PathFault::Missing));
    assert_eq!(read_path(&element, "n"), Err(PathFault::NotText));
    assert_eq!(read_path(&element, "e"), Err(PathFault::Empty));
    assert_eq!(read_path(&Node::Null, "src"), Err(PathFault::Missing));
}

#[test]
fn reads_one_section_behind_what_was_found() {
    let doc = one("hardlink: [{src: s2},{dst: d2}]\nsymlink-dir: nothing\n");
    let mut found = vec![Ok(request(LinkKind::Symlink, "kept", "as it is"))];
    read_section(&doc, LinkKind::Symlink, &mut found);
    assert_eq!(found, vec![Ok(request(LinkKind::Symlink, "kept", "as it is"))]);
    read_section(&doc, LinkKind::Hardlink, &mut found);
    read_section(&doc, LinkKind::DirSymlink, &mut found);
    assert_eq!(
        found,
        vec![
            Ok(request(LinkKind::Symlink, "kept", "as it is")),
            Ok(request(LinkKind::Hardlink, "s2", "d2")),
            Err(fault(LinkKind::DirSymlink, ShapeFault::NotAPair)),
        ]
    );
}
