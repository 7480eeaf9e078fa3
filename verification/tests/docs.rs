use uiua_core::doc::{PrimDoc, PrimDocFragment, PrimDocLine};
use uiua_core::impl_prim::ImplPrimitive;
use uiua_core::prim::Primitive;

#[test]
fn fragments_of_plain_text() {
    let frags = uiua_core::doc::parse_doc_line_fragments("plain words");
    assert_eq!(frags.len(), 1);
    match &frags[0] {
        PrimDocFragment::Text(t) => assert_eq!(t, "plain words"),
        _ => panic!("expected one text fragment"),
    }
}

#[test]
fn fragments_of_markup() {
    let frags = uiua_core::doc::parse_doc_line_fragments("see `code` and *soft* and **hard**");
    let mut code = 0;
    let mut emphasis = 0;
    let mut strong = 0;
    for f in &frags {
        match f {
            PrimDocFragment::Code(t) => {
                assert_eq!(t, "code");
                code += 1;
            },
            PrimDocFragment::Emphasis(t) => {
                assert_eq!(t, "soft");
                emphasis += 1;
            },
            PrimDocFragment::Strong(t) => {
                assert_eq!(t, "hard");
                strong += 1;
            },
            _ => {},
        }
    }
    assert_eq!((code, emphasis, strong), (1, 1, 1));
}

#[test]
fn fragments_resolve_primitives() {
    let frags = uiua_core::doc::parse_doc_line_fragments("use `reverse` or [couple](x)");
    let mut prim_ref = None;
    let mut link = None;
    for f in frags {
        match f {
            PrimDocFragment::Prim(p, named) => prim_ref = Some((p, named)),
            PrimDocFragment::Link(t, u) => link = Some((t, u)),
            _ => {},
        }
    }
    assert_eq!(prim_ref, Some((Primitive::Reverse, false)));
    let (t, u) = link.unwrap();
    assert_eq!(t, "couple");
    assert_eq!(u, "x");
}

#[test]
fn named_primitive_reference() {
    let frags = uiua_core::doc::parse_doc_line_fragments("as [reverse] says");
    assert!(frags.iter().any(|f| matches!(f, PrimDocFragment::Prim(Primitive::Reverse, true))));
}

#[test]
fn lines_are_trimmed_before_reading() {
    // surrounding whitespace, and a carriage return before the break, never
    // hide an example prefix
    let doc = PrimDoc::from_lines("  The short line\t\n  ex: +1 2\r\n\tex! boom  ");
    assert_eq!(doc.short_text(), "The short line");
    assert_eq!(doc.lines.len(), 2);
    match &doc.lines[0] {
        PrimDocLine::Example(ex) => {
            assert_eq!(ex.input(), "+1 2");
            assert!(!ex.should_error());
        },
        _ => panic!("expected the first example"),
    }
    match &doc.lines[1] {
        PrimDocLine::Example(ex) => {
            assert_eq!(ex.input(), "boom");
            assert!(ex.should_error());
        },
        _ => panic!("expected the second example"),
    }
}

#[test]
fn link_addresses_are_trimmed() {
    let frags = uiua_core::doc::parse_doc_line_fragments("see [docs]( https://example.test )");
    let mut link = None;
    for f in frags {
        if let PrimDocFragment::Link(t, u) = f {
            link = Some((t, u));
        }
    }
    let (t, u) = link.unwrap();
    assert_eq!(t, "docs");
    assert_eq!(u, "https://example.test");
}

#[test]
fn from_lines_examples() {
    let doc = PrimDoc::from_lines("The short line\nex: +1 2\n: +3\nex! boom");
    assert_eq!(doc.lines.len(), 2);
    match &doc.lines[0] {
        PrimDocLine::Example(ex) => {
            assert_eq!(ex.input(), "+1 2\n+3");
            assert!(!ex.should_error());
        },
        _ => panic!("expected the first example"),
    }
    match &doc.lines[1] {
        PrimDocLine::Example(ex) => {
            assert_eq!(ex.input(), "boom");
            assert!(ex.should_error());
        },
        _ => panic!("expected the second example"),
    }
    assert_eq!(doc.short_text(), "The short line");
}

#[test]
fn should_run_rejects_host_calls() {
    let doc = PrimDoc::from_lines("words\nex: &sl 1");
    match &doc.lines[0] {
        PrimDocLine::Example(ex) => assert!(!ex.should_run()),
        _ => panic!("expected an example"),
    }
    let doc = PrimDoc::from_lines("words\nex: +1 1");
    match &doc.lines[0] {
        PrimDocLine::Example(ex) => assert!(ex.should_run()),
        _ => panic!("expected an example"),
    }
}

#[test]
fn primitive_docs_render() {
    let doc = Primitive::Reverse.doc().unwrap();
    assert_eq!(doc.short_text(), "Reverse the rows of an array");
    assert!(doc.lines.len() >= 1);
    assert!(Primitive::Recv.doc().is_none());
}

#[test]
fn impl_primitive_rendering() {
    assert_eq!(ImplPrimitive::InvBox.display_string(), "°□");
    assert_eq!(ImplPrimitive::Last.display_string(), "⊢⇌");
    assert_eq!(ImplPrimitive::SortUp.display_string(), "⊏⍏.");
    assert_eq!(ImplPrimitive::TransposeN(2).display_string(), "⍉⍉");
    assert_eq!(ImplPrimitive::TransposeN(-1).display_string(), "°(⍉)");
}
