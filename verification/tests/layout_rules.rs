use named_future::layout::{supported_alignment, wrapper_layout, Aligner, Int, LayoutFact};

#[test]
fn supported_alignments_are_the_doubling_family() {
    let mut a: usize = 1;
    while a <= 16384 {
        assert!(supported_alignment(a));
        a *= 2;
    }
    assert!(!supported_alignment(0));
    assert!(!supported_alignment(3));
    assert!(!supported_alignment(24));
    assert!(!supported_alignment(32768));
}

#[test]
fn wrapper_layout_matches_anonymous_layout() {
    let anon = LayoutFact { size: 24, align: 8 };
    let w = wrapper_layout(anon).unwrap();
    assert_eq!(w.size, anon.size);
    assert!(w.align >= anon.align);
    assert_eq!(w, LayoutFact { size: 24, align: 8 });
}

#[test]
fn zero_sized_computation_is_supported() {
    let w = wrapper_layout(LayoutFact { size: 0, align: 1 }).unwrap();
    assert_eq!(w, LayoutFact { size: 0, align: 1 });
}

#[test]
fn unsupported_alignment_has_no_layout() {
    assert_eq!(wrapper_layout(LayoutFact { size: 98304, align: 32768 }), None);
}

#[test]
fn aligner_family_reports_its_alignment() {
    assert_eq!(Int::<1>.align_bytes(), 1);
    assert_eq!(Int::<8>.align_bytes(), 8);
    assert_eq!(Int::<256>.align_bytes(), 256);
    assert_eq!(Int::<16384>.align_bytes(), 16384);
}
