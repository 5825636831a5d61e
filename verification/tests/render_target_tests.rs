use direct2d::error::{succeeded, Error};
use direct2d::render_target::{RenderTag, TagTable};

const E_FAIL: i32 = 0x8000_4005_u32 as i32;
const D2DERR_RECREATE_TARGET: i32 = 0x8899_000C_u32 as i32;

#[test]
fn succeeded_is_the_sign_test() {
    assert!(succeeded(0));
    assert!(succeeded(1));
    assert!(succeeded(i32::MAX));
    assert!(!succeeded(-1));
    assert!(!succeeded(E_FAIL));
    assert!(!succeeded(i32::MIN));
}

#[test]
fn error_from_hresult() {
    assert_eq!(Error::from(E_FAIL), Error::ComError(E_FAIL));
}

#[test]
fn zero_tag_is_no_tag() {
    let table = TagTable::new();
    assert!(table.make_tag(0, 0).is_none());
    assert!(table.make_tag(0, 12).is_none());
}

#[test]
fn set_then_make_tag_round_trip() {
    let mut table = TagTable::new();
    let tag = RenderTag { loc: "src/main.rs:10" };
    let (t1, t2) = table.set_tag(tag);
    assert_eq!(t1, 1);
    assert_eq!(t2, 14);
    let back = table.make_tag(t1, t2).unwrap();
    assert_eq!(back.loc, "src/main.rs:10");
}

#[test]
fn same_location_reuses_its_pair() {
    let mut table = TagTable::new();
    let a = table.set_tag(RenderTag { loc: "a.rs:1" });
    let b = table.set_tag(RenderTag { loc: "b.rs:2" });
    let a_again = table.set_tag(RenderTag { loc: "a.rs:1" });
    assert_eq!(a, (1, 6));
    assert_eq!(b, (2, 6));
    assert_eq!(a_again, a);
    assert_eq!(table.make_tag(a.0, a.1).unwrap().loc, "a.rs:1");
    assert_eq!(table.make_tag(b.0, b.1).unwrap().loc, "b.rs:2");
}

#[test]
fn unknown_pairs_are_no_tag() {
    let mut table = TagTable::new();
    let (t1, t2) = table.set_tag(RenderTag { loc: "x.rs:3" });
    assert!(table.make_tag(t1 + 1, t2).is_none());
    assert!(table.make_tag(t1, t2 + 1).is_none());
    assert!(table.make_tag(u64::MAX, t2).is_none());
}

#[test]
fn non_ascii_location_length_is_in_bytes() {
    let mut table = TagTable::new();
    let (t1, t2) = table.set_tag(RenderTag { loc: "é.rs:1" });
    assert_eq!(t2, 7);
    assert_eq!(table.make_tag(t1, t2).unwrap().loc, "é.rs:1");
}

#[test]
fn draw_result_success() {
    let table = TagTable::new();
    assert!(table.draw_result(0, 0, 0).is_ok());
    assert!(table.draw_result(1, 5, 5).is_ok());
}

#[test]
fn draw_result_failure_with_tag() {
    let mut table = TagTable::new();
    let (t1, t2) = table.set_tag(RenderTag { loc: "draw.rs:42" });
    match table.draw_result(D2DERR_RECREATE_TARGET, t1, t2) {
        Err((err, Some(tag))) => {
            assert_eq!(err, Error::ComError(D2DERR_RECREATE_TARGET));
            assert_eq!(tag.loc, "draw.rs:42");
        }
        _ => panic!("expected an error with a tag"),
    }
}

#[test]
fn draw_result_failure_without_tag() {
    let table = TagTable::new();
    match table.draw_result(E_FAIL, 0, 0) {
        Err((err, None)) => assert_eq!(err, Error::ComError(E_FAIL)),
        _ => panic!("expected an error without a tag"),
    }
}

#[test]
fn prefix_locations_are_distinct() {
    let mut table = TagTable::new();
    let short = table.set_tag(RenderTag { loc: "a.rs:1" });
    let long = table.set_tag(RenderTag { loc: "a.rs:10" });
    let other = table.set_tag(RenderTag { loc: "a.rs:2" });
    assert_eq!(short, (1, 6));
    assert_eq!(long, (2, 7));
    assert_eq!(other, (3, 6));
    assert_eq!(table.len(), 3);
    assert_eq!(table.make_tag(long.0, long.1).unwrap().loc, "a.rs:10");
}
