use nvim_api_helper::error::Error;
use nvim_api_helper::lua::{lua_get_global_path, lua_get_value_path, PathStep};
use nvim_api_helper::text::{split_ranges, typing_offset};

#[test]
fn split_at_dots() {
    assert_eq!(split_ranges(b"a.bc.d", b'.'), vec![(0, 1), (2, 4), (5, 6)]);
    assert_eq!(split_ranges(b"", b'.'), vec![(0, 0)]);
    assert_eq!(split_ranges(b"require", b'.'), vec![(0, 7)]);
    assert_eq!(split_ranges(b".a.", b'.'), vec![(0, 0), (1, 2), (3, 3)]);
}

#[test]
fn typing_moves_by_rows_and_tail() {
    assert_eq!(typing_offset("test "), (0, 5));
    assert_eq!(typing_offset("a\nbc"), (1, 2));
    assert_eq!(typing_offset("one\ntwo\n"), (2, 0));
    assert_eq!(typing_offset(""), (0, 0));
}

#[test]
fn value_path_needs_a_table() {
    assert!(matches!(lua_get_value_path(false, "a.b"), Err(Error::InvalidType)));
}

#[test]
fn value_path_descends_then_finishes() {
    let path = "vim.fn.has";
    let mut walk = lua_get_value_path(true, path).unwrap();
    assert_eq!(walk.next_step(), Some(PathStep::Descend(0, 3)));
    assert_eq!(walk.next_step(), Some(PathStep::Descend(4, 6)));
    assert_eq!(walk.next_step(), Some(PathStep::Finish(7, 10)));
    assert_eq!(walk.next_step(), None);
    assert_eq!(&path[7..10], "has");
}

#[test]
fn global_path_with_one_key() {
    let mut walk = lua_get_global_path("require");
    assert_eq!(walk.next_step(), Some(PathStep::Finish(0, 7)));
    assert_eq!(walk.next_step(), None);
}
