use mail_composer::identity::{
    clear_defaults, copy_list, find_from_email, insert_from_email, modify_from_email,
    remove_from_email, FromEmail,
};
use mail_composer::error::ErrorKind;

fn id(x: &str, d: bool) -> FromEmail {
    FromEmail {
        id: x.to_string(),
        label: format!("{x} label"),
        address: format!("{x}@example.com"),
        is_default: d,
    }
}

#[test]
fn clear_defaults_turns_every_flag_off() {
    let mut v = vec![id("a", true), id("b", false), id("c", true)];
    clear_defaults(&mut v);
    assert_eq!(v, vec![id("a", false), id("b", false), id("c", false)]);
}

#[test]
fn copy_list_is_equal() {
    let v = vec![id("a", true), id("b", false)];
    assert_eq!(copy_list(&v), v);
}

#[test]
fn insert_default_on_empty_list() {
    let mut v: Vec<FromEmail> = vec![];
    let e = insert_from_email(&mut v, "x".to_string(), "X".to_string(), "x@e.com".to_string(), true);
    assert_eq!(v, vec![e.clone()]);
    assert!(e.is_default);
}

#[test]
fn find_picks_first_match() {
    let v = vec![id("a", false), id("b", false), id("b", true)];
    assert_eq!(find_from_email(&v, &"b".to_string()), Some(1));
    assert_eq!(find_from_email(&v, &"q".to_string()), None);
}

#[test]
fn modify_edits_first_match_only() {
    let mut v = vec![id("a", true), id("b", false), id("b", false)];
    let e = modify_from_email(&mut v, &"b".to_string(), None, Some("n@e.com".to_string()), Some(true))
        .unwrap();
    assert_eq!(e.address, "n@e.com");
    assert_eq!(v[1], e);
    assert_eq!(v[0], id("a", false));
    assert_eq!(v[2], id("b", false));
}

#[test]
fn remove_drops_every_match() {
    let mut v = vec![id("a", false), id("b", true), id("a", false)];
    assert_eq!(remove_from_email(&mut v, &"a".to_string()), Ok(()));
    assert_eq!(v, vec![id("b", true)]);
    assert_eq!(
        remove_from_email(&mut v, &"a".to_string()),
        Err(ErrorKind::NotFound { id: "a".to_string() })
    );
    assert_eq!(v, vec![id("b", true)]);
}
