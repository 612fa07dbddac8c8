use dablog::post::Draft;
use dablog::table::PostTable;

fn draft(body: &str) -> Draft {
    Draft::untitled(String::from("2020-01-01T00:00:00+00:00"), String::from(body))
}

#[test]
fn a_new_table_is_empty() {
    let table = PostTable::new();
    assert_eq!(table.len(), 0);
    assert_eq!(table.last_id(), 0);
    assert_eq!(table.ids(), Vec::<i64>::new());
    assert!(table.find_by_id(1).is_none());
}

#[test]
fn ids_start_at_one_and_count_up() {
    let mut table = PostTable::new();
    assert_eq!(table.insert(draft("a")), Some(1));
    assert_eq!(table.insert(draft("b")), Some(2));
    assert_eq!(table.insert(draft("c")), Some(3));
    assert_eq!(table.ids(), vec![1, 2, 3]);
    assert_eq!(table.len(), 3);
    assert_eq!(table.last_id(), 3);
}

#[test]
fn ids_are_not_reused_after_a_delete() {
    let mut table = PostTable::new();
    assert_eq!(table.insert(draft("a")), Some(1));
    assert_eq!(table.insert(draft("b")), Some(2));
    assert!(table.delete_by_id(2));
    assert_eq!(table.insert(draft("c")), Some(3));
    assert!(table.delete_by_id(1));
    assert!(table.delete_by_id(3));
    assert_eq!(table.len(), 0);
    assert_eq!(table.insert(draft("d")), Some(4));
    assert_eq!(table.ids(), vec![4]);
    assert_eq!(table.last_id(), 4);
}

#[test]
fn each_new_id_exceeds_all_earlier_ones() {
    let mut table = PostTable::new();
    let mut greatest = 0;
    for round in 0..50 {
        let id = table.insert(draft("x")).unwrap();
        assert!(id > greatest);
        greatest = id;
        if round % 3 == 0 {
            assert!(table.delete_by_id(id));
        }
        if round % 7 == 0 {
            table.delete_by_id(1);
        }
    }
    assert_eq!(greatest, 50);
}

#[test]
fn a_post_is_found_as_it_was_stored() {
    let mut table = PostTable::new();
    table.insert(draft("first"));
    table.insert(Draft::greeting(String::from("then")));
    let post = table.find_by_id(1).unwrap();
    assert_eq!(post.id, 1);
    assert_eq!(post.created_at, "2020-01-01T00:00:00+00:00");
    assert_eq!(post.title, "Untitled post");
    assert_eq!(post.body, "first");
    let post = table.find_by_id(2).unwrap();
    assert_eq!(post.id, 2);
    assert_eq!(post.created_at, "then");
    assert_eq!(post.title, "Hello, World!");
    assert_eq!(post.body, "Hello, World! Welcome to my **dablog**.");
}

#[test]
fn an_id_never_handed_out_finds_nothing() {
    let mut table = PostTable::new();
    table.insert(draft("a"));
    assert!(table.find_by_id(0).is_none());
    assert!(table.find_by_id(-1).is_none());
    assert!(table.find_by_id(2).is_none());
    assert!(table.find_by_id(i64::MAX).is_none());
    assert!(table.find_by_id(i64::MIN).is_none());
}

#[test]
fn a_deleted_id_finds_nothing_ever_after() {
    let mut table = PostTable::new();
    table.insert(draft("a"));
    table.insert(draft("b"));
    assert!(table.delete_by_id(1));
    assert!(table.find_by_id(1).is_none());
    table.insert(draft("c"));
    assert!(table.find_by_id(1).is_none());
    assert_eq!(table.find_by_id(2).unwrap().body, "b");
    assert_eq!(table.find_by_id(3).unwrap().body, "c");
}

#[test]
fn deleting_twice_is_deleting_once() {
    let mut table = PostTable::new();
    table.insert(draft("a"));
    table.insert(draft("b"));
    table.insert(draft("c"));
    assert!(table.delete_by_id(2));
    let after_first = (table.ids(), table.last_id(), table.len());
    assert!(!table.delete_by_id(2));
    assert_eq!((table.ids(), table.last_id(), table.len()), after_first);
    assert_eq!(table.ids(), vec![1, 3]);
    assert_eq!(table.find_by_id(1).unwrap().body, "a");
    assert_eq!(table.find_by_id(3).unwrap().body, "c");
}

#[test]
fn deleting_what_is_not_there_changes_nothing() {
    let mut table = PostTable::new();
    assert!(!table.delete_by_id(1));
    table.insert(draft("a"));
    assert!(!table.delete_by_id(0));
    assert!(!table.delete_by_id(2));
    assert!(!table.delete_by_id(-1));
    assert_eq!(table.ids(), vec![1]);
    assert_eq!(table.last_id(), 1);
}

#[test]
fn a_delete_in_the_middle_keeps_the_order() {
    let mut table = PostTable::new();
    for body in ["a", "b", "c", "d", "e"] {
        table.insert(draft(body));
    }
    assert!(table.delete_by_id(3));
    assert_eq!(table.ids(), vec![1, 2, 4, 5]);
    assert!(table.delete_by_id(1));
    assert_eq!(table.ids(), vec![2, 4, 5]);
    assert!(table.delete_by_id(5));
    assert_eq!(table.ids(), vec![2, 4]);
}

#[test]
fn drafts_and_posts_copy_faithfully() {
    let d = Draft::untitled(String::from("when"), String::from("what"));
    let copy = d.duplicate();
    assert_eq!(copy.created_at, "when");
    assert_eq!(copy.title, "Untitled post");
    assert_eq!(copy.body, "what");
    let post = d.into_post(9);
    let twin = post.duplicate();
    assert_eq!(twin.id, 9);
    assert_eq!(twin.created_at, "when");
    assert_eq!(twin.title, "Untitled post");
    assert_eq!(twin.body, "what");
    assert_eq!(post.render(), "Untitled post\nwhat\n");
}

#[test]
fn a_table_that_was_emptied_goes_on_counting() {
    let mut table = PostTable::emptied(41).unwrap();
    assert_eq!(table.len(), 0);
    assert_eq!(table.last_id(), 41);
    assert!(table.find_by_id(41).is_none());
    assert_eq!(table.insert(draft("a")), Some(42));
    assert_eq!(table.ids(), vec![42]);
    assert!(PostTable::emptied(-1).is_none());
    assert!(PostTable::emptied(i64::MIN).is_none());
    let table = PostTable::emptied(0).unwrap();
    assert_eq!(table.last_id(), 0);
}

#[test]
fn when_the_ids_have_run_out_nothing_more_is_stored() {
    let mut table = PostTable::emptied(i64::MAX - 1).unwrap();
    assert_eq!(table.insert(draft("last")), Some(i64::MAX));
    assert_eq!(table.insert(draft("one too many")), None);
    assert_eq!(table.ids(), vec![i64::MAX]);
    assert_eq!(table.last_id(), i64::MAX);
    assert!(table.delete_by_id(i64::MAX));
    assert_eq!(table.insert(draft("still too many")), None);
    assert_eq!(table.len(), 0);
    assert_eq!(table.last_id(), i64::MAX);
}
