use slog::BorrowedKV;
use slog::OwnedKVList;

fn pair(k: &str, v: &str) -> (String, String) {
    (k.to_string(), v.to_string())
}

#[test]
fn borrowed_to_vec_keeps_order_and_values() {
    let kv = BorrowedKV(&[("a", "1"), ("b", "2"), ("c", "3")]);
    assert_eq!(kv.to_vec(), vec![pair("a", "1"), pair("b", "2"), pair("c", "3")]);
}

#[test]
fn borrowed_to_vec_of_nothing_is_empty() {
    let kv = BorrowedKV(&[]);
    assert_eq!(kv.to_vec(), Vec::<(String, String)>::new());
}

#[test]
fn borrowed_is_copied_freely() {
    let kv = BorrowedKV(&[("a", "1")]);
    let again = kv;
    assert_eq!(kv.0, again.0);
}

#[test]
fn root_hands_out_the_last_pair_first() {
    let list = OwnedKVList::root(vec![pair("a", "1"), pair("b", "2"), pair("c", "3")]);
    assert_eq!(list.to_vec(), vec![pair("c", "3"), pair("b", "2"), pair("a", "1")]);
}

#[test]
fn empty_root_holds_nothing() {
    let list = OwnedKVList::root(Vec::new());
    assert_eq!(list.to_vec(), Vec::<(String, String)>::new());
    assert_eq!(list.debug_string(), "()");
}

#[test]
fn new_node_comes_before_its_parent() {
    let parent = OwnedKVList::root(vec![pair("a", "1"), pair("b", "2")]);
    let child = OwnedKVList::new(vec![pair("c", "3"), pair("d", "4")], &parent);
    assert_eq!(
        child.to_vec(),
        vec![pair("d", "4"), pair("c", "3"), pair("b", "2"), pair("a", "1")]
    );
    assert_eq!(parent.to_vec(), vec![pair("b", "2"), pair("a", "1")]);
}

#[test]
fn empty_node_adds_nothing() {
    let parent = OwnedKVList::root(vec![pair("a", "1")]);
    let child = OwnedKVList::new(Vec::new(), &parent);
    assert_eq!(child.to_vec(), vec![pair("a", "1")]);
}

#[test]
fn chain_of_three_nodes() {
    let a = OwnedKVList::root(vec![pair("a", "1")]);
    let b = OwnedKVList::new(vec![pair("b", "2")], &a);
    let c = OwnedKVList::new(vec![pair("c", "3")], &b);
    assert_eq!(c.debug_string(), "(c, b, a)");
    assert_eq!(b.debug_string(), "(b, a)");
    assert_eq!(a.debug_string(), "(a)");
}

#[test]
fn join_hands_out_front_then_back() {
    let front = OwnedKVList::root(vec![pair("a", "1"), pair("b", "2")]);
    let back = OwnedKVList::new(vec![pair("c", "3")], &OwnedKVList::root(vec![pair("d", "4")]));
    let both = OwnedKVList::join(&front, &back);
    assert_eq!(
        both.to_vec(),
        vec![pair("b", "2"), pair("a", "1"), pair("c", "3"), pair("d", "4")]
    );
    assert_eq!(both.debug_string(), "(b, a, c, d)");
    assert_eq!(front.debug_string(), "(b, a)");
    assert_eq!(back.debug_string(), "(c, d)");
}

#[test]
fn join_with_empty_sides() {
    let empty = OwnedKVList::root(Vec::new());
    let some = OwnedKVList::root(vec![pair("a", "1")]);
    assert_eq!(OwnedKVList::join(&empty, &some).debug_string(), "(a)");
    assert_eq!(OwnedKVList::join(&some, &empty).debug_string(), "(a)");
    assert_eq!(OwnedKVList::join(&empty, &empty).debug_string(), "()");
}

#[test]
fn join_of_joins() {
    let a = OwnedKVList::root(vec![pair("a", "1")]);
    let b = OwnedKVList::root(vec![pair("b", "2")]);
    let c = OwnedKVList::root(vec![pair("c", "3")]);
    let ab = OwnedKVList::join(&a, &b);
    let abc = OwnedKVList::join(&ab, &c);
    let child = OwnedKVList::new(vec![pair("z", "0")], &abc);
    assert_eq!(child.debug_string(), "(z, a, b, c)");
}

#[test]
fn same_key_may_occur_twice() {
    let parent = OwnedKVList::root(vec![pair("k", "old")]);
    let child = OwnedKVList::new(vec![pair("k", "new")], &parent);
    assert_eq!(child.to_vec(), vec![pair("k", "new"), pair("k", "old")]);
    assert_eq!(child.debug_string(), "(k, k)");
}

#[test]
fn keys_with_unusual_text() {
    let list = OwnedKVList::root(vec![pair("", "1"), pair("a, b", "2"), pair("ключ", "3")]);
    assert_eq!(list.debug_string(), "(ключ, a, b, )");
}
