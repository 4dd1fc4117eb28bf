use mqi::mqserver::{mqserver_split, mqserver_split_lazy};

#[test]
fn greedy_split() {
    assert_eq!(mqserver_split("SYSTEM.DEF.SVRCONN/TCP/host(1414)"), Some(("SYSTEM.DEF.SVRCONN", "TCP", "host(1414)")));
    assert_eq!(mqserver_split("a/b/c/d"), Some(("a/b", "c", "d")));
    assert_eq!(mqserver_split("a/b/c/"), Some(("a", "b", "c/")));
    assert_eq!(mqserver_split("a/b"), None);
    assert_eq!(mqserver_split("/b/c"), None);
    assert_eq!(mqserver_split("a//c"), None);
    assert_eq!(mqserver_split("a\n/b/c"), None);
    assert_eq!(mqserver_split("invalid"), None);
}

#[test]
fn lazy_split() {
    assert_eq!(mqserver_split_lazy("ab/c/d/e"), Some(("ab", "c", "d/e")));
    assert_eq!(mqserver_split_lazy("a/b//c"), Some(("a", "b", "/c")));
    let long = format!("{}/TCP/host", "a".repeat(21));
    assert_eq!(mqserver_split_lazy(&long), None);
    assert!(mqserver_split(&long).is_some());
    let wide = format!("{}/TCP/host", "\u{e9}".repeat(20));
    assert_eq!(mqserver_split_lazy(&wide).map(|(c, ..)| c.chars().count()), Some(20));
    let conn = format!("C/TCP/{}", "h".repeat(265));
    assert_eq!(mqserver_split_lazy(&conn), None);
    let conn2 = format!("C/TCP/x/{}", "h".repeat(264));
    assert_eq!(mqserver_split_lazy(&conn2).map(|(_, t, n)| (t.len(), n.len())), Some((5, 264)));
}
