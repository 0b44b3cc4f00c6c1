use lsr::listing::{contains_text, entry_name, keep_entry, select_entries, wants_canonical_start};
use lsr::text::u32_to_decimal;

fn s(x: &str) -> String {
    x.to_string()
}

#[test]
fn entry_name_drops_two_bytes() {
    assert_eq!(entry_name(&s("./foo")), "foo");
    assert_eq!(entry_name(&s("./")), "");
    assert_eq!(entry_name(&s("/home/x")), "ome/x");
    assert_eq!(entry_name(&s("éa")), "a");
}

#[test]
fn contains_text_matches_str_contains() {
    let cases = [("hello", "ll"), ("hello", ""), ("", ""), ("", "a"), ("abc", "abcd"), ("aab", "ab"), ("héllo", "él"), ("abc", "c"), ("abc", "x")];
    for (h, n) in cases {
        assert_eq!(contains_text(&s(h), &s(n)), h.contains(n), "{} {}", h, n);
    }
}

#[test]
fn keep_entry_with_filter() {
    assert!(keep_entry(&s("anything"), &s("")));
    assert!(keep_entry(&s("main.rs"), &s(".rs")));
    assert!(!keep_entry(&s("main.rs"), &s(".py")));
}

#[test]
fn select_entries_strips_and_filters() {
    let paths = vec![s("./a.rs"), s("./b.py"), s("./c.rs")];
    assert_eq!(select_entries(&paths, &s(".rs")), vec![s("a.rs"), s("c.rs")]);
    assert_eq!(select_entries(&paths, &s("")), vec![s("a.rs"), s("b.py"), s("c.rs")]);
    assert!(select_entries(&paths, &s("zzz")).is_empty());
    assert!(select_entries(&vec![], &s("")).is_empty());
}

#[test]
fn every_selected_entry_passes_the_filter() {
    let paths = vec![s("./xa"), s("./ya"), s("./ab"), s("./b")];
    for f in ["a", "b", "y", ""] {
        let sel = select_entries(&paths, &s(f));
        assert!(sel.len() <= paths.len());
        for e in &sel {
            assert!(e.contains(f));
        }
    }
}

#[test]
fn canonical_start() {
    assert!(!wants_canonical_start(&s("./")));
    assert!(wants_canonical_start(&s(".")));
    assert!(wants_canonical_start(&s("/tmp")));
    assert!(wants_canonical_start(&s("./x")));
    assert!(wants_canonical_start(&s("")));
}

#[test]
fn decimal_reads_back() {
    for n in [0u32, 1, 9, 10, 99, 100, 493, 16877, 33188, 4294967295] {
        let d = u32_to_decimal(n);
        assert_eq!(d, n.to_string());
        assert_eq!(d.parse::<u32>().unwrap(), n);
        assert!(d.len() == 1 || !d.starts_with('0'));
    }
}
