use book_pages::links::{
    link_line, link_pages, link_target, next_link, place_links, prev_link, LinkPlacement,
};
use book_pages::page::Page;

fn pages(items: &[(&str, &str)]) -> Vec<Page> {
    items
        .iter()
        .map(|(name, content)| Page::new(name.to_string(), content.to_string()))
        .collect()
}

#[test]
fn link_target_joins_with_one_slash() {
    assert_eq!(
        link_target("https://example.com/repo", "02-intro.md"),
        "https://example.com/repo/02-intro.md"
    );
}

#[test]
fn first_and_last_pages_show_bare_labels() {
    let run = pages(&[("a.md", "A"), ("b.md", "B"), ("c.md", "C"), ("d.md", "D")]);
    assert_eq!(prev_link(&run, 0, "https://x/y"), "Prev");
    assert_eq!(next_link(&run, 3, "https://x/y"), "Next");
    assert_eq!(next_link(&run, 0, "https://x/y"), "[Next](https://x/y/b.md)");
    assert_eq!(prev_link(&run, 3, "https://x/y"), "[Prev](https://x/y/c.md)");
}

#[test]
fn inner_pages_link_to_direct_neighbours() {
    let run = pages(&[("a.md", "A"), ("b.md", "B"), ("c.md", "C"), ("d.md", "D")]);
    for i in 1..3 {
        let prev = format!("[Prev](https://x/y/{})", run[i - 1].file_name);
        let next = format!("[Next](https://x/y/{})", run[i + 1].file_name);
        assert_eq!(prev_link(&run, i, "https://x/y"), prev);
        assert_eq!(next_link(&run, i, "https://x/y"), next);
    }
}

#[test]
fn single_page_has_no_neighbours() {
    let run = pages(&[("only.md", "Only")]);
    assert_eq!(prev_link(&run, 0, "https://x/y"), "Prev");
    assert_eq!(next_link(&run, 0, "https://x/y"), "Next");
    let linked = link_pages(&run, "https://x/y", LinkPlacement::AppendOnly);
    assert_eq!(linked, pages(&[("only.md", "Only\n\nPrev | Next")]));
}

#[test]
fn empty_run_gives_no_pages() {
    let run: Vec<Page> = Vec::new();
    assert!(link_pages(&run, "https://x/y", LinkPlacement::AppendOnly).is_empty());
    assert!(link_pages(&run, "https://x/y", LinkPlacement::WrapContent).is_empty());
}

#[test]
fn link_line_joins_both_links_with_a_bar() {
    let run = pages(&[("a.md", "A"), ("b.md", "B")]);
    assert_eq!(link_line(&run, 0, "u"), "Prev | [Next](u/b.md)");
    assert_eq!(link_line(&run, 1, "u"), "[Prev](u/a.md) | Next");
}

#[test]
fn placement_styles() {
    assert_eq!(place_links("T", "L", LinkPlacement::AppendOnly), "T\n\nL");
    assert_eq!(place_links("T", "L", LinkPlacement::WrapContent), "L\n\nT\n\nL");
    assert_eq!(place_links("", "", LinkPlacement::WrapContent), "\n\n\n\n");
}

#[test]
fn wrapped_scenario_of_three_pages() {
    let run = pages(&[("a.md", "A"), ("b.md", "B"), ("c.md", "C")]);
    let linked = link_pages(&run, "https://x/y", LinkPlacement::WrapContent);
    assert_eq!(linked.len(), 3);
    assert_eq!(linked[1].file_name, "b.md");
    assert_eq!(
        linked[1].content,
        "[Prev](https://x/y/a.md) | [Next](https://x/y/c.md)\n\nB\n\n[Prev](https://x/y/a.md) | [Next](https://x/y/c.md)"
    );
    assert_eq!(linked[0].content, "Prev | [Next](https://x/y/b.md)\n\nA\n\nPrev | [Next](https://x/y/b.md)");
    assert_eq!(linked[2].content, "[Prev](https://x/y/b.md) | Next\n\nC\n\n[Prev](https://x/y/b.md) | Next");
}

#[test]
fn appended_scenario_of_three_pages() {
    let run = pages(&[("a.md", "A"), ("b.md", "B"), ("c.md", "C")]);
    let linked = link_pages(&run, "https://x/y", LinkPlacement::AppendOnly);
    assert_eq!(
        linked,
        pages(&[
            ("a.md", "A\n\nPrev | [Next](https://x/y/b.md)"),
            ("b.md", "B\n\n[Prev](https://x/y/a.md) | [Next](https://x/y/c.md)"),
            ("c.md", "C\n\n[Prev](https://x/y/b.md) | Next"),
        ])
    );
}

#[test]
fn linking_twice_appends_links_again() {
    let run = pages(&[("a.md", "A"), ("b.md", "B")]);
    let once = link_pages(&run, "u", LinkPlacement::AppendOnly);
    let twice = link_pages(&once, "u", LinkPlacement::AppendOnly);
    assert_ne!(once, twice);
    assert_eq!(twice[0].content, "A\n\nPrev | [Next](u/b.md)\n\nPrev | [Next](u/b.md)");
    assert_eq!(twice[1].content, "B\n\n[Prev](u/a.md) | Next\n\n[Prev](u/a.md) | Next");
    for i in 0..2 {
        assert_eq!(twice[i].file_name, run[i].file_name);
        assert!(twice[i].content.len() > once[i].content.len());
    }
    let wrapped = link_pages(&run, "u", LinkPlacement::WrapContent);
    let rewrapped = link_pages(&wrapped, "u", LinkPlacement::WrapContent);
    assert_eq!(
        rewrapped[0].content,
        "Prev | [Next](u/b.md)\n\nPrev | [Next](u/b.md)\n\nA\n\nPrev | [Next](u/b.md)\n\nPrev | [Next](u/b.md)"
    );
}

#[test]
fn link_target_is_not_escaped() {
    assert_eq!(link_target("a b/", "c d.md"), "a b//c d.md");
    assert_eq!(link_target("", ""), "/");
}
