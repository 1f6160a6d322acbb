use zakki::pass::toc_pass::toc::TocBuilder;

fn toc_of(items: &[(&str, &str, usize)]) -> String {
    let mut builder = TocBuilder::new();
    for (title, id, level) in items {
        builder.add_item(title.to_string(), id.to_string(), *level);
    }
    builder.build().to_html()
}

#[test]
fn empty_toc_is_empty() {
    assert_eq!(toc_of(&[]), "");
}

#[test]
fn one_item() {
    assert_eq!(toc_of(&[("A", "1", 1)]), "<ul><li><a href=\"#1\">A</a></li></ul>");
}

#[test]
fn nested_sublist_under_the_first_item() {
    // headings at levels 2, 3, 3, 2
    assert_eq!(
        toc_of(&[("A", "1", 1), ("B", "1.1", 2), ("C", "1.2", 2), ("D", "2", 1)]),
        "<ul><li><a href=\"#1\">A</a>\
         <ul><li><a href=\"#1.1\">B</a></li><li><a href=\"#1.2\">C</a></li></ul>\
         </li><li><a href=\"#2\">D</a></li></ul>"
    );
}

#[test]
fn a_jump_of_two_levels_opens_two_lists() {
    assert_eq!(
        toc_of(&[("A", "1", 1), ("B", "1", 3)]),
        "<ul><li><a href=\"#1\">A</a><ul><li><ul><li><a href=\"#1\">B</a></li></ul></li></ul></li></ul>"
    );
}

#[test]
fn a_climb_of_two_levels_closes_two_lists() {
    assert_eq!(
        toc_of(&[("A", "a", 3), ("B", "b", 1)]),
        "<ul><li><ul><li><ul><li><a href=\"#a\">A</a></li></ul></li></ul></li><li><a href=\"#b\">B</a></li></ul>"
    );
}

#[test]
fn an_item_at_level_zero_is_a_sibling_outside_any_list() {
    assert_eq!(toc_of(&[("A", "a", 0)]), "</li><li><a href=\"#a\">A</a>");
}
