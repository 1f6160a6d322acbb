use zakki::context::{Flag, RenderingContext};
use zakki::error::{Field, RenderError};
use zakki::event::{
    Alignment, CodeBlockKind, Event, HeadingLevel, LinkType, MetadataBlockKind, Tag, TagEnd,
};
use zakki::pass::assign_header_id::{assign_header_id, gen_id};
use zakki::pass::convert_math_pass::{convert_math_pass, math_replacement};
use zakki::pass::get_title_pass::{get_title_pass, DEFAULT_TITLE};
use zakki::pass::highlight_code_pass::{
    apply_all, highlight_code_pass, rewritten_or, HighlightRule,
};
use zakki::pass::image_convert_pass::{image_convert_pass, make_figure};
use zakki::pass::link_adjust_pass::{adjust_url, link_adjust_pass};
use zakki::pass::read_header_pass::{
    header_text, is_suppressed_draft, read_header_pass, YamlHeader,
};
use zakki::pass::table_wrapper_pass::table_wrapper_pass;
use zakki::pass::toc_pass::toc_pass;
use zakki::pass::{run_pass, Pass, PassManager};

fn text(s: &str) -> Event {
    Event::Text(s.to_string())
}

fn heading(level: HeadingLevel) -> Event {
    Event::Start(Tag::Heading { level, id: None, classes: vec![], attrs: vec![] })
}

fn heading_with_id(level: HeadingLevel, id: &str) -> Event {
    Event::Start(Tag::Heading {
        level,
        id: Some(id.to_string()),
        classes: vec![],
        attrs: vec![],
    })
}

fn heading_end(level: HeadingLevel) -> Event {
    Event::End(TagEnd::Heading(level))
}

fn titled(level: HeadingLevel, title: &str) -> Vec<Event> {
    vec![heading(level), text(title), heading_end(level)]
}

fn link(url: &str) -> Event {
    Event::Start(Tag::Link {
        link_type: LinkType::Inline,
        dest_url: url.to_string(),
        title: "t".to_string(),
        id: "i".to_string(),
    })
}

fn image(link_type: LinkType, url: &str, title: &str) -> Event {
    Event::Start(Tag::Image {
        link_type,
        dest_url: url.to_string(),
        title: title.to_string(),
        id: String::new(),
    })
}

fn front_matter(yaml: &str) -> Vec<Event> {
    vec![
        Event::Start(Tag::MetadataBlock(MetadataBlockKind::YamlStyle)),
        text(yaml),
        Event::End(TagEnd::MetadataBlock(MetadataBlockKind::YamlStyle)),
    ]
}

fn header(flags: Vec<Flag>) -> YamlHeader {
    YamlHeader {
        create_date: "2024-01-02".to_string(),
        last_update_date: "2024-03-04".to_string(),
        tags: vec!["rust".to_string(), "verus".to_string()],
        flags,
        password: None,
        highlights: None,
    }
}

fn ids_of(events: &[Event]) -> Vec<Option<String>> {
    events
        .iter()
        .filter_map(|event| match event {
            Event::Start(Tag::Heading { id, .. }) => Some(id.clone()),
            _ => None,
        })
        .collect()
}

// ---- ReadHeader -----------------------------------------------------------

#[test]
fn document_without_front_matter_fails_with_header_parse_error() {
    let events = titled(HeadingLevel::H1, "T");
    assert_eq!(header_text(&events), None);
    let mut ctxt = RenderingContext::new();
    let result = read_header_pass(events.clone(), &mut ctxt, Ok(header(vec![])));
    assert!(matches!(result, Err(RenderError::HeaderParseError(_))));
    assert_eq!(
        result.unwrap_err().message(),
        "Failed to read the header: Yaml header is not existing."
    );
    // the context is untouched
    assert_eq!(
        ctxt.create_date(),
        Err(RenderError::MissingRequiredField(Field::CreateDate))
    );
    let result = read_header_pass(events, &mut ctxt, Err("no text".to_string()));
    assert_eq!(
        result,
        Err(RenderError::HeaderParseError("Yaml header is not existing.".to_string()))
    );
}

#[test]
fn front_matter_in_pluses_is_no_front_matter() {
    let events = vec![
        Event::Start(Tag::MetadataBlock(MetadataBlockKind::PlusesStyle)),
        text("create = 1"),
        Event::End(TagEnd::MetadataBlock(MetadataBlockKind::PlusesStyle)),
    ];
    assert_eq!(header_text(&events), None);
}

#[test]
fn empty_front_matter_block_is_no_front_matter() {
    let events = vec![
        Event::Start(Tag::MetadataBlock(MetadataBlockKind::YamlStyle)),
        Event::End(TagEnd::MetadataBlock(MetadataBlockKind::YamlStyle)),
        text("later"),
    ];
    assert_eq!(header_text(&events), None);
}

#[test]
fn header_text_is_the_first_text_of_the_block() {
    let mut events = vec![text("before")];
    events.extend(front_matter("create: 2024-01-02"));
    events.extend(front_matter("second"));
    assert_eq!(header_text(&events), Some(&"create: 2024-01-02".to_string()));
}

#[test]
fn malformed_front_matter_fails_with_its_reason() {
    let events = front_matter(": :");
    let mut ctxt = RenderingContext::new();
    let result = read_header_pass(events, &mut ctxt, Err("bad yaml".to_string()));
    assert_eq!(result, Err(RenderError::HeaderParseError("bad yaml".to_string())));
    assert!(ctxt.tags().is_err());
}

#[test]
fn read_header_fills_the_context() {
    let events = front_matter("create: 2024-01-02");
    let mut ctxt = RenderingContext::new();
    ctxt.set_password("site".to_string());
    let out = read_header_pass(events.clone(), &mut ctxt, Ok(header(vec![Flag::Crypto])));
    assert_eq!(out, Ok(events));
    assert_eq!(ctxt.create_date().unwrap(), "2024-01-02");
    assert_eq!(ctxt.last_update_date().unwrap(), "2024-03-04");
    assert_eq!(ctxt.tags().unwrap(), &vec!["rust".to_string(), "verus".to_string()]);
    assert_eq!(ctxt.flags().unwrap(), &vec![Flag::Crypto]);
    // what the header does not give stays
    assert_eq!(ctxt.password().unwrap(), "site");
    assert_eq!(
        ctxt.highlights(),
        Err(RenderError::MissingRequiredField(Field::Highlights))
    );
}

#[test]
fn header_password_and_rules_replace_the_context_s() {
    let rule = HighlightRule {
        delim: ["<<".to_string(), ">>".to_string()],
        style: "color: red".to_string(),
    };
    let mut ctxt = RenderingContext::new();
    ctxt.set_password("site".to_string());
    let yaml = YamlHeader {
        password: Some("page".to_string()),
        highlights: Some(vec![rule.clone()]),
        ..header(vec![])
    };
    yaml.merge_into(&mut ctxt);
    assert_eq!(ctxt.password().unwrap(), "page");
    assert_eq!(ctxt.highlights().unwrap(), &vec![rule]);
}

#[test]
fn draft_is_suppressed_unless_drafts_are_rendered() {
    let mut ctxt = RenderingContext::new();
    assert_eq!(
        is_suppressed_draft(&ctxt, false),
        Err(RenderError::MissingRequiredField(Field::Flags))
    );
    ctxt.set_flags(vec![Flag::Crypto, Flag::Draft]);
    assert_eq!(is_suppressed_draft(&ctxt, false), Ok(true));
    assert_eq!(is_suppressed_draft(&ctxt, true), Ok(false));
    ctxt.set_flags(vec![Flag::Crypto]);
    assert_eq!(is_suppressed_draft(&ctxt, false), Ok(false));
    assert_eq!(is_suppressed_draft(&ctxt, true), Ok(false));
}

// ---- GetTitle -------------------------------------------------------------

#[test]
fn title_is_the_first_text_of_the_first_h1() {
    let mut events = titled(HeadingLevel::H2, "not this");
    events.extend(vec![
        heading(HeadingLevel::H1),
        Event::Start(Tag::Emphasis),
        text("The"),
        Event::End(TagEnd::Emphasis),
        text(" title"),
        heading_end(HeadingLevel::H1),
    ]);
    events.extend(titled(HeadingLevel::H1, "second"));
    let mut ctxt = RenderingContext::new();
    let out = get_title_pass(events.clone(), &mut ctxt).unwrap();
    assert_eq!(out, events);
    assert_eq!(ctxt.title().unwrap(), "The");
}

#[test]
fn document_without_h1_gets_the_default_title() {
    let events = titled(HeadingLevel::H2, "A");
    let mut ctxt = RenderingContext::new();
    get_title_pass(events, &mut ctxt).unwrap();
    assert_eq!(ctxt.title().unwrap(), DEFAULT_TITLE);
    assert_eq!(DEFAULT_TITLE, "Untitled");
}

#[test]
fn h1_without_text_gets_the_default_title() {
    let events = vec![
        heading(HeadingLevel::H1),
        Event::Code("code".to_string()),
        heading_end(HeadingLevel::H1),
        text("body"),
    ];
    let mut ctxt = RenderingContext::new();
    get_title_pass(events, &mut ctxt).unwrap();
    assert_eq!(ctxt.title().unwrap(), DEFAULT_TITLE);
}

// ---- LinkAdjust -----------------------------------------------------------

#[test]
fn local_markdown_link_points_at_the_page() {
    assert_eq!(adjust_url("notes.md"), "notes.html");
    assert_eq!(adjust_url("https://x.com/y.md"), "https://x.com/y.md");
}

#[test]
fn other_links_stay() {
    assert_eq!(adjust_url("http://x.com/y.md"), "http://x.com/y.md");
    assert_eq!(adjust_url("dir/notes.md"), "dir/notes.html");
    assert_eq!(adjust_url("../メモ.md"), "../メモ.html");
    assert_eq!(adjust_url("notes.md#part"), "notes.md#part");
    assert_eq!(adjust_url("image.png"), "image.png");
    assert_eq!(adjust_url(".md"), ".html");
    assert_eq!(adjust_url("md"), "md");
    assert_eq!(adjust_url(""), "");
    assert_eq!(adjust_url("ftp://x.com/y.md"), "ftp://x.com/y.html");
}

#[test]
fn link_adjust_pass_rewrites_links_only() {
    let events = vec![
        link("notes.md"),
        text("notes.md"),
        Event::End(TagEnd::Link),
        link("https://x.com/y.md"),
        Event::End(TagEnd::Link),
        image(LinkType::Inline, "pic.md", ""),
    ];
    let mut ctxt = RenderingContext::new();
    let out = link_adjust_pass(events, &mut ctxt).unwrap();
    assert_eq!(
        out,
        vec![
            link("notes.html"),
            text("notes.md"),
            Event::End(TagEnd::Link),
            link("https://x.com/y.md"),
            Event::End(TagEnd::Link),
            image(LinkType::Inline, "pic.md", ""),
        ]
    );
}

// ---- ConvertImage ---------------------------------------------------------

#[test]
fn figure_of_a_raster_image() {
    assert_eq!(
        make_figure("a.png", &Some("alt text".to_string()), &Some("Title".to_string())),
        "<figure><div class=\"zakki-scroll\"><img loading=\"lazy\" src=\"a.png\" alt=\"alt text\" title=\"Title\"/></div><figcaption>alt text</figcaption></figure>"
    );
    assert_eq!(
        make_figure("a.png", &None, &None),
        "<figure><div class=\"zakki-scroll\"><img loading=\"lazy\" src=\"a.png\"/></div></figure>"
    );
}

#[test]
fn figure_of_an_svg() {
    assert_eq!(
        make_figure("d/a.svg", &Some("x".to_string()), &Some("y".to_string())),
        "<figure><div class=\"zakki-scroll\"><object type=\"image/svg+xml\" data=\"d/a.svg\"></object></div><figcaption>x</figcaption></figure>"
    );
}

#[test]
fn inline_image_becomes_a_figure() {
    let events = vec![
        Event::Start(Tag::Paragraph),
        image(LinkType::Inline, "a.png", ""),
        text("cap"),
        Event::End(TagEnd::Image),
        text("after"),
        Event::End(TagEnd::Paragraph),
    ];
    let mut ctxt = RenderingContext::new();
    let out = image_convert_pass(events, &mut ctxt).unwrap();
    assert_eq!(
        out,
        vec![
            Event::Start(Tag::Paragraph),
            Event::Html(
                "<figure><div class=\"zakki-scroll\"><img loading=\"lazy\" src=\"a.png\" alt=\"cap\" title=\"\"/></div><figcaption>cap</figcaption></figure>"
                    .to_string()
            ),
            text("after"),
            Event::End(TagEnd::Paragraph),
        ]
    );
}

#[test]
fn image_without_alt_text_has_no_caption() {
    let events = vec![image(LinkType::Inline, "a.svg", "t"), Event::End(TagEnd::Image)];
    let mut ctxt = RenderingContext::new();
    let out = image_convert_pass(events, &mut ctxt).unwrap();
    assert_eq!(
        out,
        vec![Event::Html(
            "<figure><div class=\"zakki-scroll\"><object type=\"image/svg+xml\" data=\"a.svg\"></object></div></figure>"
                .to_string()
        )]
    );
}

#[test]
fn image_by_reference_stays() {
    let events = vec![
        image(LinkType::Reference, "a.png", ""),
        text("cap"),
        Event::End(TagEnd::Image),
    ];
    let mut ctxt = RenderingContext::new();
    let out = image_convert_pass(events.clone(), &mut ctxt).unwrap();
    assert_eq!(out, events);
}

// ---- ConvertMath ----------------------------------------------------------

#[test]
fn math_is_rendered_and_asks_for_the_stylesheet() {
    let events = vec![
        text("before"),
        Event::InlineMath("x^2".to_string()),
        Event::DisplayMath("E = mc^2".to_string()),
    ];
    let mut ctxt = RenderingContext::new();
    let out = convert_math_pass(events, &mut ctxt).unwrap();
    assert_eq!(out.len(), 3);
    assert_eq!(out[0], text("before"));
    let Event::InlineHtml(inline) = &out[1] else { panic!("not html: {:?}", out[1]) };
    let Event::InlineHtml(display) = &out[2] else { panic!("not html: {:?}", out[2]) };
    assert!(inline.contains("class=\"katex\""), "{inline}");
    assert_ne!(inline, "x^2");
    assert!(!inline.contains("katex-display"));
    assert!(display.contains("katex-display"), "{display}");
    assert!(!inline.contains("<math"), "html output only: {inline}");
    assert_eq!(ctxt.css_list(), &vec!["katex/katex.min.css".to_string()]);
}

#[test]
fn stream_without_math_asks_for_nothing() {
    let events = vec![text("x^2"), Event::Code("y".to_string())];
    let mut ctxt = RenderingContext::new();
    let out = convert_math_pass(events.clone(), &mut ctxt).unwrap();
    assert_eq!(out, events);
    assert!(ctxt.css_list().is_empty());
}

#[test]
fn bad_math_fails_with_math_render_error() {
    let events = vec![
        Event::InlineMath("x".to_string()),
        Event::DisplayMath("\\frac{".to_string()),
        Event::InlineMath("\\notacommand{".to_string()),
    ];
    let mut ctxt = RenderingContext::new();
    let result = convert_math_pass(events, &mut ctxt);
    let Err(RenderError::MathRenderError(reason)) = result else {
        panic!("no math error: {result:?}")
    };
    assert!(reason.starts_with("display math: \\frac{: "), "{reason}");
    assert!(ctxt.css_list().is_empty());
}

#[test]
fn replacement_of_a_formula() {
    assert_eq!(
        math_replacement("x", false, Ok("<span>x</span>".to_string())),
        Ok(Event::InlineHtml("<span>x</span>".to_string()))
    );
    assert_eq!(
        math_replacement("x", false, Err("boom".to_string())),
        Err(RenderError::MathRenderError("inline math: x: boom".to_string()))
    );
    assert_eq!(
        math_replacement("y", true, Err("boom".to_string())),
        Err(RenderError::MathRenderError("display math: y: boom".to_string()))
    );
}

// ---- HighlightCode --------------------------------------------------------

fn rule(open: &str, close: &str, style: &str) -> HighlightRule {
    HighlightRule { delim: [open.to_string(), close.to_string()], style: style.to_string() }
}

fn fenced(lang: &str) -> Event {
    Event::Start(Tag::CodeBlock(CodeBlockKind::Fenced(lang.to_string())))
}

#[test]
fn rule_wraps_what_stands_between_its_delimiters() {
    let red = rule("\\[\\[", "\\]\\]", "color: red");
    assert_eq!(
        red.replace_all("a [[b]] c [[d]]"),
        "a <span style=\"color: red\">b</span> c <span style=\"color: red\">d</span>"
    );
    assert_eq!(red.replace_all("nothing here"), "nothing here");
}

#[test]
fn rule_that_is_no_regular_expression_changes_nothing() {
    let broken = rule("(", "x", "color: red");
    assert_eq!(broken.replace_all("a (bx c"), "a (bx c");
}

#[test]
fn rewritten_text_or_the_code() {
    assert_eq!(rewritten_or("code", Some("new".to_string())), "new");
    assert_eq!(rewritten_or("code", None), "code");
}

#[test]
fn rules_apply_in_order_to_each_other_s_output() {
    let first = rule("@", "@", "a");
    let second = rule("span", "=", "b");
    assert_eq!(
        apply_all(&vec![first.clone(), second.clone()], "@x@".to_string()),
        "<<span style=\"b\"> style</span>\"a\">x</span>"
    );
    assert_eq!(
        apply_all(&vec![second, first], "@x@".to_string()),
        "<span style=\"a\">x</span>"
    );
    assert_eq!(apply_all(&vec![], "@x@".to_string()), "@x@");
}

#[test]
fn code_in_fenced_blocks_is_escaped_and_highlighted() {
    let events = vec![
        text("a < b"),
        fenced("rust"),
        text("if a < b && c > d { !!x!! }"),
        Event::End(TagEnd::CodeBlock),
        text("c > d"),
        Event::Start(Tag::CodeBlock(CodeBlockKind::Indented)),
        text("x < y"),
        Event::End(TagEnd::CodeBlock),
    ];
    let mut ctxt = RenderingContext::new();
    ctxt.set_highlights(vec![rule("!!", "!!", "font-weight: bold")]);
    let out = highlight_code_pass(events, &mut ctxt).unwrap();
    assert_eq!(
        out,
        vec![
            text("a < b"),
            fenced("rust"),
            Event::InlineHtml(
                "if a &lt; b &amp;&amp; c &gt; d { <span style=\"font-weight: bold\">x</span> }"
                    .to_string()
            ),
            Event::End(TagEnd::CodeBlock),
            text("c > d"),
            Event::Start(Tag::CodeBlock(CodeBlockKind::Indented)),
            text("x < y"),
            Event::End(TagEnd::CodeBlock),
        ]
    );
}

#[test]
fn rule_can_match_escaped_text() {
    let events = vec![fenced(""), text("<b>"), Event::End(TagEnd::CodeBlock)];
    let mut ctxt = RenderingContext::new();
    ctxt.set_highlights(vec![rule("&lt;", "&gt;", "s")]);
    let out = highlight_code_pass(events, &mut ctxt).unwrap();
    assert_eq!(out[1], Event::InlineHtml("<span style=\"s\">b</span>".to_string()));
}

#[test]
fn without_rules_the_stream_stays() {
    let events = vec![fenced("rust"), text("a < b"), Event::End(TagEnd::CodeBlock)];
    let mut ctxt = RenderingContext::new();
    let out = highlight_code_pass(events.clone(), &mut ctxt).unwrap();
    assert_eq!(out, events);
}

#[test]
fn with_an_empty_rule_list_code_is_escaped() {
    let events = vec![fenced("rust"), text("a < b"), Event::End(TagEnd::CodeBlock)];
    let mut ctxt = RenderingContext::new();
    ctxt.set_highlights(vec![]);
    let out = highlight_code_pass(events, &mut ctxt).unwrap();
    assert_eq!(out[1], Event::InlineHtml("a &lt; b".to_string()));
}

// ---- AssignHeaderId -------------------------------------------------------

#[test]
fn ids_of_h1_h2_h3_h2() {
    let mut events = titled(HeadingLevel::H1, "T");
    events.extend(titled(HeadingLevel::H2, "A"));
    events.extend(titled(HeadingLevel::H3, "B"));
    events.extend(titled(HeadingLevel::H2, "C"));
    let mut ctxt = RenderingContext::new();
    let out = assign_header_id(events, &mut ctxt).unwrap();
    assert_eq!(
        ids_of(&out),
        vec![
            Some("".to_string()),
            Some("1".to_string()),
            Some("1.1".to_string()),
            Some("2".to_string())
        ]
    );
    assert_eq!(out[1], text("T"));
}

#[test]
fn skipped_level_truncates_the_id() {
    // H2, then H4 directly: the counter of level 3 stands at zero, so the id
    // of the H4 stops before it.
    let mut events = titled(HeadingLevel::H2, "A");
    events.extend(titled(HeadingLevel::H4, "deep"));
    events.extend(titled(HeadingLevel::H4, "deep again"));
    events.extend(titled(HeadingLevel::H3, "B"));
    events.extend(titled(HeadingLevel::H4, "C"));
    let mut ctxt = RenderingContext::new();
    let out = assign_header_id(events, &mut ctxt).unwrap();
    assert_eq!(
        ids_of(&out),
        vec![
            Some("1".to_string()),
            Some("1".to_string()),
            Some("1".to_string()),
            Some("1.1".to_string()),
            Some("1.1.1".to_string())
        ]
    );
}

#[test]
fn h1_resets_the_deeper_counters() {
    let mut events = titled(HeadingLevel::H2, "A");
    events.extend(titled(HeadingLevel::H2, "B"));
    events.extend(titled(HeadingLevel::H1, "T"));
    events.extend(titled(HeadingLevel::H2, "C"));
    events.extend(titled(HeadingLevel::H6, "lost"));
    let mut ctxt = RenderingContext::new();
    let out = assign_header_id(events, &mut ctxt).unwrap();
    assert_eq!(
        ids_of(&out),
        vec![
            Some("1".to_string()),
            Some("2".to_string()),
            Some("".to_string()),
            Some("1".to_string()),
            Some("1".to_string())
        ]
    );
}

#[test]
fn heading_keeps_its_classes_and_attributes() {
    let events = vec![Event::Start(Tag::Heading {
        level: HeadingLevel::H2,
        id: Some("own".to_string()),
        classes: vec!["c".to_string()],
        attrs: vec![("k".to_string(), Some("v".to_string())), ("flag".to_string(), None)],
    })];
    let mut ctxt = RenderingContext::new();
    let out = assign_header_id(events, &mut ctxt).unwrap();
    assert_eq!(
        out,
        vec![Event::Start(Tag::Heading {
            level: HeadingLevel::H2,
            id: Some("1".to_string()),
            classes: vec!["c".to_string()],
            attrs: vec![("k".to_string(), Some("v".to_string())), ("flag".to_string(), None)],
        })]
    );
}

#[test]
fn id_of_counters() {
    assert_eq!(gen_id(&[1, 2, 3, 0, 5]), "1.2.3");
    assert_eq!(gen_id(&[0, 2, 3]), "");
    assert_eq!(gen_id(&[12, 345]), "12.345");
    assert_eq!(gen_id(&[7]), "7");
    assert_eq!(gen_id(&[]), "");
}

#[test]
fn many_headings_count_in_decimal() {
    let mut events = vec![];
    for _ in 0..12 {
        events.extend(titled(HeadingLevel::H2, "x"));
    }
    events.extend(titled(HeadingLevel::H3, "y"));
    let mut ctxt = RenderingContext::new();
    let out = assign_header_id(events, &mut ctxt).unwrap();
    let ids = ids_of(&out);
    assert_eq!(ids[9], Some("10".to_string()));
    assert_eq!(ids[12], Some("12.1".to_string()));
}

// ---- TableWrapper ---------------------------------------------------------

#[test]
fn table_is_wrapped_in_a_container() {
    let events = vec![
        text("before"),
        Event::Start(Tag::Table(vec![Alignment::Left, Alignment::Unaligned])),
        Event::Start(Tag::TableHead),
        Event::End(TagEnd::TableHead),
        Event::End(TagEnd::Table),
        text("after"),
    ];
    let mut ctxt = RenderingContext::new();
    let out = table_wrapper_pass(events, &mut ctxt).unwrap();
    assert_eq!(
        out,
        vec![
            text("before"),
            Event::InlineHtml("<div class=\"table-wrapper\">".to_string()),
            Event::Start(Tag::Table(vec![Alignment::Left, Alignment::Unaligned])),
            Event::Start(Tag::TableHead),
            Event::End(TagEnd::TableHead),
            Event::End(TagEnd::Table),
            Event::InlineHtml("</div>".to_string()),
            text("after"),
        ]
    );
}

#[test]
fn stream_without_tables_stays() {
    let events = titled(HeadingLevel::H1, "T");
    let mut ctxt = RenderingContext::new();
    assert_eq!(table_wrapper_pass(events.clone(), &mut ctxt).unwrap(), events);
    assert_eq!(table_wrapper_pass(vec![], &mut ctxt).unwrap(), vec![]);
}

// ---- TocBuild -------------------------------------------------------------

#[test]
fn toc_of_levels_2_3_3_2() {
    let mut events = vec![];
    events.extend(vec![heading_with_id(HeadingLevel::H1, ""), text("T"), heading_end(HeadingLevel::H1)]);
    events.extend(vec![heading_with_id(HeadingLevel::H2, "1"), text("A"), heading_end(HeadingLevel::H2)]);
    events.extend(vec![heading_with_id(HeadingLevel::H3, "1.1"), text("B"), heading_end(HeadingLevel::H3)]);
    events.extend(vec![heading_with_id(HeadingLevel::H3, "1.2"), text("C"), heading_end(HeadingLevel::H3)]);
    events.extend(vec![heading_with_id(HeadingLevel::H2, "2"), text("D"), heading_end(HeadingLevel::H2)]);
    let mut ctxt = RenderingContext::new();
    let out = toc_pass(events.clone(), &mut ctxt).unwrap();
    assert_eq!(out, events);
    assert_eq!(
        ctxt.toc().unwrap().to_html(),
        "<ul><li><a href=\"#1\">A</a><ul><li><a href=\"#1.1\">B</a></li><li><a href=\"#1.2\">C</a></li></ul></li><li><a href=\"#2\">D</a></li></ul>"
    );
}

#[test]
fn toc_takes_the_first_text_of_a_heading() {
    let events = vec![
        heading_with_id(HeadingLevel::H2, "1"),
        Event::Code("code".to_string()),
        text("first"),
        text("second"),
        heading_end(HeadingLevel::H2),
        text("body"),
        heading(HeadingLevel::H2),
        text("no id"),
    ];
    let mut ctxt = RenderingContext::new();
    toc_pass(events, &mut ctxt).unwrap();
    assert_eq!(
        ctxt.toc().unwrap().to_html(),
        "<ul><li><a href=\"#1\">first</a></li><li><a href=\"#\">no id</a></li></ul>"
    );
}

#[test]
fn toc_of_a_document_without_headings_is_empty() {
    let mut ctxt = RenderingContext::new();
    assert_eq!(ctxt.toc().err(), Some(RenderError::MissingRequiredField(Field::Toc)));
    toc_pass(titled(HeadingLevel::H1, "T"), &mut ctxt).unwrap();
    assert_eq!(ctxt.toc().unwrap().to_html(), "");
}

// ---- The pipeline ---------------------------------------------------------

#[test]
fn passes_run_in_registration_order() {
    let mut events = titled(HeadingLevel::H1, "T");
    events.extend(titled(HeadingLevel::H2, "A"));
    // numbering first: the table of contents sees the ids
    let mut numbered_first = PassManager::new();
    numbered_first.register(Pass::AssignHeaderId);
    numbered_first.register(Pass::TocBuild);
    let mut ctxt = RenderingContext::new();
    numbered_first.run(events.clone(), &mut ctxt).unwrap();
    assert_eq!(ctxt.toc().unwrap().to_html(), "<ul><li><a href=\"#1\">A</a></li></ul>");
    // the other way round it does not
    let mut toc_first = PassManager::new();
    toc_first.register(Pass::TocBuild);
    toc_first.register(Pass::AssignHeaderId);
    let mut ctxt = RenderingContext::new();
    toc_first.run(events, &mut ctxt).unwrap();
    assert_eq!(ctxt.toc().unwrap().to_html(), "<ul><li><a href=\"#\">A</a></li></ul>");
}

#[test]
fn empty_manager_changes_nothing() {
    let events = titled(HeadingLevel::H1, "T");
    let mut ctxt = RenderingContext::new();
    assert_eq!(PassManager::new().run(events.clone(), &mut ctxt).unwrap(), events);
    assert!(ctxt.title().is_err());
}

#[test]
fn failing_pass_ends_the_run() {
    let events = vec![
        heading(HeadingLevel::H1),
        text("T"),
        heading_end(HeadingLevel::H1),
        Event::InlineMath("\\frac{".to_string()),
    ];
    let mut ctxt = RenderingContext::new();
    let result = PassManager::standard().run(events, &mut ctxt);
    assert!(matches!(result, Err(RenderError::MathRenderError(_))));
    // the passes before the failing one have run, those behind it have not
    assert_eq!(ctxt.title().unwrap(), "T");
    assert!(ctxt.toc().is_err());
}

#[test]
fn standard_pipeline_on_a_small_document() {
    let mut events = titled(HeadingLevel::H1, "Title");
    events.extend(titled(HeadingLevel::H2, "Part"));
    events.extend(vec![
        link("other.md"),
        text("other"),
        Event::End(TagEnd::Link),
        Event::Start(Tag::Table(vec![])),
        Event::End(TagEnd::Table),
    ]);
    let mut ctxt = RenderingContext::new();
    let out = PassManager::standard().run(events, &mut ctxt).unwrap();
    assert_eq!(ctxt.title().unwrap(), "Title");
    assert_eq!(ctxt.toc().unwrap().to_html(), "<ul><li><a href=\"#1\">Part</a></li></ul>");
    assert_eq!(
        out,
        vec![
            heading_with_id(HeadingLevel::H1, ""),
            text("Title"),
            heading_end(HeadingLevel::H1),
            heading_with_id(HeadingLevel::H2, "1"),
            text("Part"),
            heading_end(HeadingLevel::H2),
            link("other.html"),
            text("other"),
            Event::End(TagEnd::Link),
            Event::InlineHtml("<div class=\"table-wrapper\">".to_string()),
            Event::Start(Tag::Table(vec![])),
            Event::End(TagEnd::Table),
            Event::InlineHtml("</div>".to_string()),
        ]
    );
}

#[test]
fn run_pass_runs_the_named_pass() {
    let events = vec![link("a.md")];
    let mut ctxt = RenderingContext::new();
    assert_eq!(
        run_pass(Pass::LinkAdjust, events.clone(), &mut ctxt).unwrap(),
        vec![link("a.html")]
    );
    assert_eq!(run_pass(Pass::TableWrapper, events.clone(), &mut ctxt).unwrap(), events);
    run_pass(Pass::GetTitle, events, &mut ctxt).unwrap();
    assert_eq!(ctxt.title().unwrap(), "Untitled");
}

#[test]
fn heading_levels_are_numbered_one_to_six() {
    assert_eq!(HeadingLevel::H1.number(), 1);
    assert_eq!(HeadingLevel::H6.number(), 6);
}
