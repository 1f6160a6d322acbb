//! The pages of the site, assembled from their parts.
//!
//! Every function here writes one fragment or one whole page. The text of a
//! fragment is fixed; the functions say exactly where the values they are given
//! stand in it.

use crate::path_ext::{join, joined};
use crate::text::starts_with;
use vstd::prelude::*;
use vstd::string::StringExecFns;

verus! {

/// Whether `path` is meant as written: a URL with a scheme, or a path from the
/// root of the server.
pub open spec fn is_absolute(path: Seq<char>) -> bool {
    "http://"@.is_prefix_of(path) || "https://"@.is_prefix_of(path) || "/"@.is_prefix_of(path)
}

/// An asset path as a page refers to it: as written where it is absolute, else
/// seen from the root of the site.
pub open spec fn spec_adjust_path_origin(path: Seq<char>, path_to_root: Seq<char>) -> Seq<char> {
    if is_absolute(path) {
        path
    } else {
        joined(path_to_root, path)
    }
}

/// The element that loads one stylesheet.
pub open spec fn stylesheet_link(path: Seq<char>, path_to_root: Seq<char>) -> Seq<char> {
    "<link rel=\"stylesheet\" href=\""@ + spec_adjust_path_origin(path, path_to_root) + "\" />"@
}

/// The element that loads one script.
pub open spec fn script_link(path: Seq<char>, path_to_root: Seq<char>) -> Seq<char> {
    "<script defer type=\"text/javascript\" src=\""@ + spec_adjust_path_origin(path, path_to_root)
        + "\"></script>"@
}

/// The elements that load the stylesheets, in order.
pub open spec fn stylesheet_links(paths: Seq<Seq<char>>, path_to_root: Seq<char>) -> Seq<char>
    decreases paths.len(),
{
    if paths.len() == 0 {
        Seq::empty()
    } else {
        stylesheet_links(paths.drop_last(), path_to_root) + stylesheet_link(
            paths.last(),
            path_to_root,
        )
    }
}

/// The elements that load the scripts, in order.
pub open spec fn script_links(paths: Seq<Seq<char>>, path_to_root: Seq<char>) -> Seq<char>
    decreases paths.len(),
{
    if paths.len() == 0 {
        Seq::empty()
    } else {
        script_links(paths.drop_last(), path_to_root) + script_link(paths.last(), path_to_root)
    }
}

/// The `<head>` of a page.
pub open spec fn spec_head(
    path_to_root: Seq<char>,
    css_list: Seq<Seq<char>>,
    js_list: Seq<Seq<char>>,
    title: Seq<char>,
) -> Seq<char> {
    "<head><meta charset=\"UTF-8\" /><meta name=\"viewport\" content=\"width=device-width, initial-scale=1\" /><title>"@
        + title + "</title>"@ + stylesheet_links(css_list, path_to_root) + script_links(
        js_list,
        path_to_root,
    ) + "</head>"@
}

/// The banner of a page: the name of the site, linked to its index.
pub open spec fn spec_header(path_to_root: Seq<char>, site_name: Seq<char>) -> Seq<char> {
    "<header><a id=\"site-name\" href=\""@ + joined(path_to_root, "index.html"@) + "\">"@
        + site_name + "</a></header>"@
}

/// The link of one tag: to the index, filtered by the tag.
pub open spec fn tag_elem(tag: Seq<char>, path_to_root: Seq<char>) -> Seq<char> {
    "<a class=\"tag\" href=\""@ + joined(path_to_root, "index.html"@) + "?tag="@ + tag + "\">"@
        + tag + "</a>"@
}

/// The links of a page's tags, each behind a no-break space.
pub open spec fn spec_tag_elems(tags: Seq<Seq<char>>, path_to_root: Seq<char>) -> Seq<char>
    decreases tags.len(),
{
    if tags.len() == 0 {
        Seq::empty()
    } else {
        spec_tag_elems(tags.drop_last(), path_to_root) + "\u{00a0}"@ + tag_elem(
            tags.last(),
            path_to_root,
        )
    }
}

/// The line of a page that shows its dates and tags.
pub open spec fn byline(
    create_date: Seq<char>,
    last_update_date: Seq<char>,
    tag_elems: Seq<char>,
) -> Seq<char> {
    "<div id=\"byline\"><time id=\"create-date\">"@ + create_date
        + "</time><time id=\"update-date\">"@ + last_update_date + "</time>"@ + tag_elems
        + "</div>"@
}

/// The index page of the site.
pub open spec fn spec_index_html(
    site_name: Seq<char>,
    css_list: Seq<Seq<char>>,
    js_list: Seq<Seq<char>>,
    footer: Seq<char>,
) -> Seq<char> {
    "<!DOCTYPE html><html>"@ + spec_head("."@, css_list, js_list, site_name) + "<body>"@
        + spec_header("."@, site_name) + "<main id=\"page-list\"></main><footer>"@ + footer
        + "</footer></body></html>"@
}

/// The page of a document that is delivered as it is.
pub open spec fn spec_page_html(
    path_to_root: Seq<char>,
    site_name: Seq<char>,
    title: Seq<char>,
    create_date: Seq<char>,
    last_update_date: Seq<char>,
    css_list: Seq<Seq<char>>,
    js_list: Seq<Seq<char>>,
    tags: Seq<Seq<char>>,
    body: Seq<char>,
    footer: Seq<char>,
) -> Seq<char> {
    "<!DOCTYPE html><html>"@ + spec_head(path_to_root, css_list, js_list, title) + "<body>"@
        + spec_header(path_to_root, site_name) + "<main>"@ + byline(
        create_date,
        last_update_date,
        spec_tag_elems(tags, path_to_root),
    ) + "<div id=\"main-content\">"@ + body + "</div></main><footer>"@ + footer
        + "</footer></body></html>"@
}

/// The page of a document that is delivered encrypted: in place of the body
/// it carries the encoded ciphertext, which the reader's browser decrypts.
pub open spec fn spec_crypto_html(
    path_to_root: Seq<char>,
    site_name: Seq<char>,
    title: Seq<char>,
    create_date: Seq<char>,
    last_update_date: Seq<char>,
    css_list: Seq<Seq<char>>,
    js_list: Seq<Seq<char>>,
    tags: Seq<Seq<char>>,
    encoded_body: Seq<char>,
    footer: Seq<char>,
) -> Seq<char> {
    "<!DOCTYPE html><html>"@ + spec_head(path_to_root, css_list, js_list, title) + "<body>"@
        + spec_header(path_to_root, site_name) + "<main>"@ + byline(
        create_date,
        last_update_date,
        spec_tag_elems(tags, path_to_root),
    ) + "<div id=\"encrypted-content\" data-cipher=\""@ + encoded_body
        + "\"></div></main><footer>"@ + footer + "</footer></body></html>"@
}

/// An asset path as a page refers to it.
pub fn adjust_path_origin(path: &str, path_to_root: &str) -> (adjusted: String)
    ensures
        adjusted@ == spec_adjust_path_origin(path@, path_to_root@),
{
    if starts_with(path, "http://") || starts_with(path, "https://") || starts_with(path, "/") {
        String::from_str(path)
    } else {
        join(path_to_root, path)
    }
}

/// The banner of a page.
pub fn header(path_to_root: &str, site_name: &str) -> (html: String)
    ensures
        html@ == spec_header(path_to_root@, site_name@),
{
    let index = join(path_to_root, "index.html");
    let mut html = String::from_str("<header><a id=\"site-name\" href=\"");
    html.append(index.as_str());
    html.append("\">");
    html.append(site_name);
    html.append("</a></header>");
    html
}

/// The `<head>` of a page.
pub fn head(path_to_root: &str, css_list: &Vec<String>, js_list: &Vec<String>, title: &str) -> (html:
    String)
    ensures
        html@ == spec_head(path_to_root@, css_list.deep_view(), js_list.deep_view(), title@),
{
    let ghost css = css_list.deep_view();
    let ghost js = js_list.deep_view();
    let mut styles = String::new();
    let mut i: usize = 0;
    proof {
        assert(css.take(0) =~= Seq::empty());
    }
    while i < css_list.len()
        invariant
            i <= css_list@.len(),
            css == css_list.deep_view(),
            css.len() == css_list@.len(),
            styles@ == stylesheet_links(css.take(i as int), path_to_root@),
        decreases css_list.len() - i,
    {
        proof {
            let next = css.take(i + 1);
            assert(next.drop_last() =~= css.take(i as int));
            assert(next.last() == css_list@[i as int]@);
        }
        let ghost sofar = styles@;
        let href = adjust_path_origin(css_list[i].as_str(), path_to_root);
        styles.append("<link rel=\"stylesheet\" href=\"");
        styles.append(href.as_str());
        styles.append("\" />");
        proof {
            assert(styles@ =~= sofar + stylesheet_link(css_list@[i as int]@, path_to_root@));
        }
        i += 1;
    }
    proof {
        assert(css.take(i as int) =~= css);
    }
    let mut scripts = String::new();
    let mut k: usize = 0;
    proof {
        assert(js.take(0) =~= Seq::empty());
    }
    while k < js_list.len()
        invariant
            k <= js_list@.len(),
            js == js_list.deep_view(),
            js.len() == js_list@.len(),
            scripts@ == script_links(js.take(k as int), path_to_root@),
        decreases js_list.len() - k,
    {
        proof {
            let next = js.take(k + 1);
            assert(next.drop_last() =~= js.take(k as int));
            assert(next.last() == js_list@[k as int]@);
        }
        let ghost sofar = scripts@;
        let src = adjust_path_origin(js_list[k].as_str(), path_to_root);
        scripts.append("<script defer type=\"text/javascript\" src=\"");
        scripts.append(src.as_str());
        scripts.append("\"></script>");
        proof {
            assert(scripts@ =~= sofar + script_link(js_list@[k as int]@, path_to_root@));
        }
        k += 1;
    }
    proof {
        assert(js.take(k as int) =~= js);
    }
    let mut html = String::from_str(
        "<head><meta charset=\"UTF-8\" /><meta name=\"viewport\" content=\"width=device-width, initial-scale=1\" /><title>",
    );
    html.append(title);
    html.append("</title>");
    html.append(styles.as_str());
    html.append(scripts.as_str());
    html.append("</head>");
    html
}

/// The links of a page's tags.
pub fn tag_elems(tags: &Vec<String>, path_to_root: &str) -> (html: String)
    ensures
        html@ == spec_tag_elems(tags.deep_view(), path_to_root@),
{
    let ghost views = tags.deep_view();
    let index = join(path_to_root, "index.html");
    let mut html = String::new();
    let mut i: usize = 0;
    proof {
        assert(views.take(0) =~= Seq::empty());
    }
    while i < tags.len()
        invariant
            i <= tags@.len(),
            views == tags.deep_view(),
            views.len() == tags@.len(),
            index@ == joined(path_to_root@, "index.html"@),
            html@ == spec_tag_elems(views.take(i as int), path_to_root@),
        decreases tags.len() - i,
    {
        proof {
            let next = views.take(i + 1);
            assert(next.drop_last() =~= views.take(i as int));
            assert(next.last() == tags@[i as int]@);
        }
        let ghost sofar = html@;
        html.append("\u{00a0}");
        html.append("<a class=\"tag\" href=\"");
        html.append(index.as_str());
        html.append("?tag=");
        html.append(tags[i].as_str());
        html.append("\">");
        html.append(tags[i].as_str());
        html.append("</a>");
        proof {
            assert(html@ =~= sofar + "\u{00a0}"@ + tag_elem(tags@[i as int]@, path_to_root@));
        }
        i += 1;
    }
    proof {
        assert(views.take(i as int) =~= views);
    }
    html
}

fn push_byline(html: &mut String, create_date: &str, last_update_date: &str, tag_elems: &str)
    ensures
        final(html)@ == old(html)@ + byline(create_date@, last_update_date@, tag_elems@),
{
    html.append("<div id=\"byline\"><time id=\"create-date\">");
    html.append(create_date);
    html.append("</time><time id=\"update-date\">");
    html.append(last_update_date);
    html.append("</time>");
    html.append(tag_elems);
    html.append("</div>");
    proof {
        assert(html@ =~= old(html)@ + byline(create_date@, last_update_date@, tag_elems@));
    }
}

/// The index page of the site.
pub fn index_html(site_name: &str, css_list: &Vec<String>, js_list: &Vec<String>, footer: &str) -> (html:
    String)
    ensures
        html@ == spec_index_html(site_name@, css_list.deep_view(), js_list.deep_view(), footer@),
{
    let head = head(".", css_list, js_list, site_name);
    let header = header(".", site_name);
    let mut html = String::from_str("<!DOCTYPE html><html>");
    html.append(head.as_str());
    html.append("<body>");
    html.append(header.as_str());
    html.append("<main id=\"page-list\"></main><footer>");
    html.append(footer);
    html.append("</footer></body></html>");
    html
}

/// The page of a document that is delivered as it is.
pub fn page_html(
    path_to_root: &str,
    site_name: &str,
    title: &str,
    create_date: &str,
    last_update_date: &str,
    css_list: &Vec<String>,
    js_list: &Vec<String>,
    tags: &Vec<String>,
    body: &str,
    footer: &str,
) -> (html: String)
    ensures
        html@ == spec_page_html(
            path_to_root@,
            site_name@,
            title@,
            create_date@,
            last_update_date@,
            css_list.deep_view(),
            js_list.deep_view(),
            tags.deep_view(),
            body@,
            footer@,
        ),
{
    let head = head(path_to_root, css_list, js_list, title);
    let header = header(path_to_root, site_name);
    let tag_elems = tag_elems(tags, path_to_root);
    let mut html = String::from_str("<!DOCTYPE html><html>");
    html.append(head.as_str());
    html.append("<body>");
    html.append(header.as_str());
    html.append("<main>");
    push_byline(&mut html, create_date, last_update_date, tag_elems.as_str());
    html.append("<div id=\"main-content\">");
    html.append(body);
    html.append("</div></main><footer>");
    html.append(footer);
    html.append("</footer></body></html>");
    html
}

/// The page of a document that is delivered encrypted.
pub fn crypto_html(
    path_to_root: &str,
    site_name: &str,
    title: &str,
    create_date: &str,
    last_update_date: &str,
    css_list: &Vec<String>,
    js_list: &Vec<String>,
    tags: &Vec<String>,
    encoded_body: &str,
    footer: &str,
) -> (html: String)
    ensures
        html@ == spec_crypto_html(
            path_to_root@,
            site_name@,
            title@,
            create_date@,
            last_update_date@,
            css_list.deep_view(),
            js_list.deep_view(),
            tags.deep_view(),
            encoded_body@,
            footer@,
        ),
{
    let head = head(path_to_root, css_list, js_list, title);
    let header = header(path_to_root, site_name);
    let tag_elems = tag_elems(tags, path_to_root);
    let mut html = String::from_str("<!DOCTYPE html><html>");
    html.append(head.as_str());
    html.append("<body>");
    html.append(header.as_str());
    html.append("<main>");
    push_byline(&mut html, create_date, last_update_date, tag_elems.as_str());
    html.append("<div id=\"encrypted-content\" data-cipher=\"");
    html.append(encoded_body);
    html.append("\"></div></main><footer>");
    html.append(footer);
    html.append("</footer></body></html>");
    html
}

} // verus!
