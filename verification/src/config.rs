//! The settings of a site that rendering depends on.

use vstd::prelude::*;
use vstd::string::StringExecFns;

verus! {

/// The settings of one run.
pub struct Config {
    site_name: String,
    render_draft: bool,
    password: Option<String>,
    footer: String,
    js_list: Vec<String>,
    css_list: Vec<String>,
}

/// The mathematical value of a [`Config`].
pub struct ConfigView {
    pub site_name: Seq<char>,
    pub render_draft: bool,
    pub password: Option<Seq<char>>,
    pub footer: Seq<char>,
    pub js_list: Seq<Seq<char>>,
    pub css_list: Seq<Seq<char>>,
}

impl View for Config {
    type V = ConfigView;

    closed spec fn view(&self) -> ConfigView {
        ConfigView {
            site_name: self.site_name@,
            render_draft: self.render_draft,
            password: self.password.deep_view(),
            footer: self.footer@,
            js_list: self.js_list.deep_view(),
            css_list: self.css_list.deep_view(),
        }
    }
}

/// The footer of a site that sets none: a copyright notice in the site's name.
pub open spec fn default_footer(site_name: Seq<char>) -> Seq<char> {
    "&copy; "@ + site_name + ". All rights reserved."@
}

impl Config {
    /// The settings of a run. A site without a footer of its own gets the
    /// default one.
    pub fn new(
        site_name: String,
        render_draft: bool,
        password: Option<String>,
        footer: Option<String>,
        js_list: Vec<String>,
        css_list: Vec<String>,
    ) -> (config: Self)
        ensures
            config@ == (ConfigView {
                site_name: site_name@,
                render_draft,
                password: password.deep_view(),
                footer: match footer {
                    Some(text) => text@,
                    None => default_footer(site_name@),
                },
                js_list: js_list.deep_view(),
                css_list: css_list.deep_view(),
            }),
    {
        let footer = match footer {
            Some(text) => text,
            None => {
                let mut text = String::from_str("&copy; ");
                text.append(site_name.as_str());
                text.append(". All rights reserved.");
                text
            },
        };
        Self { site_name, render_draft, password, footer, js_list, css_list }
    }

    /// Whether drafts are rendered.
    pub fn render_draft(&self) -> (yes: bool)
        ensures
            yes == self@.render_draft,
    {
        self.render_draft
    }

    /// The name of the site.
    pub fn site_name(&self) -> (name: &str)
        ensures
            name@ == self@.site_name,
    {
        self.site_name.as_str()
    }

    /// The password that encrypts the pages that ask for it, where the site
    /// sets one.
    pub fn password(&self) -> (password: Option<&String>)
        ensures
            password.deep_view() == self@.password,
    {
        match &self.password {
            Some(text) => Some(text),
            None => None,
        }
    }

    /// What stands at the foot of every page, as HTML.
    pub fn footer(&self) -> (text: &str)
        ensures
            text@ == self@.footer,
    {
        self.footer.as_str()
    }

    /// The scripts every page loads besides the site's own.
    pub fn js_list(&self) -> (paths: &Vec<String>)
        ensures
            paths.deep_view() == self@.js_list,
    {
        &self.js_list
    }

    /// The stylesheets every page loads besides the site's own.
    pub fn css_list(&self) -> (paths: &Vec<String>)
        ensures
            paths.deep_view() == self@.css_list,
    {
        &self.css_list
    }
}

} // verus!
