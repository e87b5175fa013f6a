use gazetta_theme::{
    Date, EntryMeta, Index, IndexEntry, Key, LayoutMeta, Link, MyGazetta, Page, PageMeta,
    Paginate, Person, Site, SourceMeta,
};

fn person(name: &str) -> Person {
    Person {
        name: name.to_string(),
        email: None,
        photo: None,
        key: None,
        nicknames: vec![],
        also: vec![],
    }
}

fn site(nav: Vec<(&str, &str)>) -> Site {
    Site {
        origin: "https://example.com".to_string(),
        prefix: "/".to_string(),
        title: "Example".to_string(),
        meta: SourceMeta {
            nav: nav
                .into_iter()
                .map(|(t, u)| Link { text: t.to_string(), url: u.to_string(), title: None })
                .collect(),
            author: person("Site Owner"),
        },
    }
}

fn page(href: &str, content: &str, meta: PageMeta) -> Page {
    Page {
        title: "A Title".to_string(),
        href: href.to_string(),
        date: None,
        head: String::new(),
        content: content.to_string(),
        meta,
        index: None,
    }
}

fn entry_meta() -> PageMeta {
    PageMeta::Entry(EntryMeta { author: None, about: None })
}

fn layout(name: &str) -> PageMeta {
    PageMeta::Layout(LayoutMeta { layout: name.to_string() })
}

#[test]
fn nav_link_active_on_prefix() {
    let s = site(vec![("Blog", "/blog")]);
    let out = MyGazetta.render_page(&s, &page("/blog/post-1", "<p>x</p>", entry_meta()));
    assert!(out.contains("<a href=\"/blog\" class=\"active\">Blog</a>"));
}

#[test]
fn nav_link_inactive_without_prefix() {
    let s = site(vec![("Blog2", "/blog2")]);
    let out = MyGazetta.render_page(&s, &page("/blog/post-1", "<p>x</p>", entry_meta()));
    assert!(out.contains("<a href=\"/blog2\">Blog2</a>"));
    assert!(!out.contains("active"));
}

#[test]
fn empty_nav_renders_no_nav() {
    let out = MyGazetta.render_page(&site(vec![]), &page("/a", "<p>x</p>", entry_meta()));
    assert!(!out.contains("site-nav"));
    let out = MyGazetta.render_page(&site(vec![("A", "/a")]), &page("/a", "<p>x</p>", entry_meta()));
    assert!(out.contains("<nav id=\"site-nav\"> <a href=\"/a\" class=\"active\">A</a></nav>"));
}

fn paginated(current: usize) -> Page {
    let mut p = page("/blog", "", entry_meta());
    p.index = Some(Index {
        compact: true,
        entries: vec![],
        paginate: Some(Paginate {
            pages: vec!["/blog".to_string(), "/blog/2".to_string(), "/blog/3".to_string()],
            current,
        }),
    });
    p
}

#[test]
fn pagination_first_page() {
    let out = MyGazetta.render_page(&site(vec![]), &paginated(0));
    assert!(out.contains("<span class=\"prev disabled\">&larr; Previous</span>"));
    assert!(out.contains("<span> 1 of 3 </span>"));
    assert!(out.contains(
        "<a href=\"/blog/2\" class=\"next\" rel=\"next\" title=\"next\">Next &rarr;</a>"
    ));
    assert!(!out.contains("next disabled"));
}

#[test]
fn pagination_middle_and_last_page() {
    let out = MyGazetta.render_page(&site(vec![]), &paginated(1));
    assert!(out.contains(
        "<a href=\"/blog\" class=\"prev\" rel=\"prev\" title=\"previous\">&larr; Previous</a>"
    ));
    assert!(out.contains("<span> 2 of 3 </span>"));
    let out = MyGazetta.render_page(&site(vec![]), &paginated(2));
    assert!(out.contains("<span class=\"next disabled\">Next &rarr;</span>"));
    assert!(out.contains("<span> 3 of 3 </span>"));
}

#[test]
fn blank_content_is_omitted_in_section() {
    let out = MyGazetta.render_page(&site(vec![]), &page("/a", "  \n\t ", entry_meta()));
    assert!(!out.contains("page-content"));
    assert!(out.contains("<main id=\"site-content\"><section>"));
    assert!(!out.contains("<article>"));
}

#[test]
fn written_content_in_article() {
    let out = MyGazetta.render_page(&site(vec![]), &page("/a", "<p>Hi</p>", entry_meta()));
    assert!(out.contains("<main id=\"site-content\"><article>"));
    assert!(out.contains("<div id=\"page-content\" class=\"content\"><p>Hi</p></div>"));
}

#[test]
fn unknown_layout_records_error() {
    let out = MyGazetta.render_page(&site(vec![]), &page("/a", "<p>Hi</p>", layout("unknown")));
    assert!(out.contains(
        "<main id=\"site-content\"><div class=\"render-error\">unknown layout 'unknown'</div></main>"
    ));
    assert!(out.starts_with("<!DOCTYPE html><html lang=\"en\"><head>"));
    assert!(out.ends_with("<span id=\"site-author\">Site Owner</span></p></footer></body></html>"));
    assert!(!out.contains("page-content"));
}

#[test]
fn about_layout_presents_site_author() {
    let out = MyGazetta.render_page(&site(vec![]), &page("/me", "<p>Hi</p>", layout("about")));
    assert!(out.contains("<div id=\"about\"><div id=\"about-name\"><div id=\"about-realname\">Site Owner</div></div><table id=\"about-extra\"></table></div>"));
    let out = MyGazetta.render_page(&site(vec![]), &page("/me", "<p>Hi</p>", layout("default")));
    assert!(!out.contains("id=\"about\""));
}

#[test]
fn head_and_footer() {
    let mut p = page("posts/x", "<p>x</p>", entry_meta());
    p.head = "<meta charset=\"utf-8\">".to_string();
    let out = MyGazetta.render_page(&site(vec![]), &p);
    assert!(out.contains("<link rel=\"canonical\" href=\"https://example.com/posts/x\">"));
    assert!(out.contains("<meta name=\"author\" content=\"Site Owner\">"));
    assert!(out.contains("<title>A Title</title><meta charset=\"utf-8\"></head>"));
    assert!(out.contains("<footer id=\"site-footer\"><p>&copy; <span id=\"site-author\">Site Owner</span></p></footer>"));
}

#[test]
fn page_author_overrides_and_links_email() {
    let mut a = person("Ann");
    a.email = Some("ann@example.com".to_string());
    let meta = PageMeta::Entry(EntryMeta { author: Some(a), about: None });
    let out = MyGazetta.render_page(&site(vec![]), &page("/a", "<p>x</p>", meta));
    assert!(out.contains("<meta name=\"author\" content=\"Ann\">"));
    assert!(out.contains("<span id=\"page-author\"><a href=\"mailto:ann@example.com\">Ann</a></span>"));
}

#[test]
fn about_block_rows_only_when_present() {
    let mut b = person("Bob");
    b.photo = Some("/bob.png".to_string());
    b.nicknames = vec!["bobby".to_string()];
    b.also = vec![Link { text: "Site".to_string(), url: "https://bob".to_string(), title: None }];
    b.key = Some(Key { url: "/bob.asc".to_string(), fingerprint: "FF00".to_string() });
    let meta = PageMeta::Entry(EntryMeta { author: None, about: Some(b) });
    let out = MyGazetta.render_page(&site(vec![]), &page("/a", "", meta));
    assert!(out.contains("<div id=\"about-photo\"><img src=\"/bob.png\" alt=\"Photo\"></div>"));
    assert!(out.contains("<ul id=\"about-nicks\"><li>bobby</li></ul>"));
    assert!(out.contains("<tr><th>Also</th><td><ul id=\"about-also\"><li><a href=\"https://bob\" rel=\"nofollow me\">Site</a></li></ul></td></tr>"));
    assert!(out.contains("<tr><th>PGP Key</th><td><a href=\"/bob.asc\">FF00</a></td></tr>"));
    assert!(!out.contains("<th>Email</th>"));
}

#[test]
fn title_and_date_rendered() {
    let mut p = page("/a", "<p>x</p>", entry_meta());
    p.date = Some(Date { year: 2015, month: 3, day: 7 });
    let out = MyGazetta.render_page(&site(vec![]), &p);
    assert!(out.contains("<header id=\"page-header\" class=\"title\"><h1 class=\"header\">A Title</h1><time datetime=\"2015-03-07\">2015-03-07</time></header>"));
}

#[test]
fn text_is_escaped() {
    let mut p = page("/a", "<p>x</p>", entry_meta());
    p.title = "Tom & \"Jerry\" <3".to_string();
    let out = MyGazetta.render_page(&site(vec![]), &p);
    assert!(out.contains("<title>Tom &amp; &quot;Jerry&quot; &lt;3</title>"));
}

#[test]
fn index_compact_and_full() {
    let e = IndexEntry {
        title: "Post".to_string(),
        href: "/post".to_string(),
        date: None,
        description: Some("Short".to_string()),
        content: "<p>Long</p>".to_string(),
    };
    let mut p = page("/blog", "", entry_meta());
    p.index = Some(Index { compact: true, entries: vec![e.clone()], paginate: None });
    let out = MyGazetta.render_page(&site(vec![]), &p);
    assert!(out.contains("<div id=\"page-index\"><article><header class=\"title\"><h1 class=\"header\"><a href=\"/post\">Post</a></h1></header><div class=\"content\">Short</div></article></div>"));
    p.index = Some(Index { compact: false, entries: vec![e], paginate: None });
    let out = MyGazetta.render_page(&site(vec![]), &p);
    assert!(out.contains("<div class=\"content\"><p>Long</p></div></article></div>"));
}

#[test]
fn feed_head_and_entry() {
    let s = site(vec![]);
    let p = page("/a", "<p>x</p>", entry_meta());
    assert_eq!(
        MyGazetta.render_feed_head(&s, &p),
        "<author><name>Site Owner</name><email></email></author>"
    );
    assert_eq!(
        MyGazetta.render_feed_entry(&s, &p),
        "<content type=\"html\">&lt;p&gt;x&lt;/p&gt;</content>"
    );
    let mut a = person("Ann");
    a.email = Some("a@b".to_string());
    let p = page("/a", "", PageMeta::Entry(EntryMeta { author: Some(a), about: None }));
    assert_eq!(
        MyGazetta.render_feed_entry(&s, &p),
        "<author><name>Ann</name><email>a@b</email></author><content type=\"html\"></content>"
    );
}

#[test]
fn link_renders_anchor_with_optional_title() {
    let mut m = gazetta_theme::Markup::new();
    let plain = Link { text: "Home".to_string(), url: "/".to_string(), title: None };
    plain.render(&mut m);
    let titled = Link {
        text: "A&B".to_string(),
        url: "/ab".to_string(),
        title: Some("x\"y".to_string()),
    };
    titled.render(&mut m);
    assert_eq!(
        m.to_html(),
        "<a href=\"/\">Home</a><a href=\"/ab\" title=\"x&quot;y\">A&amp;B</a>"
    );
}
