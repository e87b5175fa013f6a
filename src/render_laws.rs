use vstd::prelude::*;

use crate::link::Link;
use crate::markup::{TokenV, el, joined};
use crate::person::Person;
use crate::renderer::{
    Date, Index, IndexEntry, Page, Paginate, Site, about_spec, also_item, also_row_spec,
    author_line_spec, author_name, body_spec, canonical, container_spec,
    content_spec, counter, email_row_spec, entry_body_spec, entry_spec, footer_spec, head_spec,
    header_spec, index_spec, inner_spec, iso_date, key_row_spec, known_layout, layout_error,
    mailto, main_spec, nav_attrs, nav_item, nav_spec, next_spec, nick_item, nicks_spec,
    opt_about_spec, opt_date_spec, opt_index_spec, page_about, page_author, page_spec,
    paginate_spec, photo_spec, prev_spec, row, site_header_spec,
};
use crate::text::{blank, has_prefix};

verus! {

/// A navigation link is marked active exactly when the page's address
/// starts with the link's target; the target itself is always kept.
pub proof fn lemma_nav_active_iff_prefix(l: Link, href: Seq<char>)
    ensures
        nav_attrs(l, href).contains(("class"@, "active"@)) <==> has_prefix(href, l.url@),
        nav_attrs(l, href)[0] == ("href"@, l.url@),
        nav_item(l, href)[1] == TokenV::Open("a"@, nav_attrs(l, href)),
{
    reveal_strlit("href");
    reveal_strlit("class");
    let a = nav_attrs(l, href);
    if has_prefix(href, l.url@) {
        assert(a[1] == ("class"@, "active"@));
    } else {
        if a.contains(("class"@, "active"@)) {
            let i = choose|i: int| 0 <= i < a.len() && a[i] == ("class"@, "active"@);
            assert(a[i].0[0] == 'h');
        }
    }
}

/// The first page disables the control back and the last page the control
/// forward; every other position links to its neighbour.
pub proof fn lemma_pagination_bounds(p: Paginate)
    requires
        p.wf(),
    ensures
        p.current == 0 ==> prev_spec(p)[0] == TokenV::Open(
            "span"@,
            seq![("class"@, "prev disabled"@)],
        ),
        p.current > 0 ==> prev_spec(p)[0] == TokenV::Open(
            "a"@,
            seq![
                ("href"@, p.pages@[p.current - 1]@),
                ("class"@, "prev"@),
                ("rel"@, "prev"@),
                ("title"@, "previous"@),
            ],
        ),
        p.current + 1 == p.pages.len() ==> next_spec(p)[0] == TokenV::Open(
            "span"@,
            seq![("class"@, "next disabled"@)],
        ),
        p.current + 1 < p.pages.len() ==> next_spec(p)[0] == TokenV::Open(
            "a"@,
            seq![
                ("href"@, p.pages@[p.current + 1]@),
                ("class"@, "next"@),
                ("rel"@, "next"@),
                ("title"@, "next"@),
            ],
        ),
{
}

/// A page whose content is blank once trimmed gets no content region, and
/// its body stands in a `section` rather than an `article`.
pub proof fn lemma_blank_content_omitted(site: Site, page: Page)
    requires
        known_layout(page),
        blank(page.content@),
    ensures
        content_spec(page.content@) == Seq::<TokenV>::empty(),
        inner_spec(site, page) == header_spec(page) + author_line_spec(page_author(page))
            + opt_about_spec(page_about(site, page)) + opt_index_spec(page.index),
        container_spec(site, page) == el("section"@, seq![], inner_spec(site, page)),
{
    let a = header_spec(page) + author_line_spec(page_author(page)) + opt_about_spec(
        page_about(site, page),
    );
    assert(a + Seq::<TokenV>::empty() =~= a);
}

/// A page whose content is not blank is wrapped in an `article`.
pub proof fn lemma_written_content_kept(site: Site, page: Page)
    requires
        known_layout(page),
        !blank(page.content@),
    ensures
        content_spec(page.content@) == el(
            "div"@,
            seq![("id"@, "page-content"@), ("class"@, "content"@)],
            seq![TokenV::Raw(page.content@)],
        ),
        container_spec(site, page) == el("article"@, seq![], inner_spec(site, page)),
{
}

/// A page under a template that does not exist still yields the whole
/// document: head, site header and footer are there, and the error message
/// stands where the page's body would be.
pub proof fn lemma_unknown_layout_recovered(site: Site, page: Page)
    requires
        page.meta is Layout,
        !known_layout(page),
    ensures
        container_spec(site, page) == el(
            "div"@,
            seq![("class"@, "render-error"@)],
            seq![TokenV::Text(layout_error(page.meta->Layout_0.layout@))],
        ),
        page_spec(site, page) == seq![TokenV::Raw("<!DOCTYPE html>"@)] + el(
            "html"@,
            seq![("lang"@, "en"@)],
            head_spec(site, page) + el(
                "body"@,
                seq![],
                site_header_spec(site, page) + el(
                    "main"@,
                    seq![("id"@, "site-content"@)],
                    el(
                        "div"@,
                        seq![("class"@, "render-error"@)],
                        seq![TokenV::Text(layout_error(page.meta->Layout_0.layout@))],
                    ),
                ) + footer_spec(site),
            ),
        ),
{
}

/// The start tag of a page's content region.
pub open spec fn content_region() -> TokenV {
    TokenV::Open("div"@, seq![("id"@, "page-content"@), ("class"@, "content"@)])
}

/// Whether no token of `ts` opens a content region.
pub open spec fn lacks_region(ts: Seq<TokenV>) -> bool {
    forall|i: int| 0 <= i < ts.len() ==> ts[i] != content_region()
}

proof fn lemma_concat_lacks(a: Seq<TokenV>, b: Seq<TokenV>)
    requires
        lacks_region(a),
        lacks_region(b),
    ensures
        lacks_region(a + b),
{
    assert forall|i: int| 0 <= i < (a + b).len() implies (a + b)[i] != content_region() by {
        if i >= a.len() {
            assert((a + b)[i] == b[i - a.len()]);
        }
    }
}

proof fn lemma_el_lacks(tag: Seq<char>, attrs: Seq<(Seq<char>, Seq<char>)>, body: Seq<TokenV>)
    requires
        lacks_region(body),
        attrs.len() != 2 || tag != "div"@,
    ensures
        lacks_region(el(tag, attrs, body)),
{
    lemma_concat_lacks(seq![TokenV::Open(tag, attrs)], body);
    lemma_concat_lacks(seq![TokenV::Open(tag, attrs)] + body, seq![TokenV::Close(tag)]);
}

proof fn lemma_joined_lacks(parts: Seq<Seq<TokenV>>)
    requires
        forall|k: int| 0 <= k < parts.len() ==> lacks_region(#[trigger] parts[k]),
    ensures
        lacks_region(joined(parts)),
    decreases parts.len(),
{
    if parts.len() > 0 {
        lemma_joined_lacks(parts.drop_last());
        lemma_concat_lacks(joined(parts.drop_last()), parts.last());
    }
}

proof fn lemma_tags_differ()
    ensures
        "a"@ != "div"@,
        "header"@ != "div"@,
{
    reveal_strlit("a");
    reveal_strlit("div");
    reveal_strlit("header");
    assert("a"@.len() != "div"@.len());
    assert("header"@.len() != "div"@.len());
}

proof fn lemma_date_lacks(d: Option<Date>)
    ensures
        lacks_region(opt_date_spec(d)),
{
    if let Some(d) = d {
        lemma_el_lacks("time"@, seq![("datetime"@, iso_date(d))], seq![TokenV::Text(iso_date(d))]);
    }
}

proof fn lemma_about_lacks(p: Person)
    ensures
        lacks_region(about_spec(p)),
{
    lemma_tags_differ();
    let none = Seq::<(Seq<char>, Seq<char>)>::empty();
    if let Some(ph) = p.photo {
        lemma_el_lacks(
            "div"@,
            seq![("id"@, "about-photo"@)],
            seq![TokenV::Void("img"@, seq![("src"@, ph@), ("alt"@, "Photo"@)])],
        );
    }
    let nicks = p.nicknames@.map_values(|s: String| nick_item(s));
    assert forall|k: int| 0 <= k < nicks.len() implies lacks_region(#[trigger] nicks[k]) by {
        lemma_el_lacks("li"@, none, seq![TokenV::Text(p.nicknames@[k]@)]);
    }
    lemma_joined_lacks(nicks);
    if p.nicknames@.len() > 0 {
        lemma_el_lacks("ul"@, seq![("id"@, "about-nicks"@)], joined(nicks));
    }
    lemma_el_lacks("div"@, seq![("id"@, "about-realname"@)], seq![TokenV::Text(p.name@)]);
    lemma_concat_lacks(
        el("div"@, seq![("id"@, "about-realname"@)], seq![TokenV::Text(p.name@)]),
        nicks_spec(p.nicknames@),
    );
    let names = el("div"@, seq![("id"@, "about-realname"@)], seq![TokenV::Text(p.name@)])
        + nicks_spec(p.nicknames@);
    lemma_el_lacks("div"@, seq![("id"@, "about-name"@)], names);
    assert forall|head: Seq<char>, data: Seq<TokenV>| lacks_region(data) implies lacks_region(
        #[trigger] row(head, data),
    ) by {
        lemma_el_lacks("th"@, none, seq![TokenV::Text(head)]);
        lemma_el_lacks("td"@, none, data);
        lemma_concat_lacks(el("th"@, none, seq![TokenV::Text(head)]), el("td"@, none, data));
        lemma_el_lacks("tr"@, none, el("th"@, none, seq![TokenV::Text(head)]) + el("td"@, none, data));
    }
    if let Some(e) = p.email {
        lemma_el_lacks("a"@, seq![("href"@, mailto(e@))], seq![TokenV::Text(e@)]);
        assert(lacks_region(row("Email"@, el("a"@, seq![("href"@, mailto(e@))], seq![TokenV::Text(e@)]))));
    }
    let also = p.also@.map_values(|l: Link| also_item(l));
    assert forall|k: int| 0 <= k < also.len() implies lacks_region(#[trigger] also[k]) by {
        let l = p.also@[k];
        lemma_el_lacks(
            "a"@,
            seq![("href"@, l.url@), ("rel"@, "nofollow me"@)],
            seq![TokenV::Text(l.text@)],
        );
        lemma_el_lacks(
            "li"@,
            none,
            el("a"@, seq![("href"@, l.url@), ("rel"@, "nofollow me"@)], seq![TokenV::Text(l.text@)]),
        );
    }
    lemma_joined_lacks(also);
    if p.also@.len() > 0 {
        lemma_el_lacks("ul"@, seq![("id"@, "about-also"@)], joined(also));
        assert(lacks_region(row("Also"@, el("ul"@, seq![("id"@, "about-also"@)], joined(also)))));
    }
    if let Some(k) = p.key {
        lemma_el_lacks("a"@, seq![("href"@, k.url@)], seq![TokenV::Text(k.fingerprint@)]);
        assert(lacks_region(
            row("PGP Key"@, el("a"@, seq![("href"@, k.url@)], seq![TokenV::Text(k.fingerprint@)])),
        ));
    }
    lemma_concat_lacks(email_row_spec(p.email), also_row_spec(p.also@));
    lemma_concat_lacks(email_row_spec(p.email) + also_row_spec(p.also@), key_row_spec(p.key));
    lemma_el_lacks(
        "table"@,
        seq![("id"@, "about-extra"@)],
        email_row_spec(p.email) + also_row_spec(p.also@) + key_row_spec(p.key),
    );
    let extra = el(
        "table"@,
        seq![("id"@, "about-extra"@)],
        email_row_spec(p.email) + also_row_spec(p.also@) + key_row_spec(p.key),
    );
    lemma_concat_lacks(photo_spec(p.photo), el("div"@, seq![("id"@, "about-name"@)], names));
    lemma_concat_lacks(photo_spec(p.photo) + el("div"@, seq![("id"@, "about-name"@)], names), extra);
    lemma_el_lacks(
        "div"@,
        seq![("id"@, "about"@)],
        photo_spec(p.photo) + el("div"@, seq![("id"@, "about-name"@)], names) + extra,
    );
}

proof fn lemma_index_lacks(idx: Index)
    ensures
        lacks_region(index_spec(idx)),
{
    lemma_tags_differ();
    let none = Seq::<(Seq<char>, Seq<char>)>::empty();
    let entries = idx.entries@.map_values(|e: IndexEntry| entry_spec(e, idx.compact));
    assert forall|k: int| 0 <= k < entries.len() implies lacks_region(#[trigger] entries[k]) by {
        let e = idx.entries@[k];
        let link = el("a"@, seq![("href"@, e.href@)], seq![TokenV::Text(e.title@)]);
        lemma_el_lacks("a"@, seq![("href"@, e.href@)], seq![TokenV::Text(e.title@)]);
        lemma_el_lacks("h1"@, seq![("class"@, "header"@)], link);
        lemma_date_lacks(e.date);
        lemma_concat_lacks(el("h1"@, seq![("class"@, "header"@)], link), opt_date_spec(e.date));
        lemma_el_lacks(
            "header"@,
            seq![("class"@, "title"@)],
            el("h1"@, seq![("class"@, "header"@)], link) + opt_date_spec(e.date),
        );
        if let Some(d) = e.description {
            lemma_el_lacks("div"@, seq![("class"@, "content"@)], seq![TokenV::Text(d@)]);
        }
        lemma_el_lacks("div"@, seq![("class"@, "content"@)], seq![TokenV::Raw(e.content@)]);
        let head = el(
            "header"@,
            seq![("class"@, "title"@)],
            el("h1"@, seq![("class"@, "header"@)], link) + opt_date_spec(e.date),
        );
        lemma_concat_lacks(head, entry_body_spec(e, idx.compact));
        lemma_el_lacks("article"@, none, head + entry_body_spec(e, idx.compact));
    }
    lemma_joined_lacks(entries);
    lemma_el_lacks("div"@, seq![("id"@, "page-index"@)], joined(entries));
    if let Some(p) = idx.paginate {
        let back = seq![TokenV::Raw("&larr; Previous"@)];
        let on = seq![TokenV::Raw("Next &rarr;"@)];
        if p.current == 0 {
            lemma_el_lacks("span"@, seq![("class"@, "prev disabled"@)], back);
        } else {
            lemma_el_lacks(
                "a"@,
                seq![
                    ("href"@, p.pages@[p.current - 1]@),
                    ("class"@, "prev"@),
                    ("rel"@, "prev"@),
                    ("title"@, "previous"@),
                ],
                back,
            );
        }
        if p.current + 1 == p.pages.len() {
            lemma_el_lacks("span"@, seq![("class"@, "next disabled"@)], on);
        } else {
            lemma_el_lacks(
                "a"@,
                seq![
                    ("href"@, p.pages@[p.current + 1]@),
                    ("class"@, "next"@),
                    ("rel"@, "next"@),
                    ("title"@, "next"@),
                ],
                on,
            );
        }
        let count = el("span"@, none, seq![TokenV::Text(counter(p))]);
        lemma_el_lacks("span"@, none, seq![TokenV::Text(counter(p))]);
        lemma_concat_lacks(prev_spec(p), count);
        lemma_concat_lacks(prev_spec(p) + count, next_spec(p));
        lemma_el_lacks("div"@, none, prev_spec(p) + count + next_spec(p));
        lemma_el_lacks(
            "nav"@,
            seq![("id"@, "page-pagination"@)],
            el("div"@, none, prev_spec(p) + count + next_spec(p)),
        );
        lemma_el_lacks(
            "footer"@,
            none,
            el(
                "nav"@,
                seq![("id"@, "page-pagination"@)],
                el("div"@, none, prev_spec(p) + count + next_spec(p)),
            ),
        );
    }
    lemma_concat_lacks(
        el("div"@, seq![("id"@, "page-index"@)], joined(entries)),
        match idx.paginate {
            Some(p) => paginate_spec(p),
            None => seq![],
        },
    );
}

proof fn lemma_chrome_lacks(site: Site, page: Page)
    ensures
        lacks_region(head_spec(site, page)),
        lacks_region(site_header_spec(site, page)),
        lacks_region(footer_spec(site)),
        lacks_region(header_spec(page)),
        lacks_region(author_line_spec(page_author(page))),
{
    lemma_tags_differ();
    let none = Seq::<(Seq<char>, Seq<char>)>::empty();
    let voids = seq![
        TokenV::Void("link"@, seq![("rel"@, "canonical"@), ("href"@, canonical(site, page))]),
        TokenV::Void(
            "meta"@,
            seq![("name"@, "viewport"@), ("content"@, "width=device-width, initial-scale=1.0"@)],
        ),
        TokenV::Void("meta"@, seq![("name"@, "author"@), ("content"@, author_name(site, page))]),
    ];
    let title = el("title"@, none, seq![TokenV::Text(page.title@)]);
    lemma_el_lacks("title"@, none, seq![TokenV::Text(page.title@)]);
    lemma_concat_lacks(voids, title);
    lemma_concat_lacks(voids + title, seq![TokenV::Raw(page.head@)]);
    lemma_el_lacks("head"@, none, voids + title + seq![TokenV::Raw(page.head@)]);

    let nav = site.meta.nav@.map_values(|l: Link| nav_item(l, page.href@));
    assert forall|k: int| 0 <= k < nav.len() implies lacks_region(#[trigger] nav[k]) by {
        let l = site.meta.nav@[k];
        lemma_el_lacks("a"@, nav_attrs(l, page.href@), seq![TokenV::Text(l.text@)]);
        lemma_concat_lacks(
            seq![TokenV::Text(" "@)],
            el("a"@, nav_attrs(l, page.href@), seq![TokenV::Text(l.text@)]),
        );
    }
    lemma_joined_lacks(nav);
    if site.meta.nav@.len() > 0 {
        lemma_el_lacks("nav"@, seq![("id"@, "site-nav"@)], joined(nav));
    }
    let home = el("a"@, seq![("class"@, "header"@), ("href"@, ""@)], seq![TokenV::Text(site.title@)]);
    lemma_el_lacks("a"@, seq![("class"@, "header"@), ("href"@, ""@)], seq![TokenV::Text(site.title@)]);
    lemma_concat_lacks(home, seq![TokenV::Text(" "@)]);
    lemma_concat_lacks(home + seq![TokenV::Text(" "@)], nav_spec(site.meta.nav@, page.href@));
    lemma_el_lacks(
        "header"@,
        seq![("id"@, "site-header"@)],
        home + seq![TokenV::Text(" "@)] + nav_spec(site.meta.nav@, page.href@),
    );

    let owner = el("span"@, seq![("id"@, "site-author"@)], seq![TokenV::Text(site.meta.author.name@)]);
    lemma_el_lacks("span"@, seq![("id"@, "site-author"@)], seq![TokenV::Text(site.meta.author.name@)]);
    lemma_concat_lacks(seq![TokenV::Raw("&copy; "@)], owner);
    lemma_el_lacks("p"@, none, seq![TokenV::Raw("&copy; "@)] + owner);
    lemma_el_lacks("footer"@, seq![("id"@, "site-footer"@)], el("p"@, none, seq![TokenV::Raw("&copy; "@)] + owner));

    let h1 = el("h1"@, seq![("class"@, "header"@)], seq![TokenV::Text(page.title@)]);
    lemma_el_lacks("h1"@, seq![("class"@, "header"@)], seq![TokenV::Text(page.title@)]);
    lemma_date_lacks(page.date);
    lemma_concat_lacks(h1, opt_date_spec(page.date));
    lemma_el_lacks(
        "header"@,
        seq![("id"@, "page-header"@), ("class"@, "title"@)],
        h1 + opt_date_spec(page.date),
    );

    if let Some(p) = page_author(page) {
        match p.email {
            Some(e) => {
                lemma_el_lacks("a"@, seq![("href"@, mailto(e@))], seq![TokenV::Text(p.name@)]);
                lemma_el_lacks(
                    "span"@,
                    seq![("id"@, "page-author"@)],
                    el("a"@, seq![("href"@, mailto(e@))], seq![TokenV::Text(p.name@)]),
                );
            },
            None => {
                lemma_el_lacks("span"@, seq![("id"@, "page-author"@)], seq![TokenV::Text(p.name@)]);
            },
        }
    }
}

/// A page whose content is blank once trimmed has no content region
/// anywhere in its document.
pub proof fn lemma_blank_page_has_no_content_region(site: Site, page: Page)
    requires
        known_layout(page),
        blank(page.content@),
    ensures
        lacks_region(page_spec(site, page)),
{
    lemma_chrome_lacks(site, page);
    lemma_blank_content_omitted(site, page);
    let none = Seq::<(Seq<char>, Seq<char>)>::empty();
    if let Some(p) = page_about(site, page) {
        lemma_about_lacks(p);
    }
    if let Some(i) = page.index {
        lemma_index_lacks(i);
    }
    let a = header_spec(page);
    let b = author_line_spec(page_author(page));
    let c = opt_about_spec(page_about(site, page));
    let d = opt_index_spec(page.index);
    lemma_concat_lacks(a, b);
    lemma_concat_lacks(a + b, c);
    lemma_concat_lacks(a + b + c, d);
    lemma_el_lacks("section"@, none, inner_spec(site, page));
    lemma_el_lacks("main"@, seq![("id"@, "site-content"@)], container_spec(site, page));
    lemma_concat_lacks(site_header_spec(site, page), main_spec(site, page));
    lemma_concat_lacks(site_header_spec(site, page) + main_spec(site, page), footer_spec(site));
    lemma_el_lacks(
        "body"@,
        none,
        site_header_spec(site, page) + main_spec(site, page) + footer_spec(site),
    );
    lemma_concat_lacks(head_spec(site, page), body_spec(site, page));
    lemma_el_lacks("html"@, seq![("lang"@, "en"@)], head_spec(site, page) + body_spec(site, page));
    lemma_concat_lacks(
        seq![TokenV::Raw("<!DOCTYPE html>"@)],
        el("html"@, seq![("lang"@, "en"@)], head_spec(site, page) + body_spec(site, page)),
    );
}

} // verus!
