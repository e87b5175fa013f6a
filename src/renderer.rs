use vstd::prelude::*;

use crate::link::Link;
use crate::markup::{Markup, TokenV, attr, attrs_view, el, html_of, joined};
use crate::meta::{EntryMeta, LayoutMeta, SourceMeta};
use crate::person::{Key, Person};
use crate::text::{
    blank,
    decimal,
    four_digits,
    has_prefix,
    is_blank,
    starts_with,
    to_decimal,
    two_digits,
    write_four_digits,
    write_two_digits,
};

verus! {

/// A calendar date.
#[derive(Clone, Copy, Debug, PartialEq, Eq)]
pub struct Date {
    pub year: u16,
    pub month: u8,
    pub day: u8,
}

impl Date {
    /// Year in four digits, month from 1 to 12, day from 1 to 31.
    pub open spec fn wf(&self) -> bool {
        self.year < 10000 && 1 <= self.month <= 12 && 1 <= self.day <= 31
    }
}

/// The date as `YYYY-MM-DD`.
pub open spec fn iso_date(d: Date) -> Seq<char> {
    four_digits(d.year as int) + "-"@ + two_digits(d.month as int) + "-"@ + two_digits(d.day as int)
}

/// A date element: the ISO date as its machine-readable value and as its text.
pub open spec fn date_spec(d: Date) -> Seq<TokenV> {
    el("time"@, seq![("datetime"@, iso_date(d))], seq![TokenV::Text(iso_date(d))])
}

/// A date that is there is well formed.
pub open spec fn opt_date_wf(d: Option<Date>) -> bool {
    match d {
        Some(d) => d.wf(),
        None => true,
    }
}

/// A date element when there is a date.
pub open spec fn opt_date_spec(d: Option<Date>) -> Seq<TokenV> {
    match d {
        Some(d) => date_spec(d),
        None => seq![],
    }
}

fn iso(d: &Date) -> (r: String)
    requires
        d.wf(),
    ensures
        r@ == iso_date(*d),
{
    let mut s = String::new();
    write_four_digits(&mut s, d.year as u64);
    s.append("-");
    write_two_digits(&mut s, d.month as u64);
    s.append("-");
    write_two_digits(&mut s, d.day as u64);
    assert(s@ =~= iso_date(*d));
    s
}

fn render_date(m: &mut Markup, d: &Option<Date>)
    requires
        opt_date_wf(*d),
    ensures
        final(m)@ == old(m)@ + opt_date_spec(*d),
{
    match d {
        Some(d) => {
            let s = iso(d);
            m.open("time", attrs1("datetime", s.as_str()));
            m.text(s.as_str());
            m.close("time");
            assert(m@ =~= old(m)@ + opt_date_spec(Some(*d)));
        },
        None => {
            assert(m@ =~= old(m)@ + opt_date_spec(None));
        },
    }
}

fn no_attrs() -> (r: Vec<(String, String)>)
    ensures
        attrs_view(r@) == Seq::<(Seq<char>, Seq<char>)>::empty(),
{
    let r: Vec<(String, String)> = Vec::new();
    assert(attrs_view(r@) =~= Seq::<(Seq<char>, Seq<char>)>::empty());
    r
}

fn attrs1(n: &str, v: &str) -> (r: Vec<(String, String)>)
    ensures
        attrs_view(r@) == seq![(n@, v@)],
{
    let r = vec![attr(n, v)];
    assert(attrs_view(r@) =~= seq![(n@, v@)]);
    r
}

fn attrs2(n1: &str, v1: &str, n2: &str, v2: &str) -> (r: Vec<(String, String)>)
    ensures
        attrs_view(r@) == seq![(n1@, v1@), (n2@, v2@)],
{
    let r = vec![attr(n1, v1), attr(n2, v2)];
    assert(attrs_view(r@) =~= seq![(n1@, v1@), (n2@, v2@)]);
    r
}

fn attrs4(n1: &str, v1: &str, n2: &str, v2: &str, n3: &str, v3: &str, n4: &str, v4: &str) -> (r: Vec<
    (String, String),
>)
    ensures
        attrs_view(r@) == seq![(n1@, v1@), (n2@, v2@), (n3@, v3@), (n4@, v4@)],
{
    let r = vec![attr(n1, v1), attr(n2, v2), attr(n3, v3), attr(n4, v4)];
    assert(attrs_view(r@) =~= seq![(n1@, v1@), (n2@, v2@), (n3@, v3@), (n4@, v4@)]);
    r
}

/// The target of a link that writes an e-mail.
pub open spec fn mailto(e: Seq<char>) -> Seq<char> {
    "mailto:"@ + e
}

fn mailto_of(e: &String) -> (r: String)
    ensures
        r@ == mailto(e@),
{
    let mut r = String::from_str("mailto:");
    r.append(e.as_str());
    r
}

/// The author line: the name, linked to the e-mail address when there is one.
pub open spec fn author_line_spec(p: Option<Person>) -> Seq<TokenV> {
    match p {
        None => seq![],
        Some(p) => el(
            "span"@,
            seq![("id"@, "page-author"@)],
            match p.email {
                Some(e) => el("a"@, seq![("href"@, mailto(e@))], seq![TokenV::Text(p.name@)]),
                None => seq![TokenV::Text(p.name@)],
            },
        ),
    }
}

/// The person that an optional reference points to.
pub open spec fn deref_person(p: Option<&Person>) -> Option<Person> {
    match p {
        Some(p) => Some(*p),
        None => None,
    }
}

fn render_author_line(m: &mut Markup, p: Option<&Person>)
    ensures
        final(m)@ == old(m)@ + author_line_spec(deref_person(p)),
{
    match p {
        Some(p) => {
            m.open("span", attrs1("id", "page-author"));
            match &p.email {
                Some(e) => {
                    let target = mailto_of(e);
                    m.open("a", attrs1("href", target.as_str()));
                    m.text(p.name.as_str());
                    m.close("a");
                },
                None => {
                    m.text(p.name.as_str());
                },
            }
            m.close("span");
        },
        None => {},
    }
    assert(m@ =~= old(m)@ + author_line_spec(deref_person(p)));
}

/// One nickname as a list item.
pub open spec fn nick_item(n: String) -> Seq<TokenV> {
    el("li"@, seq![], seq![TokenV::Text(n@)])
}

/// One further link of a person as a list item.
pub open spec fn also_item(l: Link) -> Seq<TokenV> {
    el(
        "li"@,
        seq![],
        el("a"@, seq![("href"@, l.url@), ("rel"@, "nofollow me"@)], seq![TokenV::Text(l.text@)]),
    )
}

/// The photo of the about block, when there is one.
pub open spec fn photo_spec(photo: Option<String>) -> Seq<TokenV> {
    match photo {
        Some(ph) => el(
            "div"@,
            seq![("id"@, "about-photo"@)],
            seq![TokenV::Void("img"@, seq![("src"@, ph@), ("alt"@, "Photo"@)])],
        ),
        None => seq![],
    }
}

/// The list of nicknames: nothing when there are none.
pub open spec fn nicks_spec(n: Seq<String>) -> Seq<TokenV> {
    if n.len() == 0 {
        seq![]
    } else {
        el("ul"@, seq![("id"@, "about-nicks"@)], joined(n.map_values(|s: String| nick_item(s))))
    }
}

/// A row of the information table: a heading cell and a data cell.
pub open spec fn row(head: Seq<char>, data: Seq<TokenV>) -> Seq<TokenV> {
    el("tr"@, seq![], el("th"@, seq![], seq![TokenV::Text(head)]) + el("td"@, seq![], data))
}

/// The e-mail row: omitted without an address.
pub open spec fn email_row_spec(e: Option<String>) -> Seq<TokenV> {
    match e {
        Some(e) => row("Email"@, el("a"@, seq![("href"@, mailto(e@))], seq![TokenV::Text(e@)])),
        None => seq![],
    }
}

/// The row of further links: omitted when there are none.
pub open spec fn also_row_spec(a: Seq<Link>) -> Seq<TokenV> {
    if a.len() == 0 {
        seq![]
    } else {
        row(
            "Also"@,
            el("ul"@, seq![("id"@, "about-also"@)], joined(a.map_values(|l: Link| also_item(l)))),
        )
    }
}

/// The key row: omitted without a key reference.
pub open spec fn key_row_spec(k: Option<Key>) -> Seq<TokenV> {
    match k {
        Some(k) => row(
            "PGP Key"@,
            el("a"@, seq![("href"@, k.url@)], seq![TokenV::Text(k.fingerprint@)]),
        ),
        None => seq![],
    }
}

/// The block that presents a person: photo, real name, nicknames, and a
/// table whose e-mail, link and key rows are there only when the data is.
pub open spec fn about_spec(p: Person) -> Seq<TokenV> {
    el(
        "div"@,
        seq![("id"@, "about"@)],
        photo_spec(p.photo) + el(
            "div"@,
            seq![("id"@, "about-name"@)],
            el("div"@, seq![("id"@, "about-realname"@)], seq![TokenV::Text(p.name@)]) + nicks_spec(
                p.nicknames@,
            ),
        ) + el(
            "table"@,
            seq![("id"@, "about-extra"@)],
            email_row_spec(p.email) + also_row_spec(p.also@) + key_row_spec(p.key),
        ),
    )
}

fn render_nick_items(m: &mut Markup, n: &Vec<String>)
    ensures
        final(m)@ == old(m)@ + joined(n@.map_values(|s: String| nick_item(s))),
{
    let mut i: usize = 0;
    assert(n@.take(0).map_values(|s: String| nick_item(s)) =~= Seq::<Seq<TokenV>>::empty());
    while i < n.len()
        invariant
            i <= n.len(),
            m@ == old(m)@ + joined(n@.take(i as int).map_values(|s: String| nick_item(s))),
        decreases n.len() - i,
    {
        let ghost before = m@;
        m.open("li", no_attrs());
        m.text(n[i].as_str());
        m.close("li");
        proof {
            let parts = n@.take(i + 1).map_values(|s: String| nick_item(s));
            assert(parts.drop_last() =~= n@.take(i as int).map_values(|s: String| nick_item(s)));
            assert(parts.last() == nick_item(n@[i as int]));
            assert(m@ =~= before + nick_item(n@[i as int]));
        }
        i = i + 1;
    }
    assert(n@.take(i as int) =~= n@);
}

fn render_also_items(m: &mut Markup, a: &Vec<Link>)
    ensures
        final(m)@ == old(m)@ + joined(a@.map_values(|l: Link| also_item(l))),
{
    let mut i: usize = 0;
    assert(a@.take(0).map_values(|l: Link| also_item(l)) =~= Seq::<Seq<TokenV>>::empty());
    while i < a.len()
        invariant
            i <= a.len(),
            m@ == old(m)@ + joined(a@.take(i as int).map_values(|l: Link| also_item(l))),
        decreases a.len() - i,
    {
        let ghost before = m@;
        let l = &a[i];
        m.open("li", no_attrs());
        m.open("a", attrs2("href", l.url.as_str(), "rel", "nofollow me"));
        m.text(l.text.as_str());
        m.close("a");
        m.close("li");
        proof {
            let parts = a@.take(i + 1).map_values(|l: Link| also_item(l));
            assert(parts.drop_last() =~= a@.take(i as int).map_values(|l: Link| also_item(l)));
            assert(parts.last() == also_item(a@[i as int]));
            assert(m@ =~= before + also_item(a@[i as int]));
        }
        i = i + 1;
    }
    assert(a@.take(i as int) =~= a@);
}

fn render_photo(m: &mut Markup, photo: &Option<String>)
    ensures
        final(m)@ == old(m)@ + photo_spec(*photo),
{
    match photo {
        Some(ph) => {
            m.open("div", attrs1("id", "about-photo"));
            m.void("img", attrs2("src", ph.as_str(), "alt", "Photo"));
            m.close("div");
        },
        None => {},
    }
    assert(m@ =~= old(m)@ + photo_spec(*photo));
}

fn render_names(m: &mut Markup, p: &Person)
    ensures
        final(m)@ == old(m)@ + el(
            "div"@,
            seq![("id"@, "about-name"@)],
            el("div"@, seq![("id"@, "about-realname"@)], seq![TokenV::Text(p.name@)]) + nicks_spec(
                p.nicknames@,
            ),
        ),
{
    m.open("div", attrs1("id", "about-name"));
    m.open("div", attrs1("id", "about-realname"));
    m.text(p.name.as_str());
    m.close("div");
    let ghost m1 = m@;
    if p.nicknames.len() > 0 {
        m.open("ul", attrs1("id", "about-nicks"));
        render_nick_items(m, &p.nicknames);
        m.close("ul");
    }
    assert(m@ =~= m1 + nicks_spec(p.nicknames@));
    m.close("div");
    assert(m@ =~= old(m)@ + el(
        "div"@,
        seq![("id"@, "about-name"@)],
        el("div"@, seq![("id"@, "about-realname"@)], seq![TokenV::Text(p.name@)]) + nicks_spec(
            p.nicknames@,
        ),
    ));
}

fn render_row_head(m: &mut Markup, head: &str)
    ensures
        final(m)@ == old(m)@ + seq![TokenV::Open("tr"@, seq![])] + el(
            "th"@,
            seq![],
            seq![TokenV::Text(head@)],
        ) + seq![TokenV::Open("td"@, seq![])],
{
    m.open("tr", no_attrs());
    m.open("th", no_attrs());
    m.text(head);
    m.close("th");
    m.open("td", no_attrs());
    assert(m@ =~= old(m)@ + seq![TokenV::Open("tr"@, seq![])] + el(
        "th"@,
        seq![],
        seq![TokenV::Text(head@)],
    ) + seq![TokenV::Open("td"@, seq![])]);
}

fn render_row_tail(m: &mut Markup)
    ensures
        final(m)@ == old(m)@ + seq![TokenV::Close("td"@), TokenV::Close("tr"@)],
{
    m.close("td");
    m.close("tr");
    assert(m@ =~= old(m)@ + seq![TokenV::Close("td"@), TokenV::Close("tr"@)]);
}

fn render_email_row(m: &mut Markup, email: &Option<String>)
    ensures
        final(m)@ == old(m)@ + email_row_spec(*email),
{
    match email {
        Some(e) => {
            let target = mailto_of(e);
            render_row_head(m, "Email");
            let ghost m1 = m@;
            m.open("a", attrs1("href", target.as_str()));
            m.text(e.as_str());
            m.close("a");
            let ghost m2 = m@;
            render_row_tail(m);
            assert(m2 =~= m1 + el("a"@, seq![("href"@, mailto(e@))], seq![TokenV::Text(e@)]));
        },
        None => {},
    }
    assert(m@ =~= old(m)@ + email_row_spec(*email));
}

fn render_also_row(m: &mut Markup, also: &Vec<Link>)
    ensures
        final(m)@ == old(m)@ + also_row_spec(also@),
{
    if also.len() > 0 {
        render_row_head(m, "Also");
        let ghost m1 = m@;
        m.open("ul", attrs1("id", "about-also"));
        render_also_items(m, also);
        m.close("ul");
        let ghost m2 = m@;
        render_row_tail(m);
        assert(m2 =~= m1 + el(
            "ul"@,
            seq![("id"@, "about-also"@)],
            joined(also@.map_values(|l: Link| also_item(l))),
        ));
    }
    assert(m@ =~= old(m)@ + also_row_spec(also@));
}

fn render_key_row(m: &mut Markup, key: &Option<Key>)
    ensures
        final(m)@ == old(m)@ + key_row_spec(*key),
{
    match key {
        Some(k) => {
            render_row_head(m, "PGP Key");
            let ghost m1 = m@;
            m.open("a", attrs1("href", k.url.as_str()));
            m.text(k.fingerprint.as_str());
            m.close("a");
            let ghost m2 = m@;
            render_row_tail(m);
            assert(m2 =~= m1 + el("a"@, seq![("href"@, k.url@)], seq![TokenV::Text(k.fingerprint@)]));
        },
        None => {},
    }
    assert(m@ =~= old(m)@ + key_row_spec(*key));
}

fn render_about(m: &mut Markup, p: &Person)
    ensures
        final(m)@ == old(m)@ + about_spec(*p),
{
    m.open("div", attrs1("id", "about"));
    let ghost m0 = m@;
    render_photo(m, &p.photo);
    render_names(m, p);
    let ghost m1 = m@;
    m.open("table", attrs1("id", "about-extra"));
    let ghost t0 = m@;
    render_email_row(m, &p.email);
    render_also_row(m, &p.also);
    render_key_row(m, &p.key);
    assert(m@ =~= t0 + (email_row_spec(p.email) + also_row_spec(p.also@) + key_row_spec(p.key)));
    m.close("table");
    let ghost m2 = m@;
    m.close("div");
    assert(m2 =~= m1 + el(
        "table"@,
        seq![("id"@, "about-extra"@)],
        email_row_spec(p.email) + also_row_spec(p.also@) + key_row_spec(p.key),
    ));
    assert(m@ =~= old(m)@ + about_spec(*p));
}

/// Where a paginated listing stands: the address of every page of it, and
/// which of them this is.
#[derive(Clone, Debug)]
pub struct Paginate {
    pub pages: Vec<String>,
    pub current: usize,
}

/// One listed page.
#[derive(Clone, Debug)]
pub struct IndexEntry {
    pub title: String,
    pub href: String,
    pub date: Option<Date>,
    pub description: Option<String>,
    pub content: String,
}

/// A listing of pages, shown by description when compact and in full
/// otherwise, possibly split over several pages.
#[derive(Clone, Debug)]
pub struct Index {
    pub compact: bool,
    pub entries: Vec<IndexEntry>,
    pub paginate: Option<Paginate>,
}

impl Paginate {
    /// The current page is one of the pages.
    pub open spec fn wf(&self) -> bool {
        self.current < self.pages.len()
    }
}

impl Index {
    /// Every listed date is well formed, and so is the pagination.
    pub open spec fn wf(&self) -> bool {
        &&& forall|i: int| 0 <= i < self.entries.len() ==> opt_date_wf(#[trigger] self.entries@[i].date)
        &&& (self.paginate matches Some(p) ==> p.wf())
    }
}

/// The main content of a page: omitted when it is blank.
pub open spec fn content_spec(content: Seq<char>) -> Seq<TokenV> {
    if blank(content) {
        seq![]
    } else {
        el(
            "div"@,
            seq![("id"@, "page-content"@), ("class"@, "content"@)],
            seq![TokenV::Raw(content)],
        )
    }
}

fn render_content(m: &mut Markup, content: &String)
    ensures
        final(m)@ == old(m)@ + content_spec(content@),
{
    if !is_blank(content.as_str()) {
        m.open("div", attrs2("id", "page-content", "class", "content"));
        m.raw(content.as_str());
        m.close("div");
    }
    assert(m@ =~= old(m)@ + content_spec(content@));
}

/// The body of a listed page: its description when compact, else its content.
pub open spec fn entry_body_spec(e: IndexEntry, compact: bool) -> Seq<TokenV> {
    if compact {
        match e.description {
            Some(d) => el("div"@, seq![("class"@, "content"@)], seq![TokenV::Text(d@)]),
            None => seq![],
        }
    } else {
        el("div"@, seq![("class"@, "content"@)], seq![TokenV::Raw(e.content@)])
    }
}

/// A listed page: its linked title, its date, and its body.
pub open spec fn entry_spec(e: IndexEntry, compact: bool) -> Seq<TokenV> {
    el(
        "article"@,
        seq![],
        el(
            "header"@,
            seq![("class"@, "title"@)],
            el(
                "h1"@,
                seq![("class"@, "header"@)],
                el("a"@, seq![("href"@, e.href@)], seq![TokenV::Text(e.title@)]),
            ) + opt_date_spec(e.date),
        ) + entry_body_spec(e, compact),
    )
}

fn render_entry(m: &mut Markup, e: &IndexEntry, compact: bool)
    requires
        opt_date_wf(e.date),
    ensures
        final(m)@ == old(m)@ + entry_spec(*e, compact),
{
    m.open("article", no_attrs());
    let ghost a0 = m@;
    m.open("header", attrs1("class", "title"));
    let ghost h0 = m@;
    m.open("h1", attrs1("class", "header"));
    m.open("a", attrs1("href", e.href.as_str()));
    m.text(e.title.as_str());
    m.close("a");
    m.close("h1");
    render_date(m, &e.date);
    assert(m@ =~= h0 + (el(
        "h1"@,
        seq![("class"@, "header"@)],
        el("a"@, seq![("href"@, e.href@)], seq![TokenV::Text(e.title@)]),
    ) + opt_date_spec(e.date)));
    m.close("header");
    let ghost b0 = m@;
    if compact {
        match &e.description {
            Some(d) => {
                m.open("div", attrs1("class", "content"));
                m.text(d.as_str());
                m.close("div");
            },
            None => {},
        }
    } else {
        m.open("div", attrs1("class", "content"));
        m.raw(e.content.as_str());
        m.close("div");
    }
    assert(m@ =~= b0 + entry_body_spec(*e, compact));
    m.close("article");
    assert(m@ =~= old(m)@ + entry_spec(*e, compact));
}

fn render_entries(m: &mut Markup, idx: &Index)
    requires
        idx.wf(),
    ensures
        final(m)@ == old(m)@ + joined(
            idx.entries@.map_values(|e: IndexEntry| entry_spec(e, idx.compact)),
        ),
{
    let ghost f = |e: IndexEntry| entry_spec(e, idx.compact);
    let mut i: usize = 0;
    assert(idx.entries@.take(0).map_values(f) =~= Seq::<Seq<TokenV>>::empty());
    while i < idx.entries.len()
        invariant
            i <= idx.entries.len(),
            idx.wf(),
            f == (|e: IndexEntry| entry_spec(e, idx.compact)),
            m@ == old(m)@ + joined(idx.entries@.take(i as int).map_values(f)),
        decreases idx.entries.len() - i,
    {
        let ghost before = m@;
        render_entry(m, &idx.entries[i], idx.compact);
        proof {
            let parts = idx.entries@.take(i + 1).map_values(f);
            assert(parts.drop_last() =~= idx.entries@.take(i as int).map_values(f));
            assert(parts.last() == f(idx.entries@[i as int]));
        }
        i = i + 1;
    }
    assert(idx.entries@.take(i as int) =~= idx.entries@);
}

/// `" k of n "`: the current page counted from one, and how many there are.
pub open spec fn counter(p: Paginate) -> Seq<char> {
    " "@ + decimal((p.current + 1) as nat) + " of "@ + decimal(p.pages.len() as nat) + " "@
}

/// The control back to the previous page, disabled on the first page.
pub open spec fn prev_spec(p: Paginate) -> Seq<TokenV> {
    if p.current == 0 {
        el("span"@, seq![("class"@, "prev disabled"@)], seq![TokenV::Raw("&larr; Previous"@)])
    } else {
        el(
            "a"@,
            seq![
                ("href"@, p.pages@[p.current - 1]@),
                ("class"@, "prev"@),
                ("rel"@, "prev"@),
                ("title"@, "previous"@),
            ],
            seq![TokenV::Raw("&larr; Previous"@)],
        )
    }
}

/// The control on to the next page, disabled on the last page.
pub open spec fn next_spec(p: Paginate) -> Seq<TokenV> {
    if p.current + 1 == p.pages.len() {
        el("span"@, seq![("class"@, "next disabled"@)], seq![TokenV::Raw("Next &rarr;"@)])
    } else {
        el(
            "a"@,
            seq![
                ("href"@, p.pages@[p.current + 1]@),
                ("class"@, "next"@),
                ("rel"@, "next"@),
                ("title"@, "next"@),
            ],
            seq![TokenV::Raw("Next &rarr;"@)],
        )
    }
}

/// The previous/next control of a paginated listing.
pub open spec fn paginate_spec(p: Paginate) -> Seq<TokenV> {
    el(
        "footer"@,
        seq![],
        el(
            "nav"@,
            seq![("id"@, "page-pagination"@)],
            el(
                "div"@,
                seq![],
                prev_spec(p) + el("span"@, seq![], seq![TokenV::Text(counter(p))]) + next_spec(p),
            ),
        ),
    )
}

fn render_counter(p: &Paginate) -> (r: String)
    requires
        p.wf(),
    ensures
        r@ == counter(*p),
{
    let mut r = String::from_str(" ");
    let k = to_decimal((p.current + 1) as u64);
    let n = to_decimal(p.pages.len() as u64);
    r.append(k.as_str());
    r.append(" of ");
    r.append(n.as_str());
    r.append(" ");
    assert(r@ =~= counter(*p));
    r
}

fn render_prev(m: &mut Markup, p: &Paginate)
    requires
        p.wf(),
    ensures
        final(m)@ == old(m)@ + prev_spec(*p),
{
    if p.current == 0 {
        m.open("span", attrs1("class", "prev disabled"));
        m.raw("&larr; Previous");
        m.close("span");
    } else {
        m.open(
            "a",
            attrs4(
                "href",
                p.pages[p.current - 1].as_str(),
                "class",
                "prev",
                "rel",
                "prev",
                "title",
                "previous",
            ),
        );
        m.raw("&larr; Previous");
        m.close("a");
    }
    assert(m@ =~= old(m)@ + prev_spec(*p));
}

fn render_next(m: &mut Markup, p: &Paginate)
    requires
        p.wf(),
    ensures
        final(m)@ == old(m)@ + next_spec(*p),
{
    if p.current + 1 == p.pages.len() {
        m.open("span", attrs1("class", "next disabled"));
        m.raw("Next &rarr;");
        m.close("span");
    } else {
        m.open(
            "a",
            attrs4(
                "href",
                p.pages[p.current + 1].as_str(),
                "class",
                "next",
                "rel",
                "next",
                "title",
                "next",
            ),
        );
        m.raw("Next &rarr;");
        m.close("a");
    }
    assert(m@ =~= old(m)@ + next_spec(*p));
}

fn render_paginate(m: &mut Markup, p: &Paginate)
    requires
        p.wf(),
    ensures
        final(m)@ == old(m)@ + paginate_spec(*p),
{
    m.open("footer", no_attrs());
    m.open("nav", attrs1("id", "page-pagination"));
    m.open("div", no_attrs());
    let ghost d0 = m@;
    render_prev(m, p);
    let c = render_counter(p);
    m.open("span", no_attrs());
    m.text(c.as_str());
    m.close("span");
    render_next(m, p);
    assert(m@ =~= d0 + (prev_spec(*p) + el("span"@, seq![], seq![TokenV::Text(counter(*p))])
        + next_spec(*p)));
    m.close("div");
    m.close("nav");
    m.close("footer");
    assert(m@ =~= old(m)@ + paginate_spec(*p));
}

/// A listing: each entry in order, then the page control when it is paginated.
pub open spec fn index_spec(idx: Index) -> Seq<TokenV> {
    el(
        "div"@,
        seq![("id"@, "page-index"@)],
        joined(idx.entries@.map_values(|e: IndexEntry| entry_spec(e, idx.compact))),
    ) + match idx.paginate {
        Some(p) => paginate_spec(p),
        None => seq![],
    }
}

fn render_index(m: &mut Markup, idx: &Index)
    requires
        idx.wf(),
    ensures
        final(m)@ == old(m)@ + index_spec(*idx),
{
    m.open("div", attrs1("id", "page-index"));
    render_entries(m, idx);
    m.close("div");
    let ghost m1 = m@;
    match &idx.paginate {
        Some(p) => render_paginate(m, p),
        None => {},
    }
    assert(m@ =~= old(m)@ + index_spec(*idx));
}

/// A page's own metadata, in one of two schemas: the person-oriented one
/// names an author and a subject; the layout-oriented one names a template.
#[derive(Clone, Debug)]
pub enum PageMeta {
    Entry(EntryMeta),
    Layout(LayoutMeta),
}

/// A page to render. `content` is the page's content already rendered to
/// markup, `head` the markup that goes at the end of the document head.
#[derive(Clone, Debug)]
pub struct Page {
    pub title: String,
    pub href: String,
    pub date: Option<Date>,
    pub head: String,
    pub content: String,
    pub meta: PageMeta,
    pub index: Option<Index>,
}

impl Page {
    /// The page's date and listing are well formed.
    pub open spec fn wf(&self) -> bool {
        &&& opt_date_wf(self.date)
        &&& (self.index matches Some(i) ==> i.wf())
    }
}

/// The site a page belongs to.
#[derive(Clone, Debug)]
pub struct Site {
    pub origin: String,
    pub prefix: String,
    pub title: String,
    pub meta: SourceMeta,
}

/// The author that a page names for itself.
pub open spec fn page_author(page: Page) -> Option<Person> {
    match page.meta {
        PageMeta::Entry(m) => m.author,
        PageMeta::Layout(_) => None,
    }
}

/// The person presented in the about block: the page's subject, or, under
/// the `about` layout, the site's author.
pub open spec fn page_about(site: Site, page: Page) -> Option<Person> {
    match page.meta {
        PageMeta::Entry(m) => m.about,
        PageMeta::Layout(l) => if l.layout@ == "about"@ {
            Some(site.meta.author)
        } else {
            None
        },
    }
}

/// Whether the page's template is one that exists: `default` or `about`.
pub open spec fn known_layout(page: Page) -> bool {
    match page.meta {
        PageMeta::Entry(_) => true,
        PageMeta::Layout(l) => l.layout@ == "default"@ || l.layout@ == "about"@,
    }
}

/// The name of the author shown for the page: its own, else the site's.
pub open spec fn author_name(site: Site, page: Page) -> Seq<char> {
    match page_author(page) {
        Some(p) => p.name@,
        None => site.meta.author.name@,
    }
}

/// The page header: the title, then the date when there is one.
pub open spec fn header_spec(page: Page) -> Seq<TokenV> {
    el(
        "header"@,
        seq![("id"@, "page-header"@), ("class"@, "title"@)],
        el("h1"@, seq![("class"@, "header"@)], seq![TokenV::Text(page.title@)]) + opt_date_spec(
            page.date,
        ),
    )
}

/// The about block when there is a person to present.
pub open spec fn opt_about_spec(p: Option<Person>) -> Seq<TokenV> {
    match p {
        Some(p) => about_spec(p),
        None => seq![],
    }
}

/// The listing when the page has one.
pub open spec fn opt_index_spec(i: Option<Index>) -> Seq<TokenV> {
    match i {
        Some(i) => index_spec(i),
        None => seq![],
    }
}

/// The body of a page, in order: header, author line, about block, content,
/// listing; each part only where its data is.
pub open spec fn inner_spec(site: Site, page: Page) -> Seq<TokenV> {
    header_spec(page) + author_line_spec(page_author(page)) + opt_about_spec(
        page_about(site, page),
    ) + content_spec(page.content@) + opt_index_spec(page.index)
}

/// The message recorded for a template that does not exist.
pub open spec fn layout_error(name: Seq<char>) -> Seq<char> {
    "unknown layout '"@ + name + "'"@
}

/// The page's container: the recorded error for an unknown template, else
/// the body in a `section` when the content is blank and in an `article`
/// otherwise.
pub open spec fn container_spec(site: Site, page: Page) -> Seq<TokenV> {
    if !known_layout(page) {
        el(
            "div"@,
            seq![("class"@, "render-error"@)],
            seq![TokenV::Text(layout_error(page.meta->Layout_0.layout@))],
        )
    } else if blank(page.content@) {
        el("section"@, seq![], inner_spec(site, page))
    } else {
        el("article"@, seq![], inner_spec(site, page))
    }
}

/// The attributes of a navigation link: marked active when the page's
/// address starts with the link's target.
pub open spec fn nav_attrs(l: Link, href: Seq<char>) -> Seq<(Seq<char>, Seq<char>)> {
    if has_prefix(href, l.url@) {
        seq![("href"@, l.url@), ("class"@, "active"@)]
    } else {
        seq![("href"@, l.url@)]
    }
}

/// A navigation link, after a space that keeps links apart in text browsers.
pub open spec fn nav_item(l: Link, href: Seq<char>) -> Seq<TokenV> {
    seq![TokenV::Text(" "@)] + el("a"@, nav_attrs(l, href), seq![TokenV::Text(l.text@)])
}

/// The site navigation: nothing when there are no links.
pub open spec fn nav_spec(nav: Seq<Link>, href: Seq<char>) -> Seq<TokenV> {
    if nav.len() == 0 {
        seq![]
    } else {
        el("nav"@, seq![("id"@, "site-nav"@)], joined(nav.map_values(|l: Link| nav_item(l, href))))
    }
}

/// The page's canonical address.
pub open spec fn canonical(site: Site, page: Page) -> Seq<char> {
    site.origin@ + site.prefix@ + page.href@
}

/// The document head: canonical link, viewport, author, title, then the
/// supplied head markup.
pub open spec fn head_spec(site: Site, page: Page) -> Seq<TokenV> {
    el(
        "head"@,
        seq![],
        seq![
            TokenV::Void("link"@, seq![("rel"@, "canonical"@), ("href"@, canonical(site, page))]),
            TokenV::Void(
                "meta"@,
                seq![("name"@, "viewport"@), ("content"@, "width=device-width, initial-scale=1.0"@)],
            ),
            TokenV::Void("meta"@, seq![("name"@, "author"@), ("content"@, author_name(site, page))]),
        ] + el("title"@, seq![], seq![TokenV::Text(page.title@)]) + seq![TokenV::Raw(page.head@)],
    )
}

/// The site header: the site title linking to the root, then the navigation.
pub open spec fn site_header_spec(site: Site, page: Page) -> Seq<TokenV> {
    el(
        "header"@,
        seq![("id"@, "site-header"@)],
        el("a"@, seq![("class"@, "header"@), ("href"@, ""@)], seq![TokenV::Text(site.title@)])
            + seq![TokenV::Text(" "@)] + nav_spec(site.meta.nav@, page.href@),
    )
}

/// The site footer: a copyright line with the site author's name.
pub open spec fn footer_spec(site: Site) -> Seq<TokenV> {
    el(
        "footer"@,
        seq![("id"@, "site-footer"@)],
        el(
            "p"@,
            seq![],
            seq![TokenV::Raw("&copy; "@)] + el(
                "span"@,
                seq![("id"@, "site-author"@)],
                seq![TokenV::Text(site.meta.author.name@)],
            ),
        ),
    )
}

/// The main region, which holds the page container.
pub open spec fn main_spec(site: Site, page: Page) -> Seq<TokenV> {
    el("main"@, seq![("id"@, "site-content"@)], container_spec(site, page))
}

/// The document body: site header, main region, site footer.
pub open spec fn body_spec(site: Site, page: Page) -> Seq<TokenV> {
    el("body"@, seq![], site_header_spec(site, page) + main_spec(site, page) + footer_spec(site))
}

/// The whole document of a page.
pub open spec fn page_spec(site: Site, page: Page) -> Seq<TokenV> {
    seq![TokenV::Raw("<!DOCTYPE html>"@)] + el(
        "html"@,
        seq![("lang"@, "en"@)],
        head_spec(site, page) + body_spec(site, page),
    )
}

/// An author element of a feed: the name, and the e-mail address if any.
pub open spec fn feed_author_spec(p: Person) -> Seq<TokenV> {
    el(
        "author"@,
        seq![],
        el("name"@, seq![], seq![TokenV::Text(p.name@)]) + el(
            "email"@,
            seq![],
            match p.email {
                Some(e) => seq![TokenV::Text(e@)],
                None => seq![],
            },
        ),
    )
}

/// An author element when there is a person.
pub open spec fn opt_feed_author_spec(p: Option<Person>) -> Seq<TokenV> {
    match p {
        Some(p) => feed_author_spec(p),
        None => seq![],
    }
}

/// The author of a feed: the page's own, else the site's.
pub open spec fn feed_head_spec(site: Site, page: Page) -> Seq<TokenV> {
    match page_author(page) {
        Some(p) => feed_author_spec(p),
        None => feed_author_spec(site.meta.author),
    }
}

/// A feed entry: the page's own author if it names one, then its content
/// as escaped markup.
pub open spec fn feed_entry_spec(page: Page) -> Seq<TokenV> {
    opt_feed_author_spec(page_author(page)) + el("content"@, seq![("type"@, "html"@)], seq![TokenV::Text(page.content@)])
}

fn same(a: &String, b: &str) -> (r: bool)
    ensures
        r == (a@ == b@),
{
    *a == String::from_str(b)
}

fn author_of(page: &Page) -> (r: Option<&Person>)
    ensures
        page_author(*page) == deref_person(r),
{
    match &page.meta {
        PageMeta::Entry(m) => match &m.author {
            Some(p) => Some(p),
            None => None,
        },
        PageMeta::Layout(_) => None,
    }
}

fn about_of<'a>(site: &'a Site, page: &'a Page) -> (r: Option<&'a Person>)
    ensures
        page_about(*site, *page) == deref_person(r),
{
    match &page.meta {
        PageMeta::Entry(m) => match &m.about {
            Some(p) => Some(p),
            None => None,
        },
        PageMeta::Layout(l) => if same(&l.layout, "about") {
            Some(&site.meta.author)
        } else {
            None
        },
    }
}

fn render_nav_items(m: &mut Markup, nav: &Vec<Link>, href: &String)
    ensures
        final(m)@ == old(m)@ + joined(nav@.map_values(|l: Link| nav_item(l, href@))),
{
    let ghost f = |l: Link| nav_item(l, href@);
    let mut i: usize = 0;
    assert(nav@.take(0).map_values(f) =~= Seq::<Seq<TokenV>>::empty());
    while i < nav.len()
        invariant
            i <= nav.len(),
            f == (|l: Link| nav_item(l, href@)),
            m@ == old(m)@ + joined(nav@.take(i as int).map_values(f)),
        decreases nav.len() - i,
    {
        let ghost before = m@;
        let l = &nav[i];
        m.text(" ");
        if starts_with(href.as_str(), l.url.as_str()) {
            m.open("a", attrs2("href", l.url.as_str(), "class", "active"));
        } else {
            m.open("a", attrs1("href", l.url.as_str()));
        }
        m.text(l.text.as_str());
        m.close("a");
        proof {
            let parts = nav@.take(i + 1).map_values(f);
            assert(parts.drop_last() =~= nav@.take(i as int).map_values(f));
            assert(parts.last() == f(nav@[i as int]));
            assert(m@ =~= before + f(nav@[i as int]));
        }
        i = i + 1;
    }
    assert(nav@.take(i as int) =~= nav@);
}

fn render_site_header(m: &mut Markup, site: &Site, page: &Page)
    ensures
        final(m)@ == old(m)@ + site_header_spec(*site, *page),
{
    m.open("header", attrs1("id", "site-header"));
    m.open("a", attrs2("class", "header", "href", ""));
    m.text(site.title.as_str());
    m.close("a");
    m.text(" ");
    let ghost n0 = m@;
    if site.meta.nav.len() > 0 {
        m.open("nav", attrs1("id", "site-nav"));
        render_nav_items(m, &site.meta.nav, &page.href);
        m.close("nav");
    }
    assert(m@ =~= n0 + nav_spec(site.meta.nav@, page.href@));
    m.close("header");
    assert(m@ =~= old(m)@ + site_header_spec(*site, *page));
}

fn render_head(m: &mut Markup, site: &Site, page: &Page)
    ensures
        final(m)@ == old(m)@ + head_spec(*site, *page),
{
    let mut url = site.origin.clone();
    url.append(site.prefix.as_str());
    url.append(page.href.as_str());
    m.open("head", no_attrs());
    m.void("link", attrs2("rel", "canonical", "href", url.as_str()));
    m.void("meta", attrs2("name", "viewport", "content", "width=device-width, initial-scale=1.0"));
    match author_of(page) {
        Some(p) => m.void("meta", attrs2("name", "author", "content", p.name.as_str())),
        None => m.void("meta", attrs2("name", "author", "content", site.meta.author.name.as_str())),
    }
    m.open("title", no_attrs());
    m.text(page.title.as_str());
    m.close("title");
    m.raw(page.head.as_str());
    m.close("head");
    assert(m@ =~= old(m)@ + head_spec(*site, *page));
}

fn render_footer(m: &mut Markup, site: &Site)
    ensures
        final(m)@ == old(m)@ + footer_spec(*site),
{
    m.open("footer", attrs1("id", "site-footer"));
    m.open("p", no_attrs());
    m.raw("&copy; ");
    m.open("span", attrs1("id", "site-author"));
    m.text(site.meta.author.name.as_str());
    m.close("span");
    m.close("p");
    m.close("footer");
    assert(m@ =~= old(m)@ + footer_spec(*site));
}

fn render_feed_author(m: &mut Markup, p: &Person)
    ensures
        final(m)@ == old(m)@ + feed_author_spec(*p),
{
    m.open("author", no_attrs());
    m.open("name", no_attrs());
    m.text(p.name.as_str());
    m.close("name");
    m.open("email", no_attrs());
    match &p.email {
        Some(e) => m.text(e.as_str()),
        None => {},
    }
    m.close("email");
    m.close("author");
    assert(m@ =~= old(m)@ + feed_author_spec(*p));
}

/// The site's theme.
pub struct MyGazetta;

impl MyGazetta {
    /// Writes the body of a page: header, author line, about block, content
    /// and listing.
    pub fn render_page_inner(&self, site: &Site, page: &Page, m: &mut Markup)
        requires
            page.wf(),
        ensures
            final(m)@ == old(m)@ + inner_spec(*site, *page),
    {
        render_page_header(m, page);
        render_author_line(m, author_of(page));
        render_opt_about(m, site, page);
        render_content(m, &page.content);
        render_opt_index(m, page);
        proof {
            lemma_concat5(
                old(m)@,
                header_spec(*page),
                author_line_spec(page_author(*page)),
                opt_about_spec(page_about(*site, *page)),
                content_spec(page.content@),
                opt_index_spec(page.index),
            );
        }
    }
}

proof fn lemma_concat2(o: Seq<TokenV>, a: Seq<TokenV>, b: Seq<TokenV>)
    ensures
        o + a + b == o + (a + b),
{
    assert(o + a + b =~= o + (a + b));
}

proof fn lemma_concat3(o: Seq<TokenV>, a: Seq<TokenV>, b: Seq<TokenV>, c: Seq<TokenV>)
    ensures
        o + a + b + c == o + (a + b + c),
{
    assert(o + a + b + c =~= o + (a + b + c));
}

fn render_main(m: &mut Markup, site: &Site, page: &Page)
    requires
        page.wf(),
    ensures
        final(m)@ == old(m)@ + main_spec(*site, *page),
{
    m.open("main", attrs1("id", "site-content"));
    render_container(m, site, page);
    m.close("main");
    assert(m@ =~= old(m)@ + main_spec(*site, *page));
}

fn render_body(m: &mut Markup, site: &Site, page: &Page)
    requires
        page.wf(),
    ensures
        final(m)@ == old(m)@ + body_spec(*site, *page),
{
    m.open("body", no_attrs());
    let ghost b0 = m@;
    render_site_header(m, site, page);
    render_main(m, site, page);
    render_footer(m, site);
    proof {
        lemma_concat3(b0, site_header_spec(*site, *page), main_spec(*site, *page), footer_spec(*site));
    }
    m.close("body");
    assert(m@ =~= old(m)@ + body_spec(*site, *page));
}

proof fn lemma_concat5(
    o: Seq<TokenV>,
    a: Seq<TokenV>,
    b: Seq<TokenV>,
    c: Seq<TokenV>,
    d: Seq<TokenV>,
    e: Seq<TokenV>,
)
    ensures
        o + a + b + c + d + e == o + (a + b + c + d + e),
{
    assert(o + a + b + c + d + e =~= o + (a + b + c + d + e));
}

/// The name of the page's template when it is not one that exists.
fn unknown_layout_of(page: &Page) -> (r: Option<&String>)
    ensures
        r is None <==> known_layout(*page),
        r matches Some(name) ==> page.meta is Layout && name@ == page.meta->Layout_0.layout@,
{
    match &page.meta {
        PageMeta::Entry(_) => None,
        PageMeta::Layout(l) => if same(&l.layout, "default") || same(&l.layout, "about") {
            None
        } else {
            Some(&l.layout)
        },
    }
}

fn render_container(m: &mut Markup, site: &Site, page: &Page)
    requires
        page.wf(),
    ensures
        final(m)@ == old(m)@ + container_spec(*site, *page),
{
    if let Some(name) = unknown_layout_of(page) {
        let mut msg = String::from_str("unknown layout '");
        msg.append(name.as_str());
        msg.append("'");
        m.open("div", attrs1("class", "render-error"));
        m.text(msg.as_str());
        m.close("div");
    } else if is_blank(page.content.as_str()) {
        m.open("section", no_attrs());
        MyGazetta.render_page_inner(site, page, m);
        m.close("section");
    } else {
        m.open("article", no_attrs());
        MyGazetta.render_page_inner(site, page, m);
        m.close("article");
    }
    assert(m@ =~= old(m)@ + container_spec(*site, *page));
}

fn render_page_header(m: &mut Markup, page: &Page)
    requires
        page.wf(),
    ensures
        final(m)@ == old(m)@ + header_spec(*page),
{
    m.open("header", attrs2("id", "page-header", "class", "title"));
    m.open("h1", attrs1("class", "header"));
    m.text(page.title.as_str());
    m.close("h1");
    render_date(m, &page.date);
    m.close("header");
    assert(m@ =~= old(m)@ + header_spec(*page));
}

fn render_opt_about(m: &mut Markup, site: &Site, page: &Page)
    ensures
        final(m)@ == old(m)@ + opt_about_spec(page_about(*site, *page)),
{
    match about_of(site, page) {
        Some(p) => render_about(m, p),
        None => {},
    }
    assert(m@ =~= old(m)@ + opt_about_spec(page_about(*site, *page)));
}

fn render_opt_index(m: &mut Markup, page: &Page)
    requires
        page.wf(),
    ensures
        final(m)@ == old(m)@ + opt_index_spec(page.index),
{
    match &page.index {
        Some(i) => render_index(m, i),
        None => {},
    }
    assert(m@ =~= old(m)@ + opt_index_spec(page.index));
}

impl MyGazetta {
    /// The document of a page, as a stream of tokens.
    pub fn page_markup(&self, site: &Site, page: &Page) -> (r: Markup)
        requires
            page.wf(),
        ensures
            r@ == page_spec(*site, *page),
    {
        let mut m = Markup::new();
        m.raw("<!DOCTYPE html>");
        m.open("html", attrs1("lang", "en"));
        let ghost h0 = m@;
        render_head(&mut m, site, page);
        render_body(&mut m, site, page);
        proof {
            lemma_concat2(h0, head_spec(*site, *page), body_spec(*site, *page));
        }
        m.close("html");
        assert(m@ =~= page_spec(*site, *page));
        m
    }

    /// Renders a page into an HTML document.
    pub fn render_page(&self, site: &Site, page: &Page) -> (r: String)
        requires
            page.wf(),
        ensures
            r@ == html_of(page_spec(*site, *page)),
    {
        self.page_markup(site, page).to_html()
    }

    /// Renders the author element at the head of a feed.
    pub fn render_feed_head(&self, site: &Site, page: &Page) -> (r: String)
        ensures
            r@ == html_of(feed_head_spec(*site, *page)),
    {
        let mut m = Markup::new();
        match author_of(page) {
            Some(p) => render_feed_author(&mut m, p),
            None => render_feed_author(&mut m, &site.meta.author),
        }
        assert(m@ =~= feed_head_spec(*site, *page));
        m.to_html()
    }

    /// Renders a page as the body of a feed entry.
    pub fn render_feed_entry(&self, site: &Site, page: &Page) -> (r: String)
        ensures
            r@ == html_of(feed_entry_spec(*page)),
    {
        let mut m = Markup::new();
        match author_of(page) {
            Some(p) => render_feed_author(&mut m, p),
            None => {},
        }
        assert(m@ =~= opt_feed_author_spec(page_author(*page)));
        m.open("content", attrs1("type", "html"));
        m.text(page.content.as_str());
        m.close("content");
        assert(m@ =~= feed_entry_spec(*page));
        m.to_html()
    }
}

} // verus!
