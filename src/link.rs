use vstd::prelude::*;

use crate::error::{DecodeError, result_view};
use crate::markup::{Markup, TokenV, attr, attrs_view, el};
use crate::yaml::Yaml;

verus! {

/// What a link is: its text, its target and an optional title.
pub struct LinkV {
    pub text: Seq<char>,
    pub url: Seq<char>,
    pub title: Option<Seq<char>>,
}

/// A hyperlink.
#[derive(Clone, Debug, PartialEq, Eq, Hash)]
pub struct Link {
    pub text: String,
    pub url: String,
    pub title: Option<String>,
}

/// The view of an optional string.
pub open spec fn opt_view(o: Option<String>) -> Option<Seq<char>> {
    match o {
        Some(s) => Some(s@),
        None => None,
    }
}

impl View for Link {
    type V = LinkV;

    open spec fn view(&self) -> LinkV {
        LinkV { text: self.text@, url: self.url@, title: opt_view(self.title) }
    }
}

/// The attributes of a link's anchor: its target, and its title when it has one.
pub open spec fn anchor_attrs(l: LinkV) -> Seq<(Seq<char>, Seq<char>)> {
    match l.title {
        Some(t) => seq![("href"@, l.url), ("title"@, t)],
        None => seq![("href"@, l.url)],
    }
}

/// A link as markup: an anchor around its text.
pub open spec fn anchor_spec(l: LinkV) -> Seq<TokenV> {
    el("a"@, anchor_attrs(l), seq![TokenV::Text(l.text)])
}

impl Link {
    /// Writes the link as an anchor.
    pub fn render(&self, m: &mut Markup)
        ensures
            final(m)@ == old(m)@ + anchor_spec(self@),
    {
        let mut attrs = vec![attr("href", self.url.as_str())];
        match &self.title {
            Some(t) => attrs.push(attr("title", t.as_str())),
            None => {},
        }
        assert(attrs_view(attrs@) =~= anchor_attrs(self@));
        m.open("a", attrs);
        m.text(self.text.as_str());
        m.close("a");
        assert(m@ =~= old(m)@ + anchor_spec(self@));
    }
}

/// The views of a sequence of links.
pub open spec fn links_view(v: Seq<Link>) -> Seq<LinkV> {
    v.map_values(|l: Link| l@)
}

/// A link written as a mapping with a single `text: target` entry.
pub open spec fn link_spec(y: Yaml) -> Result<LinkV, DecodeError> {
    match y {
        Yaml::Hash(h) => if h@.len() != 1 {
            Err(DecodeError::LinkEntryCount)
        } else {
            match (h@[0].0, h@[0].1) {
                (Yaml::String(k), Yaml::String(v)) => Ok(LinkV { text: k@, url: v@, title: None }),
                _ => Err(DecodeError::LinkForm),
            }
        },
        _ => Err(DecodeError::LinkForm),
    }
}

/// Prepends decoded items to a decoding result, keeping an error as it is.
pub open spec fn prepend<T>(p: Seq<T>, r: Result<Seq<T>, DecodeError>) -> Result<Seq<T>, DecodeError> {
    match r {
        Ok(rest) => Ok(p + rest),
        Err(e) => Err(e),
    }
}

/// The links of a sequence of nodes, or the error of the first that is not one.
pub open spec fn link_items_spec(items: Seq<Yaml>) -> Result<Seq<LinkV>, DecodeError>
    decreases items.len(),
{
    if items.len() == 0 {
        Ok(seq![])
    } else {
        match link_spec(items[0]) {
            Err(e) => Err(e),
            Ok(l) => prepend(seq![l], link_items_spec(items.drop_first())),
        }
    }
}

/// A list of links: a sequence whose every element is a link.
pub open spec fn links_spec(y: Yaml) -> Result<Seq<LinkV>, DecodeError> {
    match y {
        Yaml::Array(a) => link_items_spec(a@),
        _ => Err(DecodeError::LinksNotArray),
    }
}

fn parse_link(y: &Yaml) -> (r: Result<Link, DecodeError>)
    ensures
        result_view(r) == link_spec(*y),
{
    match y {
        Yaml::Hash(h) => {
            if h.len() != 1 {
                return Err(DecodeError::LinkEntryCount);
            }
            match (&h[0].0, &h[0].1) {
                (Yaml::String(k), Yaml::String(v)) => Ok(
                    Link { text: k.clone(), url: v.clone(), title: None },
                ),
                _ => Err(DecodeError::LinkForm),
            }
        },
        _ => Err(DecodeError::LinkForm),
    }
}

/// Decodes a list of links, keeping their order.
pub fn parse_links(links: &Yaml) -> (r: Result<Vec<Link>, DecodeError>)
    ensures
        match r {
            Ok(v) => links_spec(*links) == Ok::<_, DecodeError>(links_view(v@)),
            Err(e) => links_spec(*links) == Err::<Seq<LinkV>, _>(e),
        },
{
    let items = match links {
        Yaml::Array(a) => a,
        _ => return Err(DecodeError::LinksNotArray),
    };
    let mut out: Vec<Link> = Vec::new();
    let mut i: usize = 0;
    proof {
        assert(items@.skip(0) =~= items@);
        assert(links_view(out@) =~= Seq::<LinkV>::empty());
        if let Ok(t) = link_items_spec(items@) {
            assert(Seq::<LinkV>::empty() + t =~= t);
        }
    }
    while i < items.len()
        invariant
            i <= items.len(),
            *links == Yaml::Array(*items),
            link_items_spec(items@) == prepend(links_view(out@), link_items_spec(items@.skip(i as int))),
        decreases items.len() - i,
    {
        let ghost rest = items@.skip(i as int);
        assert(rest.drop_first() =~= items@.skip(i + 1));
        assert(rest[0] == items@[i as int]);
        let l = parse_link(&items[i]);
        match l {
            Ok(l) => {
                proof {
                    let ghost pre = links_view(out@);
                    assert(links_view(out@.push(l)) =~= pre + seq![l@]);
                    let tail = link_items_spec(items@.skip(i + 1));
                    match tail {
                        Ok(t) => assert(pre + (seq![l@] + t) =~= (pre + seq![l@]) + t),
                        Err(_) => {},
                    }
                }
                out.push(l);
            },
            Err(e) => return Err(e),
        }
        i = i + 1;
    }
    assert(items@.skip(i as int) =~= Seq::<Yaml>::empty());
    assert(links_view(out@) + seq![] =~= links_view(out@));
    Ok(out)
}

} // verus!
