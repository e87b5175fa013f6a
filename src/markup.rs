use vstd::prelude::*;

use crate::text::{escape_html, escaped};

verus! {

/// What a markup token is.
pub enum TokenV {
    Open(Seq<char>, Seq<(Seq<char>, Seq<char>)>),
    Close(Seq<char>),
    Void(Seq<char>, Seq<(Seq<char>, Seq<char>)>),
    Text(Seq<char>),
    Raw(Seq<char>),
}

/// One piece of a document: a start tag with its attributes, an end tag, a
/// tag that has no end, text to escape, or markup written as it is.
#[derive(Debug)]
pub enum Token {
    Open(String, Vec<(String, String)>),
    Close(String),
    Void(String, Vec<(String, String)>),
    Text(String),
    Raw(String),
}

/// The views of a list of attributes.
pub open spec fn attrs_view(a: Seq<(String, String)>) -> Seq<(Seq<char>, Seq<char>)> {
    a.map_values(|p: (String, String)| (p.0@, p.1@))
}

impl View for Token {
    type V = TokenV;

    open spec fn view(&self) -> TokenV {
        match self {
            Token::Open(t, a) => TokenV::Open(t@, attrs_view(a@)),
            Token::Close(t) => TokenV::Close(t@),
            Token::Void(t, a) => TokenV::Void(t@, attrs_view(a@)),
            Token::Text(s) => TokenV::Text(s@),
            Token::Raw(s) => TokenV::Raw(s@),
        }
    }
}

/// A document as a stream of tokens.
pub struct Markup {
    pub tokens: Vec<Token>,
}

impl View for Markup {
    type V = Seq<TokenV>;

    open spec fn view(&self) -> Seq<TokenV> {
        self.tokens@.map_values(|t: Token| t@)
    }
}

/// An element: its start tag, its content and its end tag.
pub open spec fn el(tag: Seq<char>, attrs: Seq<(Seq<char>, Seq<char>)>, body: Seq<TokenV>) -> Seq<
    TokenV,
> {
    seq![TokenV::Open(tag, attrs)] + body + seq![TokenV::Close(tag)]
}

/// The token sequences of `parts`, one after the other.
pub open spec fn joined(parts: Seq<Seq<TokenV>>) -> Seq<TokenV>
    decreases parts.len(),
{
    if parts.len() == 0 {
        seq![]
    } else {
        joined(parts.drop_last()) + parts.last()
    }
}

/// The attributes as written inside a start tag, values escaped.
pub open spec fn attrs_html(a: Seq<(Seq<char>, Seq<char>)>) -> Seq<char>
    decreases a.len(),
{
    if a.len() == 0 {
        seq![]
    } else {
        attrs_html(a.drop_last()) + " "@ + a.last().0 + "=\""@ + escaped(a.last().1) + "\""@
    }
}

/// The text of one token.
pub open spec fn token_html(t: TokenV) -> Seq<char> {
    match t {
        TokenV::Open(tag, a) => "<"@ + tag + attrs_html(a) + ">"@,
        TokenV::Void(tag, a) => "<"@ + tag + attrs_html(a) + ">"@,
        TokenV::Close(tag) => "</"@ + tag + ">"@,
        TokenV::Text(s) => escaped(s),
        TokenV::Raw(s) => s,
    }
}

/// The text of a token stream.
pub open spec fn html_of(ts: Seq<TokenV>) -> Seq<char>
    decreases ts.len(),
{
    if ts.len() == 0 {
        seq![]
    } else {
        html_of(ts.drop_last()) + token_html(ts.last())
    }
}

/// An attribute `name="value"`.
pub fn attr(name: &str, value: &str) -> (r: (String, String))
    ensures
        r.0@ == name@,
        r.1@ == value@,
{
    (String::from_str(name), String::from_str(value))
}

fn write_attrs(out: &mut String, a: &Vec<(String, String)>)
    ensures
        final(out)@ == old(out)@ + attrs_html(attrs_view(a@)),
{
    let mut i: usize = 0;
    while i < a.len()
        invariant
            i <= a.len(),
            out@ == old(out)@ + attrs_html(attrs_view(a@.take(i as int))),
        decreases a.len() - i,
    {
        let v = escape_html(a[i].1.as_str());
        out.append(" ");
        out.append(a[i].0.as_str());
        out.append("=\"");
        out.append(v.as_str());
        out.append("\"");
        proof {
            let s = attrs_view(a@.take(i + 1));
            assert(s.drop_last() =~= attrs_view(a@.take(i as int)));
            assert(s.last() == (a@[i as int].0@, a@[i as int].1@));
        }
        i = i + 1;
        proof {
            let pre = attrs_html(attrs_view(a@.take(i - 1)));
            let s = attrs_view(a@.take(i as int));
            assert(out@ =~= old(out)@ + (pre + " "@ + s.last().0 + "=\""@ + escaped(s.last().1)
                + "\""@));
        }
    }
    assert(a@.take(i as int) =~= a@);
}

fn write_token(out: &mut String, t: &Token)
    ensures
        final(out)@ == old(out)@ + token_html(t@),
{
    match t {
        Token::Open(tag, a) | Token::Void(tag, a) => {
            out.append("<");
            out.append(tag.as_str());
            write_attrs(out, a);
            out.append(">");
            assert(out@ =~= old(out)@ + token_html(t@));
        },
        Token::Close(tag) => {
            out.append("</");
            out.append(tag.as_str());
            out.append(">");
            assert(out@ =~= old(out)@ + token_html(t@));
        },
        Token::Text(s) => {
            let e = escape_html(s.as_str());
            out.append(e.as_str());
        },
        Token::Raw(s) => {
            out.append(s.as_str());
        },
    }
}

impl Markup {
    /// An empty document.
    pub fn new() -> (r: Markup)
        ensures
            r@ == Seq::<TokenV>::empty(),
    {
        let r = Markup { tokens: Vec::new() };
        assert(r@ =~= Seq::<TokenV>::empty());
        r
    }

    fn push(&mut self, t: Token)
        ensures
            final(self)@ == old(self)@.push(t@),
    {
        self.tokens.push(t);
        assert(self@ =~= old(self)@.push(t@));
    }

    /// Appends a start tag.
    pub fn open(&mut self, tag: &str, attrs: Vec<(String, String)>)
        ensures
            final(self)@ == old(self)@.push(TokenV::Open(tag@, attrs_view(attrs@))),
    {
        self.push(Token::Open(String::from_str(tag), attrs));
    }

    /// Appends an end tag.
    pub fn close(&mut self, tag: &str)
        ensures
            final(self)@ == old(self)@.push(TokenV::Close(tag@)),
    {
        self.push(Token::Close(String::from_str(tag)));
    }

    /// Appends a tag that has no end tag.
    pub fn void(&mut self, tag: &str, attrs: Vec<(String, String)>)
        ensures
            final(self)@ == old(self)@.push(TokenV::Void(tag@, attrs_view(attrs@))),
    {
        self.push(Token::Void(String::from_str(tag), attrs));
    }

    /// Appends text, to be escaped when written.
    pub fn text(&mut self, s: &str)
        ensures
            final(self)@ == old(self)@.push(TokenV::Text(s@)),
    {
        self.push(Token::Text(String::from_str(s)));
    }

    /// Appends markup to be written as it is.
    pub fn raw(&mut self, s: &str)
        ensures
            final(self)@ == old(self)@.push(TokenV::Raw(s@)),
    {
        self.push(Token::Raw(String::from_str(s)));
    }

    /// Writes the document out.
    pub fn to_html(&self) -> (r: String)
        ensures
            r@ == html_of(self@),
    {
        let mut out = String::new();
        let mut i: usize = 0;
        while i < self.tokens.len()
            invariant
                i <= self.tokens.len(),
                out@ == html_of(self@.take(i as int)),
            decreases self.tokens.len() - i,
        {
            write_token(&mut out, &self.tokens[i]);
            proof {
                assert(self@.take(i + 1).drop_last() =~= self@.take(i as int));
            }
            i = i + 1;
        }
        assert(self@.take(i as int) =~= self@);
        out
    }
}

} // verus!
