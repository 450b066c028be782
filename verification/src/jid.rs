//! Jabber IDs: `node@domain/resource`, node and resource optional.
use vstd::prelude::*;
use std::str::FromStr;

verus! {

/// A Jabber ID as text parts.
pub struct JidView {
    pub node: Option<Seq<char>>,
    pub domain: Seq<char>,
    pub resource: Option<Seq<char>>,
}

/// A Jabber ID: an optional node (before `@`), a domain, and an optional
/// resource (after `/`). Without a resource it is a bare JID.
#[derive(Clone, Debug)]
pub struct Jid {
    pub node: Option<String>,
    pub domain: String,
    pub resource: Option<String>,
}

pub open spec fn opt_view(o: Option<String>) -> Option<Seq<char>> {
    match o {
        Some(s) => Some(s@),
        None => None,
    }
}

impl View for Jid {
    type V = JidView;

    open spec fn view(&self) -> JidView {
        JidView { node: opt_view(self.node), domain: self.domain@, resource: opt_view(self.resource) }
    }
}

/// The text of a JID, as the jid crate writes it: `node@` where there is a
/// node, the domain, and `/resource` where there is a resource.
pub open spec fn jid_text(j: JidView) -> Seq<char> {
    (match j.node {
        Some(n) => n + seq!['@'],
        None => Seq::<char>::empty(),
    }) + j.domain + (match j.resource {
        Some(r) => seq!['/'] + r,
        None => Seq::<char>::empty(),
    })
}

/// The position of the first `c` in `s`, if there is one.
pub open spec fn first_index(s: Seq<char>, c: char) -> Option<int>
    decreases s.len(),
{
    if s.len() == 0 {
        None
    } else if s[0] == c {
        Some(0)
    } else {
        match first_index(s.drop_first(), c) {
            Some(i) => Some(i + 1),
            None => None,
        }
    }
}

/// What the jid crate's `Jid::from_str` makes of a text. What stands after
/// the first `/` is the resource; before it, what stands before the first `@`
/// is the node and the rest is the domain (where there is no `@`, all of it).
/// The text is refused where the node, the domain, or a resource after a `/`
/// is empty.
pub open spec fn jid_parse(text: Seq<char>) -> Option<JidView> {
    let head = match first_index(text, '/') {
        Some(p) => text.subrange(0, p),
        None => text,
    };
    let resource = match first_index(text, '/') {
        Some(p) => Some(text.subrange(p + 1, text.len() as int)),
        None => None,
    };
    let node = match first_index(head, '@') {
        Some(a) => Some(head.subrange(0, a)),
        None => None,
    };
    let domain = match first_index(head, '@') {
        Some(a) => head.subrange(a + 1, head.len() as int),
        None => head,
    };
    if (node matches Some(n) && n.len() == 0) || domain.len() == 0 || (resource matches Some(r) && r.len() == 0) {
        None
    } else {
        Some(JidView { node, domain, resource })
    }
}

/// `first_index` finds the first occurrence, and finds none exactly where
/// there is none.
pub proof fn lemma_first_index(s: Seq<char>, c: char)
    ensures
        first_index(s, c) is None <==> (forall|i: int| 0 <= i < s.len() ==> #[trigger] s[i] != c),
        first_index(s, c) matches Some(i) ==> 0 <= i < s.len() && s[i] == c
            && forall|j: int| 0 <= j < i ==> #[trigger] s[j] != c,
    decreases s.len(),
{
    if s.len() > 0 {
        let t = s.drop_first();
        lemma_first_index(t, c);
        assert forall|i: int| 0 <= i < t.len() implies #[trigger] t[i] == s[i + 1] by {}
        if s[0] != c {
            if first_index(t, c) is None {
                assert forall|i: int| 0 <= i < s.len() implies #[trigger] s[i] != c by {
                    if i > 0 {
                        assert(s[i] == t[i - 1]);
                    }
                }
            } else {
                let k = first_index(t, c)->0;
                assert forall|j: int| 0 <= j < k + 1 implies #[trigger] s[j] != c by {
                    if j > 0 {
                        assert(s[j] == t[j - 1]);
                    }
                }
            }
        }
    }
}

/// A position holding `c` with no `c` before it is the first index of `c`.
pub proof fn lemma_first_index_at(s: Seq<char>, c: char, k: int)
    requires
        0 <= k < s.len(),
        s[k] == c,
        forall|j: int| 0 <= j < k ==> #[trigger] s[j] != c,
    ensures
        first_index(s, c) == Some(k),
{
    lemma_first_index(s, c);
    assert(s[k] == c);
    let i = first_index(s, c)->0;
    if i < k {
        assert(s[i] != c);
    }
    if i > k {
        assert(s[k] != c);
    }
}

/// `c` does not occur in `s`.
pub open spec fn lacks(s: Seq<char>, c: char) -> bool {
    forall|i: int| 0 <= i < s.len() ==> #[trigger] s[i] != c
}

/// The parts of a JID that the jid crate's parser gives back: a node that
/// is not empty and holds no `@` or `/`, a domain that is not empty and
/// holds no `/` (and no `@` where there is no node), and a resource that is
/// not empty.
pub open spec fn jid_parts_valid(j: JidView) -> bool {
    &&& j.node matches Some(n) ==> n.len() > 0 && lacks(n, '@') && lacks(n, '/')
    &&& j.domain.len() > 0
    &&& lacks(j.domain, '/')
    &&& j.node is None ==> lacks(j.domain, '@')
    &&& j.resource matches Some(r) ==> r.len() > 0
}

/// What the parser gives back has valid parts.
pub proof fn lemma_parsed_parts_valid(text: Seq<char>)
    requires
        jid_parse(text) is Some,
    ensures
        jid_parts_valid(jid_parse(text)->0),
{
    lemma_first_index(text, '/');
    let head = match first_index(text, '/') {
        Some(p) => text.subrange(0, p),
        None => text,
    };
    assert(lacks(head, '/')) by {
        if first_index(text, '/') is Some {
            let p = first_index(text, '/')->0;
            assert forall|i: int| 0 <= i < head.len() implies #[trigger] head[i] != '/' by {
                assert(head[i] == text[i]);
            }
        }
    }
    lemma_first_index(head, '@');
    if first_index(head, '@') is Some {
        let a = first_index(head, '@')->0;
        let n = head.subrange(0, a);
        let d = head.subrange(a + 1, head.len() as int);
        assert forall|i: int| 0 <= i < n.len() implies #[trigger] n[i] != '@' && n[i] != '/' by {
            assert(n[i] == head[i]);
        }
        assert forall|i: int| 0 <= i < d.len() implies #[trigger] d[i] != '/' by {
            assert(d[i] == head[i + a + 1]);
        }
    }
}

/// A JID with valid parts reads back from its text: the jid crate parses
/// what `jid_text` writes into the same parts.
pub proof fn law_jid_text_parses_back(j: JidView)
    requires
        jid_parts_valid(j),
    ensures
        jid_parse(jid_text(j)) == Some(j),
{
    let np = match j.node {
        Some(n) => n + seq!['@'],
        None => Seq::<char>::empty(),
    };
    let rp = match j.resource {
        Some(r) => seq!['/'] + r,
        None => Seq::<char>::empty(),
    };
    let head = np + j.domain;
    let text = jid_text(j);
    assert(text =~= head + rp);
    assert(lacks(head, '/')) by {
        assert forall|i: int| 0 <= i < head.len() implies #[trigger] head[i] != '/' by {
            if i < np.len() {
                if j.node is Some {
                    let n = j.node->0;
                    if i < n.len() {
                        assert(head[i] == n[i]);
                    }
                }
            } else {
                assert(head[i] == j.domain[i - np.len()]);
            }
        }
    }
    if j.resource is Some {
        let r = j.resource->0;
        let p = head.len() as int;
        assert(text[p] == '/');
        assert forall|k: int| 0 <= k < p implies #[trigger] text[k] != '/' by {
            assert(text[k] == head[k]);
        }
        lemma_first_index_at(text, '/', p);
        assert(text.subrange(0, p) =~= head);
        assert(text.subrange(p + 1, text.len() as int) =~= r);
    } else {
        lemma_first_index(text, '/');
        assert(text =~= head);
    }
    if j.node is Some {
        let n = j.node->0;
        let a = n.len() as int;
        assert(head[a] == '@');
        assert forall|k: int| 0 <= k < a implies #[trigger] head[k] != '@' by {
            assert(head[k] == n[k]);
        }
        lemma_first_index_at(head, '@', a);
        assert(head.subrange(0, a) =~= n);
        assert(head.subrange(a + 1, head.len() as int) =~= j.domain);
    } else {
        assert(head =~= j.domain);
        lemma_first_index(head, '@');
    }
}

/// Parsing, writing and parsing again gives the same JID.
pub proof fn law_jid_parse_text_roundtrip(text: Seq<char>)
    requires
        jid_parse(text) is Some,
    ensures
        jid_parse(jid_text(jid_parse(text)->0)) == jid_parse(text),
{
    lemma_parsed_parts_valid(text);
    law_jid_text_parses_back(jid_parse(text)->0);
}

/// `jid::Jid::from_str(text)`: the parsed JID, converted part for part (a
/// bare JID has no resource), or `None` where the crate returns an error; as
/// `jid_parse` describes its parser.
#[verifier::external_body]
pub(crate) fn parse_jid(text: &str) -> (r: Option<Jid>)
    ensures
        r is Some <==> jid_parse(text@) is Some,
        r is Some ==> jid_parse(text@) == Some(r->0@),
{
    match jid::Jid::from_str(text) {
        Ok(jid::Jid::Bare(b)) => Some(Jid { node: b.node, domain: b.domain, resource: None }),
        Ok(jid::Jid::Full(f)) => Some(Jid { node: f.node, domain: f.domain, resource: Some(f.resource) }),
        Err(_) => None,
    }
}

impl Jid {
    /// Parses a JID with the jid crate; `None` where it refuses the text.
    pub fn parse(text: &str) -> (r: Option<Jid>)
        ensures
            r is Some <==> jid_parse(text@) is Some,
            r is Some ==> jid_parse(text@) == Some(r->0@),
    {
        parse_jid(text)
    }

    /// The domain part.
    pub fn domain(&self) -> (r: String)
        ensures
            r@ == self@.domain,
    {
        self.domain.clone()
    }

    /// The node part, if any.
    pub fn node(&self) -> (r: Option<String>)
        ensures
            opt_view(r) == self@.node,
    {
        match &self.node {
            Some(n) => Some(n.clone()),
            None => None,
        }
    }

    /// The JID as text: `node@domain/resource`, leaving out what is absent.
    pub fn to_string(&self) -> (r: String)
        ensures
            r@ == jid_text(self@),
    {
        let mut r = String::new();
        match &self.node {
            Some(n) => {
                r.append(n.as_str());
                r.append("@");
                proof {
                    reveal_strlit("@");
                }
            },
            None => {},
        }
        r.append(self.domain.as_str());
        match &self.resource {
            Some(res) => {
                r.append("/");
                r.append(res.as_str());
                proof {
                    reveal_strlit("/");
                }
            },
            None => {},
        }
        assert(r@ =~= jid_text(self@));
        r
    }

    /// A copy of this JID.
    pub fn copy(&self) -> (r: Jid)
        ensures
            r@ == self@,
    {
        Jid { node: self.node(), domain: self.domain(), resource: match &self.resource {
            Some(s) => Some(s.clone()),
            None => None,
        } }
    }
}

} // verus!
