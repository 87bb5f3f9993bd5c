//! Parsing of the pagination `Link` response header.
//!
//! The header is a comma-separated list of entries of the shape
//! `<url>; rel="name"`. Each well-formed entry contributes one
//! relation/URL pair; entries of any other shape are skipped rather
//! than failing the whole parse.

use crate::strutil::{has_prefix, split_on, split_str, trim_spec, trim_str};
use vstd::prelude::*;
use vstd::string::StrSliceExecFns;

verus! {

/// The URL part of an entry: trimmed, with one surrounding `<...>`
/// pair removed when present.
pub open spec fn strip_brackets(s: Seq<char>) -> Seq<char> {
    let t = trim_spec(s);
    if t.len() >= 2 && t[0] == '<' && t[t.len() - 1] == '>' {
        t.subrange(1, t.len() - 1)
    } else {
        t
    }
}

/// The relation name of an entry's second part: the part must read
/// `rel=name` after trimming, with one pair of surrounding quotes
/// around the name removed when present.
pub open spec fn rel_name(part: Seq<char>) -> Option<Seq<char>> {
    let t = trim_spec(part);
    if t.len() >= 4 && t.subrange(0, 4) == "rel="@ {
        let q = trim_spec(t.subrange(4, t.len() as int));
        if q.len() >= 2 && q[0] == '"' && q[q.len() - 1] == '"' {
            Some(q.subrange(1, q.len() - 1))
        } else {
            Some(q)
        }
    } else {
        None
    }
}

/// The relation/URL pair of one comma-separated entry, or `None` for an
/// entry that does not have exactly two `;`-separated parts with a
/// `rel=` marker in the second.
pub open spec fn entry_link(e: Seq<char>) -> Option<(Seq<char>, Seq<char>)> {
    let parts = split_on(e, ';');
    if parts.len() == 2 {
        match rel_name(parts[1]) {
            Some(k) => Some((k, strip_brackets(parts[0]))),
            None => None,
        }
    } else {
        None
    }
}

/// The pairs contributed by a sequence of entries, in order, with
/// malformed entries skipped.
pub open spec fn links_of_entries(entries: Seq<Seq<char>>) -> Seq<(Seq<char>, Seq<char>)>
    decreases entries.len(),
{
    if entries.len() == 0 {
        Seq::empty()
    } else {
        let rest = links_of_entries(entries.drop_first());
        match entry_link(entries[0]) {
            Some(p) => seq![p] + rest,
            None => rest,
        }
    }
}

/// The relation/URL pairs of a whole `Link` header.
pub open spec fn links_of(h: Seq<char>) -> Seq<(Seq<char>, Seq<char>)> {
    links_of_entries(split_on(h, ','))
}

proof fn lemma_links_of_entries_push(entries: Seq<Seq<char>>, e: Seq<char>)
    ensures
        links_of_entries(entries.push(e)) == links_of_entries(entries) + (match entry_link(e) {
            Some(p) => seq![p],
            None => Seq::<(Seq<char>, Seq<char>)>::empty(),
        }),
    decreases entries.len(),
{
    let whole = entries.push(e);
    if entries.len() == 0 {
        reveal_with_fuel(links_of_entries, 2);
        assert(whole.drop_first() =~= Seq::<Seq<char>>::empty());
        assert(whole[0] == e);
        match entry_link(e) {
            Some(p) => {
                assert(links_of_entries(whole) =~= links_of_entries(entries) + seq![p]);
            },
            None => {
                assert(links_of_entries(whole) =~= links_of_entries(entries));
            },
        }
    } else {
        lemma_links_of_entries_push(entries.drop_first(), e);
        assert(whole.drop_first() =~= entries.drop_first().push(e));
        assert(whole[0] == entries[0]);
        match entry_link(e) {
            Some(p) => {
                assert(links_of_entries(whole) =~= links_of_entries(entries) + seq![p]);
            },
            None => {
                assert(links_of_entries(whole) =~= links_of_entries(entries));
            },
        }
    }
}

/// Strips one pair of surrounding `<...>` from the trimmed URL part.
fn parse_url_part(s: &str) -> (r: String)
    ensures
        r@ == strip_brackets(s@),
{
    let t = trim_str(s);
    let n = t.as_str().unicode_len();
    if n >= 2 && t.as_str().get_char(0) == '<' && t.as_str().get_char(n - 1) == '>' {
        t.as_str().substring_char(1, n - 1).to_owned()
    } else {
        t
    }
}

/// Extracts the relation name from the `rel=` part of an entry.
fn parse_rel_part(s: &str) -> (r: Option<String>)
    ensures
        match r {
            Some(k) => rel_name(s@) == Some(k@),
            None => rel_name(s@) is None,
        },
{
    let t = trim_str(s);
    proof {
        reveal_strlit("rel=");
    }
    if has_prefix(t.as_str(), "rel=") {
        let tn = t.as_str().unicode_len();
        let q = trim_str(t.as_str().substring_char(4, tn));
        let qn = q.as_str().unicode_len();
        if qn >= 2 && q.as_str().get_char(0) == '"' && q.as_str().get_char(qn - 1) == '"' {
            Some(q.as_str().substring_char(1, qn - 1).to_owned())
        } else {
            Some(q)
        }
    } else {
        None
    }
}

/// Parses one comma-separated entry into its relation/URL pair.
fn parse_entry(e: &str) -> (r: Option<(String, String)>)
    ensures
        match r {
            Some(p) => entry_link(e@) == Some((p.0@, p.1@)),
            None => entry_link(e@) is None,
        },
{
    let parts = split_str(e, ';');
    if parts.len() == 2 {
        proof {
            assert(parts.deep_view()[0] == parts@[0]@);
            assert(parts.deep_view()[1] == parts@[1]@);
        }
        match parse_rel_part(parts[1].as_str()) {
            Some(k) => {
                let url = parse_url_part(parts[0].as_str());
                Some((k, url))
            },
            None => None,
        }
    } else {
        None
    }
}

/// Parses a whole `Link` header into its relation/URL pairs, in order
/// of appearance, skipping malformed entries.
pub fn parse_links(h: &str) -> (r: Vec<(String, String)>)
    ensures
        r.deep_view() == links_of(h@),
{
    let entries = split_str(h, ',');
    let n = entries.len();
    let mut r: Vec<(String, String)> = Vec::new();
    let mut i: usize = 0;
    while i < n
        invariant
            n == entries@.len(),
            i <= n,
            entries.deep_view() == split_on(h@, ','),
            r.deep_view() == links_of_entries(entries.deep_view().subrange(0, i as int)),
        decreases n - i,
    {
        let ghost pref = entries.deep_view().subrange(0, i as int);
        proof {
            assert(entries.deep_view().subrange(0, i + 1) =~= pref.push(
                entries.deep_view()[i as int],
            ));
            lemma_links_of_entries_push(pref, entries.deep_view()[i as int]);
            assert(entries.deep_view()[i as int] == entries@[i as int]@);
        }
        match parse_entry(entries[i].as_str()) {
            Some(p) => {
                r.push(p);
                proof {
                    assert(r.deep_view() =~= links_of_entries(
                        entries.deep_view().subrange(0, i + 1),
                    ));
                }
            },
            None => {
                proof {
                    assert(r.deep_view() =~= links_of_entries(
                        entries.deep_view().subrange(0, i + 1),
                    ));
                }
            },
        }
        i += 1;
    }
    proof {
        assert(entries.deep_view().subrange(0, n as int) =~= entries.deep_view());
    }
    r
}

} // verus!
