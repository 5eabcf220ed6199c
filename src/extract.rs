use vstd::prelude::*;
use vstd::string::StringExecFns;
use crate::social::{json_to_social, social_of_json, Social, SocialView};

verus! {

/// The text left once leading and trailing whitespace is removed.
pub uninterp spec fn trimmed_of(s: Seq<char>) -> Seq<char>;

/// Relies on str::trim: it depends on the characters alone.
#[verifier::external_body]
fn trim_text(s: &str) -> (r: String)
    ensures
        r@ == trimmed_of(s@),
{
    s.trim().to_string()
}

/// The character sequences that script results hold: `None` for a failed
/// evaluation or a result that is not a string.
pub open spec fn result_views(values: Seq<Option<String>>) -> Seq<Option<Seq<char>>> {
    values.map_values(|o: Option<String>| match o {
        Some(s) => Some(s@),
        None => None,
    })
}

/// What the text extractor gives for one script result.
pub open spec fn text_of(value: Option<Seq<char>>) -> Seq<char> {
    match value {
        Some(s) => trimmed_of(s),
        None => Seq::empty(),
    }
}

/// What the URL extractor gives for one script result.
pub open spec fn url_of(value: Option<Seq<char>>) -> Seq<char> {
    match value {
        Some(s) => s,
        None => Seq::empty(),
    }
}

/// The social links read from the anchors' serialized data, in anchor order;
/// an anchor whose data is missing or malformed contributes nothing.
pub open spec fn socials_of(values: Seq<Option<Seq<char>>>) -> Seq<SocialView>
    decreases values.len(),
{
    if values.len() == 0 {
        Seq::empty()
    } else {
        let rest = socials_of(values.drop_last());
        match values.last() {
            Some(t) => match social_of_json(t) {
                Some(s) => rest.push(s),
                None => rest,
            },
            None => rest,
        }
    }
}

pub open spec fn social_views(v: Seq<Social>) -> Seq<SocialView> {
    v.map_values(|s: Social| s@)
}

pub open spec fn string_views(v: Seq<String>) -> Seq<Seq<char>> {
    v.map_values(|s: String| s@)
}

/// Text extractor: the trimmed text of a script result, or the empty string
/// when the evaluation failed or did not give a string.
pub fn text_or_default(value: Option<String>) -> (r: String)
    ensures
        r@ == text_of(match value {
            Some(s) => Some(s@),
            None => None,
        }),
{
    match value {
        Some(s) => trim_text(s.as_str()),
        None => String::new(),
    }
}

/// URL extractor: the `src` or `href` that a script result gave, or the empty
/// string when there is none.
pub fn url_or_default(value: Option<String>) -> (r: String)
    ensures
        r@ == url_of(match value {
            Some(s) => Some(s@),
            None => None,
        }),
{
    match value {
        Some(s) => s,
        None => String::new(),
    }
}

/// Structured-list extractor: one social link for each anchor whose data
/// parses, in anchor order.
pub fn socials_from_results(values: &Vec<Option<String>>) -> (r: Vec<Social>)
    ensures
        social_views(r@) == socials_of(result_views(values@)),
{
    let ghost all = result_views(values@);
    let mut out: Vec<Social> = Vec::new();
    let mut i: usize = 0;
    while i < values.len()
        invariant
            i <= values@.len(),
            all == result_views(values@),
            social_views(out@) == socials_of(all.take(i as int)),
        decreases values@.len() - i,
    {
        assert(all.take(i + 1).drop_last() =~= all.take(i as int));
        match &values[i] {
            Some(text) => match json_to_social(text.as_str()) {
                Ok(s) => {
                    out.push(s);
                    assert(social_views(out@) =~= socials_of(all.take(i + 1)));
                },
                Err(_) => {},
            },
            None => {},
        }
        i = i + 1;
    }
    assert(all.take(values@.len() as int) =~= all);
    out
}

/// Category extractor: the text of each list item, in order; items whose
/// text could not be read stay as empty strings so positions are kept.
pub fn categories_from_results(values: &Vec<Option<String>>) -> (r: Vec<String>)
    ensures
        string_views(r@) == result_views(values@).map_values(|v: Option<Seq<char>>| text_of(v)),
{
    let ghost want = result_views(values@).map_values(|v: Option<Seq<char>>| text_of(v));
    let mut out: Vec<String> = Vec::new();
    let mut i: usize = 0;
    while i < values.len()
        invariant
            i <= values@.len(),
            want == result_views(values@).map_values(|v: Option<Seq<char>>| text_of(v)),
            string_views(out@) == want.take(i as int),
        decreases values@.len() - i,
    {
        let t = match &values[i] {
            Some(s) => trim_text(s.as_str()),
            None => String::new(),
        };
        assert(result_views(values@)[i as int] == match values@[i as int] {
            Some(s) => Some(s@),
            None => None::<Seq<char>>,
        });
        assert(t@ == want[i as int]);
        let ghost tv = t@;
        let ghost before = out@;
        out.push(t);
        assert(string_views(out@) =~= string_views(before).push(tv));
        assert(string_views(out@) =~= want.take(i + 1));
        i = i + 1;
    }
    assert(want.take(values@.len() as int) =~= want);
    out
}

/// The structured-list extractor keeps anchor order and drops a malformed
/// anchor on its own: the links read from anchors `a`, one anchor that gives
/// no link, then anchors `b`, are those of `a` followed by those of `b`.
pub proof fn lemma_malformed_anchor_dropped(
    a: Seq<Option<Seq<char>>>,
    bad: Option<Seq<char>>,
    b: Seq<Option<Seq<char>>>,
)
    requires
        bad is None || social_of_json(bad->Some_0) is None,
    ensures
        socials_of(a.push(bad) + b) == socials_of(a) + socials_of(b),
    decreases b.len(),
{
    if b.len() == 0 {
        assert(a.push(bad) + b =~= a.push(bad));
        assert(a.push(bad).drop_last() =~= a);
        assert(socials_of(b) =~= Seq::empty());
        assert(socials_of(a) + socials_of(b) =~= socials_of(a));
    } else {
        let b0 = b.drop_last();
        lemma_malformed_anchor_dropped(a, bad, b0);
        assert((a.push(bad) + b).drop_last() =~= a.push(bad) + b0);
        assert((a.push(bad) + b).last() == b.last());
        match b.last() {
            Some(t) => match social_of_json(t) {
                Some(s) => {
                    assert(socials_of(a) + socials_of(b0).push(s) =~= (socials_of(a) + socials_of(b0)).push(s));
                },
                None => {},
            },
            None => {},
        }
    }
}

/// Anchors listed in order give their links in that order, and no anchors
/// give no links.
pub proof fn lemma_socials_keep_anchor_order(a: Seq<Option<Seq<char>>>, b: Seq<Option<Seq<char>>>)
    ensures
        socials_of(a + b) == socials_of(a) + socials_of(b),
        socials_of(Seq::empty()) == Seq::<SocialView>::empty(),
    decreases b.len(),
{
    if b.len() == 0 {
        assert(a + b =~= a);
        assert(socials_of(a) + socials_of(b) =~= socials_of(a));
    } else {
        let b0 = b.drop_last();
        lemma_socials_keep_anchor_order(a, b0);
        assert((a + b).drop_last() =~= a + b0);
        assert((a + b).last() == b.last());
        match b.last() {
            Some(t) => match social_of_json(t) {
                Some(s) => {
                    assert(socials_of(a) + socials_of(b0).push(s) =~= (socials_of(a) + socials_of(b0)).push(s));
                },
                None => {},
            },
            None => {},
        }
    }
}

} // verus!
