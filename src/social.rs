use vstd::prelude::*;
use vstd::string::StringExecFns;

verus! {

#[verifier::external_type_specification]
#[verifier::external_body]
pub struct ExJsonError(serde_json::Error);

/// A social link: the anchor's display text and its target.
#[derive(Debug)]
pub struct Social {
    pub name: String,
    pub url: String,
}

/// What a social link holds, as character sequences.
pub ghost struct SocialView {
    pub name: Seq<char>,
    pub url: Seq<char>,
}

impl View for Social {
    type V = SocialView;

    open spec fn view(&self) -> SocialView {
        SocialView { name: self.name@, url: self.url@ }
    }
}

impl PartialEq for Social {
    fn eq(&self, o: &Social) -> (r: bool) {
        self.name == o.name && self.url == o.url
    }
}

impl vstd::std_specs::cmp::PartialEqSpecImpl for Social {
    open spec fn obeys_eq_spec() -> bool {
        true
    }

    open spec fn eq_spec(&self, o: &Social) -> bool {
        self@ == o@
    }
}

impl Eq for Social {
}

/// Why an anchor's serialized data did not give a social link.
#[derive(Debug)]
pub enum SocialError {
    /// The text is not a JSON object whose members are all strings.
    Json(serde_json::Error),
    /// The object has no `name` member.
    MissingName,
    /// The object has a `name` member but no `url` member.
    MissingUrl,
}

/// The members of the JSON object that `text` holds, in key order, when it is
/// an object whose member values are all strings.
pub uninterp spec fn json_string_members(text: Seq<char>) -> Option<Seq<(Seq<char>, Seq<char>)>>;

pub open spec fn member_views(m: Seq<(String, String)>) -> Seq<(Seq<char>, Seq<char>)> {
    m.map_values(|p: (String, String)| (p.0@, p.1@))
}

/// Relies on serde_json::from_str into a `BTreeMap<String, String>`: it
/// succeeds exactly on a JSON object whose values are strings, and the map's
/// entries, taken in key order, are the object's members.
#[verifier::external_body]
fn parse_string_members(json: &str) -> (r: Result<Vec<(String, String)>, serde_json::Error>)
    ensures
        r is Ok <==> json_string_members(json@) is Some,
        r is Ok ==> member_views(r->Ok_0@) == json_string_members(json@)->Some_0,
{
    serde_json::from_str::<std::collections::BTreeMap<String, String>>(json).map(
        |m| m.into_iter().collect(),
    )
}

/// The value of the first member named `key`.
pub open spec fn member_value(m: Seq<(Seq<char>, Seq<char>)>, key: Seq<char>) -> Option<Seq<char>>
    decreases m.len(),
{
    if m.len() == 0 {
        None
    } else if m[0].0 == key {
        Some(m[0].1)
    } else {
        member_value(m.drop_first(), key)
    }
}

/// The social link that the serialized anchor data `text` describes, if any.
pub open spec fn social_of_json(text: Seq<char>) -> Option<SocialView> {
    match json_string_members(text) {
        Some(m) => match (member_value(m, "name"@), member_value(m, "url"@)) {
            (Some(n), Some(u)) => Some(SocialView { name: n, url: u }),
            _ => None,
        },
        None => None,
    }
}

fn find_member(members: &Vec<(String, String)>, key: &String) -> (r: Option<String>)
    ensures
        match r {
            Some(v) => member_value(member_views(members@), key@) == Some(v@),
            None => member_value(member_views(members@), key@) is None,
        },
{
    let ghost all = member_views(members@);
    let mut i: usize = 0;
    assert(all.skip(0) =~= all);
    while i < members.len()
        invariant
            i <= members@.len(),
            all == member_views(members@),
            member_value(all, key@) == member_value(all.skip(i as int), key@),
        decreases members@.len() - i,
    {
        let ghost rest = all.skip(i as int);
        assert(rest[0] == (members@[i as int].0@, members@[i as int].1@));
        if members[i].0 == *key {
            return Some(members[i].1.clone());
        }
        assert(rest.drop_first() =~= all.skip(i + 1));
        i = i + 1;
    }
    None
}

/// Reads a social link from the JSON text that the page serialized for one
/// anchor: an object with string members `name` and `url`.
pub fn json_to_social(json: &str) -> (r: Result<Social, SocialError>)
    ensures
        match json_string_members(json@) {
            None => r matches Err(SocialError::Json(_)),
            Some(m) => match (member_value(m, "name"@), member_value(m, "url"@)) {
                (None, _) => r matches Err(SocialError::MissingName),
                (Some(_), None) => r matches Err(SocialError::MissingUrl),
                (Some(n), Some(u)) => r matches Ok(s) && s@ == SocialView { name: n, url: u },
            },
        },
        r is Ok <==> social_of_json(json@) is Some,
        r is Ok ==> r->Ok_0@ == social_of_json(json@)->Some_0,
{
    match parse_string_members(json) {
        Err(e) => Err(SocialError::Json(e)),
        Ok(members) => {
            let name_key = String::from_str("name");
            let url_key = String::from_str("url");
            match find_member(&members, &name_key) {
                None => Err(SocialError::MissingName),
                Some(name) => match find_member(&members, &url_key) {
                    None => Err(SocialError::MissingUrl),
                    Some(url) => Ok(Social { name, url }),
                },
            }
        },
    }
}

} // verus!
