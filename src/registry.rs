use vstd::prelude::*;
use crate::extract::{social_views, string_views};
use crate::social::{Social, SocialView};

verus! {

/// One record of the listing.
#[derive(Debug)]
pub struct Dapp {
    pub logo_url: String,
    pub project_name: String,
    pub data_social: Vec<Social>,
    pub category_list: Vec<String>,
    pub description: String,
}

pub ghost struct DappView {
    pub logo_url: Seq<char>,
    pub project_name: Seq<char>,
    pub data_social: Seq<SocialView>,
    pub category_list: Seq<Seq<char>>,
    pub description: Seq<char>,
}

impl View for Dapp {
    type V = DappView;

    open spec fn view(&self) -> DappView {
        DappView {
            logo_url: self.logo_url@,
            project_name: self.project_name@,
            data_social: social_views(self.data_social@),
            category_list: string_views(self.category_list@),
            description: self.description@,
        }
    }
}

/// A freshly discovered record: its name, every other field empty.
pub open spec fn default_dapp(name: Seq<char>) -> DappView {
    DappView {
        logo_url: Seq::empty(),
        project_name: name,
        data_social: Seq::empty(),
        category_list: Seq::empty(),
        description: Seq::empty(),
    }
}

impl Dapp {
    pub fn new(project_name: String) -> (r: Dapp)
        ensures
            r@ == default_dapp(project_name@),
    {
        let r = Dapp {
            logo_url: String::new(),
            project_name,
            data_social: Vec::new(),
            category_list: Vec::new(),
            description: String::new(),
        };
        assert(r@.data_social =~= Seq::<SocialView>::empty());
        assert(r@.category_list =~= Seq::<Seq<char>>::empty());
        r
    }
}

/// A detail-view field together with the value that its extractor gave.
pub enum FieldValue {
    Logo(String),
    Social(Vec<Social>),
    Category(Vec<String>),
    Description(String),
}

/// The record `d` once `value` has been stored in its field.
pub open spec fn with_field(d: DappView, value: FieldValue) -> DappView {
    match value {
        FieldValue::Logo(s) => DappView { logo_url: s@, ..d },
        FieldValue::Social(v) => DappView { data_social: social_views(v@), ..d },
        FieldValue::Category(v) => DappView { category_list: string_views(v@), ..d },
        FieldValue::Description(s) => DappView { description: s@, ..d },
    }
}

/// Records by their position among all listing elements. A position whose
/// title was empty holds no record; positions are never compacted.
pub struct Registry {
    slots: Vec<Option<Dapp>>,
}

pub open spec fn slot_views(slots: Seq<Option<Dapp>>) -> Seq<Option<DappView>> {
    slots.map_values(|o: Option<Dapp>| match o {
        Some(d) => Some(d@),
        None => None,
    })
}

/// Every record of the registry has a non-empty name.
pub open spec fn named(slots: Seq<Option<DappView>>) -> bool {
    forall|i: int| 0 <= i < slots.len() && (#[trigger] slots[i]) is Some ==> slots[i]->Some_0.project_name.len() > 0
}

/// The registry that discovery builds from the extracted titles.
pub open spec fn discovered(titles: Seq<Seq<char>>) -> Seq<Option<DappView>> {
    titles.map_values(|t: Seq<char>| if t.len() == 0 { None } else { Some(default_dapp(t)) })
}

impl View for Registry {
    type V = Seq<Option<DappView>>;

    closed spec fn view(&self) -> Seq<Option<DappView>> {
        slot_views(self.slots@)
    }
}

impl Registry {
    pub open spec fn wf(&self) -> bool {
        named(self@)
    }

    /// Builds the registry from the titles of the listing elements, in their
    /// order on the page: element `i` with a non-empty title becomes the
    /// record at `i`; one with an empty title leaves `i` empty.
    pub fn discover(titles: &Vec<String>) -> (r: Registry)
        ensures
            r.wf(),
            r@ == discovered(string_views(titles@)),
            r@.len() == titles@.len(),
            forall|i: int| 0 <= i < titles@.len() && titles@[i]@.len() > 0 ==>
                #[trigger] r@[i] == Some(default_dapp(titles@[i]@)),
            forall|i: int| 0 <= i < titles@.len() && titles@[i]@.len() == 0 ==>
                #[trigger] r@[i] is None,
    {
        let ghost want = discovered(string_views(titles@));
        let mut slots: Vec<Option<Dapp>> = Vec::new();
        let mut i: usize = 0;
        let n = titles.len();
        while i < n
            invariant
                n == titles@.len(),
                i <= n,
                want == discovered(string_views(titles@)),
                slot_views(slots@) == want.take(i as int),
            decreases n - i,
        {
            let t = titles[i].clone();
            let ghost before = slots@;
            if t.as_str().is_empty() {
                slots.push(None);
            } else {
                slots.push(Some(Dapp::new(t)));
            }
            assert(slot_views(slots@) =~= slot_views(before).push(want[i as int]));
            assert(want.take(i + 1) =~= want.take(i as int).push(want[i as int]));
            i = i + 1;
        }
        assert(want.take(n as int) =~= want);
        Registry { slots }
    }

    /// The number of listing elements that discovery saw.
    pub fn len(&self) -> (r: usize)
        ensures
            r == self@.len(),
    {
        self.slots.len()
    }

    /// The record at `index`, if there is one.
    pub fn get(&self, index: usize) -> (r: Option<&Dapp>)
        ensures
            index < self@.len() ==> match r {
                Some(d) => self@[index as int] == Some(d@),
                None => self@[index as int] is None,
            },
            index >= self@.len() ==> r is None,
    {
        if index < self.slots.len() {
            match &self.slots[index] {
                Some(d) => Some(d),
                None => None,
            }
        } else {
            None
        }
    }

    /// Stores an extracted field value in the record at `index`.
    pub(crate) fn set_field(&mut self, index: usize, value: FieldValue)
        requires
            old(self).wf(),
            index < old(self)@.len(),
            old(self)@[index as int] is Some,
        ensures
            final(self).wf(),
            final(self)@ == old(self)@.update(index as int, Some(with_field(old(self)@[index as int]->Some_0, value))),
    {
        let ghost old_view = self@;
        let ghost want = with_field(old_view[index as int]->Some_0, value);
        let mut taken: Option<Dapp> = None;
        std::mem::swap(&mut taken, &mut self.slots[index]);
        if let Some(mut d) = taken {
            match value {
                FieldValue::Logo(s) => d.logo_url = s,
                FieldValue::Social(v) => d.data_social = v,
                FieldValue::Category(v) => d.category_list = v,
                FieldValue::Description(s) => d.description = s,
            }
            assert(d@ == want);
            self.slots.set(index, Some(d));
        }
        assert(self@ =~= old_view.update(index as int, Some(want)));
    }
}

} // verus!
