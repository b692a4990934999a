//! The views of one namespace.
use dashmap::DashMap;
use vstd::prelude::*;

use crate::provider_map;
use crate::text;

verus! {

/// The views of a namespace, each planned at most once.
///
/// Every view is known by name from the start. The provider that reads it is
/// kept once the view is planned.
pub(crate) struct KnownViews {
    names: DashMap<String, ()>,
    planned: DashMap<String, u64>,
}

impl View for KnownViews {
    type V = Map<Seq<char>, Option<u64>>;

    closed spec fn view(&self) -> Map<Seq<char>, Option<u64>> {
        let planned = provider_map::provider_entries(self.planned);
        Map::new(
            |name: Seq<char>| provider_map::known_names(self.names).contains(name),
            |name: Seq<char>|
                if planned.contains_key(name) {
                    Some(planned[name])
                } else {
                    None
                },
        )
    }
}

/// Views of these names, none of them planned.
pub open spec fn unplanned(names: Set<Seq<char>>) -> Map<Seq<char>, Option<u64>> {
    Map::new(|name: Seq<char>| names.contains(name), |name: Seq<char>| None)
}

impl KnownViews {
    /// Only views that are known by name are planned.
    #[verifier::type_invariant]
    spec fn consistent(self) -> bool {
        provider_map::provider_entries(self.planned).dom().subset_of(
            provider_map::known_names(self.names),
        )
    }

    /// Views of these names, none of them planned.
    pub(crate) fn new(names: Vec<String>) -> (res: Self)
        ensures
            res@ == unplanned(text::texts(names@).to_set()),
    {
        let ghost texts = text::texts(names@);
        let mut known: DashMap<String, ()> = provider_map::no_names();
        let mut i: usize = 0;
        while i < names.len()
            invariant
                texts == text::texts(names@),
                i <= names.len(),
                forall|name: Seq<char>| #[trigger]
                    provider_map::known_names(known).contains(name) <==> exists|j: int|
                        0 <= j < i && #[trigger] texts[j] == name,
            decreases names.len() - i,
        {
            let ghost before = provider_map::known_names(known);
            provider_map::insert_name(&mut known, names[i].clone());
            proof {
                assert(texts[i as int] == names@[i as int]@);
                assert forall|name: Seq<char>| #[trigger]
                    provider_map::known_names(known).contains(name) <==> exists|j: int|
                        0 <= j < i + 1 && #[trigger] texts[j] == name by {
                    if name == texts[i as int] {
                    } else if before.contains(name) {
                    }
                }
            }
            i = i + 1;
        }
        let planned: DashMap<String, u64> = provider_map::no_providers();
        assert(provider_map::known_names(known) =~= texts.to_set());
        let res = KnownViews { names: known, planned };
        assert(res@ =~= unplanned(texts.to_set()));
        res
    }

    /// Whether `name` is a view.
    pub(crate) fn contains(&self, name: &str) -> (res: bool)
        ensures
            res == self@.contains_key(name@),
    {
        provider_map::has_name(&self.names, name)
    }

    /// The provider that reads the view `name`, once it is planned.
    pub(crate) fn provider(&self, name: &str) -> (res: Option<u64>)
        ensures
            match res {
                Some(provider) => self@.contains_key(name@) && self@[name@] == Some(provider),
                None => self@.contains_key(name@) ==> self@[name@] is None,
            },
    {
        proof {
            use_type_invariant(self);
        }
        provider_map::get_provider(&self.planned, name)
    }

    /// The names of the views, each once, in no particular order.
    pub(crate) fn names(&self) -> (res: Vec<String>)
        ensures
            text::texts(res@).no_duplicates(),
            text::texts(res@).to_set() == self@.dom(),
    {
        assert(self@.dom() =~= provider_map::known_names(self.names));
        provider_map::names_of(&self.names)
    }

    /// Keeps the provider that reads the view `name`. What is no view is not
    /// kept.
    pub(crate) fn plan(&mut self, name: &str, provider: u64)
        ensures
            final(self)@ == if old(self)@.contains_key(name@) {
                old(self)@.insert(name@, Some(provider))
            } else {
                old(self)@
            },
    {
        proof {
            use_type_invariant(&*self);
        }
        if self.contains(name) {
            let ghost before = self@;
            let mut planned: DashMap<String, u64> = provider_map::no_providers();
            std::mem::swap(&mut self.planned, &mut planned);
            provider_map::insert_provider(&mut planned, name.to_string(), provider);
            self.planned = planned;
            assert(self@ =~= before.insert(name@, Some(provider)));
        }
    }
}

/// Views that were just found are those named, and none of them is planned.
pub proof fn law_unplanned(names: Set<Seq<char>>, name: Seq<char>)
    ensures
        unplanned(names).contains_key(name) <==> names.contains(name),
        names.contains(name) ==> unplanned(names)[name] is None,
{
}

} // verus!
