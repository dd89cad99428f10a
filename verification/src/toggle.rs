//! The last-known switch of a component at each site.
//!
//! A component that can be switched on and off is told so site by site, and
//! has to honour what it was told last. Until a site is switched off, it is
//! on.

use vstd::prelude::*;
use crate::ontology::SiteMessage;

verus! {

/// The sites at which a component is switched off.
pub struct ToggleState {
    muted: Vec<String>,
}

impl View for ToggleState {
    type V = Set<Seq<char>>;

    closed spec fn view(&self) -> Set<Seq<char>> {
        Set::new(|site: Seq<char>| sites_hold(self.muted@, site))
    }
}

spec fn sites_hold(sites: Seq<String>, site: Seq<char>) -> bool {
    exists|i: int| 0 <= i < sites.len() && (#[trigger] sites[i])@ == site
}

impl ToggleState {
    #[verifier::type_invariant]
    spec fn well_formed(self) -> bool {
        forall|i: int, j: int|
            0 <= i < j < self.muted@.len() ==> (#[trigger] self.muted@[i])@ != (
            #[trigger] self.muted@[j])@
    }

    /// Whether the component is on at a site.
    pub open spec fn on_at(&self, site: Seq<char>) -> bool {
        !self@.contains(site)
    }

    /// The state at start-up: on at every site.
    pub fn new() -> (state: ToggleState)
        ensures
            state@ == Set::<Seq<char>>::empty(),
            forall|site: Seq<char>| state.on_at(site),
    {
        let state = ToggleState { muted: Vec::new() };
        assert(state@ =~= Set::<Seq<char>>::empty());
        state
    }

    fn position(&self, site_id: &String) -> (found: Option<usize>)
        ensures
            match found {
                Some(i) => i < self.muted@.len() && self.muted@[i as int]@ == site_id@,
                None => !self@.contains(site_id@),
            },
            found is Some <==> self@.contains(site_id@),
    {
        let mut i: usize = 0;
        while i < self.muted.len()
            invariant
                i <= self.muted@.len(),
                forall|j: int| 0 <= j < i ==> (#[trigger] self.muted@[j])@ != site_id@,
            decreases self.muted@.len() - i,
        {
            if self.muted[i] == *site_id {
                return Some(i);
            }
            i += 1;
        }
        None
    }

    /// Whether the component is on at a site.
    pub fn is_on(&self, site_id: &String) -> (on: bool)
        ensures
            on == self.on_at(site_id@),
    {
        self.position(site_id).is_none()
    }

    /// Takes the order to switch the component on at the message's site. The
    /// other sites stay as they are.
    pub fn toggle_on(&mut self, site: &SiteMessage)
        ensures
            final(self)@ == old(self)@.remove(site.site_id@),
            final(self).on_at(site.site_id@),
            forall|other: Seq<char>|
                other != site.site_id@ ==> final(self).on_at(other) == old(self).on_at(other),
    {
        proof {
            use_type_invariant(&*self);
        }
        match self.position(&site.site_id) {
            None => {
                assert(self@ =~= self@.remove(site.site_id@));
            },
            Some(i) => {
                let ghost before = self.muted@;
                let ghost was = self@;
                let mut muted: Vec<String> = Vec::new();
                core::mem::swap(&mut self.muted, &mut muted);
                let _ = muted.remove(i);
                core::mem::swap(&mut self.muted, &mut muted);
                proof {
                    let after = self.muted@;
                    assert(after == before.remove(i as int));
                    assert forall|other: Seq<char>| self@.contains(other) == was.remove(
                        site.site_id@,
                    ).contains(other) by {
                        if sites_hold(after, other) {
                            let k = choose|k: int| 0 <= k < after.len() && (#[trigger] after[k])@
                                == other;
                            if k < i {
                                assert(before[k]@ == other);
                            } else {
                                assert(before[k + 1]@ == other);
                            }
                        }
                        if other != site.site_id@ && sites_hold(before, other) {
                            let k = choose|k: int| 0 <= k < before.len() && (#[trigger] before[k])@
                                == other;
                            if k < i {
                                assert(after[k]@ == other);
                            } else {
                                assert(after[k - 1]@ == other);
                            }
                        }
                    }
                    assert(self@ =~= was.remove(site.site_id@));
                }
            },
        }
    }

    /// Takes the order to switch the component off at the message's site.
    /// The other sites stay as they are.
    pub fn toggle_off(&mut self, site: &SiteMessage)
        ensures
            final(self)@ == old(self)@.insert(site.site_id@),
            !final(self).on_at(site.site_id@),
            forall|other: Seq<char>|
                other != site.site_id@ ==> final(self).on_at(other) == old(self).on_at(other),
    {
        proof {
            use_type_invariant(&*self);
        }
        match self.position(&site.site_id) {
            Some(i) => {
                assert(self@ =~= self@.insert(site.site_id@));
            },
            None => {
                let ghost before = self.muted@;
                let ghost was = self@;
                let added = site.site_id.clone();
                let mut muted: Vec<String> = Vec::new();
                core::mem::swap(&mut self.muted, &mut muted);
                muted.push(added);
                assert forall|a: int, b: int| 0 <= a < b < muted@.len() implies (
                #[trigger] muted@[a])@ != (#[trigger] muted@[b])@ by {
                    if b == before.len() {
                        assert(before[a]@ != site.site_id@);
                    } else {
                        assert(before[a]@ != before[b]@);
                    }
                }
                core::mem::swap(&mut self.muted, &mut muted);
                proof {
                    let after = self.muted@;
                    assert(after == before.push(added));
                    assert forall|other: Seq<char>| self@.contains(other) == was.insert(
                        site.site_id@,
                    ).contains(other) by {
                        if sites_hold(after, other) {
                            let k = choose|k: int| 0 <= k < after.len() && (#[trigger] after[k])@
                                == other;
                            if k < before.len() {
                                assert(before[k]@ == other);
                            }
                        }
                        if sites_hold(before, other) {
                            let k = choose|k: int| 0 <= k < before.len() && (#[trigger] before[k])@
                                == other;
                            assert(after[k]@ == other);
                        }
                        if other == site.site_id@ {
                            assert(after[before.len() as int]@ == other);
                        }
                    }
                    assert(self@ =~= was.insert(site.site_id@));
                }
            },
        }
    }
}

} // verus!
