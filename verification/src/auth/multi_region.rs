//! The token caches of several regions under one roof.

use crate::auth::manager::{
    accepted, reusable, session_cookie, AuthManager, AuthReply, TokenStep,
};
use crate::config::env::{missing_session_report, session_in, EnvManager};
use crate::config::region::Region;
use crate::error::LogidError;
use crate::registry::Registry;
use crate::text::{join3, lowercase_of, texts};
use vstd::prelude::*;

verus! {

/// The token caches of several regions, each under the name it was asked
/// for.
pub struct MultiRegionAuthManager {
    managers: Registry<AuthManager>,
}

/// The names of a list, each at the place where it occurs first.
pub open spec fn first_mentions(names: Seq<Seq<char>>) -> Seq<Seq<char>>
    decreases names.len(),
{
    if names.len() == 0 {
        Seq::empty()
    } else {
        let before = first_mentions(names.drop_last());
        if before.contains(names.last()) {
            before
        } else {
            before.push(names.last())
        }
    }
}

/// The first mentions of a list are the names of the list, each once: none
/// occurs twice, each occurs in the list, and each name of the list is
/// among them.
pub proof fn lemma_first_mentions(names: Seq<Seq<char>>)
    ensures
        crate::registry::distinct(first_mentions(names)),
        forall|name: Seq<char>|
            #![trigger first_mentions(names).contains(name)]
            #![trigger names.contains(name)]
            first_mentions(names).contains(name) <==> names.contains(name),
    decreases names.len(),
{
    if names.len() > 0 {
        let before = names.drop_last();
        let last = names.last();
        lemma_first_mentions(before);
        let firsts = first_mentions(names);
        assert forall|name: Seq<char>|
            #![trigger firsts.contains(name)]
            #![trigger names.contains(name)]
            firsts.contains(name) <==> names.contains(name) by {
            if names.contains(name) {
                let i = choose|i: int| 0 <= i < names.len() && names[i] == name;
                if i < before.len() {
                    assert(before[i] == name);
                    assert(before.contains(name));
                    let j = choose|j: int|
                        0 <= j < first_mentions(before).len() && first_mentions(before)[j] == name;
                    assert(firsts[j] == name);
                } else if !first_mentions(before).contains(last) {
                    assert(firsts[firsts.len() - 1] == name);
                } else {
                    assert(firsts == first_mentions(before));
                }
            }
            if firsts.contains(name) {
                let j = choose|j: int| 0 <= j < firsts.len() && firsts[j] == name;
                if j < first_mentions(before).len() {
                    assert(first_mentions(before)[j] == name);
                    assert(first_mentions(before).contains(name));
                    let i = choose|i: int| 0 <= i < before.len() && before[i] == name;
                    assert(names[i] == name);
                } else {
                    assert(names[names.len() - 1] == name);
                }
            }
        }
        assert forall|i: int, j: int| 0 <= i < j < firsts.len() implies firsts[i] != firsts[j] by {
            if j < first_mentions(before).len() {
                assert(first_mentions(before)[i] != first_mentions(before)[j]);
            } else {
                assert(first_mentions(before)[i] == firsts[i]);
                assert(first_mentions(before).contains(firsts[i]));
            }
        }
    }
}

/// The texts of a list of string slices, in order.
pub open spec fn slice_texts(names: Seq<&str>) -> Seq<Seq<char>> {
    Seq::new(names.len(), |i: int| names[i]@)
}

/// Whether a manager can be set up for a name: the name is the key of a
/// region, in any letter case, and the environment holds a credential for
/// that region.
pub open spec fn manageable(env: Map<Seq<char>, Seq<char>>, name: Seq<char>) -> bool {
    match Region::of_key(lowercase_of(name)) {
        Some(region) => session_in(env, region) is Some,
        None => false,
    }
}

/// Whether a manager is the one that is set up for a name: a fresh manager
/// of the region that the name is a key of.
pub open spec fn manager_for(env: Map<Seq<char>, Seq<char>>, name: Seq<char>, manager: AuthManager) -> bool {
    &&& Region::of_key(lowercase_of(name)) == Some(manager.spec_region())
    &&& session_in(env, manager.spec_region()) == Some(manager.session())
    &&& manager.endpoint() == manager.spec_region().auth_endpoint()
}

/// Whether a name is the first of a list for which no manager can be set
/// up.
pub open spec fn first_unmanageable(env: Map<Seq<char>, Seq<char>>, names: Seq<Seq<char>>, at: int) -> bool {
    &&& 0 <= at < names.len()
    &&& !manageable(env, names[at])
    &&& forall|j: int| 0 <= j < at ==> manageable(env, #[trigger] names[j])
}

/// Whether an error is the one that says why no manager can be set up for a
/// name: an unsupported region for a name that is no region's key, missing
/// credentials for a region that the environment holds no credential for.
pub open spec fn setup_refusal(env: Map<Seq<char>, Seq<char>>, name: Seq<char>, error: LogidError) -> bool {
    match Region::of_key(lowercase_of(name)) {
        None => error matches LogidError::UnsupportedRegion(key) && key@ == name,
        Some(region) => {
            &&& session_in(env, region) is None
            &&& error matches LogidError::MissingCredentials(report)
            &&& report@ == missing_session_report(region)
        },
    }
}

/// Whether an error is the one that fails the setting up of a list of
/// names: the error of the first name for which no manager can be set up,
/// as it is.
pub open spec fn setup_failure(env: Map<Seq<char>, Seq<char>>, names: Seq<Seq<char>>, error: LogidError) -> bool {
    exists|at: int|
        first_unmanageable(env, names, at) && setup_refusal(env, #[trigger] names[at], error)
}

/// The report on a name that no manager is held for, which is an
/// unsupported region.
pub open spec fn unmanaged_report(name: Seq<char>) -> Seq<char> {
    "未找到 "@ + name + " 区域的认证管理器"@
}

impl MultiRegionAuthManager {
    /// The names under which managers are held, in the order in which they
    /// were asked for.
    pub closed spec fn names(&self) -> Seq<Seq<char>> {
        self.managers.names()
    }

    /// The managers, each at the place of its name.
    pub closed spec fn managers(&self) -> Seq<AuthManager> {
        self.managers.values()
    }

    /// No name is held twice, and each name has its manager.
    pub closed spec fn wf(&self) -> bool {
        self.managers.wf() && self.managers.values().len() == self.managers.names().len()
    }

    /// Sets a manager up for each name, all or nothing: the first name for
    /// which that fails fails the whole, with the error that says why, an
    /// unsupported region or missing credentials. A name that is given twice
    /// is set up once.
    pub fn new(regions: &[&str], env: &EnvManager) -> (made: Result<Self, LogidError>)
        ensures
            made is Ok <==> forall|i: int|
                0 <= i < regions@.len() ==> manageable(env@, #[trigger] regions@[i]@),
            made matches Ok(all) ==> {
                &&& all.wf()
                &&& all.names() == first_mentions(slice_texts(regions@))
                &&& all.managers().len() == all.names().len()
                &&& forall|k: int|
                    0 <= k < all.names().len() ==> manager_for(
                        env@,
                        all.names()[k],
                        #[trigger] all.managers()[k],
                    ) && all.managers()[k].cache() is None
            },
            made matches Err(error) ==> setup_failure(env@, slice_texts(regions@), error),
    {
        let mut managers: Registry<AuthManager> = Registry::new();
        let mut i: usize = 0;
        assert(slice_texts(regions@).take(0) =~= Seq::<Seq<char>>::empty());
        while i < regions.len()
            invariant
                i <= regions.len(),
                managers.wf(),
                managers.values().len() == managers.names().len(),
                managers.names() == first_mentions(slice_texts(regions@).take(i as int)),
                forall|j: int| 0 <= j < i ==> manageable(env@, #[trigger] regions@[j]@),
                forall|k: int|
                    0 <= k < managers.names().len() ==> manager_for(
                        env@,
                        managers.names()[k],
                        #[trigger] managers.values()[k],
                    ) && managers.values()[k].cache() is None,
            decreases regions.len() - i,
        {
            let name = regions[i];
            proof {
                let seen = slice_texts(regions@).take(i + 1);
                assert(seen.drop_last() =~= slice_texts(regions@).take(i as int));
                assert(seen.last() == name@);
            }
            match AuthManager::new(name, env) {
                Ok(manager) => {
                    if managers.position(name).is_none() {
                        let ghost before = managers.values();
                        managers.add(name.to_owned(), manager);
                        assert forall|k: int| 0 <= k < managers.names().len() implies manager_for(
                            env@,
                            managers.names()[k],
                            #[trigger] managers.values()[k],
                        ) && managers.values()[k].cache() is None by {
                            if k < before.len() {
                                assert(managers.values()[k] == before[k]);
                            }
                        }
                    }
                },
                Err(error) => {
                    proof {
                        let names = slice_texts(regions@);
                        assert(names[i as int] == name@);
                        assert forall|j: int| 0 <= j < i implies manageable(
                            env@,
                            #[trigger] names[j],
                        ) by {
                            assert(manageable(env@, regions@[j]@));
                        }
                        assert(first_unmanageable(env@, names, i as int));
                        assert(setup_refusal(env@, names[i as int], error));
                    }
                    return Err(error);
                },
            }
            i += 1;
        }
        assert(slice_texts(regions@).take(regions@.len() as int) =~= slice_texts(regions@));
        Ok(MultiRegionAuthManager { managers })
    }

    /// The manager that is held under a name.
    pub fn get_manager(&self, region: &str) -> (manager: Option<&AuthManager>)
        requires
            self.wf(),
        ensures
            match manager {
                Some(found) => exists|k: int|
                    0 <= k < self.names().len() && self.names()[k] == region@ && *found
                        == #[trigger] self.managers()[k],
                None => !self.names().contains(region@),
            },
    {
        match self.managers.position(region) {
            Some(at) => {
                let found = self.managers.value_at(at);
                assert(self.managers()[at as int] == *found);
                Some(found)
            },
            None => None,
        }
    }

    /// Answers a call for the token of a region at the second `now`; see
    /// [`AuthManager::get_jwt_token`]. A name that no manager is held for is
    /// an unsupported region.
    pub fn get_jwt_token(&self, region: &str, force_refresh: bool, now: u64) -> (step: Result<
        TokenStep,
        LogidError,
    >)
        requires
            self.wf(),
        ensures
            step is Ok <==> self.names().contains(region@),
            step matches Err(error) ==> error matches LogidError::UnsupportedRegion(report)
                && report@ == unmanaged_report(region@),
            step matches Ok(found) ==> exists|k: int|
                0 <= k < self.names().len() && self.names()[k] == region@ && answers(
                    #[trigger] self.managers()[k],
                    force_refresh,
                    now as int,
                    found,
                ),
    {
        match self.get_manager(region) {
            Some(manager) => Ok(manager.get_jwt_token(force_refresh, now)),
            None => Err(
                LogidError::UnsupportedRegion(join3("未找到 ", region, " 区域的认证管理器")),
            ),
        }
    }

    /// Answers a call for a fresh token of a region: the token is always
    /// fetched. A name that no manager is held for is an unsupported region.
    pub fn refresh_token(&self, region: &str, now: u64) -> (step: Result<TokenStep, LogidError>)
        requires
            self.wf(),
        ensures
            step is Ok <==> self.names().contains(region@),
            step matches Err(error) ==> error matches LogidError::UnsupportedRegion(report)
                && report@ == unmanaged_report(region@),
            step matches Ok(found) ==> found is Fetch && exists|k: int|
                0 <= k < self.names().len() && self.names()[k] == region@ && answers(
                    #[trigger] self.managers()[k],
                    true,
                    now as int,
                    found,
                ),
    {
        self.get_jwt_token(region, true, now)
    }

    /// Whether the cache of a region holds a token that may be handed out at
    /// the second `now`. A name that no manager is held for is an unsupported
    /// region.
    pub fn is_token_valid(&self, region: &str, now: u64) -> (valid: Result<bool, LogidError>)
        requires
            self.wf(),
        ensures
            valid is Ok <==> self.names().contains(region@),
            valid matches Err(error) ==> error matches LogidError::UnsupportedRegion(report)
                && report@ == unmanaged_report(region@),
            valid matches Ok(usable) ==> exists|k: int|
                0 <= k < self.names().len() && self.names()[k] == region@ && usable == reusable(
                    (#[trigger] self.managers()[k]).cache(),
                    false,
                    now as int,
                ),
    {
        match self.get_manager(region) {
            Some(manager) => Ok(manager.is_token_valid_at(now)),
            None => Err(
                LogidError::UnsupportedRegion(join3("未找到 ", region, " 区域的认证管理器")),
            ),
        }
    }

    /// Takes what the request for the token of a region came to; see
    /// [`AuthManager::accept_auth_reply`]. The caches of the other regions
    /// stay as they are. A name that no manager is held for is an unsupported
    /// region.
    pub fn accept_auth_reply(
        &mut self,
        region: &str,
        exchange: Result<AuthReply, LogidError>,
        now: u64,
    ) -> (token: Result<String, LogidError>)
        requires
            old(self).wf(),
        ensures
            final(self).wf(),
            final(self).names() == old(self).names(),
            final(self).managers().len() == old(self).managers().len(),
            !old(self).names().contains(region@) ==> final(self).managers() == old(self).managers(),
            !old(self).names().contains(region@) ==> (token matches Err(
                LogidError::UnsupportedRegion(report),
            ) && report@ == unmanaged_report(region@)),
            old(self).names().contains(region@) ==> exists|k: int|
                0 <= k < old(self).names().len() && old(self).names()[k] == region@ && accepted(
                    #[trigger] old(self).managers()[k],
                    exchange,
                    now as int,
                    final(self).managers()[k],
                    token,
                ),
            forall|k: int|
                0 <= k < old(self).names().len() && old(self).names()[k] != region@
                    ==> #[trigger] final(self).managers()[k] == old(self).managers()[k],
    {
        match self.managers.position(region) {
            Some(at) => {
                let manager = self.managers.value_at_mut(at);
                let token = manager.accept_auth_reply(exchange, now);
                token
            },
            None => Err(
                LogidError::UnsupportedRegion(join3("未找到 ", region, " 区域的认证管理器")),
            ),
        }
    }

    /// The requests that refresh the tokens of all regions, each with the
    /// name of its region, in the order of the names.
    pub fn refresh_all_tokens(&self, now: u64) -> (steps: Vec<(String, TokenStep)>)
        requires
            self.wf(),
        ensures
            steps@.len() == self.names().len(),
            forall|k: int|
                0 <= k < steps@.len() ==> (#[trigger] steps@[k]).0@ == self.names()[k]
                    && steps@[k].1 is Fetch && answers(
                    self.managers()[k],
                    true,
                    now as int,
                    steps@[k].1,
                ),
    {
        let mut steps: Vec<(String, TokenStep)> = Vec::new();
        let mut k: usize = 0;
        while k < self.managers.len()
            invariant
                self.wf(),
                k <= self.names().len(),
                steps@.len() == k,
                forall|j: int|
                    0 <= j < k ==> (#[trigger] steps@[j]).0@ == self.names()[j] && steps@[j].1 is Fetch
                        && answers(self.managers()[j], true, now as int, steps@[j].1),
            decreases self.names().len() - k,
        {
            let step = self.managers.value_at(k).refresh_token(now);
            steps.push((self.managers.name_at(k).to_owned(), step));
            k += 1;
        }
        steps
    }

    /// The names under which managers are held.
    pub fn managed_regions(&self) -> (names: Vec<String>)
        ensures
            texts(names@) == self.names(),
    {
        self.managers.names_list()
    }
}

/// Whether a step is the answer of a manager to a call for a token.
pub open spec fn answers(manager: AuthManager, force_refresh: bool, now: int, step: TokenStep) -> bool {
    match step {
        TokenStep::Reuse(token) => reusable(manager.cache(), force_refresh, now) && token
            == manager.cache()->0.token,
        TokenStep::Fetch(request) => !reusable(manager.cache(), force_refresh, now) && request.url@
            == manager.endpoint() && request.cookie@ == session_cookie(manager.session()),
    }
}

} // verus!
