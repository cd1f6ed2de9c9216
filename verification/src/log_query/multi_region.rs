//! One client per region, and the routing of a query to the client of the
//! region it names.

use crate::auth::manager::{accepted, AuthManager, AuthReply};
use crate::auth::multi_region::{
    first_mentions, first_unmanageable, manageable, manager_for, setup_failure, setup_refusal,
    slice_texts,
};
use crate::config::env::EnvManager;
use crate::config::filter::{all_compile, chosen_patterns, refuses};
use crate::config::region::{get_region_config, Region, RegionConfig};
use crate::error::LogidError;
use crate::log_query::client::{
    begins, details_of, resumes, LogQueryClient, QueryCall, QueryStep,
};
use crate::log_query::types::{DetailedLogResult, LogMeta, LogQueryResponse};
use crate::registry::Registry;
use crate::text::{join3, texts};
use vstd::prelude::*;

verus! {

/// The clients of several regions, each under the name it was asked for.
pub struct MultiRegionLogQuery {
    clients: Registry<LogQueryClient>,
}

/// The patterns that a redaction configuration gives, as an optional text.
pub open spec fn config_text(filter_config: Option<&str>) -> Option<Seq<char>> {
    match filter_config {
        Some(text) => Some(text@),
        None => None,
    }
}

/// Whether the redaction patterns that a configuration gives can be used.
pub open spec fn filters_usable(filter_config: Option<Seq<char>>) -> bool {
    chosen_patterns(filter_config) matches Some(patterns) && all_compile(patterns)
}

/// Whether a client is the one that is set up for a name: a fresh client of
/// the region that the name is a key of, with that region's registry entry
/// and the patterns that the configuration gives.
pub open spec fn client_for(
    env: Map<Seq<char>, Seq<char>>,
    filter_config: Option<Seq<char>>,
    name: Seq<char>,
    client: LogQueryClient,
) -> bool {
    &&& manager_for(env, name, client.auth())
    &&& client.auth().cache() is None
    &&& client.config() == RegionConfig::registered(client.auth().spec_region())
    &&& chosen_patterns(filter_config) == Some(client.patterns())
}

/// The report on a name that no client is held for.
pub open spec fn unrouted_report(name: Seq<char>) -> Seq<char> {
    "未找到 "@ + name + " 区域的查询客户端"@
}

impl MultiRegionLogQuery {
    /// The names under which clients are held, in the order in which they
    /// were asked for.
    pub closed spec fn names(&self) -> Seq<Seq<char>> {
        self.clients.names()
    }

    /// The clients, each at the place of its name.
    pub closed spec fn clients(&self) -> Seq<LogQueryClient> {
        self.clients.values()
    }

    /// No name is held twice, and each name has its client.
    pub closed spec fn wf(&self) -> bool {
        self.clients.wf() && self.clients.values().len() == self.clients.names().len()
    }

    /// Sets a client up for each name, all or nothing. The first name that
    /// is no region's key, or whose region has no credential, fails the
    /// whole with its own error, an unsupported region or missing
    /// credentials; a redaction configuration that cannot be used fails it
    /// with the error of the configuration. A name that is given twice is
    /// set up once.
    pub fn new(regions: &[&str], env: &EnvManager, filter_config: Option<&str>) -> (made: Result<
        Self,
        LogidError,
    >)
        ensures
            made is Ok <==> (forall|i: int|
                0 <= i < regions@.len() ==> manageable(env@, #[trigger] regions@[i]@)) && (
            regions@.len() > 0 ==> filters_usable(config_text(filter_config))),
            made matches Ok(all) ==> {
                &&& all.wf()
                &&& all.names() == first_mentions(slice_texts(regions@))
                &&& all.clients().len() == all.names().len()
                &&& forall|k: int|
                    0 <= k < all.names().len() ==> client_for(
                        env@,
                        config_text(filter_config),
                        all.names()[k],
                        #[trigger] all.clients()[k],
                    )
            },
            made matches Err(error) ==> if forall|i: int|
                0 <= i < regions@.len() ==> manageable(env@, #[trigger] regions@[i]@) {
                match chosen_patterns(config_text(filter_config)) {
                    None => error is JsonParseError,
                    Some(patterns) => refuses(patterns, error),
                }
            } else {
                setup_failure(env@, slice_texts(regions@), error)
            },
    {
        let mut i: usize = 0;
        while i < regions.len()
            invariant
                i <= regions.len(),
                forall|j: int| 0 <= j < i ==> manageable(env@, #[trigger] regions@[j]@),
            decreases regions.len() - i,
        {
            let name = regions[i];
            match AuthManager::new(name, env) {
                Ok(_) => {},
                Err(error) => {
                    proof {
                        let names = slice_texts(regions@);
                        assert(names[i as int] == name@);
                        assert(!manageable(env@, regions@[i as int]@));
                        assert forall|j: int| 0 <= j < i implies manageable(
                            env@,
                            #[trigger] names[j],
                        ) by {
                            assert(manageable(env@, regions@[j]@));
                        }
                        assert(first_unmanageable(env@, names, i as int));
                        assert(setup_refusal(env@, names[i as int], error));
                    }
                    return Err(error);
                },
            }
            i += 1;
        }
        let mut clients: Registry<LogQueryClient> = Registry::new();
        let mut k: usize = 0;
        assert(slice_texts(regions@).take(0) =~= Seq::<Seq<char>>::empty());
        while k < regions.len()
            invariant
                k <= regions.len(),
                forall|j: int| 0 <= j < regions@.len() ==> manageable(env@, #[trigger] regions@[j]@),
                clients.wf(),
                clients.values().len() == clients.names().len(),
                clients.names() == first_mentions(slice_texts(regions@).take(k as int)),
                k > 0 ==> filters_usable(config_text(filter_config)),
                forall|j: int|
                    0 <= j < clients.names().len() ==> client_for(
                        env@,
                        config_text(filter_config),
                        clients.names()[j],
                        #[trigger] clients.values()[j],
                    ),
            decreases regions.len() - k,
        {
            let name = regions[k];
            proof {
                let seen = slice_texts(regions@).take(k + 1);
                assert(seen.drop_last() =~= slice_texts(regions@).take(k as int));
                assert(seen.last() == name@);
                assert(manageable(env@, regions@[k as int]@));
            }
            let auth_manager = match AuthManager::new(name, env) {
                Ok(auth_manager) => auth_manager,
                Err(error) => {
                    return Err(error);
                },
            };
            let region_config = match get_region_config(name) {
                Some(region_config) => region_config,
                None => {
                    return Err(LogidError::UnsupportedRegion(name.to_owned()));
                },
            };
            let client = match LogQueryClient::new(auth_manager, region_config, filter_config) {
                Ok(client) => client,
                Err(error) => {
                    return Err(error);
                },
            };
            if clients.position(name).is_none() {
                let ghost before = clients.values();
                clients.add(name.to_owned(), client);
                assert forall|j: int| 0 <= j < clients.names().len() implies client_for(
                    env@,
                    config_text(filter_config),
                    clients.names()[j],
                    #[trigger] clients.values()[j],
                ) by {
                    if j < before.len() {
                        assert(clients.values()[j] == before[j]);
                    }
                }
            }
            k += 1;
        }
        assert(slice_texts(regions@).take(regions@.len() as int) =~= slice_texts(regions@));
        Ok(MultiRegionLogQuery { clients })
    }

    /// The client that is held under a name.
    pub fn get_client(&self, region: &str) -> (client: Option<&LogQueryClient>)
        requires
            self.wf(),
        ensures
            match client {
                Some(found) => exists|k: int|
                    0 <= k < self.names().len() && self.names()[k] == region@ && *found
                        == #[trigger] self.clients()[k],
                None => !self.names().contains(region@),
            },
    {
        match self.clients.position(region) {
            Some(at) => {
                let found = self.clients.value_at(at);
                assert(self.clients()[at as int] == *found);
                Some(found)
            },
            None => None,
        }
    }

    /// Begins a query in a region at the second `now`; see
    /// [`LogQueryClient::query_logs`]. A name that no client is held for is
    /// refused as an unsupported region, before any request is made.
    pub fn query_logs_region(&self, region: &str, logid: &str, psm_list: &[String], now: u64) -> (step:
        QueryStep)
        requires
            self.wf(),
        ensures
            !self.names().contains(region@) ==> (step matches QueryStep::Refused(
                LogidError::UnsupportedRegion(report),
            ) && report@ == unrouted_report(region@)),
            self.names().contains(region@) ==> exists|k: int|
                0 <= k < self.names().len() && self.names()[k] == region@ && begins(
                    #[trigger] self.clients()[k],
                    logid@,
                    texts(psm_list@),
                    now as int,
                    step,
                ),
    {
        match self.get_client(region) {
            Some(client) => client.query_logs(logid, psm_list, now),
            None => QueryStep::Refused(
                LogidError::UnsupportedRegion(join3("未找到 ", region, " 区域的查询客户端")),
            ),
        }
    }

    /// Takes what the request for the token of a region came to; see
    /// [`LogQueryClient::accept_auth_reply`]. The clients of the other
    /// regions stay as they are. A name that no client is held for is an
    /// unsupported region.
    pub fn accept_auth_reply(
        &mut self,
        region: &str,
        exchange: Result<AuthReply, LogidError>,
        logid: &str,
        psm_list: &[String],
        now: u64,
    ) -> (call: Result<QueryCall, LogidError>)
        requires
            old(self).wf(),
        ensures
            final(self).wf(),
            final(self).names() == old(self).names(),
            final(self).clients().len() == old(self).clients().len(),
            !old(self).names().contains(region@) ==> final(self).clients() == old(self).clients(),
            !old(self).names().contains(region@) ==> (call matches Err(
                LogidError::UnsupportedRegion(report),
            ) && report@ == unrouted_report(region@)),
            old(self).names().contains(region@) ==> exists|k: int|
                0 <= k < old(self).names().len() && old(self).names()[k] == region@ && resumes(
                    #[trigger] old(self).clients()[k],
                    exchange,
                    logid@,
                    texts(psm_list@),
                    now as int,
                    final(self).clients()[k],
                    call,
                ),
            forall|k: int|
                0 <= k < old(self).names().len() && old(self).names()[k] != region@
                    ==> #[trigger] final(self).clients()[k] == old(self).clients()[k],
    {
        match self.clients.position(region) {
            Some(at) => {
                let client = self.clients.value_at_mut(at);
                let call = client.accept_auth_reply(exchange, logid, psm_list, now);
                call
            },
            None => Err(
                LogidError::UnsupportedRegion(join3("未找到 ", region, " 区域的查询客户端")),
            ),
        }
    }

    /// Makes the result for the caller from the normalised answer of a
    /// region and its decoded top-level `meta`; see
    /// [`LogQueryClient::get_log_details`]. A name that no client
    /// is held for is an unsupported region.
    pub fn get_log_details_region(
        &self,
        region: &str,
        logid: &str,
        response: LogQueryResponse,
        top_meta: Option<Result<LogMeta, String>>,
    ) -> (details: Result<DetailedLogResult, LogidError>)
        requires
            self.wf(),
        ensures
            !self.names().contains(region@) ==> (details matches Err(
                LogidError::UnsupportedRegion(report),
            ) && report@ == unrouted_report(region@)),
            self.names().contains(region@) ==> exists|k: int|
                0 <= k < self.names().len() && self.names()[k] == region@ && details_of(
                    #[trigger] self.clients()[k],
                    logid@,
                    response,
                    top_meta,
                    details,
                ),
    {
        match self.get_client(region) {
            Some(client) => client.get_log_details(logid, response, top_meta),
            None => Err(
                LogidError::UnsupportedRegion(join3("未找到 ", region, " 区域的查询客户端")),
            ),
        }
    }

    /// The names under which clients are held.
    pub fn managed_regions(&self) -> (names: Vec<String>)
        ensures
            texts(names@) == self.names(),
    {
        self.clients.names_list()
    }

    /// Begins a query in all regions: the outcomes are collected region by
    /// region, see [`RegionOutcomes`].
    pub fn query_all(&self) -> (outcomes: RegionOutcomes)
        ensures
            outcomes.regions() == self.names(),
            outcomes.recorded() == Seq::<Result<DetailedLogResult, LogidError>>::empty(),
    {
        RegionOutcomes { regions: self.clients.names_list(), outcomes: Vec::new() }
    }
}

/// The outcomes of a query that goes to several regions. The regions are
/// queried one by one; the outcome of each is recorded, a failure like a
/// success, and none ends the round.
pub struct RegionOutcomes {
    regions: Vec<String>,
    outcomes: Vec<Result<DetailedLogResult, LogidError>>,
}

/// How many of a list of outcomes are failures.
pub open spec fn failures<T, E>(outcomes: Seq<Result<T, E>>) -> nat
    decreases outcomes.len(),
{
    if outcomes.len() == 0 {
        0
    } else {
        failures(outcomes.drop_last()) + if outcomes.last() is Err {
            1nat
        } else {
            0nat
        }
    }
}

/// How many of a list of outcomes are successes.
pub open spec fn successes<T, E>(outcomes: Seq<Result<T, E>>) -> nat
    decreases outcomes.len(),
{
    if outcomes.len() == 0 {
        0
    } else {
        successes(outcomes.drop_last()) + if outcomes.last() is Ok {
            1nat
        } else {
            0nat
        }
    }
}

/// The outcomes of a list of entries, in order.
pub open spec fn outcomes_of(entries: Seq<(String, Result<DetailedLogResult, LogidError>)>) -> Seq<
    Result<DetailedLogResult, LogidError>,
> {
    Seq::new(entries.len(), |i: int| entries[i].1)
}

/// The regions of a list of entries, in order.
pub open spec fn regions_of(entries: Seq<(String, Result<DetailedLogResult, LogidError>)>) -> Seq<
    Seq<char>,
> {
    Seq::new(entries.len(), |i: int| entries[i].0@)
}

impl RegionOutcomes {
    /// The regions of the round, in the order in which they are queried.
    pub closed spec fn regions(&self) -> Seq<Seq<char>> {
        texts(self.regions@)
    }

    /// The outcomes that were recorded so far, in the order of the regions.
    pub closed spec fn recorded(&self) -> Seq<Result<DetailedLogResult, LogidError>> {
        self.outcomes@
    }

    /// The region that is to be queried next; `None` once every region has
    /// its outcome.
    pub fn next_region(&self) -> (region: Option<&str>)
        ensures
            match region {
                Some(name) => self.recorded().len() < self.regions().len() && name@
                    == self.regions()[self.recorded().len() as int],
                None => self.recorded().len() >= self.regions().len(),
            },
    {
        if self.outcomes.len() < self.regions.len() {
            Some(self.regions[self.outcomes.len()].as_str())
        } else {
            None
        }
    }

    /// Records the outcome of the region that was to be queried next. A
    /// failure is recorded like a success; the round goes on with the next
    /// region.
    pub fn record(&mut self, outcome: Result<DetailedLogResult, LogidError>)
        ensures
            final(self).regions() == old(self).regions(),
            final(self).recorded() == old(self).recorded().push(outcome),
    {
        self.outcomes.push(outcome);
    }

    /// Whether every region has its outcome.
    pub fn is_complete(&self) -> (complete: bool)
        ensures
            complete == (self.recorded().len() >= self.regions().len()),
    {
        self.outcomes.len() >= self.regions.len()
    }

    /// The outcomes by region, once every region has its outcome: one entry
    /// for each region, with the outcome that was recorded for it. `None`
    /// where the round is not over, or more outcomes were recorded than
    /// there are regions.
    pub fn into_results(self) -> (results: Option<
        Vec<(String, Result<DetailedLogResult, LogidError>)>,
    >)
        ensures
            results is Some <==> self.recorded().len() == self.regions().len(),
            results matches Some(entries) ==> {
                &&& entries@.len() == self.regions().len()
                &&& regions_of(entries@) == self.regions()
                &&& outcomes_of(entries@) == self.recorded()
                &&& failures(outcomes_of(entries@)) + successes(outcomes_of(entries@))
                    == self.regions().len()
            },
    {
        if self.outcomes.len() != self.regions.len() {
            return None;
        }
        let ghost regions = self.regions();
        let ghost recorded = self.recorded();
        let mut names = self.regions;
        let mut outcomes = self.outcomes;
        let mut entries: Vec<(String, Result<DetailedLogResult, LogidError>)> = Vec::new();
        let mut reversed: Vec<(String, Result<DetailedLogResult, LogidError>)> = Vec::new();
        while names.len() > 0
            invariant
                names@.len() == outcomes@.len(),
                names@.len() + reversed@.len() == regions.len(),
                regions.len() == recorded.len(),
                texts(names@) == regions.take(names@.len() as int),
                outcomes@ == recorded.take(names@.len() as int),
                forall|j: int|
                    0 <= j < reversed@.len() ==> (#[trigger] reversed@[j]).0@ == regions[regions.len()
                        - 1 - j] && reversed@[j].1 == recorded[regions.len() - 1 - j],
            decreases names@.len(),
        {
            let ghost count = names@.len();
            let name = names.pop().unwrap();
            let outcome = outcomes.pop().unwrap();
            proof {
                assert(name@ == regions.take(count as int)[count - 1]);
                assert(outcome == recorded.take(count as int)[count - 1]);
                assert(texts(names@) =~= regions.take(count - 1));
                assert(outcomes@ =~= recorded.take(count - 1));
            }
            reversed.push((name, outcome));
        }
        while reversed.len() > 0
            invariant
                regions.len() == recorded.len(),
                entries@.len() + reversed@.len() == regions.len(),
                forall|j: int|
                    0 <= j < reversed@.len() ==> (#[trigger] reversed@[j]).0@ == regions[regions.len()
                        - 1 - j] && reversed@[j].1 == recorded[regions.len() - 1 - j],
                forall|j: int|
                    0 <= j < entries@.len() ==> (#[trigger] entries@[j]).0@ == regions[j]
                        && entries@[j].1 == recorded[j],
            decreases reversed@.len(),
        {
            let entry = reversed.pop().unwrap();
            entries.push(entry);
        }
        proof {
            assert(regions_of(entries@) =~= regions);
            assert(outcomes_of(entries@) =~= recorded);
            lemma_every_outcome_counts(recorded);
        }
        Some(entries)
    }
}

/// Every outcome is a failure or a success, and not both.
pub proof fn lemma_every_outcome_counts<T, E>(outcomes: Seq<Result<T, E>>)
    ensures
        failures(outcomes) + successes(outcomes) == outcomes.len(),
    decreases outcomes.len(),
{
    if outcomes.len() > 0 {
        lemma_every_outcome_counts(outcomes.drop_last());
    }
}

/// A round over three regions in which exactly one query fails has one
/// failure and two successes. More generally a round has as many entries as
/// regions, whatever failed: see [`RegionOutcomes::into_results`].
pub proof fn lemma_one_failure_of_three<T, E>(outcomes: Seq<Result<T, E>>, failed: int)
    requires
        outcomes.len() == 3,
        0 <= failed < 3,
        forall|i: int| 0 <= i < 3 ==> ((#[trigger] outcomes[i]) is Err <==> i == failed),
    ensures
        failures(outcomes) == 1,
        successes(outcomes) == 2,
{
    lemma_every_outcome_counts(outcomes);
    let two = outcomes.drop_last();
    let one = two.drop_last();
    assert(one.drop_last() =~= Seq::<Result<T, E>>::empty());
    assert(failures(one.drop_last()) == 0);
    assert(one.last() == outcomes[0]);
    assert(two.last() == outcomes[1]);
    assert(outcomes.last() == outcomes[2]);
    assert(failures(one) == if failed == 0 {
        1nat
    } else {
        0nat
    });
    assert(failures(two) == failures(one) + if failed == 1 {
        1nat
    } else {
        0nat
    });
}

} // verus!
