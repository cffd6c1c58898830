use std::collections::hash_map::DefaultHasher;
use std::hash::Hasher;
use crate::config::SegmentId;
use crate::credential::opt_view;
use crate::segment::SegmentData;
use vstd::prelude::*;
use vstd::string::StringExecFns;
use vstd::std_specs::hash::DefaultHasherAdditionalSpecFns;
use vstd::utf8::encode_utf8;

verus! {

/// How long a cached endpoint stays usable after its last success.
pub const CACHE_TTL_SECS: u64 = 86400;

pub const NANOS_PER_SEC: u64 = 1_000_000_000;

/// A point in time, as a duration since the Unix epoch.
#[derive(Clone, Copy, Debug, PartialEq, Eq, Structural)]
pub struct Timestamp {
    pub secs: u64,
    pub nanos: u32,
}

impl Timestamp {
    pub open spec fn as_nanos(self) -> int {
        self.secs as int * NANOS_PER_SEC as int + self.nanos as int
    }
}

pub open spec fn ttl_nanos() -> int {
    CACHE_TTL_SECS as int * NANOS_PER_SEC as int
}

/// The fingerprint of a credential: std's default hasher fed with the
/// credential's UTF-8 bytes.
pub open spec fn key_fingerprint(key: Seq<char>) -> u64 {
    DefaultHasher::spec_finish(seq![encode_utf8(key)])
}

/// Fingerprints a credential, so that the cache can tell whether it was
/// written for the same one without storing the credential itself.
pub fn hash_api_key(api_key: &str) -> (r: u64)
    ensures
        r == key_fingerprint(api_key@),
{
    let mut hasher = DefaultHasher::new();
    hasher.write(api_key.as_bytes());
    let r = hasher.finish();
    assert(hasher@ =~= seq![encode_utf8(api_key@)]);
    r
}

/// The last endpoint that answered, for the credential it answered.
#[derive(Clone, Debug)]
pub struct EndpointCache {
    pub api_key_hash: u64,
    pub successful_endpoint: String,
    pub last_success_time: Timestamp,
    pub success_count: u32,
}

/// What an `EndpointCache` holds, with the endpoint as its characters.
pub struct CacheModel {
    pub api_key_hash: u64,
    pub endpoint: Seq<char>,
    pub last_success_time: Timestamp,
    pub success_count: u32,
}

impl View for EndpointCache {
    type V = CacheModel;

    open spec fn view(&self) -> CacheModel {
        CacheModel {
            api_key_hash: self.api_key_hash,
            endpoint: self.successful_endpoint@,
            last_success_time: self.last_success_time,
            success_count: self.success_count,
        }
    }
}

impl CacheModel {
    /// The record was written for `key`, and its last success lies less than
    /// the time-to-live before `now` (and not after it).
    pub open spec fn valid_for(self, key: Seq<char>, now: Timestamp) -> bool {
        &&& self.api_key_hash == key_fingerprint(key)
        &&& self.last_success_time.as_nanos() <= now.as_nanos()
        &&& now.as_nanos() - self.last_success_time.as_nanos() < ttl_nanos()
    }
}

impl EndpointCache {
    pub fn is_valid(&self, api_key: &str, now: Timestamp) -> (r: bool)
        ensures
            r == self@.valid_for(api_key@, now),
    {
        let current_hash = hash_api_key(api_key);
        let then = self.last_success_time.secs as u128 * NANOS_PER_SEC as u128
            + self.last_success_time.nanos as u128;
        let at = now.secs as u128 * NANOS_PER_SEC as u128 + now.nanos as u128;
        current_hash == self.api_key_hash && then <= at && at - then < CACHE_TTL_SECS as u128
            * NANOS_PER_SEC as u128
    }
}

/// One candidate address of the account-status service.
#[derive(Clone, Debug)]
pub struct EndpointConfig {
    pub url: String,
    pub name: String,
}

/// The answer of the account-status service.
#[derive(Clone, Debug)]
pub struct PackyCodeApiResponse {
    pub daily_spent_usd: String,
    pub opus_enabled: bool,
}

/// The detector as its proofs see it: the endpoint URLs in order, and the
/// cached record.
pub struct DetectorModel {
    pub urls: Seq<Seq<char>>,
    pub cache: Option<CacheModel>,
}

/// Where a detection stands: the endpoint to try next, or its outcome.
#[derive(Debug)]
pub enum DetectStep {
    /// Try the cached endpoint, at this index of the endpoint list.
    TryCached { index: usize },
    /// Try the endpoint at this index, in the probe over the whole list.
    Probe { index: usize },
    /// The endpoint with this URL answered.
    Found { url: String, response: PackyCodeApiResponse },
    /// Every endpoint failed.
    AllFailed,
}

pub enum StepModel {
    TryCached(int),
    Probe(int),
    Found(Seq<char>),
    AllFailed,
}

impl View for DetectStep {
    type V = StepModel;

    open spec fn view(&self) -> StepModel {
        match self {
            DetectStep::TryCached { index } => StepModel::TryCached(*index as int),
            DetectStep::Probe { index } => StepModel::Probe(*index as int),
            DetectStep::Found { url, .. } => StepModel::Found(url@),
            DetectStep::AllFailed => StepModel::AllFailed,
        }
    }
}

impl StepModel {
    /// The step asks for an endpoint to be tried.
    pub open spec fn is_attempt(self) -> bool {
        self is TryCached || self is Probe
    }

    /// The index of the endpoint that the step asks to try.
    pub open spec fn attempt_index(self) -> int {
        match self {
            StepModel::TryCached(i) => i,
            StepModel::Probe(i) => i,
            _ => -1,
        }
    }
}

/// `i` is the first index at which `urls` holds `u`.
pub open spec fn is_first_index(urls: Seq<Seq<char>>, u: Seq<char>, i: int) -> bool {
    &&& 0 <= i < urls.len()
    &&& urls[i] == u
    &&& forall|j: int| 0 <= j < i ==> urls[j] != u
}

pub open spec fn first_index_of(urls: Seq<Seq<char>>, u: Seq<char>) -> Option<int> {
    if exists|i: int| is_first_index(urls, u, i) {
        Some(choose|i: int| is_first_index(urls, u, i))
    } else {
        None
    }
}

/// The record after another success through it at `now`.
pub open spec fn bump_stats(cache: Option<CacheModel>, now: Timestamp) -> Option<CacheModel> {
    match cache {
        Some(c) => Some(
            CacheModel {
                last_success_time: now,
                success_count: if c.success_count < u32::MAX {
                    (c.success_count + 1) as u32
                } else {
                    c.success_count
                },
                ..c
            },
        ),
        None => None,
    }
}

/// A fresh record of a first success through `url`.
pub open spec fn fresh_record(key: Seq<char>, url: Seq<char>, now: Timestamp) -> CacheModel {
    CacheModel {
        api_key_hash: key_fingerprint(key),
        endpoint: url,
        last_success_time: now,
        success_count: 1,
    }
}

impl DetectorModel {
    pub open spec fn wf(self) -> bool {
        self.urls.len() > 0
    }

    pub open spec fn cache_valid(self, key: Seq<char>, now: Timestamp) -> bool {
        self.cache is Some && self.cache->0.valid_for(key, now)
    }

    /// The first step of a detection: the cached endpoint where the record is
    /// valid and names a listed endpoint, else a probe from the first one.
    pub open spec fn begin(self, key: Seq<char>, now: Timestamp) -> StepModel {
        if self.cache_valid(key, now) && first_index_of(self.urls, self.cache->0.endpoint) is Some {
            StepModel::TryCached(first_index_of(self.urls, self.cache->0.endpoint)->0)
        } else {
            StepModel::Probe(0)
        }
    }

    /// The state and step after the endpoint of `step` answered
    /// (`succeeded`) or failed.
    pub open spec fn advance(self, step: StepModel, key: Seq<char>, now: Timestamp, succeeded: bool) -> (
        DetectorModel,
        StepModel,
    ) {
        match step {
            StepModel::TryCached(k) => if succeeded {
                (
                    DetectorModel { urls: self.urls, cache: bump_stats(self.cache, now) },
                    StepModel::Found(self.urls[k]),
                )
            } else if self.urls.len() > 0 {
                (self, StepModel::Probe(0))
            } else {
                (self, StepModel::AllFailed)
            },
            StepModel::Probe(i) => if succeeded {
                (
                    DetectorModel {
                        urls: self.urls,
                        cache: Some(fresh_record(key, self.urls[i], now)),
                    },
                    StepModel::Found(self.urls[i]),
                )
            } else if i + 1 < self.urls.len() {
                (self, StepModel::Probe(i + 1))
            } else {
                (self, StepModel::AllFailed)
            },
            _ => (self, step),
        }
    }

    /// The indices of the endpoints tried, in order, from `step` on, when the
    /// attempts turn out as `outcomes` says (`true`: it answered).
    pub open spec fn attempts(self, step: StepModel, key: Seq<char>, now: Timestamp, outcomes: Seq<bool>) -> Seq<int>
        decreases outcomes.len(),
    {
        if outcomes.len() == 0 || !step.is_attempt() {
            Seq::empty()
        } else {
            let (next, next_step) = self.advance(step, key, now, outcomes[0]);
            seq![step.attempt_index()] + next.attempts(next_step, key, now, outcomes.drop_first())
        }
    }
}

/// Chooses which endpoint to try, keeps the cached record, and updates it
/// from the outcome of each attempt.
pub struct SmartEndpointDetector {
    pub endpoints: Vec<EndpointConfig>,
    pub cache: Option<EndpointCache>,
}

impl View for SmartEndpointDetector {
    type V = DetectorModel;

    open spec fn view(&self) -> DetectorModel {
        DetectorModel {
            urls: self.endpoints@.map_values(|e: EndpointConfig| e.url@),
            cache: match self.cache {
                Some(c) => Some(c@),
                None => None,
            },
        }
    }
}

impl SmartEndpointDetector {
    /// A detector over the service's endpoints, main before share, starting
    /// from a previously saved record, if any.
    pub fn new(cache: Option<EndpointCache>) -> (r: Self)
        ensures
            r@.wf(),
            r@.urls == seq![
                "https://www.packycode.com/api/backend/users/info"@,
                "https://share.packycode.com/api/backend/users/info"@,
            ],
            r.endpoints@.len() == 2,
            r.endpoints@[0].name@ == "main"@,
            r.endpoints@[1].name@ == "share"@,
            r.cache == cache,
    {
        let endpoints = vec![
            EndpointConfig {
                url: "https://www.packycode.com/api/backend/users/info".to_string(),
                name: "main".to_string(),
            },
            EndpointConfig {
                url: "https://share.packycode.com/api/backend/users/info".to_string(),
                name: "share".to_string(),
            },
        ];
        let r = SmartEndpointDetector { endpoints, cache };
        assert(r@.urls =~= seq![
            "https://www.packycode.com/api/backend/users/info"@,
            "https://share.packycode.com/api/backend/users/info"@,
        ]);
        r
    }

    pub fn is_cache_valid(&self, api_key: &str, now: Timestamp) -> (r: bool)
        ensures
            r == self@.cache_valid(api_key@, now),
    {
        match &self.cache {
            Some(c) => c.is_valid(api_key, now),
            None => false,
        }
    }

    /// The first index of an endpoint with this URL.
    fn find_endpoint(&self, url: &String) -> (r: Option<usize>)
        ensures
            match r {
                Some(i) => first_index_of(self@.urls, url@) == Some(i as int),
                None => first_index_of(self@.urls, url@) is None,
            },
    {
        let ghost urls = self@.urls;
        let mut i: usize = 0;
        while i < self.endpoints.len()
            invariant
                i <= self.endpoints@.len(),
                urls == self@.urls,
                urls.len() == self.endpoints@.len(),
                forall|j: int| 0 <= j < i ==> urls[j] != url@,
            decreases self.endpoints@.len() - i,
        {
            if self.endpoints[i].url == *url {
                assert(is_first_index(urls, url@, i as int));
                let ghost c = choose|c: int| is_first_index(urls, url@, c);
                assert(!(c < i as int)) by {
                    if c < i as int {
                        assert(urls[c] != url@);
                    }
                };
                assert(!(c > i as int)) by {
                    if c > i as int {
                        assert(urls[i as int] != url@);
                    }
                };
                return Some(i);
            }
            i = i + 1;
        }
        assert forall|c: int| !is_first_index(urls, url@, c) by {
            if is_first_index(urls, url@, c) {
                assert(urls[c] != url@);
            }
        };
        None
    }

    /// The first step of a detection for `api_key` at `now`.
    pub fn begin_detection(&self, api_key: &str, now: Timestamp) -> (r: DetectStep)
        requires
            self@.wf(),
        ensures
            r@ == self@.begin(api_key@, now),
            r@.is_attempt(),
            0 <= r@.attempt_index() < self@.urls.len(),
    {
        if self.is_cache_valid(api_key, now) {
            match &self.cache {
                Some(c) => match self.find_endpoint(&c.successful_endpoint) {
                    Some(index) => {
                        return DetectStep::TryCached { index };
                    },
                    None => {},
                },
                None => {},
            }
        }
        DetectStep::Probe { index: 0 }
    }

    /// Records a fresh success of `successful_endpoint` for `api_key`,
    /// replacing the previous record.
    pub fn update_cache(&mut self, api_key: &str, successful_endpoint: &str, now: Timestamp)
        ensures
            final(self)@ == (DetectorModel {
                urls: old(self)@.urls,
                cache: Some(fresh_record(api_key@, successful_endpoint@, now)),
            }),
            final(self).endpoints == old(self).endpoints,
    {
        let new_cache = EndpointCache {
            api_key_hash: hash_api_key(api_key),
            successful_endpoint: successful_endpoint.to_string(),
            last_success_time: now,
            success_count: 1,
        };
        self.cache = Some(new_cache);
    }

    /// Records another success of the cached endpoint at `now`.
    pub fn update_cache_stats(&mut self, now: Timestamp)
        ensures
            final(self)@ == (DetectorModel {
                urls: old(self)@.urls,
                cache: bump_stats(old(self)@.cache, now),
            }),
            final(self).endpoints == old(self).endpoints,
    {
        match &self.cache {
            Some(c) => {
                let updated = EndpointCache {
                    api_key_hash: c.api_key_hash,
                    successful_endpoint: c.successful_endpoint.clone(),
                    last_success_time: now,
                    success_count: c.success_count.saturating_add(1),
                };
                self.cache = Some(updated);
            },
            None => {},
        }
    }

    /// Takes the outcome of the attempt that `step` asked for (`Some`: the
    /// endpoint answered with this response) and returns the next step,
    /// updating the record on a success.
    pub fn advance(
        &mut self,
        step: DetectStep,
        api_key: &str,
        now: Timestamp,
        outcome: Option<PackyCodeApiResponse>,
    ) -> (r: DetectStep)
        requires
            old(self)@.wf(),
            step@.is_attempt(),
            0 <= step@.attempt_index() < old(self)@.urls.len(),
        ensures
            final(self)@.wf(),
            (final(self)@, r@) == old(self)@.advance(step@, api_key@, now, outcome is Some),
            final(self).endpoints == old(self).endpoints,
            r@.is_attempt() ==> 0 <= r@.attempt_index() < final(self)@.urls.len(),
            match r {
                DetectStep::Found { response, .. } => outcome == Some(response),
                _ => true,
            },
    {
        match step {
            DetectStep::TryCached { index } => match outcome {
                Some(response) => {
                    self.update_cache_stats(now);
                    let url = self.endpoints[index].url.clone();
                    DetectStep::Found { url, response }
                },
                None => DetectStep::Probe { index: 0 },
            },
            DetectStep::Probe { index } => match outcome {
                Some(response) => {
                    let url = self.endpoints[index].url.clone();
                    self.update_cache(api_key, url.as_str(), now);
                    DetectStep::Found { url, response }
                },
                None => if index < self.endpoints.len() - 1 {
                    DetectStep::Probe { index: index + 1 }
                } else {
                    DetectStep::AllFailed
                },
            },
            DetectStep::Found { url, response } => DetectStep::Found { url, response },
            DetectStep::AllFailed => DetectStep::AllFailed,
        }
    }
}

/// A fingerprint depends on the credential's characters alone: equal
/// credentials always fingerprint alike.
pub proof fn lemma_fingerprint_deterministic(a: Seq<char>, b: Seq<char>)
    requires
        a == b,
    ensures
        key_fingerprint(a) == key_fingerprint(b),
{
}

/// Validity only wears off: a record valid for `key` at `t` is invalid at
/// every time from `t` plus the time-to-live on, and a record written for
/// another fingerprint is never valid.
pub proof fn lemma_cache_validity_monotonic(c: CacheModel, key: Seq<char>, t: Timestamp, later: Timestamp)
    ensures
        c.valid_for(key, t) && later.as_nanos() >= t.as_nanos() + ttl_nanos() ==> !c.valid_for(
            key,
            later,
        ),
        c.api_key_hash != key_fingerprint(key) ==> !c.valid_for(key, t),
{
}

/// When the cached endpoint answers, it is the only endpoint contacted.
pub proof fn lemma_cached_success_contacts_only_cached(
    d: DetectorModel,
    key: Seq<char>,
    now: Timestamp,
    outcomes: Seq<bool>,
)
    requires
        d.wf(),
        d.begin(key, now) is TryCached,
        outcomes.len() > 0,
        outcomes[0],
    ensures
        d.attempts(d.begin(key, now), key, now, outcomes) == seq![d.begin(key, now).attempt_index()],
{
    let step = d.begin(key, now);
    let (next, next_step) = d.advance(step, key, now, true);
    assert(next.attempts(next_step, key, now, outcomes.drop_first()) == Seq::<int>::empty());
}

/// When the cached endpoint fails, the whole list is probed from its first
/// endpoint on.
pub proof fn lemma_cached_failure_probes_from_first(
    d: DetectorModel,
    key: Seq<char>,
    now: Timestamp,
    outcomes: Seq<bool>,
)
    requires
        d.wf(),
        d.begin(key, now) is TryCached,
        outcomes.len() > 0,
        !outcomes[0],
    ensures
        d.attempts(d.begin(key, now), key, now, outcomes) == seq![d.begin(key, now).attempt_index()]
            + d.attempts(StepModel::Probe(0), key, now, outcomes.drop_first()),
{
}

/// Without a usable record, detection starts by probing the first endpoint.
pub proof fn lemma_stale_cache_probes_from_first(d: DetectorModel, key: Seq<char>, now: Timestamp)
    requires
        !d.cache_valid(key, now),
    ensures
        d.begin(key, now) == StepModel::Probe(0),
{
}

/// A probe from endpoint `i` on in which every endpoint fails tries each
/// endpoint from `i` to the last, once and in list order.
pub proof fn lemma_probe_tries_all_in_order(
    d: DetectorModel,
    i: int,
    key: Seq<char>,
    now: Timestamp,
    outcomes: Seq<bool>,
)
    requires
        d.wf(),
        0 <= i < d.urls.len(),
        outcomes.len() == d.urls.len() - i,
        forall|t: int| 0 <= t < outcomes.len() ==> !outcomes[t],
    ensures
        d.attempts(StepModel::Probe(i), key, now, outcomes) == Seq::new(
            (d.urls.len() - i) as nat,
            |t: int| i + t,
        ),
    decreases d.urls.len() - i,
{
    let rest = outcomes.drop_first();
    if i + 1 < d.urls.len() {
        lemma_probe_tries_all_in_order(d, i + 1, key, now, rest);
    } else {
        assert(d.attempts(StepModel::AllFailed, key, now, rest) == Seq::<int>::empty());
    }
    assert(d.attempts(StepModel::Probe(i), key, now, outcomes) =~= Seq::new(
        (d.urls.len() - i) as nat,
        |t: int| i + t,
    ));
}

/// A probe from endpoint `i` on stops at the first endpoint that answers,
/// having tried each endpoint before it in list order.
pub proof fn lemma_probe_stops_at_first_success(
    d: DetectorModel,
    i: int,
    j: int,
    key: Seq<char>,
    now: Timestamp,
    outcomes: Seq<bool>,
)
    requires
        d.wf(),
        0 <= i <= j < d.urls.len(),
        outcomes.len() > j - i,
        forall|t: int| 0 <= t < j - i ==> !outcomes[t],
        outcomes[j - i],
    ensures
        d.attempts(StepModel::Probe(i), key, now, outcomes) == Seq::new(
            (j - i + 1) as nat,
            |t: int| i + t,
        ),
    decreases j - i,
{
    let rest = outcomes.drop_first();
    if i < j {
        lemma_probe_stops_at_first_success(d, i + 1, j, key, now, rest);
    } else {
        let (next, next_step) = d.advance(StepModel::Probe(i), key, now, true);
        assert(next.attempts(next_step, key, now, rest) == Seq::<int>::empty());
    }
    assert(d.attempts(StepModel::Probe(i), key, now, outcomes) =~= Seq::new(
        (j - i + 1) as nat,
        |t: int| i + t,
    ));
}

/// After a success the record names the endpoint that answered: through the
/// cached endpoint its statistics are refreshed in place; through a probe
/// it is replaced by a fresh record.
pub proof fn lemma_success_records_endpoint(d: DetectorModel, key: Seq<char>, now: Timestamp, step: StepModel)
    requires
        d.wf(),
        step == d.begin(key, now) || step is Probe,
        step.is_attempt(),
        0 <= step.attempt_index() < d.urls.len(),
    ensures
        ({
            let (next, next_step) = d.advance(step, key, now, true);
            let url = d.urls[step.attempt_index()];
            &&& next_step == StepModel::Found(url)
            &&& next.urls == d.urls
            &&& next.cache is Some
            &&& next.cache->0.endpoint == url
            &&& next.cache->0.last_success_time == now
            &&& step is Probe ==> next.cache == Some(fresh_record(key, url, now))
            &&& step is TryCached ==> next.cache == bump_stats(d.cache, now)
        }),
{
}

/// Two detections in immediate succession through a valid record select
/// the same endpoint: after the first succeeds at `now`, a second at any
/// time less than the time-to-live later starts from the same endpoint.
pub proof fn lemma_detection_idempotent(d: DetectorModel, key: Seq<char>, now: Timestamp, later: Timestamp)
    requires
        d.wf(),
        d.begin(key, now) is TryCached,
        now.as_nanos() <= later.as_nanos() < now.as_nanos() + ttl_nanos(),
    ensures
        d.advance(d.begin(key, now), key, now, true).0.begin(key, later) == d.begin(key, now),
{
}

/// The spend as shown: a dollar sign before the two-decimal rendering of
/// the amount where it reads as a number, else before the text as given.
pub open spec fn spend_text(spent: Seq<char>, two_decimals: Option<Seq<char>>) -> Seq<char> {
    match two_decimals {
        Some(d) => seq!['$'] + d,
        None => seq!['$'] + spent,
    }
}

pub open spec fn opus_text(enabled: bool) -> Seq<char> {
    if enabled {
        "Opus\u{2713}"@
    } else {
        "Opus\u{2717}"@
    }
}

pub open spec fn bool_text(b: bool) -> Seq<char> {
    if b {
        "true"@
    } else {
        "false"@
    }
}

/// The segment that reports the account's daily spend.
#[derive(Clone, Copy, Debug, Default)]
pub struct QuotaSegment;

impl QuotaSegment {
    pub fn new() -> (r: Self) {
        QuotaSegment
    }

    pub fn id(&self) -> (r: SegmentId)
        ensures
            r == SegmentId::Quota,
    {
        SegmentId::Quota
    }

    /// Formats the spend, given the two-decimal rendering of the amount
    /// where the text reads as a number.
    pub fn format_daily_spent(&self, spent_str: &str, two_decimals: Option<String>) -> (r: String)
        ensures
            r@ == spend_text(spent_str@, opt_view(two_decimals)),
    {
        proof {
            reveal_strlit("$");
        }
        let dollar = "$".to_string();
        match two_decimals {
            Some(d) => dollar.concat(d.as_str()),
            None => dollar.concat(spent_str),
        }
    }

    pub fn format_opus_status(&self, enabled: bool) -> (r: String)
        ensures
            r@ == opus_text(enabled),
    {
        if enabled {
            "Opus\u{2713}".to_string()
        } else {
            "Opus\u{2717}".to_string()
        }
    }

    /// The data for an answer of `endpoint_url`: the formatted spend and
    /// model status, with the raw values and the endpoint as metadata.
    pub fn online_data(
        &self,
        endpoint_url: String,
        response: PackyCodeApiResponse,
        two_decimals: Option<String>,
    ) -> (r: SegmentData)
        ensures
            r.primary@ == spend_text(response.daily_spent_usd@, opt_view(two_decimals)),
            r.secondary@ == opus_text(response.opus_enabled),
            r.metadata_view() == seq![
                ("raw_spent"@, response.daily_spent_usd@),
                ("opus_enabled"@, bool_text(response.opus_enabled)),
                ("endpoint_used"@, endpoint_url@),
            ],
    {
        let primary = self.format_daily_spent(response.daily_spent_usd.as_str(), two_decimals);
        let secondary = self.format_opus_status(response.opus_enabled);
        let flag = if response.opus_enabled {
            "true".to_string()
        } else {
            "false".to_string()
        };
        let mut metadata: Vec<(String, String)> = Vec::new();
        metadata.push(("raw_spent".to_string(), response.daily_spent_usd));
        metadata.push(("opus_enabled".to_string(), flag));
        metadata.push(("endpoint_used".to_string(), endpoint_url));
        let r = SegmentData { primary, secondary, metadata };
        assert(r.metadata_view() =~= seq![
            ("raw_spent"@, response.daily_spent_usd@),
            ("opus_enabled"@, bool_text(response.opus_enabled)),
            ("endpoint_used"@, endpoint_url@),
        ]);
        r
    }

    /// The degraded data shown when no endpoint answered.
    pub fn offline_data(&self) -> (r: SegmentData)
        ensures
            r.primary@ == "Offline"@,
            r.secondary@ == Seq::<char>::empty(),
            r.metadata_view() == seq![("status"@, "offline"@)],
    {
        proof {
            reveal_strlit("");
        }
        let mut metadata: Vec<(String, String)> = Vec::new();
        metadata.push(("status".to_string(), "offline".to_string()));
        let r = SegmentData { primary: "Offline".to_string(), secondary: "".to_string(), metadata };
        assert(r.metadata_view() =~= seq![("status"@, "offline"@)]);
        r
    }

    /// The data for a finished detection: online data for the endpoint that
    /// answered, offline data when every endpoint failed.
    pub fn data_from_detection(&self, step: DetectStep, two_decimals: Option<String>) -> (r: SegmentData)
        requires
            !step@.is_attempt(),
        ensures
            match step {
                DetectStep::Found { url, response } => {
                    &&& r.primary@ == spend_text(response.daily_spent_usd@, opt_view(two_decimals))
                    &&& r.secondary@ == opus_text(response.opus_enabled)
                    &&& r.metadata_view() == seq![
                        ("raw_spent"@, response.daily_spent_usd@),
                        ("opus_enabled"@, bool_text(response.opus_enabled)),
                        ("endpoint_used"@, url@),
                    ]
                },
                _ => {
                    &&& r.primary@ == "Offline"@
                    &&& r.secondary@ == Seq::<char>::empty()
                    &&& r.metadata_view() == seq![("status"@, "offline"@)]
                },
            },
    {
        match step {
            DetectStep::Found { url, response } => self.online_data(url, response, two_decimals),
            _ => self.offline_data(),
        }
    }
}


} // verus!
