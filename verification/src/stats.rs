//! The statistics registry: per-endpoint counters and timing, changed by one
//! operation that records a finished invocation.

use crate::identity::{EndpointDescriptor, EndpointDescriptorView, descriptor_views};
use crate::text::{
    first_position,
    lemma_first_position_absent,
    lemma_first_position_found,
    lemma_first_position_holds,
};
use vstd::prelude::*;

verus! {

/// Why an invocation was not recorded.
#[derive(Clone, Copy, Debug, PartialEq, Eq)]
pub enum RecordError {
    /// No endpoint of the registry has the given name.
    UnknownEndpoint,
    /// The request counter or the total processing time would no longer fit.
    Overflow,
}

/// The statistics of one endpoint as plain values.
pub struct EndpointStatsView {
    pub name: Seq<char>,
    pub subject: Seq<char>,
    pub queue_group: Seq<char>,
    pub num_requests: u64,
    pub num_errors: u64,
    pub last_error: Option<Seq<char>>,
    pub total_processing_time: u64,
    pub average_processing_time: u64,
}

/// The average processing time: the total divided by the number of requests,
/// rounded down; zero where nothing was requested yet.
pub open spec fn average(total: u64, count: u64) -> u64 {
    if count == 0 {
        0
    } else {
        (total / count) as u64
    }
}

/// What holds of the statistics of an endpoint at all times: no more errors
/// than requests, and the average agrees with the total.
pub open spec fn consistent(stats: EndpointStatsView) -> bool {
    &&& stats.num_errors <= stats.num_requests
    &&& stats.average_processing_time == average(
        stats.total_processing_time,
        stats.num_requests,
    )
}

/// The statistics of an endpoint that was never invoked.
pub open spec fn fresh_stats(endpoint: EndpointDescriptorView) -> EndpointStatsView {
    EndpointStatsView {
        name: endpoint.name,
        subject: endpoint.subject,
        queue_group: endpoint.queue_group,
        num_requests: 0,
        num_errors: 0,
        last_error: None,
        total_processing_time: 0,
        average_processing_time: 0,
    }
}

/// Whether one more invocation of the given duration still fits the
/// counters.
pub open spec fn fits(stats: EndpointStatsView, duration_nanos: u64) -> bool {
    &&& stats.num_requests < u64::MAX
    &&& stats.total_processing_time + duration_nanos <= u64::MAX
}

/// The statistics after one more invocation: one more request; on failure
/// one more error and, where a message came with it, that message as the
/// last error; the duration added to the total, and the average made anew.
pub open spec fn recorded(
    stats: EndpointStatsView,
    succeeded: bool,
    error_message: Option<Seq<char>>,
    duration_nanos: u64,
) -> EndpointStatsView {
    EndpointStatsView {
        num_requests: (stats.num_requests + 1) as u64,
        num_errors: if succeeded {
            stats.num_errors
        } else {
            (stats.num_errors + 1) as u64
        },
        last_error: if !succeeded && error_message is Some {
            error_message
        } else {
            stats.last_error
        },
        total_processing_time: (stats.total_processing_time + duration_nanos) as u64,
        average_processing_time: average(
            (stats.total_processing_time + duration_nanos) as u64,
            (stats.num_requests + 1) as u64,
        ),
        ..stats
    }
}

/// The endpoint names of a registry, in registration order.
pub open spec fn names(registry: Seq<EndpointStatsView>) -> Seq<Seq<char>> {
    registry.map_values(|stats: EndpointStatsView| stats.name)
}

/// What recording an invocation does to a registry. The invocation counts
/// for the first endpoint with the given name.
pub open spec fn try_record(
    registry: Seq<EndpointStatsView>,
    endpoint_name: Seq<char>,
    succeeded: bool,
    error_message: Option<Seq<char>>,
    duration_nanos: u64,
) -> Result<Seq<EndpointStatsView>, RecordError> {
    match first_position(names(registry), endpoint_name) {
        None => Err(RecordError::UnknownEndpoint),
        Some(i) => if fits(registry[i], duration_nanos) {
            Ok(registry.update(i, recorded(registry[i], succeeded, error_message, duration_nanos)))
        } else {
            Err(RecordError::Overflow)
        },
    }
}

#[derive(Clone, Copy)]
struct Tally {
    num_requests: u64,
    num_errors: u64,
    total_processing_time: u64,
    average_processing_time: u64,
}

/// The statistics of one endpoint. A value of this type is consistent at
/// all times.
pub struct EndpointStats {
    name: String,
    subject: String,
    queue_group: String,
    tally: Tally,
    last_error: Option<String>,
}

impl View for EndpointStats {
    type V = EndpointStatsView;

    closed spec fn view(&self) -> EndpointStatsView {
        EndpointStatsView {
            name: self.name@,
            subject: self.subject@,
            queue_group: self.queue_group@,
            num_requests: self.tally.num_requests,
            num_errors: self.tally.num_errors,
            last_error: match self.last_error {
                Some(message) => Some(message@),
                None => None,
            },
            total_processing_time: self.tally.total_processing_time,
            average_processing_time: self.tally.average_processing_time,
        }
    }
}

impl EndpointStats {
    #[verifier::type_invariant]
    spec fn counters_agree(self) -> bool {
        consistent(self@)
    }

    /// The statistics of an endpoint that was never invoked.
    pub fn new(endpoint: &EndpointDescriptor) -> (stats: EndpointStats)
        ensures
            stats@ == fresh_stats(endpoint@),
    {
        EndpointStats {
            name: endpoint.name.clone(),
            subject: endpoint.subject.clone(),
            queue_group: endpoint.queue_group.clone(),
            tally: Tally {
                num_requests: 0,
                num_errors: 0,
                total_processing_time: 0,
                average_processing_time: 0,
            },
            last_error: None,
        }
    }

    /// The endpoint's name.
    pub fn name(&self) -> (name: &String)
        ensures
            name@ == self@.name,
    {
        &self.name
    }

    /// The subject the endpoint answers on.
    pub fn subject(&self) -> (subject: &String)
        ensures
            subject@ == self@.subject,
    {
        &self.subject
    }

    /// The queue group of the endpoint's subscribers.
    pub fn queue_group(&self) -> (queue_group: &String)
        ensures
            queue_group@ == self@.queue_group,
    {
        &self.queue_group
    }

    /// How many invocations were recorded.
    pub fn num_requests(&self) -> (count: u64)
        ensures
            count == self@.num_requests,
    {
        self.tally.num_requests
    }

    /// How many of the recorded invocations failed: never more than were
    /// recorded.
    pub fn num_errors(&self) -> (count: u64)
        ensures
            count == self@.num_errors,
            count <= self@.num_requests,
    {
        proof {
            use_type_invariant(self);
        }
        self.tally.num_errors
    }

    /// The message of the last failure that came with one.
    pub fn last_error(&self) -> (message: &Option<String>)
        ensures
            message.deep_view() == self@.last_error,
    {
        &self.last_error
    }

    /// The sum of the durations of the recorded invocations, in nanoseconds.
    pub fn total_processing_time(&self) -> (nanos: u64)
        ensures
            nanos == self@.total_processing_time,
    {
        self.tally.total_processing_time
    }

    /// The total processing time divided by the number of requests, rounded
    /// down; zero while nothing was recorded.
    pub fn average_processing_time(&self) -> (nanos: u64)
        ensures
            nanos == self@.average_processing_time,
            nanos == average(self@.total_processing_time, self@.num_requests),
    {
        proof {
            use_type_invariant(self);
        }
        self.tally.average_processing_time
    }

    fn fits(&self, duration_nanos: u64) -> (fits: bool)
        ensures
            fits == self::fits(self@, duration_nanos),
    {
        self.tally.num_requests < u64::MAX && self.tally.total_processing_time <= u64::MAX
            - duration_nanos
    }

    fn record(&mut self, succeeded: bool, error_message: Option<String>, duration_nanos: u64)
        requires
            self::fits(old(self)@, duration_nanos),
        ensures
            final(self)@ == recorded(
                old(self)@,
                succeeded,
                error_message.deep_view(),
                duration_nanos,
            ),
    {
        proof {
            use_type_invariant(&*self);
        }
        let num_requests: u64 = self.tally.num_requests + 1;
        let num_errors: u64 = if succeeded {
            self.tally.num_errors
        } else {
            self.tally.num_errors + 1
        };
        let total: u64 = self.tally.total_processing_time + duration_nanos;
        self.tally = Tally {
            num_requests,
            num_errors,
            total_processing_time: total,
            average_processing_time: total / num_requests,
        };
        if !succeeded {
            if let Some(message) = error_message {
                self.last_error = Some(message);
            }
        }
    }
}

impl Clone for EndpointStats {
    fn clone(&self) -> (copy: EndpointStats)
        ensures
            copy@ == self@,
    {
        proof {
            use_type_invariant(self);
        }
        EndpointStats {
            name: self.name.clone(),
            subject: self.subject.clone(),
            queue_group: self.queue_group.clone(),
            tally: self.tally,
            last_error: match &self.last_error {
                Some(message) => Some(message.clone()),
                None => None,
            },
        }
    }
}

/// The views of a list of endpoint statistics, in the same order.
pub open spec fn stats_views(endpoints: Seq<EndpointStats>) -> Seq<EndpointStatsView> {
    endpoints.map_values(|stats: EndpointStats| stats@)
}

/// After an invocation is recorded, the average is exactly the new total
/// divided by the new number of requests, and the statistics are consistent
/// again.
pub proof fn lemma_recorded_consistent(
    stats: EndpointStatsView,
    succeeded: bool,
    error_message: Option<Seq<char>>,
    duration_nanos: u64,
)
    requires
        consistent(stats),
        fits(stats, duration_nanos),
    ensures
        recorded(stats, succeeded, error_message, duration_nanos).average_processing_time == (
        stats.total_processing_time + duration_nanos) / (stats.num_requests + 1),
        consistent(recorded(stats, succeeded, error_message, duration_nanos)),
{
}

/// Whether a registry holds one entry for each endpoint, in registration
/// order, under the endpoint's name, subject and queue group.
pub open spec fn describes(
    registry: Seq<EndpointStatsView>,
    endpoints: Seq<EndpointDescriptorView>,
) -> bool {
    &&& registry.len() == endpoints.len()
    &&& forall|i: int|
        0 <= i < registry.len() ==> {
            &&& (#[trigger] registry[i]).name == endpoints[i].name
            &&& registry[i].subject == endpoints[i].subject
            &&& registry[i].queue_group == endpoints[i].queue_group
        }
}

/// Whether every entry of a registry is consistent.
pub open spec fn all_consistent(registry: Seq<EndpointStatsView>) -> bool {
    forall|i: int| 0 <= i < registry.len() ==> consistent(#[trigger] registry[i])
}

/// The registry for the given endpoints before any invocation.
pub open spec fn fresh_registry(endpoints: Seq<EndpointDescriptorView>) -> Seq<
    EndpointStatsView,
> {
    endpoints.map_values(|endpoint: EndpointDescriptorView| fresh_stats(endpoint))
}

/// One finished invocation, as `record_invocation` takes it.
pub struct Invocation {
    pub endpoint_name: Seq<char>,
    pub succeeded: bool,
    pub error_message: Option<Seq<char>>,
    pub duration_nanos: u64,
}

/// The registry after an attempt to record `invocation`: changed as
/// [`try_record`] says, or unchanged where that reports an error.
pub open spec fn after(registry: Seq<EndpointStatsView>, invocation: Invocation) -> Seq<
    EndpointStatsView,
> {
    match try_record(
        registry,
        invocation.endpoint_name,
        invocation.succeeded,
        invocation.error_message,
        invocation.duration_nanos,
    ) {
        Ok(changed) => changed,
        Err(_) => registry,
    }
}

/// The registry after attempts to record the given invocations, one after
/// the other.
pub open spec fn after_all(registry: Seq<EndpointStatsView>, invocations: Seq<Invocation>) -> Seq<
    EndpointStatsView,
>
    decreases invocations.len(),
{
    if invocations.len() == 0 {
        registry
    } else {
        after(after_all(registry, invocations.drop_last()), invocations.last())
    }
}

/// Recording changes the counters of one entry and nothing else: the
/// registry still describes the same endpoints in the same order, and stays
/// consistent.
pub proof fn lemma_after_keeps_registry(
    registry: Seq<EndpointStatsView>,
    endpoints: Seq<EndpointDescriptorView>,
    invocation: Invocation,
)
    requires
        describes(registry, endpoints),
        all_consistent(registry),
    ensures
        describes(after(registry, invocation), endpoints),
        all_consistent(after(registry, invocation)),
{
    lemma_first_position_holds(names(registry), invocation.endpoint_name);
}

/// In whatever order invocations of whatever endpoints are recorded, the
/// registry keeps one entry for each endpoint in registration order, no
/// entry ever counts more errors than requests, and every average is the
/// total divided by the number of requests, zero where there was none.
pub proof fn lemma_registry_invariant(
    endpoints: Seq<EndpointDescriptorView>,
    invocations: Seq<Invocation>,
)
    ensures
        describes(after_all(fresh_registry(endpoints), invocations), endpoints),
        all_consistent(after_all(fresh_registry(endpoints), invocations)),
    decreases invocations.len(),
{
    if invocations.len() > 0 {
        lemma_registry_invariant(endpoints, invocations.drop_last());
        lemma_after_keeps_registry(
            after_all(fresh_registry(endpoints), invocations.drop_last()),
            endpoints,
            invocations.last(),
        );
    }
}

/// The registry: the statistics of every endpoint, in registration order.
pub struct StatsRegistry {
    endpoints: Vec<EndpointStats>,
}

impl View for StatsRegistry {
    type V = Seq<EndpointStatsView>;

    closed spec fn view(&self) -> Seq<EndpointStatsView> {
        stats_views(self.endpoints@)
    }
}

impl StatsRegistry {
    /// A registry for the given endpoints, none of them invoked yet.
    pub fn new(endpoints: &Vec<EndpointDescriptor>) -> (registry: StatsRegistry)
        ensures
            registry@ == fresh_registry(descriptor_views(endpoints@)),
    {
        let mut stats: Vec<EndpointStats> = Vec::new();
        let mut i: usize = 0;
        while i < endpoints.len()
            invariant
                i <= endpoints.len(),
                stats@.len() == i,
                forall|j: int| 0 <= j < i ==> (#[trigger] stats@[j])@ == fresh_stats(endpoints@[j]@),
            decreases endpoints.len() - i,
        {
            stats.push(EndpointStats::new(&endpoints[i]));
            i += 1;
        }
        StatsRegistry { endpoints: stats }
    }

    /// Records one finished invocation of the first endpoint named
    /// `endpoint_name`: one more request; if it failed, one more error, and
    /// `error_message`, where there is one, becomes the last error; the
    /// duration is added to the total and the average is made anew. On an
    /// error nothing changes.
    pub fn record_invocation(
        &mut self,
        endpoint_name: &str,
        succeeded: bool,
        error_message: Option<String>,
        duration_nanos: u64,
    ) -> (result: Result<(), RecordError>)
        ensures
            try_record(
                old(self)@,
                endpoint_name@,
                succeeded,
                error_message.deep_view(),
                duration_nanos,
            ) == (match result {
                Ok(_) => Ok(final(self)@),
                Err(e) => Err(e),
            }),
            result is Err ==> final(self)@ == old(self)@,
    {
        let wanted = endpoint_name.to_owned();
        let mut i: usize = 0;
        while i < self.endpoints.len()
            invariant
                *self == *old(self),
                wanted@ == endpoint_name@,
                i <= self.endpoints.len(),
                forall|j: int| 0 <= j < i ==> (#[trigger] self.endpoints[j])@.name != wanted@,
            decreases self.endpoints.len() - i,
        {
            if self.endpoints[i].name == wanted {
                proof {
                    lemma_first_position_found(names(self@), wanted@, i as int);
                }
                if !self.endpoints[i].fits(duration_nanos) {
                    return Err(RecordError::Overflow);
                }
                self.endpoints[i].record(succeeded, error_message, duration_nanos);
                assert(self@ == old(self)@.update(
                    i as int,
                    recorded(old(self)@[i as int], succeeded, error_message.deep_view(), duration_nanos),
                ));
                return Ok(());
            }
            i += 1;
        }
        proof {
            lemma_first_position_absent(names(self@), wanted@);
        }
        Err(RecordError::UnknownEndpoint)
    }

    /// A copy of the statistics of every endpoint as they are now, in
    /// registration order. Every entry is consistent.
    pub fn snapshot(&self) -> (copy: Vec<EndpointStats>)
        ensures
            stats_views(copy@) == self@,
            all_consistent(self@),
    {
        let mut copy: Vec<EndpointStats> = Vec::new();
        let mut i: usize = 0;
        while i < self.endpoints.len()
            invariant
                i <= self.endpoints.len(),
                stats_views(copy@) == self@.take(i as int),
                forall|j: int| 0 <= j < i ==> consistent(#[trigger] self@[j]),
            decreases self.endpoints.len() - i,
        {
            let stats = &self.endpoints[i];
            proof {
                use_type_invariant(stats);
            }
            copy.push(stats.clone());
            i += 1;
            assert(self@.take(i as int).drop_last() == self@.take(i - 1));
        }
        copy
    }
}

} // verus!
