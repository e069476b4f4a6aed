//! Delivery guarantees and the rule that gives every topic exactly one.

use vstd::prelude::*;
use crate::error::ConfigError;

verus! {

/// An MQTT delivery guarantee.
#[derive(Clone, Copy, Debug, PartialEq, Eq, Structural)]
pub enum QosLevel {
    AtMostOnce,
    AtLeastOnce,
    ExactlyOnce,
}

/// Whether `value` names a delivery guarantee.
pub open spec fn valid_level(value: i32) -> bool {
    0 <= value <= 2
}

/// The guarantee named by `value`; the weakest one stands in for values that name none.
pub open spec fn level_of(value: i32) -> QosLevel {
    if value == 1 {
        QosLevel::AtLeastOnce
    } else if value == 2 {
        QosLevel::ExactlyOnce
    } else {
        QosLevel::AtMostOnce
    }
}

impl QosLevel {
    /// The integer that names this guarantee on the wire and in configuration.
    pub open spec fn number(self) -> int {
        match self {
            QosLevel::AtMostOnce => 0,
            QosLevel::AtLeastOnce => 1,
            QosLevel::ExactlyOnce => 2,
        }
    }

    /// Validates a configured integer.
    pub fn from_level(value: i32) -> (r: Result<QosLevel, ConfigError>)
        ensures
            valid_level(value) ==> r == Ok::<QosLevel, ConfigError>(level_of(value)),
            !valid_level(value) ==> r == Err::<QosLevel, ConfigError>(
                ConfigError::InvalidQos { value },
            ),
    {
        if value == 0 {
            Ok(QosLevel::AtMostOnce)
        } else if value == 1 {
            Ok(QosLevel::AtLeastOnce)
        } else if value == 2 {
            Ok(QosLevel::ExactlyOnce)
        } else {
            Err(ConfigError::InvalidQos { value })
        }
    }

    /// The guarantee as its number, which [`QosLevel::from_level`] reads back.
    pub fn as_u8(self) -> (n: u8)
        ensures
            n == self.number(),
            valid_level(n as i32) && level_of(n as i32) == self,
    {
        match self {
            QosLevel::AtMostOnce => 0,
            QosLevel::AtLeastOnce => 1,
            QosLevel::ExactlyOnce => 2,
        }
    }
}

/// How many leading requests are examined when `topic_count` topics are configured:
/// one per topic where enough are given, else the first alone, else none.
pub open spec fn examined(topic_count: nat, qos: Seq<i32>) -> nat {
    if qos.len() >= topic_count {
        topic_count
    } else if qos.len() > 0 {
        1
    } else {
        0
    }
}

/// The first `n` requests all name a delivery guarantee.
pub open spec fn all_valid(qos: Seq<i32>, n: nat) -> bool {
    forall|i: int| 0 <= i < n ==> valid_level(#[trigger] qos[i])
}

/// `j` is the least position below `n` whose request names no delivery guarantee.
pub open spec fn is_first_invalid(qos: Seq<i32>, n: nat, j: int) -> bool {
    0 <= j < n && !valid_level(qos[j]) && all_valid(qos, j as nat)
}

/// The guarantee that topic `i` gets once the examined requests are known to be valid.
pub open spec fn assigned(topic_count: nat, qos: Seq<i32>, i: int) -> QosLevel {
    if qos.len() >= topic_count {
        level_of(qos[i])
    } else if qos.len() > 0 {
        level_of(qos[0])
    } else {
        QosLevel::AtMostOnce
    }
}

/// One guarantee per topic, or the first invalid request among those examined.
pub open spec fn normalized(topic_count: nat, qos: Seq<i32>) -> Result<Seq<QosLevel>, ConfigError> {
    let n = examined(topic_count, qos);
    if all_valid(qos, n) {
        Ok(Seq::new(topic_count, |i: int| assigned(topic_count, qos, i)))
    } else {
        let j = choose|j: int| is_first_invalid(qos, n, j);
        Err(ConfigError::InvalidQos { value: qos[j] })
    }
}

/// At most one position is the first invalid one, so finding it fixes the error reported.
pub proof fn lemma_first_invalid_fixes_error(topic_count: nat, qos: Seq<i32>, j: int)
    requires
        is_first_invalid(qos, examined(topic_count, qos), j),
    ensures
        normalized(topic_count, qos) == Err::<Seq<QosLevel>, ConfigError>(
            ConfigError::InvalidQos { value: qos[j] },
        ),
{
    let n = examined(topic_count, qos);
    let k = choose|k: int| is_first_invalid(qos, n, k);
    assert(is_first_invalid(qos, n, k));
    if k < j {
        assert(valid_level(qos[k]));
    } else if j < k {
        assert(valid_level(qos[j]));
    }
    assert(!valid_level(qos[j]));
}

/// Normalisation succeeds exactly where every examined request is valid, and then gives
/// one guarantee per topic by the padding rule: request `i` for topic `i` where there are
/// enough requests, else the first request for every topic, else the weakest guarantee.
pub proof fn normalized_follows_policy(topic_count: nat, qos: Seq<i32>)
    ensures
        normalized(topic_count, qos) is Ok <==> all_valid(qos, examined(topic_count, qos)),
        normalized(topic_count, qos) matches Ok(levels) ==> {
            &&& levels.len() == topic_count
            &&& qos.len() >= topic_count ==> forall|i: int|
                0 <= i < topic_count ==> #[trigger] levels[i] == level_of(qos[i])
            &&& 0 < qos.len() < topic_count ==> forall|i: int|
                0 <= i < topic_count ==> #[trigger] levels[i] == level_of(qos[0])
            &&& qos.len() == 0 ==> forall|i: int|
                0 <= i < topic_count ==> #[trigger] levels[i] == QosLevel::AtMostOnce
        },
{
}

/// Without topics the result is empty, whatever the requests.
pub proof fn normalized_without_topics(qos: Seq<i32>)
    ensures
        normalized(0, qos) == Ok::<Seq<QosLevel>, ConfigError>(Seq::<QosLevel>::empty()),
{
    assert(Seq::new(0, |i: int| assigned(0, qos, i)) =~= Seq::<QosLevel>::empty());
}

/// An invalid request anywhere among those examined is an error that names an invalid
/// request, never a silent default.
pub proof fn invalid_request_is_refused(topic_count: nat, qos: Seq<i32>, i: int)
    requires
        0 <= i < examined(topic_count, qos),
        !valid_level(qos[i]),
    ensures
        normalized(topic_count, qos) matches Err(ConfigError::InvalidQos { value })
            && !valid_level(value),
{
    let n = examined(topic_count, qos);
    let j = least_invalid(qos, i);
    assert(is_first_invalid(qos, n, j));
    lemma_first_invalid_fixes_error(topic_count, qos, j);
}

/// The least position up to `i` whose request is invalid, given that request `i` is.
proof fn least_invalid(qos: Seq<i32>, i: int) -> (j: int)
    requires
        0 <= i < qos.len(),
        !valid_level(qos[i]),
    ensures
        0 <= j <= i,
        !valid_level(qos[j]),
        all_valid(qos, j as nat),
    decreases i,
{
    if exists|k: int| 0 <= k < i && !valid_level(qos[k]) {
        let k = choose|k: int| 0 <= k < i && !valid_level(qos[k]);
        least_invalid(qos, k)
    } else {
        i
    }
}

/// Gives each of `topics` one delivery guarantee from the requests in `qos`.
///
/// With at least as many requests as topics, topic `i` gets request `i`. With fewer
/// but at least one, every topic gets the first request. With none, every topic is
/// delivered at most once. Only the requests that are used are validated.
pub fn normalize_qos(topics: &[String], qos: &[i32]) -> (r: Result<Vec<QosLevel>, ConfigError>)
    ensures
        match r {
            Ok(levels) => normalized(topics@.len(), qos@) == Ok::<Seq<QosLevel>, ConfigError>(
                levels@,
            ),
            Err(e) => normalized(topics@.len(), qos@) == Err::<Seq<QosLevel>, ConfigError>(e),
        },
{
    let count = topics.len();
    let given = qos.len();
    let mut levels: Vec<QosLevel> = Vec::new();
    if given < count && given > 0 {
        let shared = match QosLevel::from_level(qos[0]) {
            Ok(level) => level,
            Err(e) => {
                proof {
                    lemma_first_invalid_fixes_error(count as nat, qos@, 0);
                }
                return Err(e);
            },
        };
        let mut i: usize = 0;
        while i < count
            invariant
                i <= count,
                count == topics@.len(),
                given == qos@.len(),
                0 < given < count,
                shared == level_of(qos@[0]),
                levels@.len() == i,
                forall|k: int| 0 <= k < i ==> levels@[k] == assigned(count as nat, qos@, k),
            decreases count - i,
        {
            levels.push(shared);
            i += 1;
        }
    } else if given == 0 {
        let mut i: usize = 0;
        while i < count
            invariant
                i <= count,
                count == topics@.len(),
                qos@.len() == 0,
                levels@.len() == i,
                forall|k: int| 0 <= k < i ==> levels@[k] == assigned(count as nat, qos@, k),
            decreases count - i,
        {
            levels.push(QosLevel::AtMostOnce);
            i += 1;
        }
    } else {
        let mut i: usize = 0;
        while i < count
            invariant
                i <= count,
                count == topics@.len(),
                given == qos@.len(),
                given >= count,
                all_valid(qos@, i as nat),
                levels@.len() == i,
                forall|k: int| 0 <= k < i ==> levels@[k] == assigned(count as nat, qos@, k),
            decreases count - i,
        {
            match QosLevel::from_level(qos[i]) {
                Ok(level) => {
                    levels.push(level);
                },
                Err(e) => {
                    proof {
                        lemma_first_invalid_fixes_error(count as nat, qos@, i as int);
                    }
                    return Err(e);
                },
            }
            i += 1;
        }
    }
    assert(levels@ =~= Seq::new(count as nat, |i: int| assigned(count as nat, qos@, i)));
    Ok(levels)
}

/// One topic filter with the guarantee it is subscribed at.
#[derive(Clone, Debug, PartialEq, Eq)]
pub struct Subscription {
    pub topic: String,
    pub qos: QosLevel,
}

impl View for Subscription {
    type V = (Seq<char>, QosLevel);

    open spec fn view(&self) -> (Seq<char>, QosLevel) {
        (self.topic@, self.qos)
    }
}

/// The subscriptions in `subs` as mathematical pairs.
pub open spec fn subscription_views(subs: Seq<Subscription>) -> Seq<(Seq<char>, QosLevel)> {
    Seq::new(subs.len(), |i: int| subs[i]@)
}

/// Topic `i` paired with guarantee `i`, or with the weakest one where `levels` is too short.
pub open spec fn paired(topics: Seq<Seq<char>>, levels: Seq<QosLevel>) -> Seq<
    (Seq<char>, QosLevel),
> {
    Seq::new(
        topics.len(),
        |i: int|
            (
                topics[i],
                if i < levels.len() {
                    levels[i]
                } else {
                    QosLevel::AtMostOnce
                },
            ),
    )
}

/// The subscription requests for `topics`, in order, each with its guarantee from `levels`.
pub fn subscriptions_for(topics: &[String], levels: &[QosLevel]) -> (subs: Vec<Subscription>)
    ensures
        subscription_views(subs@) == paired(topics.deep_view(), levels@),
{
    let mut subs: Vec<Subscription> = Vec::new();
    let mut i: usize = 0;
    while i < topics.len()
        invariant
            i <= topics@.len(),
            subs@.len() == i,
            forall|k: int|
                0 <= k < i ==> (#[trigger] subs@[k])@ == paired(topics.deep_view(), levels@)[k],
        decreases topics@.len() - i,
    {
        let qos = if i < levels.len() {
            levels[i]
        } else {
            QosLevel::AtMostOnce
        };
        subs.push(Subscription { topic: topics[i].clone(), qos });
        i += 1;
    }
    assert(subscription_views(subs@) =~= paired(topics.deep_view(), levels@));
    subs
}

/// What a configuration with these topics and requests subscribes to.
pub open spec fn planned(topics: Seq<Seq<char>>, qos: Seq<i32>) -> Result<
    Seq<(Seq<char>, QosLevel)>,
    ConfigError,
> {
    match normalized(topics.len(), qos) {
        Ok(levels) => Ok(paired(topics, levels)),
        Err(e) => Err(e),
    }
}

/// Normalises the requests and pairs every topic with its guarantee.
pub fn subscription_plan(topics: &[String], qos: &[i32]) -> (r: Result<
    Vec<Subscription>,
    ConfigError,
>)
    ensures
        match r {
            Ok(subs) => planned(topics.deep_view(), qos@) == Ok::<
                Seq<(Seq<char>, QosLevel)>,
                ConfigError,
            >(subscription_views(subs@)),
            Err(e) => planned(topics.deep_view(), qos@) == Err::<
                Seq<(Seq<char>, QosLevel)>,
                ConfigError,
            >(e),
        },
{
    match normalize_qos(topics, qos) {
        Ok(levels) => Ok(subscriptions_for(topics, levels.as_slice())),
        Err(e) => Err(e),
    }
}

} // verus!
