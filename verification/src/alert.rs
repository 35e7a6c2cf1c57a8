use vstd::prelude::*;

verus! {

/// The metrics that can raise an alert.
#[derive(Debug, Clone, Copy, PartialEq, Eq, Hash, Structural)]
pub enum AlertType {
    Cpu,
    Memory,
    NetworkRx,
    NetworkTx,
}

/// The name under which alerts of type `t` are shown.
pub open spec fn alert_type_label(t: AlertType) -> Seq<char> {
    match t {
        AlertType::Cpu => "CPU"@,
        AlertType::Memory => "Memory"@,
        AlertType::NetworkRx => "Network RX"@,
        AlertType::NetworkTx => "Network TX"@,
    }
}

impl AlertType {
    /// The name under which alerts of this type are shown.
    pub fn label(&self) -> (res: String)
        ensures
            res@ == alert_type_label(*self),
    {
        match self {
            AlertType::Cpu => "CPU".to_owned(),
            AlertType::Memory => "Memory".to_owned(),
            AlertType::NetworkRx => "Network RX".to_owned(),
            AlertType::NetworkTx => "Network TX".to_owned(),
        }
    }
}

/// Nanoseconds in one second.
pub const NANOS_PER_SEC: u32 = 1_000_000_000;

/// An instant: whole seconds since the Unix epoch and the nanoseconds past them.
#[derive(Debug, Clone, Copy)]
pub struct Timestamp {
    secs: i64,
    subsec_nanos: u32,
}

impl Timestamp {
    #[verifier::type_invariant]
    spec fn nanos_in_range(self) -> bool {
        self.subsec_nanos < NANOS_PER_SEC
    }

    /// Whole seconds since the Unix epoch.
    pub closed spec fn spec_secs(self) -> i64 {
        self.secs
    }

    /// Nanoseconds past the whole second.
    pub closed spec fn spec_subsec_nanos(self) -> u32 {
        self.subsec_nanos
    }

    /// The instant `secs` seconds and `subsec_nanos` nanoseconds after the Unix
    /// epoch; `None` when `subsec_nanos` is not below one second.
    pub fn new(secs: i64, subsec_nanos: u32) -> (res: Option<Timestamp>)
        ensures
            res is Some <==> subsec_nanos < NANOS_PER_SEC,
            res matches Some(t) ==> t.spec_secs() == secs && t.spec_subsec_nanos() == subsec_nanos,
    {
        if subsec_nanos < NANOS_PER_SEC {
            Some(Timestamp { secs, subsec_nanos })
        } else {
            None
        }
    }

    /// Whole seconds since the Unix epoch.
    pub fn secs(&self) -> (res: i64)
        ensures
            res == self.spec_secs(),
    {
        self.secs
    }

    /// Nanoseconds past the whole second; always below one second.
    pub fn subsec_nanos(&self) -> (res: u32)
        ensures
            res == self.spec_subsec_nanos(),
            res < NANOS_PER_SEC,
    {
        proof {
            use_type_invariant(self);
        }
        self.subsec_nanos
    }
}

/// Nanoseconds from the Unix epoch to `t`.
pub open spec fn epoch_nanos(t: Timestamp) -> int {
    t.spec_secs() * (NANOS_PER_SEC as int) + t.spec_subsec_nanos()
}

/// The whole seconds from `earlier` to `later`, the fraction dropped
/// (rounded toward zero, so negative when `later` comes first).
pub open spec fn whole_seconds_between(later: Timestamp, earlier: Timestamp) -> int {
    let d = epoch_nanos(later) - epoch_nanos(earlier);
    if d >= 0 {
        d / (NANOS_PER_SEC as int)
    } else {
        -((-d) / (NANOS_PER_SEC as int))
    }
}

/// The whole seconds from `earlier` to `later`, rounded toward zero.
pub fn seconds_between(later: &Timestamp, earlier: &Timestamp) -> (res: i128)
    ensures
        res == whole_seconds_between(*later, *earlier),
{
    proof {
        use_type_invariant(later);
        use_type_invariant(earlier);
    }
    let secs_diff: i128 = later.secs as i128 - earlier.secs as i128;
    let nanos_diff: i128 = later.subsec_nanos as i128 - earlier.subsec_nanos as i128;
    assert(-0x1_0000_0000_0000_0000 <= secs_diff <= 0x1_0000_0000_0000_0000);
    let d: i128 = secs_diff * 1_000_000_000 + nanos_diff;
    if d >= 0 {
        d / 1_000_000_000
    } else {
        let magnitude: i128 = -d;
        -(magnitude / 1_000_000_000)
    }
}

/// Whether an alert may be raised at `now` when the last alert of its type was
/// raised at `last` (`None`: never): at least `cooldown_secs` whole seconds
/// must have passed.
pub open spec fn cooldown_passed(last: Option<Timestamp>, now: Timestamp, cooldown_secs: u64) -> bool {
    match last {
        Some(t) => whole_seconds_between(now, t) >= cooldown_secs,
        None => true,
    }
}

/// Whether an alert may be raised at `now`, the last one of its type having
/// been raised at `last`.
pub fn cooldown_elapsed(last: Option<Timestamp>, now: &Timestamp, cooldown_secs: u64) -> (res: bool)
    ensures
        res == cooldown_passed(last, *now, cooldown_secs),
{
    match last {
        Some(t) => {
            seconds_between(now, &t) >= cooldown_secs as i128
        },
        None => true,
    }
}

/// When the last alert of each type was raised.
#[derive(Debug, Clone, Copy)]
pub struct LastAlertTimes {
    pub cpu: Option<Timestamp>,
    pub memory: Option<Timestamp>,
    pub network_rx: Option<Timestamp>,
    pub network_tx: Option<Timestamp>,
}

/// When the last alert of type `t` was raised, according to `l`.
pub open spec fn last_time_of(l: LastAlertTimes, t: AlertType) -> Option<Timestamp> {
    match t {
        AlertType::Cpu => l.cpu,
        AlertType::Memory => l.memory,
        AlertType::NetworkRx => l.network_rx,
        AlertType::NetworkTx => l.network_tx,
    }
}

/// `l` with the last alert of type `t` raised at `now`.
pub open spec fn with_last_time(l: LastAlertTimes, t: AlertType, now: Timestamp) -> LastAlertTimes {
    match t {
        AlertType::Cpu => LastAlertTimes { cpu: Some(now), ..l },
        AlertType::Memory => LastAlertTimes { memory: Some(now), ..l },
        AlertType::NetworkRx => LastAlertTimes { network_rx: Some(now), ..l },
        AlertType::NetworkTx => LastAlertTimes { network_tx: Some(now), ..l },
    }
}

impl LastAlertTimes {
    /// No alert raised yet.
    pub fn new() -> (res: LastAlertTimes)
        ensures
            forall|t: AlertType| last_time_of(res, t) is None,
    {
        LastAlertTimes { cpu: None, memory: None, network_rx: None, network_tx: None }
    }

    /// When the last alert of type `t` was raised.
    pub fn get(&self, t: AlertType) -> (res: Option<Timestamp>)
        ensures
            res == last_time_of(*self, t),
    {
        match t {
            AlertType::Cpu => self.cpu,
            AlertType::Memory => self.memory,
            AlertType::NetworkRx => self.network_rx,
            AlertType::NetworkTx => self.network_tx,
        }
    }

    /// Records that an alert of type `t` was raised at `now`.
    pub fn set(&mut self, t: AlertType, now: Timestamp)
        ensures
            *final(self) == with_last_time(*old(self), t, now),
    {
        match t {
            AlertType::Cpu => self.cpu = Some(now),
            AlertType::Memory => self.memory = Some(now),
            AlertType::NetworkRx => self.network_rx = Some(now),
            AlertType::NetworkTx => self.network_tx = Some(now),
        }
    }
}

/// A raised alert: when, for which metric, and what the caller attached to it
/// (for the monitor: the message and the value that crossed the threshold).
#[derive(Debug)]
pub struct Alert<P> {
    pub timestamp: Timestamp,
    pub alert_type: AlertType,
    pub detail: P,
}

/// What an alert log holds: the alerts kept, oldest first, and when the last
/// alert of each type was raised.
pub struct AlertLogView<P> {
    pub entries: Seq<Alert<P>>,
    pub last_times: LastAlertTimes,
}

/// The log after an alert of type `t` with `detail` is offered at `now`:
/// when the cooldown of `t` has passed, the alert is appended (nothing is
/// removed: the log is the whole history of the session) and `now` becomes
/// the last time of `t`; otherwise nothing changes.
pub open spec fn after_offer<P>(
    v: AlertLogView<P>,
    t: AlertType,
    now: Timestamp,
    cooldown_secs: u64,
    detail: P,
) -> AlertLogView<P> {
    if cooldown_passed(last_time_of(v.last_times, t), now, cooldown_secs) {
        AlertLogView {
            entries: v.entries.push(Alert { timestamp: now, alert_type: t, detail }),
            last_times: with_last_time(v.last_times, t, now),
        }
    } else {
        v
    }
}

/// The log after a metric of type `t` was checked at `now`: `breach` is
/// `Some` with the alert's detail when the metric crossed its threshold.
pub open spec fn after_check<P>(
    v: AlertLogView<P>,
    t: AlertType,
    now: Timestamp,
    cooldown_secs: u64,
    breach: Option<P>,
) -> AlertLogView<P> {
    match breach {
        Some(detail) => after_offer(v, t, now, cooldown_secs, detail),
        None => v,
    }
}

/// Every alert raised so far in the session, oldest first, and when the last
/// alert of each type was raised.
pub struct AlertLog<P> {
    entries: Vec<Alert<P>>,
    last_times: LastAlertTimes,
}

impl<P> View for AlertLog<P> {
    type V = AlertLogView<P>;

    closed spec fn view(&self) -> AlertLogView<P> {
        AlertLogView { entries: self.entries@, last_times: self.last_times }
    }
}

impl<P> AlertLog<P> {
    /// An empty log: no alert raised yet.
    pub fn new() -> (res: AlertLog<P>)
        ensures
            res@.entries == Seq::<Alert<P>>::empty(),
            forall|t: AlertType| last_time_of(res@.last_times, t) is None,
            fresh_log(res@),
    {
        AlertLog { entries: Vec::new(), last_times: LastAlertTimes::new() }
    }

    /// Offers an alert of type `alert_type` at `now`; it is recorded only if
    /// at least `cooldown_secs` whole seconds have passed since the last alert
    /// of that type. Returns whether it was recorded.
    pub fn trigger(&mut self, alert_type: AlertType, now: Timestamp, cooldown_secs: u64, detail: P) -> (recorded: bool)
        ensures
            recorded == cooldown_passed(last_time_of(old(self)@.last_times, alert_type), now, cooldown_secs),
            final(self)@ == after_offer(old(self)@, alert_type, now, cooldown_secs, detail),
    {
        let should_trigger = cooldown_elapsed(self.last_times.get(alert_type), &now, cooldown_secs);
        if should_trigger {
            self.entries.push(Alert { timestamp: now, alert_type, detail });
            let mut last_times = self.last_times;
            last_times.set(alert_type, now);
            self.last_times = last_times;
        }
        should_trigger
    }

    /// Records the alerts of one round of checks at `now`, in the order CPU,
    /// memory, download, upload: each argument is `Some` with the alert's
    /// detail when that metric crossed its threshold.
    pub fn check_alerts(
        &mut self,
        now: Timestamp,
        cooldown_secs: u64,
        cpu: Option<P>,
        memory: Option<P>,
        network_rx: Option<P>,
        network_tx: Option<P>,
    )
        ensures
            final(self)@ == after_check(
                after_check(
                    after_check(
                        after_check(old(self)@, AlertType::Cpu, now, cooldown_secs, cpu),
                        AlertType::Memory,
                        now,
                        cooldown_secs,
                        memory,
                    ),
                    AlertType::NetworkRx,
                    now,
                    cooldown_secs,
                    network_rx,
                ),
                AlertType::NetworkTx,
                now,
                cooldown_secs,
                network_tx,
            ),
    {
        if let Some(detail) = cpu {
            self.trigger(AlertType::Cpu, now, cooldown_secs, detail);
        }
        if let Some(detail) = memory {
            self.trigger(AlertType::Memory, now, cooldown_secs, detail);
        }
        if let Some(detail) = network_rx {
            self.trigger(AlertType::NetworkRx, now, cooldown_secs, detail);
        }
        if let Some(detail) = network_tx {
            self.trigger(AlertType::NetworkTx, now, cooldown_secs, detail);
        }
    }

    /// The alerts kept, oldest first.
    pub fn entries(&self) -> (res: &Vec<Alert<P>>)
        ensures
            res@ == self@.entries,
    {
        &self.entries
    }

    /// The number of alerts kept.
    pub fn len(&self) -> (res: usize)
        ensures
            res == self@.entries.len(),
    {
        self.entries.len()
    }

    /// Whether no alert is kept.
    pub fn is_empty(&self) -> (res: bool)
        ensures
            res == (self@.entries.len() == 0),
    {
        self.entries.len() == 0
    }

    /// Up to `limit` alerts, newest first.
    pub fn newest_first(&self, limit: usize) -> (res: Vec<&Alert<P>>)
        ensures
            res@.len() == if limit < self@.entries.len() { limit as int } else { self@.entries.len() as int },
            forall|i: int|
                0 <= i < res@.len() ==> *#[trigger] res@[i] == self@.entries[self@.entries.len() - 1 - i],
    {
        let n = self.entries.len();
        let mut res: Vec<&Alert<P>> = Vec::new();
        let mut i: usize = 0;
        while i < n && i < limit
            invariant
                n == self@.entries.len(),
                i <= n,
                i <= limit,
                res@.len() == i,
                forall|j: int| 0 <= j < i ==> *#[trigger] res@[j] == self@.entries[n - 1 - j],
            decreases n - i,
        {
            res.push(&self.entries[n - 1 - i]);
            i = i + 1;
        }
        res
    }

    /// When the last alert of type `t` was raised (`None`: never).
    pub fn last_time(&self, t: AlertType) -> (res: Option<Timestamp>)
        ensures
            res == last_time_of(self@.last_times, t),
    {
        self.last_times.get(t)
    }
}

/// No time passes from an instant to itself, and the whole seconds from `a`
/// to `b` are those from `b` to `a` with the sign changed.
pub proof fn law_elapsed_seconds(a: Timestamp, b: Timestamp)
    ensures
        whole_seconds_between(a, a) == 0,
        whole_seconds_between(a, b) == -whole_seconds_between(b, a),
{
}

/// The first alert of a type is always recorded.
pub proof fn law_first_alert_recorded<P>(v: AlertLogView<P>, t: AlertType, now: Timestamp, cooldown_secs: u64, detail: P)
    requires
        last_time_of(v.last_times, t) is None,
    ensures
        after_offer(v, t, now, cooldown_secs, detail).entries.last() == (Alert { timestamp: now, alert_type: t, detail }),
        last_time_of(after_offer(v, t, now, cooldown_secs, detail).last_times, t) == Some(now),
{
}

/// Within the cooldown of its type an alert is dropped: the log does not
/// change at all.
pub proof fn law_cooldown_suppresses_repeats<P>(
    v: AlertLogView<P>,
    t: AlertType,
    last: Timestamp,
    now: Timestamp,
    cooldown_secs: u64,
    detail: P,
)
    requires
        last_time_of(v.last_times, t) == Some(last),
        whole_seconds_between(now, last) < cooldown_secs,
    ensures
        after_offer(v, t, now, cooldown_secs, detail) == v,
{
}

/// With a cooldown of at least one second, a second
/// alert of the same type at the same instant is dropped.
pub proof fn law_same_instant_repeat_dropped<P>(
    v: AlertLogView<P>,
    t: AlertType,
    now: Timestamp,
    cooldown_secs: u64,
    first: P,
    second: P,
)
    requires
        1 <= cooldown_secs,
    ensures
        after_offer(after_offer(v, t, now, cooldown_secs, first), t, now, cooldown_secs, second)
            == after_offer(v, t, now, cooldown_secs, first),
{
    let w = after_offer(v, t, now, cooldown_secs, first);
    if cooldown_passed(last_time_of(v.last_times, t), now, cooldown_secs) {
        assert(last_time_of(w.last_times, t) == Some(now));
        law_elapsed_seconds(now, now);
    } else {
        assert(w == v);
    }
}

/// An alert of one type leaves the cooldown of every other type untouched.
pub proof fn law_types_independent<P>(
    v: AlertLogView<P>,
    t: AlertType,
    u: AlertType,
    now: Timestamp,
    cooldown_secs: u64,
    detail: P,
)
    requires
        t != u,
    ensures
        last_time_of(after_offer(v, t, now, cooldown_secs, detail).last_times, u) == last_time_of(
            v.last_times,
            u,
        ),
{
}

/// The law of the alert log: a recorded alert is appended to the log and
/// nothing is removed, so the log is the full history of the session; a
/// dropped alert leaves the log as it was.
pub proof fn law_log_keeps_every_alert<P>(
    v: AlertLogView<P>,
    t: AlertType,
    now: Timestamp,
    cooldown_secs: u64,
    detail: P,
)
    ensures
        cooldown_passed(last_time_of(v.last_times, t), now, cooldown_secs) ==> after_offer(
            v,
            t,
            now,
            cooldown_secs,
            detail,
        ).entries == v.entries.push(Alert { timestamp: now, alert_type: t, detail }),
        !cooldown_passed(last_time_of(v.last_times, t), now, cooldown_secs) ==> after_offer(
            v,
            t,
            now,
            cooldown_secs,
            detail,
        ).entries == v.entries,
        v.entries.is_prefix_of(after_offer(v, t, now, cooldown_secs, detail).entries),
{
    let w = after_offer(v, t, now, cooldown_secs, detail);
    assert(v.entries =~= w.entries.subrange(0, v.entries.len() as int));
}

/// Whole seconds never decrease as the later instant moves later.
pub proof fn law_elapsed_seconds_monotone(a: Timestamp, b: Timestamp, earlier: Timestamp)
    requires
        epoch_nanos(a) <= epoch_nanos(b),
    ensures
        whole_seconds_between(a, earlier) <= whole_seconds_between(b, earlier),
        whole_seconds_between(earlier, b) <= whole_seconds_between(earlier, a),
{
    let n = NANOS_PER_SEC as int;
    let d1 = epoch_nanos(a) - epoch_nanos(earlier);
    let d2 = epoch_nanos(b) - epoch_nanos(earlier);
    assert(d1 <= d2);
    if d1 >= 0 {
        vstd::arithmetic::div_mod::lemma_div_is_ordered(d1, d2, n);
    } else if d2 >= 0 {
        vstd::arithmetic::div_mod::lemma_div_pos_is_pos(d2, n);
        vstd::arithmetic::div_mod::lemma_div_pos_is_pos(-d1, n);
    } else {
        vstd::arithmetic::div_mod::lemma_div_is_ordered(-d2, -d1, n);
    }
    let e1 = epoch_nanos(earlier) - epoch_nanos(b);
    let e2 = epoch_nanos(earlier) - epoch_nanos(a);
    if e1 >= 0 {
        vstd::arithmetic::div_mod::lemma_div_is_ordered(e1, e2, n);
    } else if e2 >= 0 {
        vstd::arithmetic::div_mod::lemma_div_pos_is_pos(e2, n);
        vstd::arithmetic::div_mod::lemma_div_pos_is_pos(-e1, n);
    } else {
        vstd::arithmetic::div_mod::lemma_div_is_ordered(-e2, -e1, n);
    }
}

/// Every alert kept is no later than the last time recorded for its type.
pub open spec fn times_consistent<P>(v: AlertLogView<P>) -> bool {
    forall|i: int|
        0 <= i < v.entries.len() ==> match last_time_of(v.last_times, #[trigger] v.entries[i].alert_type) {
            Some(t) => epoch_nanos(v.entries[i].timestamp) <= epoch_nanos(t),
            None => false,
        }
}

/// Every last time recorded is no later than `now`.
pub open spec fn nothing_after<P>(v: AlertLogView<P>, now: Timestamp) -> bool {
    forall|t: AlertType|
        (#[trigger] last_time_of(v.last_times, t)) matches Some(l) ==> epoch_nanos(l) <= epoch_nanos(now)
}

/// Any two alerts of the same type in the log lie at least the cooldown apart.
pub open spec fn same_type_spaced<P>(v: AlertLogView<P>, cooldown_secs: u64) -> bool {
    forall|i: int, j: int|
        0 <= i < j < v.entries.len() && (#[trigger] v.entries[i]).alert_type == (#[trigger] v.entries[j]).alert_type
            ==> whole_seconds_between(v.entries[j].timestamp, v.entries[i].timestamp)
            >= cooldown_secs
}

/// The law of the cooldown: when alerts are offered in time order under one
/// cooldown, any two alerts of the same type that the log holds lie at least
/// the cooldown apart, however many were offered.
pub proof fn law_same_type_alerts_spaced<P>(
    v: AlertLogView<P>,
    t: AlertType,
    now: Timestamp,
    cooldown_secs: u64,
    detail: P,
)
    requires
        times_consistent(v),
        nothing_after(v, now),
        same_type_spaced(v, cooldown_secs),
    ensures
        times_consistent(after_offer(v, t, now, cooldown_secs, detail)),
        nothing_after(after_offer(v, t, now, cooldown_secs, detail), now),
        same_type_spaced(after_offer(v, t, now, cooldown_secs, detail), cooldown_secs),
{
    let w = after_offer(v, t, now, cooldown_secs, detail);
    if cooldown_passed(last_time_of(v.last_times, t), now, cooldown_secs) {
        let a = Alert { timestamp: now, alert_type: t, detail };
        let pushed = v.entries.push(a);
        let lt = with_last_time(v.last_times, t, now);
        assert forall|i: int| 0 <= i < pushed.len() implies match last_time_of(lt, #[trigger] pushed[i].alert_type) {
            Some(l) => epoch_nanos(pushed[i].timestamp) <= epoch_nanos(l),
            None => false,
        } by {
            if i < v.entries.len() {
                assert(pushed[i] == v.entries[i]);
                let k = v.entries[i].alert_type;
                assert(last_time_of(v.last_times, k) is Some);
            }
        }
        assert forall|i: int, j: int|
            0 <= i < j < pushed.len() && (#[trigger] pushed[i]).alert_type == (#[trigger] pushed[j]).alert_type
            implies whole_seconds_between(pushed[j].timestamp, pushed[i].timestamp)
            >= cooldown_secs by {
            if j < v.entries.len() {
                assert(pushed[i] == v.entries[i]);
                assert(pushed[j] == v.entries[j]);
            } else {
                assert(pushed[i] == v.entries[i]);
                let l = last_time_of(v.last_times, t)->0;
                assert(epoch_nanos(v.entries[i].timestamp) <= epoch_nanos(l));
                law_elapsed_seconds_monotone(v.entries[i].timestamp, l, now);
            }
        }
        assert forall|u: AlertType| (#[trigger] last_time_of(lt, u)) is Some implies epoch_nanos(last_time_of(lt, u)->0) <= epoch_nanos(now) by {
            if u != t {
                assert(last_time_of(lt, u) == last_time_of(v.last_times, u));
            }
        }
    }
}

/// The log after the offers `offers` (type, instant, detail), in order, each
/// under the cooldown `cooldown_secs`.
pub open spec fn after_offers<P>(
    v: AlertLogView<P>,
    offers: Seq<(AlertType, Timestamp, P)>,
    cooldown_secs: u64,
) -> AlertLogView<P>
    decreases offers.len(),
{
    if offers.len() == 0 {
        v
    } else {
        let o = offers.last();
        after_offer(after_offers(v, offers.drop_last(), cooldown_secs), o.0, o.1, cooldown_secs, o.2)
    }
}

/// The offers come with instants that never go back.
pub open spec fn in_time_order<P>(offers: Seq<(AlertType, Timestamp, P)>) -> bool {
    forall|i: int, j: int|
        0 <= i < j < offers.len() ==> epoch_nanos((#[trigger] offers[i]).1) <= epoch_nanos(
            (#[trigger] offers[j]).1,
        )
}

/// A log with no alert and no alert ever raised.
pub open spec fn fresh_log<P>(v: AlertLogView<P>) -> bool {
    &&& v.entries.len() == 0
    &&& forall|t: AlertType| (#[trigger] last_time_of(v.last_times, t)) is None
}

proof fn lemma_run_spaced<P>(v: AlertLogView<P>, offers: Seq<(AlertType, Timestamp, P)>, cooldown_secs: u64)
    requires
        fresh_log(v),
        in_time_order(offers),
    ensures
        times_consistent(after_offers(v, offers, cooldown_secs)),
        same_type_spaced(after_offers(v, offers, cooldown_secs), cooldown_secs),
        offers.len() > 0 ==> nothing_after(after_offers(v, offers, cooldown_secs), offers.last().1),
        offers.len() == 0 ==> after_offers(v, offers, cooldown_secs) == v,
    decreases offers.len(),
{
    if offers.len() > 0 {
        let prev = offers.drop_last();
        let o = offers.last();
        assert forall|i: int, j: int| 0 <= i < j < prev.len() implies epoch_nanos((#[trigger] prev[i]).1)
            <= epoch_nanos((#[trigger] prev[j]).1) by {
            assert(prev[i] == offers[i]);
            assert(prev[j] == offers[j]);
        }
        lemma_run_spaced(v, prev, cooldown_secs);
        let r = after_offers(v, prev, cooldown_secs);
        if prev.len() > 0 {
            let p = prev.last();
            assert(p == offers[offers.len() - 2]);
            assert(epoch_nanos(p.1) <= epoch_nanos(o.1));
            assert forall|t: AlertType| (#[trigger] last_time_of(r.last_times, t)) is Some implies epoch_nanos(
                last_time_of(r.last_times, t)->0,
            ) <= epoch_nanos(o.1) by {
                assert(nothing_after(r, p.1));
            }
        } else {
            assert(r == v);
        }
        law_same_type_alerts_spaced(r, o.0, o.1, cooldown_secs, o.2);
    }
}

/// The law of the cooldown over a whole session: starting from an empty log,
/// when alerts are offered with instants that never go back and one cooldown,
/// any two alerts of the same type in the log lie at least the cooldown apart
/// (in whole seconds, rounded toward zero).
pub proof fn law_session_alerts_spaced<P>(
    v: AlertLogView<P>,
    offers: Seq<(AlertType, Timestamp, P)>,
    cooldown_secs: u64,
)
    requires
        fresh_log(v),
        in_time_order(offers),
    ensures
        same_type_spaced(after_offers(v, offers, cooldown_secs), cooldown_secs),
{
    lemma_run_spaced(v, offers, cooldown_secs);
}

/// What the whole seconds between two instants are, in terms of the
/// nanoseconds `d` from `earlier` to `later`: for `d >= 0` the largest count
/// of whole seconds not exceeding `d`, for `d < 0` the negation of that count
/// for `-d`. Each second counted is a full second that passed.
pub proof fn law_whole_seconds_count_full_seconds(later: Timestamp, earlier: Timestamp)
    ensures
        ({
            let d = epoch_nanos(later) - epoch_nanos(earlier);
            let w = whole_seconds_between(later, earlier);
            &&& d >= 0 ==> w >= 0 && w * 1_000_000_000 <= d < w * 1_000_000_000 + 1_000_000_000
            &&& d < 0 ==> w <= 0 && w * 1_000_000_000 - 1_000_000_000 < d <= w * 1_000_000_000
        }),
{
    let n: int = 1_000_000_000;
    let d = epoch_nanos(later) - epoch_nanos(earlier);
    if d >= 0 {
        vstd::arithmetic::div_mod::lemma_fundamental_div_mod(d, n);
        vstd::arithmetic::div_mod::lemma_mod_pos_bound(d, n);
        vstd::arithmetic::div_mod::lemma_div_pos_is_pos(d, n);
    } else {
        vstd::arithmetic::div_mod::lemma_fundamental_div_mod(-d, n);
        vstd::arithmetic::div_mod::lemma_mod_pos_bound(-d, n);
        vstd::arithmetic::div_mod::lemma_div_pos_is_pos(-d, n);
    }
}

/// The rule of the cooldown, both ways: an offered alert is recorded (appended
/// to the log, its instant becoming the last time of its type) exactly when
/// no alert of its type was raised before, or at least `cooldown_secs` whole
/// seconds have passed since the last one, however long ago that was;
/// otherwise the log is left as it was.
pub proof fn law_recorded_exactly_when_cooldown_over<P>(
    v: AlertLogView<P>,
    t: AlertType,
    now: Timestamp,
    cooldown_secs: u64,
    detail: P,
)
    ensures
        ({
            let w = after_offer(v, t, now, cooldown_secs, detail);
            let a = Alert { timestamp: now, alert_type: t, detail };
            let over = match last_time_of(v.last_times, t) {
                Some(l) => whole_seconds_between(now, l) >= cooldown_secs,
                None => true,
            };
            &&& over ==> w.entries == v.entries.push(a) && last_time_of(w.last_times, t) == Some(now)
            &&& !over ==> w == v
            &&& cooldown_passed(last_time_of(v.last_times, t), now, cooldown_secs) == over
        }),
{
}

} // verus!
