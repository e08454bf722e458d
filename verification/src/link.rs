//! Acquiring a WiFi station association.
//!
//! The radio is driven elsewhere. This module holds the decisions: which scan
//! result is ours, which signal strength counts as the baseline of a session,
//! what to do after each failure, and when the link is up.
//!
//! A connector is started with [`WifiConnector::begin`], which asks for a
//! scan. Each action that it asks for is performed by the caller, who hands
//! back what came of it through [`WifiConnector::step`] and gets the next
//! action. No failure ends the attempt: the connector goes back to scanning
//! until the link is up.

use vstd::prelude::*;

verus! {

/// How long to wait before the next scan when the network was not seen, in
/// milliseconds.
pub const RESCAN_BACKOFF_MS: u32 = 1000;

/// The longest network name that the station configuration holds, in bytes.
pub const MAX_SSID_LEN: usize = 32;

/// The longest passphrase that the station configuration holds, in bytes.
pub const MAX_PSK_LEN: usize = 64;

/// The state of the link as others see it.
#[derive(Clone, Copy, Debug, PartialEq, Eq, Structural)]
pub enum LinkState {
    Disconnected,
    Scanning,
    Connecting,
    /// Associated and addressed; holds the baseline signal strength of the
    /// session in dBm.
    Associated(i8),
}

/// How the station authenticates.
#[derive(Clone, Copy, Debug, PartialEq, Eq, Structural)]
pub enum AuthMethod {
    /// An open network: no passphrase.
    Open,
    Wpa2Personal,
}

/// One network that a scan has seen.
#[derive(Clone, Debug)]
pub struct AccessPoint {
    pub ssid: String,
    pub channel: u8,
    /// Signal strength in dBm.
    pub signal_strength: i8,
}

/// What came of the action that the connector asked for last.
#[derive(Clone, Debug)]
pub enum LinkEvent {
    /// The scan has ended and has seen these networks.
    ScanCompleted(Vec<AccessPoint>),
    /// The scan could not be made.
    ScanFailed,
    /// The backoff has passed.
    BackoffElapsed,
    /// The station is associated.
    Associated,
    /// The station could not be configured or associated.
    AssociationFailed,
    /// The interface is up and has its address.
    LeaseAcquired,
    /// No address was had.
    LeaseFailed,
}

/// What the connector asks its caller to do next.
#[derive(Clone, Copy, Debug, PartialEq, Eq, Structural)]
pub enum LinkAction {
    /// Scan for networks.
    Scan,
    /// Wait for so many milliseconds.
    Backoff(u32),
    /// Configure the station for our network on this channel and associate.
    Associate { channel: u8, auth: AuthMethod },
    /// Wait until the interface is up and has its address.
    AwaitLease,
    /// The link is up; the session's baseline signal strength is handed over.
    Connected(i8),
}

/// Where the connector stands. A signal strength that a phase carries is the
/// baseline of the session: the strength at which the network was first seen.
#[derive(Clone, Copy, Debug, PartialEq, Eq, Structural)]
pub enum ConnectPhase {
    /// Not started, or the link was lost.
    Idle,
    /// A scan is under way. The baseline is carried if an earlier scan of
    /// this session has seen the network.
    Scanning(Option<i8>),
    /// The network was not seen; the backoff is running. The baseline is
    /// carried if an earlier scan of this session has seen the network.
    BackingOff(Option<i8>),
    /// The station is being associated.
    Associating(i8),
    /// The station is associated and waits for its address.
    AwaitingLease(i8),
    /// The link is up.
    Up(i8),
}

/// The connector for one network.
#[derive(Clone, Debug)]
pub struct WifiConnector {
    pub ssid: String,
    pub auth: AuthMethod,
    pub phase: ConnectPhase,
}

/// The authentication that goes with a passphrase: none for an empty one.
pub open spec fn spec_auth_for(psk: Seq<char>) -> AuthMethod {
    if psk.len() == 0 {
        AuthMethod::Open
    } else {
        AuthMethod::Wpa2Personal
    }
}

/// The first network at or after `from` that bears the name `ssid`.
pub open spec fn spec_first_match_from(aps: Seq<AccessPoint>, ssid: Seq<char>, from: int) -> Option<
    int,
>
    decreases aps.len() - from,
{
    if from < 0 || from >= aps.len() {
        None
    } else if aps[from].ssid@ == ssid {
        Some(from)
    } else {
        spec_first_match_from(aps, ssid, from + 1)
    }
}

/// The first network that bears the name `ssid`.
pub open spec fn spec_first_match(aps: Seq<AccessPoint>, ssid: Seq<char>) -> Option<int> {
    spec_first_match_from(aps, ssid, 0)
}

/// The link state that a phase shows to others.
pub open spec fn spec_link_state(phase: ConnectPhase) -> LinkState {
    match phase {
        ConnectPhase::Idle => LinkState::Disconnected,
        ConnectPhase::BackingOff(_) => LinkState::Disconnected,
        ConnectPhase::Scanning(_) => LinkState::Scanning,
        ConnectPhase::Associating(_) => LinkState::Connecting,
        ConnectPhase::AwaitingLease(_) => LinkState::Connecting,
        ConnectPhase::Up(rssi) => LinkState::Associated(rssi),
    }
}

/// The baseline signal strength that a phase carries.
pub open spec fn spec_baseline(phase: ConnectPhase) -> Option<i8> {
    match phase {
        ConnectPhase::Idle => None,
        ConnectPhase::BackingOff(latched) => latched,
        ConnectPhase::Scanning(latched) => latched,
        ConnectPhase::Associating(rssi) => Some(rssi),
        ConnectPhase::AwaitingLease(rssi) => Some(rssi),
        ConnectPhase::Up(rssi) => Some(rssi),
    }
}

/// The phase after `event`, and the action asked for. An event that the phase
/// does not wait for changes nothing and asks for nothing.
pub open spec fn spec_step(
    ssid: Seq<char>,
    auth: AuthMethod,
    phase: ConnectPhase,
    event: LinkEvent,
) -> (ConnectPhase, Option<LinkAction>) {
    match phase {
        ConnectPhase::Scanning(latched) => match event {
            LinkEvent::ScanCompleted(aps) => match spec_first_match(aps@, ssid) {
                Some(i) => {
                    let baseline = match latched {
                        Some(first_seen) => first_seen,
                        None => aps@[i].signal_strength,
                    };
                    (
                        ConnectPhase::Associating(baseline),
                        Some(LinkAction::Associate { channel: aps@[i].channel, auth }),
                    )
                },
                None => (
                    ConnectPhase::BackingOff(latched),
                    Some(LinkAction::Backoff(RESCAN_BACKOFF_MS)),
                ),
            },
            LinkEvent::ScanFailed => (ConnectPhase::Scanning(latched), Some(LinkAction::Scan)),
            _ => (phase, None),
        },
        ConnectPhase::BackingOff(latched) => match event {
            LinkEvent::BackoffElapsed => (ConnectPhase::Scanning(latched), Some(LinkAction::Scan)),
            _ => (phase, None),
        },
        ConnectPhase::Associating(baseline) => match event {
            LinkEvent::Associated => (
                ConnectPhase::AwaitingLease(baseline),
                Some(LinkAction::AwaitLease),
            ),
            LinkEvent::AssociationFailed => (
                ConnectPhase::Scanning(Some(baseline)),
                Some(LinkAction::Scan),
            ),
            _ => (phase, None),
        },
        ConnectPhase::AwaitingLease(baseline) => match event {
            LinkEvent::LeaseAcquired => (
                ConnectPhase::Up(baseline),
                Some(LinkAction::Connected(baseline)),
            ),
            LinkEvent::LeaseFailed => (
                ConnectPhase::Scanning(Some(baseline)),
                Some(LinkAction::Scan),
            ),
            _ => (phase, None),
        },
        _ => (phase, None),
    }
}

/// The phase after a run of events.
pub open spec fn spec_phase_after(
    ssid: Seq<char>,
    auth: AuthMethod,
    phase: ConnectPhase,
    events: Seq<LinkEvent>,
) -> ConnectPhase
    decreases events.len(),
{
    if events.len() == 0 {
        phase
    } else {
        spec_step(ssid, auth, spec_phase_after(ssid, auth, phase, events.drop_last()), events.last()).0
    }
}

/// The actions asked for in the course of a run of events, in order.
pub open spec fn spec_actions(
    ssid: Seq<char>,
    auth: AuthMethod,
    phase: ConnectPhase,
    events: Seq<LinkEvent>,
) -> Seq<LinkAction>
    decreases events.len(),
{
    if events.len() == 0 {
        Seq::empty()
    } else {
        let earlier = spec_actions(ssid, auth, phase, events.drop_last());
        let before = spec_phase_after(ssid, auth, phase, events.drop_last());
        match spec_step(ssid, auth, before, events.last()).1 {
            Some(action) => earlier.push(action),
            None => earlier,
        }
    }
}

/// Whether a network name and a passphrase fit the station configuration.
pub fn credentials_fit(ssid: &str, psk: &str) -> (fit: bool)
    ensures
        fit == (ssid.len() <= MAX_SSID_LEN && psk.len() <= MAX_PSK_LEN),
{
    ssid.len() <= MAX_SSID_LEN && psk.len() <= MAX_PSK_LEN
}

/// The authentication that goes with a passphrase: none for an empty one.
pub fn auth_for(psk: &str) -> (auth: AuthMethod)
    ensures
        auth == spec_auth_for(psk@),
{
    if psk.is_empty() {
        AuthMethod::Open
    } else {
        AuthMethod::Wpa2Personal
    }
}

/// Finds the first network of a scan that bears the name `ssid`.
pub fn find_access_point(aps: &Vec<AccessPoint>, ssid: &String) -> (found: Option<usize>)
    ensures
        match found {
            Some(i) => i < aps.len() && spec_first_match(aps@, ssid@) == Some(i as int),
            None => spec_first_match(aps@, ssid@) == None::<int>,
        },
{
    let mut i: usize = 0;
    while i < aps.len()
        invariant
            0 <= i <= aps.len(),
            spec_first_match(aps@, ssid@) == spec_first_match_from(aps@, ssid@, i as int),
        decreases aps.len() - i,
    {
        if aps[i].ssid == *ssid {
            return Some(i);
        }
        i += 1;
    }
    None
}

impl WifiConnector {
    /// A connector for the network `ssid`, not started. An empty passphrase
    /// means an open network. The name and the passphrase must fit the
    /// station configuration.
    pub fn new(ssid: &str, psk: &str) -> (connector: WifiConnector)
        requires
            ssid.len() <= MAX_SSID_LEN,
            psk.len() <= MAX_PSK_LEN,
        ensures
            connector.ssid@ == ssid@,
            connector.auth == spec_auth_for(psk@),
            connector.phase == ConnectPhase::Idle,
    {
        WifiConnector { ssid: ssid.to_owned(), auth: auth_for(psk), phase: ConnectPhase::Idle }
    }

    /// Starts a session: an idle connector forgets nothing, since it holds no
    /// baseline, and asks for a scan. A connector that is under way or up is
    /// left as it is and asks for nothing.
    pub fn begin(&mut self) -> (action: Option<LinkAction>)
        ensures
            final(self).ssid@ == old(self).ssid@,
            final(self).auth == old(self).auth,
            old(self).phase == ConnectPhase::Idle ==> final(self).phase == ConnectPhase::Scanning(
                None,
            ) && action == Some(LinkAction::Scan),
            old(self).phase != ConnectPhase::Idle ==> final(self).phase == old(self).phase
                && action == None::<LinkAction>,
    {
        match self.phase {
            ConnectPhase::Idle => {
                self.phase = ConnectPhase::Scanning(None);
                Some(LinkAction::Scan)
            },
            _ => None,
        }
    }

    /// Takes what came of the last action and gives the next one.
    pub fn step(&mut self, event: &LinkEvent) -> (action: Option<LinkAction>)
        ensures
            final(self).ssid@ == old(self).ssid@,
            final(self).auth == old(self).auth,
            (final(self).phase, action) == spec_step(
                old(self).ssid@,
                old(self).auth,
                old(self).phase,
                *event,
            ),
    {
        match self.phase {
            ConnectPhase::Scanning(latched) => match event {
                LinkEvent::ScanCompleted(aps) => match find_access_point(aps, &self.ssid) {
                    Some(i) => {
                        let baseline = match latched {
                            Some(first_seen) => first_seen,
                            None => aps[i].signal_strength,
                        };
                        self.phase = ConnectPhase::Associating(baseline);
                        Some(LinkAction::Associate { channel: aps[i].channel, auth: self.auth })
                    },
                    None => {
                        self.phase = ConnectPhase::BackingOff(latched);
                        Some(LinkAction::Backoff(RESCAN_BACKOFF_MS))
                    },
                },
                LinkEvent::ScanFailed => Some(LinkAction::Scan),
                _ => None,
            },
            ConnectPhase::BackingOff(latched) => match event {
                LinkEvent::BackoffElapsed => {
                    self.phase = ConnectPhase::Scanning(latched);
                    Some(LinkAction::Scan)
                },
                _ => None,
            },
            ConnectPhase::Associating(baseline) => match event {
                LinkEvent::Associated => {
                    self.phase = ConnectPhase::AwaitingLease(baseline);
                    Some(LinkAction::AwaitLease)
                },
                LinkEvent::AssociationFailed => {
                    self.phase = ConnectPhase::Scanning(Some(baseline));
                    Some(LinkAction::Scan)
                },
                _ => None,
            },
            ConnectPhase::AwaitingLease(baseline) => match event {
                LinkEvent::LeaseAcquired => {
                    self.phase = ConnectPhase::Up(baseline);
                    Some(LinkAction::Connected(baseline))
                },
                LinkEvent::LeaseFailed => {
                    self.phase = ConnectPhase::Scanning(Some(baseline));
                    Some(LinkAction::Scan)
                },
                _ => None,
            },
            _ => None,
        }
    }

    /// The link is gone: the connector is idle again and its baseline is
    /// forgotten, so that the next session latches its own.
    pub fn link_lost(&mut self)
        ensures
            final(self).ssid@ == old(self).ssid@,
            final(self).auth == old(self).auth,
            final(self).phase == ConnectPhase::Idle,
    {
        self.phase = ConnectPhase::Idle;
    }

    /// The state of the link as others see it.
    pub fn link_state(&self) -> (state: LinkState)
        ensures
            state == spec_link_state(self.phase),
    {
        match self.phase {
            ConnectPhase::Idle => LinkState::Disconnected,
            ConnectPhase::BackingOff(_) => LinkState::Disconnected,
            ConnectPhase::Scanning(_) => LinkState::Scanning,
            ConnectPhase::Associating(_) => LinkState::Connecting,
            ConnectPhase::AwaitingLease(_) => LinkState::Connecting,
            ConnectPhase::Up(rssi) => LinkState::Associated(rssi),
        }
    }

    /// Whether the link is up.
    pub fn is_connected(&self) -> (up: bool)
        ensures
            up == (spec_link_state(self.phase) is Associated),
    {
        match self.phase {
            ConnectPhase::Up(_) => true,
            _ => false,
        }
    }

    /// The baseline signal strength of the session, once the network was
    /// seen.
    pub fn baseline_rssi(&self) -> (baseline: Option<i8>)
        ensures
            baseline == spec_baseline(self.phase),
    {
        match self.phase {
            ConnectPhase::Idle => None,
            ConnectPhase::BackingOff(latched) => latched,
            ConnectPhase::Scanning(latched) => latched,
            ConnectPhase::Associating(rssi) => Some(rssi),
            ConnectPhase::AwaitingLease(rssi) => Some(rssi),
            ConnectPhase::Up(rssi) => Some(rssi),
        }
    }
}

/// Runs one connection attempt over a record of what the radio did: a fresh
/// connector is started and fed `events` in order. Gives the connector as the
/// events leave it and every action that it asked for, the opening scan
/// first. Once the link is up the remaining events change nothing. The name
/// and the passphrase must fit the station configuration.
pub fn connect_wifi(wifi_ssid: &str, wifi_psk: &str, events: &Vec<LinkEvent>) -> (outcome: (
    WifiConnector,
    Vec<LinkAction>,
))
    requires
        wifi_ssid.len() <= MAX_SSID_LEN,
        wifi_psk.len() <= MAX_PSK_LEN,
    ensures
        outcome.0.ssid@ == wifi_ssid@,
        outcome.0.auth == spec_auth_for(wifi_psk@),
        outcome.0.phase == spec_phase_after(
            wifi_ssid@,
            spec_auth_for(wifi_psk@),
            ConnectPhase::Scanning(None),
            events@,
        ),
        outcome.1@ == seq![LinkAction::Scan] + spec_actions(
            wifi_ssid@,
            spec_auth_for(wifi_psk@),
            ConnectPhase::Scanning(None),
            events@,
        ),
{
    let mut connector = WifiConnector::new(wifi_ssid, wifi_psk);
    let mut actions: Vec<LinkAction> = Vec::new();
    match connector.begin() {
        Some(opening) => actions.push(opening),
        None => {},
    }
    let ghost start = ConnectPhase::Scanning(None);
    let ghost auth = spec_auth_for(wifi_psk@);
    let mut i: usize = 0;
    assert(actions@ =~= seq![LinkAction::Scan] + spec_actions(
        wifi_ssid@,
        auth,
        start,
        events@.take(0),
    ));
    while i < events.len()
        invariant
            0 <= i <= events.len(),
            connector.ssid@ == wifi_ssid@,
            connector.auth == auth,
            connector.phase == spec_phase_after(wifi_ssid@, auth, start, events@.take(i as int)),
            actions@ == seq![LinkAction::Scan] + spec_actions(
                wifi_ssid@,
                auth,
                start,
                events@.take(i as int),
            ),
        decreases events.len() - i,
    {
        proof {
            let next = events@.take(i + 1);
            assert(next.drop_last() =~= events@.take(i as int));
            assert(next.last() == events@[i as int]);
        }
        let ghost earlier = spec_actions(wifi_ssid@, auth, start, events@.take(i as int));
        match connector.step(&events[i]) {
            Some(action) => {
                actions.push(action);
                assert(actions@ =~= seq![LinkAction::Scan] + earlier.push(action));
            },
            None => {},
        }
        i += 1;
    }
    proof {
        assert(events@.take(events.len() as int) =~= events@);
    }
    (connector, actions)
}

/// What "the first network of that name" means: it bears the name, and none
/// before it does. Where no network is found, none bears the name.
pub proof fn lemma_first_match_is_first(aps: Seq<AccessPoint>, ssid: Seq<char>)
    ensures
        match spec_first_match(aps, ssid) {
            Some(i) => 0 <= i < aps.len() && aps[i].ssid@ == ssid && forall|j: int|
                0 <= j < i ==> aps[j].ssid@ != ssid,
            None => forall|j: int| 0 <= j < aps.len() ==> aps[j].ssid@ != ssid,
        },
{
    lemma_first_match_from(aps, ssid, 0);
}

proof fn lemma_first_match_from(aps: Seq<AccessPoint>, ssid: Seq<char>, from: int)
    requires
        0 <= from,
    ensures
        match spec_first_match_from(aps, ssid, from) {
            Some(i) => from <= i < aps.len() && aps[i].ssid@ == ssid && forall|j: int|
                from <= j < i ==> aps[j].ssid@ != ssid,
            None => forall|j: int| from <= j < aps.len() ==> aps[j].ssid@ != ssid,
        },
    decreases aps.len() - from,
{
    if from < aps.len() && aps[from].ssid@ != ssid {
        lemma_first_match_from(aps, ssid, from + 1);
    }
}

/// The baseline is latched: once a phase carries one, no step changes it,
/// whatever is reported. Only `link_lost` forgets it.
pub proof fn lemma_step_keeps_baseline(
    ssid: Seq<char>,
    auth: AuthMethod,
    phase: ConnectPhase,
    event: LinkEvent,
)
    requires
        spec_baseline(phase) is Some,
    ensures
        spec_baseline(spec_step(ssid, auth, phase, event).0) == spec_baseline(phase),
{
}

/// A baseline comes from a sighting only: a step gives a session its
/// baseline exactly when a scan lists the network for the first time, and
/// the baseline is then the strength of the first network of that name in
/// that scan.
pub proof fn lemma_baseline_comes_from_a_sighting(
    ssid: Seq<char>,
    auth: AuthMethod,
    phase: ConnectPhase,
    event: LinkEvent,
)
    requires
        spec_baseline(phase) is None,
    ensures
        spec_baseline(spec_step(ssid, auth, phase, event).0) is Some <==> phase
            == ConnectPhase::Scanning(None) && event is ScanCompleted && spec_first_match(
            event->ScanCompleted_0@,
            ssid,
        ) is Some,
        spec_baseline(spec_step(ssid, auth, phase, event).0) is Some ==> spec_baseline(
            spec_step(ssid, auth, phase, event).0,
        ) == Some(
            event->ScanCompleted_0@[spec_first_match(
                event->ScanCompleted_0@,
                ssid,
            )->Some_0].signal_strength,
        ),
{
}

/// Over a whole run the baseline is kept: every phase after a phase that
/// carries a baseline carries the same one, whatever is reported in between,
/// a scan that misses the network included.
pub proof fn lemma_baseline_is_kept(
    ssid: Seq<char>,
    auth: AuthMethod,
    phase: ConnectPhase,
    events: Seq<LinkEvent>,
)
    requires
        spec_baseline(phase) is Some,
    ensures
        spec_baseline(spec_phase_after(ssid, auth, phase, events)) == spec_baseline(phase),
    decreases events.len(),
{
    if events.len() > 0 {
        let before = events.drop_last();
        lemma_baseline_is_kept(ssid, auth, phase, before);
        lemma_step_keeps_baseline(
            ssid,
            auth,
            spec_phase_after(ssid, auth, phase, before),
            events.last(),
        );
    }
}

/// A run of events after other events starts from where those have led.
proof fn lemma_phase_after_append(
    ssid: Seq<char>,
    auth: AuthMethod,
    phase: ConnectPhase,
    first: Seq<LinkEvent>,
    second: Seq<LinkEvent>,
)
    ensures
        spec_phase_after(ssid, auth, phase, first + second) == spec_phase_after(
            ssid,
            auth,
            spec_phase_after(ssid, auth, phase, first),
            second,
        ),
    decreases second.len(),
{
    if second.len() == 0 {
        assert(first + second =~= first);
    } else {
        assert((first + second).drop_last() =~= first + second.drop_last());
        assert((first + second).last() == second.last());
        lemma_phase_after_append(ssid, auth, phase, first, second.drop_last());
    }
}

/// The baseline of a session is the strength at which its network was seen
/// first. When the events up to some point have left the session scanning
/// without a baseline and the next scan lists the network, then whatever
/// follows, later scans and failures included, the session carries the
/// strength of the first network of that name in that scan; and when the
/// link comes up, it comes up with that strength.
pub proof fn lemma_first_sighting_is_the_baseline(
    ssid: Seq<char>,
    auth: AuthMethod,
    earlier: Seq<LinkEvent>,
    seen: Vec<AccessPoint>,
    later: Seq<LinkEvent>,
)
    requires
        spec_phase_after(ssid, auth, ConnectPhase::Scanning(None), earlier)
            == ConnectPhase::Scanning(None),
        spec_first_match(seen@, ssid) is Some,
    ensures
        spec_baseline(
            spec_phase_after(
                ssid,
                auth,
                ConnectPhase::Scanning(None),
                earlier + seq![LinkEvent::ScanCompleted(seen)] + later,
            ),
        ) == Some(seen@[spec_first_match(seen@, ssid)->Some_0].signal_strength),
        spec_phase_after(
            ssid,
            auth,
            ConnectPhase::Scanning(None),
            earlier + seq![LinkEvent::ScanCompleted(seen)] + later,
        ) is Up ==> spec_phase_after(
            ssid,
            auth,
            ConnectPhase::Scanning(None),
            earlier + seq![LinkEvent::ScanCompleted(seen)] + later,
        ) == ConnectPhase::Up(seen@[spec_first_match(seen@, ssid)->Some_0].signal_strength),
{
    let start = ConnectPhase::Scanning(None);
    let sighting = seq![LinkEvent::ScanCompleted(seen)];
    lemma_phase_after_append(ssid, auth, start, earlier + sighting, later);
    lemma_phase_after_append(ssid, auth, start, earlier, sighting);
    assert(sighting.drop_last() =~= Seq::<LinkEvent>::empty());
    assert(sighting.last() == LinkEvent::ScanCompleted(seen));
    assert(spec_phase_after(ssid, auth, start, sighting.drop_last()) == start);
    assert(spec_phase_after(ssid, auth, start, sighting) == spec_step(
        ssid,
        auth,
        start,
        sighting.last(),
    ).0);
    lemma_first_match_is_first(seen@, ssid);
    let at_sighting = spec_phase_after(ssid, auth, start, earlier + sighting);
    assert(at_sighting == spec_step(ssid, auth, start, LinkEvent::ScanCompleted(seen)).0);
    lemma_baseline_is_kept(ssid, auth, at_sighting, later);
}

/// A link that is up stays up whatever is reported: only `link_lost` ends a
/// session.
pub proof fn lemma_up_is_settled(
    ssid: Seq<char>,
    auth: AuthMethod,
    rssi: i8,
    events: Seq<LinkEvent>,
)
    ensures
        spec_phase_after(ssid, auth, ConnectPhase::Up(rssi), events) == ConnectPhase::Up(rssi),
        spec_actions(ssid, auth, ConnectPhase::Up(rssi), events) == Seq::<LinkAction>::empty(),
    decreases events.len(),
{
    if events.len() > 0 {
        lemma_up_is_settled(ssid, auth, rssi, events.drop_last());
    }
}

/// The link comes up only with an address: a step ends in `Up` only from the
/// wait for the lease, on the report that it was acquired, or when the link
/// was up already.
pub proof fn lemma_up_needs_lease(
    ssid: Seq<char>,
    auth: AuthMethod,
    phase: ConnectPhase,
    event: LinkEvent,
)
    requires
        spec_step(ssid, auth, phase, event).0 is Up,
    ensures
        phase is Up || (phase is AwaitingLease && event is LeaseAcquired),
        spec_baseline(spec_step(ssid, auth, phase, event).0) == spec_baseline(phase),
{
}

} // verus!
