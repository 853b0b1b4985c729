//! Device discovery and binding: the decision core of session setup.
//!
//! The wireless transport is a capability the driver loop supplies:
//! scanning an adapter, reading a peripheral's advertisement, attempting
//! a connection. The `Discovery` state machine here makes every decision
//! of that loop — which peripheral matches, whether to connect to it,
//! when to move to the next adapter, when the search has failed — and
//! the driver only performs the transport actions it is told to.
//! Setup is strictly sequential: nothing runs concurrently until a
//! device is bound and the bridge tasks are spawned.

use vstd::prelude::*;

use crate::error::IcarusBleError;

verus! {

/// The 128-bit identity of the attitude-notify characteristic: a fixed
/// protocol constant, not discovered at runtime.
pub const ATTITUDE_CHARACTERISTIC: u128 = 0x68af1093_1df9_41ac_98e8_d524a025b4b9;

/// The 128-bit identity of the throttle-write characteristic.
pub const THROTTLE_CHARACTERISTIC: u128 = 0xc346b87e_9a11_4a56_9a53_e421c8ade193;

/// What the advertisement of one discovered peripheral showed.
#[derive(Clone, Debug)]
pub struct PeripheralInfo {
    /// The advertised local name, if the advertisement carried one.
    pub local_name: Option<String>,
    /// Whether the peripheral is already connected.
    pub is_connected: bool,
}

/// Whether a peripheral advertises exactly the expected name. Selection
/// is by exact name match only; no address-based pinning.
pub open spec fn name_matches(p: PeripheralInfo, expected: Seq<char>) -> bool {
    p.local_name matches Some(n) && n@ == expected
}

/// The first peripheral at or after `from` whose advertised name is the
/// expected one.
pub open spec fn first_match(ps: Seq<PeripheralInfo>, expected: Seq<char>, from: int) -> Option<
    int,
>
    decreases ps.len() - from,
{
    if from < 0 || from >= ps.len() {
        None::<int>
    } else if name_matches(ps[from], expected) {
        Some(from)
    } else {
        first_match(ps, expected, from + 1)
    }
}

/// Where the discovery state machine stands.
#[derive(Clone, Copy, Debug, PartialEq, Eq, Structural)]
pub enum DiscoveryPhase {
    /// Waiting for the next adapter's scan results.
    Scanning,
    /// A matching, unconnected peripheral was picked; waiting for the
    /// outcome of the connection attempt.
    AwaitConnect,
    /// The search ended: a device was bound, or none was found.
    Done,
}

/// The transport action the driver must perform next.
#[derive(Clone, Copy, Debug, PartialEq, Eq, Structural)]
pub enum DiscoveryAction {
    /// Scan the next adapter for the bounded dwell time, then report its
    /// peripherals; report that the adapters are exhausted if none is
    /// left.
    ScanNextAdapter,
    /// Attempt to connect the peripheral at this index of the most
    /// recently reported list, then report the outcome.
    Connect(usize),
    /// The search succeeded: bind the peripheral at this index of the
    /// most recently reported list.
    Use(usize),
    /// The search failed: no peripheral advertising the expected name
    /// across any adapter. Terminal; the session is not constructed.
    Fail,
}

/// What the driver reports back to the state machine.
pub enum DiscoveryEvent {
    /// One adapter was scanned; these are its peripherals.
    AdapterPeripherals(Vec<PeripheralInfo>),
    /// The requested connection attempt succeeded.
    Connected,
    /// The requested connection attempt failed. This is the one
    /// transient fault of setup: the search continues instead of
    /// terminating.
    ConnectFailed,
    /// Every adapter has been scanned.
    AdaptersExhausted,
}

/// Whether an event is the one the current phase waits for.
pub open spec fn event_fits(phase: DiscoveryPhase, event: DiscoveryEvent) -> bool {
    match event {
        DiscoveryEvent::AdapterPeripherals(_) => phase is Scanning,
        DiscoveryEvent::Connected => phase is AwaitConnect,
        DiscoveryEvent::ConnectFailed => phase is AwaitConnect,
        DiscoveryEvent::AdaptersExhausted => phase is Scanning,
    }
}

/// The device-discovery state machine. One instance drives one full
/// search pass: adapters are scanned in turn, the first peripheral
/// advertising the expected name is taken (connecting first when it is
/// not connected yet), a failed connection attempt moves on to the next
/// candidate, and exhausting the adapters ends the search with
/// `DeviceNotFound`.
pub struct Discovery {
    expected: String,
    peripherals: Vec<PeripheralInfo>,
    cursor: usize,
    phase: DiscoveryPhase,
}

impl Discovery {
    /// The configured device name the search matches against.
    pub closed spec fn expected_spec(&self) -> Seq<char> {
        self.expected@
    }

    /// The current phase.
    pub closed spec fn phase(&self) -> DiscoveryPhase {
        self.phase
    }

    /// The most recently reported peripheral list.
    pub closed spec fn pending(&self) -> Seq<PeripheralInfo> {
        self.peripherals@
    }

    /// The index of the candidate whose connection attempt is awaited.
    pub closed spec fn cursor_spec(&self) -> int {
        self.cursor as int
    }

    /// The machine is between a `Connect` action and its outcome: the
    /// candidate index is in range and names the first match examined.
    pub open spec fn wf(&self) -> bool {
        self.phase() is AwaitConnect ==> {
            &&& 0 <= self.cursor_spec() < self.pending().len()
            &&& name_matches(self.pending()[self.cursor_spec()], self.expected_spec())
        }
    }

    /// A fresh search for the device advertising exactly `expected`.
    pub fn new(expected: String) -> (r: Discovery)
        ensures
            r.expected_spec() == expected@,
            r.phase() is Scanning,
            r.wf(),
    {
        Discovery {
            expected,
            peripherals: Vec::new(),
            cursor: 0,
            phase: DiscoveryPhase::Scanning,
        }
    }

    /// Picks the first matching peripheral at or after `self.cursor`:
    /// an already-connected match is bound at once, an unconnected one
    /// gets a connection attempt, and with no match left the next
    /// adapter is scanned.
    fn select_candidate(&mut self) -> (a: DiscoveryAction)
        requires
            old(self).phase() is Scanning || old(self).phase() is AwaitConnect,
        ensures
            final(self).expected_spec() == old(self).expected_spec(),
            final(self).pending() == old(self).pending(),
            final(self).wf(),
            match first_match(old(self).pending(), old(self).expected_spec(), old(self).cursor_spec()) {
                Some(i) => if old(self).pending()[i].is_connected {
                    a == DiscoveryAction::Use(i as usize) && final(self).phase() is Done
                } else {
                    a == DiscoveryAction::Connect(i as usize) && final(self).phase()
                        is AwaitConnect && final(self).cursor_spec() == i
                },
                None => a == DiscoveryAction::ScanNextAdapter && final(self).phase() is Scanning,
            },
    {
        while self.cursor < self.peripherals.len()
            invariant
                self.peripherals@ == old(self).peripherals@,
                self.expected@ == old(self).expected@,
                self.phase == old(self).phase,
                old(self).cursor <= self.cursor,
                first_match(self.peripherals@, self.expected@, old(self).cursor as int)
                    == first_match(self.peripherals@, self.expected@, self.cursor as int),
            decreases self.peripherals@.len() - self.cursor,
        {
            let p = &self.peripherals[self.cursor];
            let matched: bool = match &p.local_name {
                Some(n) => *n == self.expected,
                None => false,
            };
            if matched {
                if p.is_connected {
                    self.phase = DiscoveryPhase::Done;
                    return DiscoveryAction::Use(self.cursor);
                } else {
                    self.phase = DiscoveryPhase::AwaitConnect;
                    return DiscoveryAction::Connect(self.cursor);
                }
            }
            self.cursor = self.cursor + 1;
        }
        self.phase = DiscoveryPhase::Scanning;
        DiscoveryAction::ScanNextAdapter
    }

    /// Feeds the state machine the outcome of the action it last asked
    /// for, and returns the next action.
    pub fn step(&mut self, event: DiscoveryEvent) -> (a: DiscoveryAction)
        requires
            old(self).wf(),
            event_fits(old(self).phase(), event),
        ensures
            final(self).expected_spec() == old(self).expected_spec(),
            final(self).wf(),
            match event {
                DiscoveryEvent::AdapterPeripherals(ps) => {
                    &&& final(self).pending() == ps@
                    &&& match first_match(ps@, old(self).expected_spec(), 0) {
                        Some(i) => if ps@[i].is_connected {
                            a == DiscoveryAction::Use(i as usize) && final(self).phase() is Done
                        } else {
                            a == DiscoveryAction::Connect(i as usize) && final(self).phase()
                                is AwaitConnect && final(self).cursor_spec() == i
                        },
                        None => a == DiscoveryAction::ScanNextAdapter && final(self).phase()
                            is Scanning,
                    }
                },
                DiscoveryEvent::Connected => {
                    &&& a == DiscoveryAction::Use(old(self).cursor_spec() as usize)
                    &&& final(self).phase() is Done
                },
                DiscoveryEvent::ConnectFailed => {
                    &&& final(self).pending() == old(self).pending()
                    &&& match first_match(
                        old(self).pending(),
                        old(self).expected_spec(),
                        old(self).cursor_spec() + 1,
                    ) {
                        Some(i) => if old(self).pending()[i].is_connected {
                            a == DiscoveryAction::Use(i as usize) && final(self).phase() is Done
                        } else {
                            a == DiscoveryAction::Connect(i as usize) && final(self).phase()
                                is AwaitConnect && final(self).cursor_spec() == i
                        },
                        None => a == DiscoveryAction::ScanNextAdapter && final(self).phase()
                            is Scanning,
                    }
                },
                DiscoveryEvent::AdaptersExhausted => {
                    &&& a == DiscoveryAction::Fail
                    &&& final(self).phase() is Done
                },
            },
    {
        match event {
            DiscoveryEvent::AdapterPeripherals(ps) => {
                self.peripherals = ps;
                self.cursor = 0;
                self.select_candidate()
            },
            DiscoveryEvent::Connected => {
                self.phase = DiscoveryPhase::Done;
                DiscoveryAction::Use(self.cursor)
            },
            DiscoveryEvent::ConnectFailed => {
                // The candidate index is below the list length, which
                // fits in usize, so the increment cannot overflow.
                let n: usize = self.peripherals.len();
                self.cursor = self.cursor + 1;
                self.select_candidate()
            },
            DiscoveryEvent::AdaptersExhausted => {
                self.phase = DiscoveryPhase::Done;
                DiscoveryAction::Fail
            },
        }
    }
}

/// The first index at or after `from` holding exactly this identity.
pub open spec fn first_uuid(uuids: Seq<u128>, id: u128, from: int) -> Option<int>
    decreases uuids.len() - from,
{
    if from < 0 || from >= uuids.len() {
        None::<int>
    } else if uuids[from] == id {
        Some(from)
    } else {
        first_uuid(uuids, id, from + 1)
    }
}

/// A found index lies in range and holds the identity.
proof fn lemma_first_uuid_in_range(uuids: Seq<u128>, id: u128, from: int)
    ensures
        first_uuid(uuids, id, from) matches Some(i) ==> from <= i < uuids.len() && uuids[i] == id,
    decreases uuids.len() - from,
{
    if 0 <= from < uuids.len() && !(uuids[from] == id) {
        lemma_first_uuid_in_range(uuids, id, from + 1);
    }
}

/// Finds the first index holding exactly this identity.
fn find_uuid(uuids: &Vec<u128>, id: u128) -> (r: Option<usize>)
    ensures
        match first_uuid(uuids@, id, 0) {
            Some(i) => r == Some(i as usize),
            None => r is None,
        },
{
    let mut k: usize = 0;
    while k < uuids.len()
        invariant
            k <= uuids@.len(),
            first_uuid(uuids@, id, 0) == first_uuid(uuids@, id, k as int),
        decreases uuids@.len() - k,
    {
        if uuids[k] == id {
            return Some(k);
        }
        k = k + 1;
    }
    None
}

/// Resolves the two required characteristics among a bound device's
/// characteristic identities: the attitude-notify and throttle-write
/// indices, in that order. Fails with `CharacteristicNotFound` exactly
/// when either identity is absent — a fatal device-compatibility error,
/// not retried.
pub fn resolve_characteristics(uuids: &Vec<u128>) -> (r: Result<
    (usize, usize),
    IcarusBleError,
>)
    ensures
        match r {
            Ok((a, t)) => {
                &&& first_uuid(uuids@, ATTITUDE_CHARACTERISTIC, 0) == Some(a as int)
                &&& first_uuid(uuids@, THROTTLE_CHARACTERISTIC, 0) == Some(t as int)
            },
            Err(e) => {
                &&& e == IcarusBleError::CharacteristicNotFound
                &&& (first_uuid(uuids@, ATTITUDE_CHARACTERISTIC, 0) is None || first_uuid(
                    uuids@,
                    THROTTLE_CHARACTERISTIC,
                    0,
                ) is None)
            },
        },
{
    // A vector's length fits in usize, so a found index does too.
    let n: usize = uuids.len();
    proof {
        lemma_first_uuid_in_range(uuids@, ATTITUDE_CHARACTERISTIC, 0);
        lemma_first_uuid_in_range(uuids@, THROTTLE_CHARACTERISTIC, 0);
    }
    let attitude = find_uuid(uuids, ATTITUDE_CHARACTERISTIC);
    let throttle = find_uuid(uuids, THROTTLE_CHARACTERISTIC);
    match (attitude, throttle) {
        (Some(a), Some(t)) => Ok((a, t)),
        _ => Err(IcarusBleError::CharacteristicNotFound),
    }
}

} // verus!
