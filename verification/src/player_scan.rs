//! The scan over the session bus for the active media player, one player at
//! a time, with the law that it settles on the first active player.
use vstd::prelude::*;
use crate::mpris::{
    lemma_scan_gives_up, lemma_scan_selects_first, player_prefix, scan_from, scan_step_spec,
    skipped_before, MprisService, PlayerProbe, ScanPolicy, ScanStep,
};
use crate::text::starts_with;

verus! {

/// The scan over the bus names comes to `result` whatever the players not yet
/// probed answer: every answer sequence that begins with `seen` ends there.
pub open spec fn scan_settled(
    policy: ScanPolicy,
    names: Seq<Seq<char>>,
    seen: Seq<PlayerProbe>,
    result: Option<int>,
) -> bool {
    forall|all: Seq<PlayerProbe>|
        all.len() == names.len() && all.subrange(0, seen.len() as int) == seen
            ==> #[trigger] scan_from(policy, names, all, 0) == result
}

/// A scan over the bus names, one player at a time: the scan's position, the
/// probe answers seen so far (one per name passed), and whether it has ended.
pub struct PlayerScan {
    policy: ScanPolicy,
    names: Vec<String>,
    pos: usize,
    seen: Ghost<Seq<PlayerProbe>>,
    ended: bool,
}

impl PlayerScan {
    /// The bus names, in bus order.
    pub closed spec fn bus_names(&self) -> Seq<Seq<char>> {
        self.names@.map_values(|s: String| s@)
    }

    /// The position of the next name to look at.
    pub closed spec fn position(&self) -> int {
        self.pos as int
    }

    /// The answers seen for the names before the position (names that are no
    /// players count as seen with any answer).
    pub closed spec fn seen(&self) -> Seq<PlayerProbe> {
        self.seen@
    }

    /// The policy on players whose proxy cannot be built.
    pub closed spec fn policy(&self) -> ScanPolicy {
        self.policy
    }

    /// Whether the scan has ended.
    pub closed spec fn ended(&self) -> bool {
        self.ended
    }

    /// Every player name passed so far was skipped.
    pub closed spec fn wf(&self) -> bool {
        &&& self.pos <= self.names@.len()
        &&& self.seen@.len() == self.pos
        &&& skipped_before(self.policy, self.bus_names(), self.seen@, 0, self.pos as int)
    }

    /// A scan over `names` that has not looked at any name yet.
    pub fn new(policy: ScanPolicy, names: Vec<String>) -> (r: PlayerScan)
        ensures
            r.wf(),
            r.position() == 0,
            !r.ended(),
            r.policy() == policy,
            r.bus_names() == names@.map_values(|s: String| s@),
    {
        PlayerScan { policy, names, pos: 0, seen: Ghost(Seq::empty()), ended: false }
    }

    /// Passes over names that are not media players and gives the position of
    /// the next player name, which is then to be probed; `None`, ending the
    /// scan, when no player name is left. With no player left the scan's result
    /// is settled as no player.
    pub fn next_player(&mut self) -> (r: Option<usize>)
        requires
            old(self).wf(),
            !old(self).ended(),
        ensures
            final(self).wf(),
            final(self).bus_names() == old(self).bus_names(),
            final(self).policy() == old(self).policy(),
            old(self).position() <= final(self).position(),
            final(self).seen().subrange(0, old(self).position()) == old(self).seen(),
            forall|j: int| old(self).position() <= j < final(self).position()
                ==> !#[trigger] starts_with(final(self).bus_names()[j], player_prefix()),
            r matches Some(i) ==> (i == final(self).position() && i < final(self).bus_names().len()
                && starts_with(final(self).bus_names()[i as int], player_prefix()) && !final(self).ended()),
            r is None ==> (final(self).ended() && final(self).position() == final(self).bus_names().len()
                && scan_settled(final(self).policy(), final(self).bus_names(), final(self).seen(), None)),
    {
        let ghost names = self.bus_names();
        let ghost start = self.pos as int;
        let ghost start_seen = self.seen@;
        while self.pos < self.names.len()
            invariant
                self.bus_names() == names,
                names == old(self).bus_names(),
                start == old(self).position(),
                start_seen == old(self).seen(),
                self.policy == old(self).policy,
                !self.ended,
                self.wf(),
                start <= self.pos,
                self.seen@.subrange(0, start) == start_seen,
                forall|j: int| start <= j < self.pos ==> !#[trigger] starts_with(names[j], player_prefix()),
            decreases self.names@.len() - self.pos,
        {
            if MprisService::is_player_bus_name(self.names[self.pos].as_str()) {
                return Some(self.pos);
            }
            let ghost before = self.seen@;
            self.seen = Ghost(self.seen@.push(PlayerProbe::StatusUnavailable));
            assert(self.seen@.subrange(0, start) =~= before.subrange(0, start));
            self.pos = self.pos + 1;
            assert forall|j: int| 0 <= j < self.pos && #[trigger] starts_with(names[j], player_prefix())
                implies scan_step_spec(self.policy, self.seen@[j]) == ScanStep::Skip by {
                assert(j < self.pos - 1);
                assert(self.seen@[j] == before[j]);
            }
        }
        self.ended = true;
        proof {
            let policy = self.policy;
            let seen = self.seen@;
            assert forall|all: Seq<PlayerProbe>|
                all.len() == names.len() && all.subrange(0, seen.len() as int) == seen
                implies #[trigger] scan_from(policy, names, all, 0) == None::<int> by {
                assert forall|j: int| 0 <= j < names.len() && #[trigger] starts_with(names[j], player_prefix())
                    implies scan_step_spec(policy, all[j]) == ScanStep::Skip by {
                    assert(all[j] == all.subrange(0, seen.len() as int)[j]);
                }
                if scan_from(policy, names, all, 0) is Some {
                    let k = scan_from(policy, names, all, 0)->0;
                    lemma_scan_selects_first(policy, names, all, 0, k);
                }
            }
        }
        None
    }

    /// Records the probe answer of the player at the position and decides the
    /// scan's step: on `Skip` the scan moves on; on `Select` it ends with this
    /// player, and on `GiveUp` with none, either result settled whatever later
    /// players would answer.
    pub fn record(&mut self, probe: PlayerProbe) -> (r: ScanStep)
        requires
            old(self).wf(),
            !old(self).ended(),
            old(self).position() < old(self).bus_names().len(),
            starts_with(old(self).bus_names()[old(self).position()], player_prefix()),
        ensures
            r == scan_step_spec(old(self).policy(), probe),
            final(self).bus_names() == old(self).bus_names(),
            final(self).policy() == old(self).policy(),
            final(self).seen() == old(self).seen().push(probe),
            r == ScanStep::Skip ==> (final(self).wf() && !final(self).ended()
                && final(self).position() == old(self).position() + 1),
            r == ScanStep::Select ==> (final(self).ended() && scan_settled(old(self).policy(),
                old(self).bus_names(), final(self).seen(), Some(old(self).position()))),
            r == ScanStep::GiveUp ==> (final(self).ended() && scan_settled(old(self).policy(),
                old(self).bus_names(), final(self).seen(), None)),
    {
        let ghost names = self.bus_names();
        let ghost policy = self.policy;
        let ghost k = self.pos as int;
        let ghost before = self.seen@;
        assert(self.bus_names().len() == self.names@.len());
        assert(self.pos < self.names.len());
        let step = MprisService::scan_step(&self.policy, &probe);
        self.seen = Ghost(self.seen@.push(probe));
        let ghost seen = self.seen@;
        proof {
            assert forall|all: Seq<PlayerProbe>| all.len() == names.len() && all.subrange(0, seen.len() as int) == seen
                implies skipped_before(policy, names, all, 0, k) && all[k] == probe by {
                assert(all[k] == all.subrange(0, seen.len() as int)[k]);
                assert forall|j: int| 0 <= j < k && #[trigger] starts_with(names[j], player_prefix())
                    implies scan_step_spec(policy, all[j]) == ScanStep::Skip by {
                    assert(all[j] == all.subrange(0, seen.len() as int)[j]);
                    assert(seen[j] == before[j]);
                }
            }
        }
        match step {
            ScanStep::Skip => {
                self.pos = self.pos + 1;
                assert forall|j: int| 0 <= j < self.pos && #[trigger] starts_with(names[j], player_prefix())
                    implies scan_step_spec(policy, self.seen@[j]) == ScanStep::Skip by {
                    if j < k {
                        assert(self.seen@[j] == before[j]);
                    }
                }
            },
            ScanStep::Select => {
                self.ended = true;
                assert forall|all: Seq<PlayerProbe>| all.len() == names.len() && all.subrange(0, seen.len() as int) == seen
                    implies #[trigger] scan_from(policy, names, all, 0) == Some(k) by {
                    lemma_scan_selects_first(policy, names, all, 0, k);
                }
            },
            ScanStep::GiveUp => {
                self.ended = true;
                assert forall|all: Seq<PlayerProbe>| all.len() == names.len() && all.subrange(0, seen.len() as int) == seen
                    implies #[trigger] scan_from(policy, names, all, 0) == None::<int> by {
                    lemma_scan_gives_up(names, all, 0, k);
                }
            },
        }
        step
    }
}

} // verus!
