//! Media-player (MPRIS) rules: which bus names are players, which players
//! count as active, what a player's metadata says, and which commands exist.
use vstd::prelude::*;
use crate::clock::{duration_as_millis, since_unix_epoch, system_time_now};
use crate::text::{
    join_text, has_prefix, same_text, starts_with, trim_leading, trim_start_matches,
};

verus! {

/// The well-known bus-name prefix of every MPRIS media player.
pub open spec fn player_prefix() -> Seq<char> {
    "org.mpris.MediaPlayer2."@
}

/// The artwork address that clients use in place of a local file.
pub open spec fn served_art_url() -> Seq<char> {
    "/api/playing/art"@
}

/// The timestamp stamped on a playback snapshot: the milliseconds since the
/// epoch, cut to 64 signed bits, or 0 when the clock reads before the epoch.
pub open spec fn snapshot_millis(since_epoch: Option<u128>) -> i64 {
    match since_epoch {
        Some(ms) => ms as i64,
        None => 0,
    }
}

/// A command that the remote control may send to the active player.
#[derive(Debug, PartialEq, Eq, Structural)]
pub enum MediaMethod {
    Next,
    Previous,
    Pause,
    Play,
}

/// The method a command word selects, or the error text for an unknown word.
pub open spec fn media_method_spec(command: Seq<char>) -> Result<MediaMethod, Seq<char>> {
    if command == "next"@ {
        Ok(MediaMethod::Next)
    } else if command == "prev"@ {
        Ok(MediaMethod::Previous)
    } else if command == "pause"@ {
        Ok(MediaMethod::Pause)
    } else if command == "play"@ {
        Ok(MediaMethod::Play)
    } else {
        Err("unknown command: "@ + command)
    }
}

/// What a probe of one candidate player found.
pub enum PlayerProbe {
    /// No proxy could be built for the player.
    ProxyUnavailable,
    /// The proxy was built but the playback status could not be read.
    StatusUnavailable,
    /// The reported playback status.
    Status(String),
}

/// How a scan over the bus names treats a player whose proxy cannot be built.
#[derive(Debug, PartialEq, Eq, Structural)]
pub enum ScanPolicy {
    /// Go on with the next name.
    SkipUnreachable,
    /// Give the whole scan up.
    StopOnUnreachable,
}

/// What a scan over the bus names does after probing one player.
#[derive(Debug, PartialEq, Eq, Structural)]
pub enum ScanStep {
    /// Go on with the next name.
    Skip,
    /// Use this player.
    Select,
    /// End the scan without a player.
    GiveUp,
}

/// A playback status that marks a player as active.
pub open spec fn is_active_status_spec(status: Seq<char>) -> bool {
    status == "Playing"@ || status == "Paused"@
}

/// The scan's decision after a probe.
pub open spec fn scan_step_spec(policy: ScanPolicy, probe: PlayerProbe) -> ScanStep {
    match probe {
        PlayerProbe::ProxyUnavailable => if policy == ScanPolicy::StopOnUnreachable {
            ScanStep::GiveUp
        } else {
            ScanStep::Skip
        },
        PlayerProbe::StatusUnavailable => ScanStep::Skip,
        PlayerProbe::Status(s) => if is_active_status_spec(s@) {
            ScanStep::Select
        } else {
            ScanStep::Skip
        },
    }
}

/// A metadata value as a player reports it, reduced to what the rules read.
pub enum MetaValue {
    /// A text value.
    Str(String),
    /// A signed 64-bit integer value.
    I64(i64),
    /// An array of values.
    Array(Vec<MetaValue>),
    /// Any other kind of value.
    Other,
}

/// The first text element of an array value, or empty text when there is none.
pub open spec fn first_text(items: Seq<MetaValue>) -> Seq<char>
    decreases items.len(),
{
    if items.len() == 0 {
        Seq::empty()
    } else {
        match items[0] {
            MetaValue::Str(s) => s@,
            _ => first_text(items.drop_first()),
        }
    }
}

/// The text that a metadata value stands for: the text itself, the first text
/// element of an array, or empty text.
pub open spec fn text_of(v: MetaValue) -> Seq<char> {
    match v {
        MetaValue::Str(s) => s@,
        MetaValue::Array(items) => first_text(items@),
        _ => Seq::empty(),
    }
}

/// The text of an array value is the text of its first text element, at
/// whatever position that element stands (the last one included).
pub proof fn lemma_array_text_is_first_text_element(items: Seq<MetaValue>, i: int)
    requires
        0 <= i < items.len(),
        items[i] is Str,
        forall|j: int| 0 <= j < i ==> !(#[trigger] items[j] is Str),
    ensures
        items[i] matches MetaValue::Str(s) && first_text(items) == s@,
    decreases i,
{
    if i > 0 {
        lemma_array_text_is_first_text_element(items.drop_first(), i - 1);
    }
}

/// An array value without any text element stands for empty text.
pub proof fn lemma_array_without_text_is_empty(items: Seq<MetaValue>)
    requires
        forall|j: int| 0 <= j < items.len() ==> !(#[trigger] items[j] is Str),
    ensures
        first_text(items) == Seq::<char>::empty(),
    decreases items.len(),
{
    if items.len() > 0 {
        assert(!(items[0] is Str));
        assert forall|j: int| 0 <= j < items.drop_first().len() implies !(#[trigger] items.drop_first()[j] is Str) by {
            assert(items.drop_first()[j] == items[j + 1]);
        }
        lemma_array_without_text_is_empty(items.drop_first());
    }
}

/// A one-element array of text set under a name reads back as that text.
pub proof fn lemma_single_text_array_reads_back(
    meta: Map<Seq<char>, MetaValue>,
    key: Seq<char>,
    items: Vec<MetaValue>,
    s: String,
)
    requires
        items@ == seq![MetaValue::Str(s)],
    ensures
        metadata_text(meta.insert(key, MetaValue::Array(items)), key) == s@,
{
    lemma_array_text_is_first_text_element(items@, 0);
}

/// A player's metadata: values keyed by name, each name at most once.
pub struct Metadata {
    entries: Vec<(String, MetaValue)>,
}

impl Metadata {
    /// The names that occur in the metadata are pairwise distinct.
    pub closed spec fn wf(&self) -> bool {
        forall|i: int, j: int|
            0 <= i < self.entries@.len() && 0 <= j < self.entries@.len() && i != j
                ==> #[trigger] self.entries@[i].0@ != #[trigger] self.entries@[j].0@
    }

    /// Whether some entry has name `k`.
    pub closed spec fn has(&self, k: Seq<char>) -> bool {
        exists|i: int| 0 <= i < self.entries@.len() && #[trigger] self.entries@[i].0@ == k
    }

    /// The metadata as a map from names to values.
    pub closed spec fn view(&self) -> Map<Seq<char>, MetaValue> {
        Map::new(
            |k: Seq<char>| self.has(k),
            |k: Seq<char>|
                self.entries@[choose|i: int|
                    0 <= i < self.entries@.len() && #[trigger] self.entries@[i].0@ == k].1,
        )
    }

    /// Metadata without any entry.
    pub fn new() -> (r: Metadata)
        ensures
            r.wf(),
            r.view() == Map::<Seq<char>, MetaValue>::empty(),
    {
        let r = Metadata { entries: Vec::new() };
        assert(r.view() =~= Map::<Seq<char>, MetaValue>::empty());
        r
    }

    /// The position of the entry named `key`, if there is one.
    fn position(&self, key: &str) -> (r: Option<usize>)
        requires
            self.wf(),
        ensures
            r matches Some(i) ==> i < self.entries@.len() && self.entries@[i as int].0@ == key@,
            r is None ==> !self.has(key@),
    {
        let mut i: usize = 0;
        while i < self.entries.len()
            invariant
                i <= self.entries@.len(),
                forall|j: int| 0 <= j < i ==> #[trigger] self.entries@[j].0@ != key@,
            decreases self.entries.len() - i,
        {
            if same_text(self.entries[i].0.as_str(), key) {
                return Some(i);
            }
            i = i + 1;
        }
        None
    }

    /// Sets the value named `key`, replacing an earlier value of that name.
    pub fn insert(&mut self, key: String, value: MetaValue)
        requires
            old(self).wf(),
        ensures
            final(self).wf(),
            final(self).view() == old(self).view().insert(key@, value),
    {
        let ghost k = key@;
        let ghost v = value;
        match self.position(key.as_str()) {
            Some(i) => {
                self.entries.set(i, (key, value));
                assert forall|j: int| 0 <= j < self.entries@.len() && j != i
                    implies #[trigger] self.entries@[j].0@ != k by {
                    assert(old(self).entries@[j] == self.entries@[j]);
                }
                assert forall|q: Seq<char>| #[trigger] self.has(q) == old(self).has(q) by {
                    if old(self).has(q) {
                        let j = choose|j: int| 0 <= j < old(self).entries@.len() && #[trigger] old(self).entries@[j].0@ == q;
                        if j != i {
                            assert(self.entries@[j] == old(self).entries@[j]);
                        }
                        assert(self.entries@[j].0@ == q);
                    }
                    if self.has(q) {
                        let j = choose|j: int| 0 <= j < self.entries@.len() && #[trigger] self.entries@[j].0@ == q;
                        if j != i {
                            assert(self.entries@[j] == old(self).entries@[j]);
                        }
                        assert(old(self).entries@[j].0@ == q);
                    }
                }
                assert(self.view() =~= old(self).view().insert(k, v)) by {
                    assert forall|q: Seq<char>| #[trigger] self.view().dom().contains(q) implies
                        self.view()[q] == old(self).view().insert(k, v)[q] by {
                        let j = choose|j: int| 0 <= j < self.entries@.len() && #[trigger] self.entries@[j].0@ == q;
                        if q != k {
                            assert(j != i);
                            let j0 = choose|j0: int| 0 <= j0 < old(self).entries@.len() && #[trigger] old(self).entries@[j0].0@ == q;
                            assert(self.entries@[j0] == old(self).entries@[j0]);
                        }
                    }
                }
            },
            None => {
                self.entries.push((key, value));
                let ghost n = old(self).entries@.len();
                assert forall|q: Seq<char>| #[trigger] self.has(q) == (old(self).has(q) || q == k) by {
                    if old(self).has(q) {
                        let j = choose|j: int| 0 <= j < old(self).entries@.len() && #[trigger] old(self).entries@[j].0@ == q;
                        assert(self.entries@[j] == old(self).entries@[j]);
                    }
                    if q == k {
                        assert(self.entries@[n as int].0@ == k);
                    }
                    if self.has(q) && q != k {
                        let j = choose|j: int| 0 <= j < self.entries@.len() && #[trigger] self.entries@[j].0@ == q;
                        assert(j < n);
                        assert(self.entries@[j] == old(self).entries@[j]);
                    }
                }
                assert(self.view() =~= old(self).view().insert(k, v)) by {
                    assert forall|q: Seq<char>| #[trigger] self.view().dom().contains(q) implies
                        self.view()[q] == old(self).view().insert(k, v)[q] by {
                        let j = choose|j: int| 0 <= j < self.entries@.len() && #[trigger] self.entries@[j].0@ == q;
                        if q != k {
                            let j0 = choose|j0: int| 0 <= j0 < old(self).entries@.len() && #[trigger] old(self).entries@[j0].0@ == q;
                            assert(self.entries@[j0] == old(self).entries@[j0]);
                        } else {
                            assert(self.entries@[n as int].0@ == k);
                        }
                    }
                }
            },
        }
    }

    /// The value named `key`, if there is one.
    pub fn get(&self, key: &str) -> (r: Option<&MetaValue>)
        requires
            self.wf(),
        ensures
            r matches Some(v) ==> self.view().dom().contains(key@) && *v == self.view()[key@],
            r is None ==> !self.view().dom().contains(key@),
    {
        match self.position(key) {
            Some(i) => {
                let ghost j = choose|j: int| 0 <= j < self.entries@.len() && #[trigger] self.entries@[j].0@ == key@;
                assert(i == j);
                Some(&self.entries[i].1)
            },
            None => None,
        }
    }
}

/// A text value set under a name is the text read back under that name, and
/// setting a value under one name leaves the text under every other name as it was.
pub proof fn lemma_metadata_text_after_insert(
    meta: Map<Seq<char>, MetaValue>,
    key: Seq<char>,
    other: Seq<char>,
    value: String,
)
    requires
        other != key,
    ensures
        metadata_text(meta.insert(key, MetaValue::Str(value)), key) == value@,
        metadata_text(meta.insert(key, MetaValue::Str(value)), other) == metadata_text(meta, other),
{
}

/// A length set as a signed 64-bit integer is the length read back.
pub proof fn lemma_track_length_after_insert(meta: Map<Seq<char>, MetaValue>, n: i64)
    ensures
        track_length_spec(meta.insert("mpris:length"@, MetaValue::I64(n))) == n,
{
}

/// A scan selects a player only on an active status, and gives up only when
/// its policy says so and the player's proxy could not be built.
pub proof fn lemma_scan_step_outcomes(policy: ScanPolicy, probe: PlayerProbe)
    ensures
        scan_step_spec(policy, probe) == ScanStep::Select <==> (probe matches PlayerProbe::Status(s)
            && is_active_status_spec(s@)),
        scan_step_spec(policy, probe) == ScanStep::GiveUp <==> (policy == ScanPolicy::StopOnUnreachable
            && probe is ProxyUnavailable),
{
}

/// Where a scan over the bus names `names`, whose players answer `probes`,
/// ends when it starts at position `i`: the position of the selected player,
/// or nothing when it gives up or runs out of names. Names without the MPRIS
/// prefix are passed over without a probe.
pub open spec fn scan_from(policy: ScanPolicy, names: Seq<Seq<char>>, probes: Seq<PlayerProbe>, i: int) -> Option<int>
    decreases names.len() - i,
{
    if i < 0 || i >= names.len() || i >= probes.len() {
        None
    } else if !starts_with(names[i], player_prefix()) {
        scan_from(policy, names, probes, i + 1)
    } else {
        match scan_step_spec(policy, probes[i]) {
            ScanStep::Select => Some(i),
            ScanStep::GiveUp => None,
            ScanStep::Skip => scan_from(policy, names, probes, i + 1),
        }
    }
}

/// Before position `k`, every player name was skipped.
pub open spec fn skipped_before(policy: ScanPolicy, names: Seq<Seq<char>>, probes: Seq<PlayerProbe>, i: int, k: int) -> bool {
    forall|j: int| i <= j < k && #[trigger] starts_with(names[j], player_prefix())
        ==> scan_step_spec(policy, probes[j]) == ScanStep::Skip
}

/// A scan ends on position `k` exactly when `k` is the first player name
/// whose probe selects it and every player name before it was skipped; so a
/// proxy that cannot be built ends the scan without a player under the
/// stopping policy.
pub proof fn lemma_scan_selects_first(
    policy: ScanPolicy,
    names: Seq<Seq<char>>,
    probes: Seq<PlayerProbe>,
    i: int,
    k: int,
)
    requires
        names.len() == probes.len(),
        0 <= i,
    ensures
        scan_from(policy, names, probes, i) == Some(k) <==> (i <= k < names.len() && starts_with(
            names[k], player_prefix()) && scan_step_spec(policy, probes[k]) == ScanStep::Select
            && skipped_before(policy, names, probes, i, k)),
    decreases names.len() - i,
{
    if i < names.len() {
        lemma_scan_selects_first(policy, names, probes, i + 1, k);
        if starts_with(names[i], player_prefix()) && scan_step_spec(policy, probes[i]) != ScanStep::Skip {
            if k > i {
                assert(!skipped_before(policy, names, probes, i, k));
            }
        }
    }
}

/// Under the stopping policy, reaching a player whose proxy cannot be built
/// ends the scan without a player, whatever follows.
pub proof fn lemma_scan_gives_up(names: Seq<Seq<char>>, probes: Seq<PlayerProbe>, i: int, j: int)
    requires
        names.len() == probes.len(),
        0 <= i <= j < names.len(),
        starts_with(names[j], player_prefix()),
        probes[j] is ProxyUnavailable,
        skipped_before(ScanPolicy::StopOnUnreachable, names, probes, i, j),
    ensures
        scan_from(ScanPolicy::StopOnUnreachable, names, probes, i) is None,
    decreases j - i,
{
    if i < j {
        if starts_with(names[i], player_prefix()) {
            assert(scan_step_spec(ScanPolicy::StopOnUnreachable, probes[i]) == ScanStep::Skip);
        }
        lemma_scan_gives_up(names, probes, i + 1, j);
    }
}

/// Exactly the words "next", "prev", "pause" and "play" are commands; any
/// other word is refused with "unknown command: " followed by the word.
pub proof fn lemma_media_method_accepts(command: Seq<char>)
    ensures
        media_method_spec(command) is Ok <==> (command == "next"@ || command == "prev"@
            || command == "pause"@ || command == "play"@),
        media_method_spec(command) matches Err(e) ==> starts_with(e, "unknown command: "@)
            && e.skip(17) == command,
{
    reveal_strlit("unknown command: ");
    if media_method_spec(command) is Err {
        let e = "unknown command: "@ + command;
        assert(e.subrange(0, 17) =~= "unknown command: "@);
        assert(e.skip(17) =~= command);
    }
}

/// A player's short name never starts with the MPRIS prefix, and a bus name
/// made of the prefix and a name that does not itself start with the prefix
/// has that name as its short name.
pub proof fn lemma_player_id(bus_name: Seq<char>, name: Seq<char>)
    ensures
        !starts_with(trim_start_matches(bus_name, player_prefix()), player_prefix()),
        !starts_with(name, player_prefix()) ==> trim_start_matches(player_prefix() + name,
            player_prefix()) == name,
{
    reveal_strlit("org.mpris.MediaPlayer2.");
    crate::text::lemma_trim_start_matches_complete(bus_name, player_prefix());
    let full = player_prefix() + name;
    assert(full.subrange(0, player_prefix().len() as int) =~= player_prefix());
    assert(full.skip(player_prefix().len() as int) =~= name);
    assert(trim_start_matches(full, player_prefix()) == trim_start_matches(name, player_prefix()));
}

/// The artwork address sent to clients never points to a local file, and
/// rewriting it again changes nothing.
pub proof fn lemma_broadcast_art_url(art_url: Seq<char>)
    ensures
        ({
            let once = if starts_with(art_url, "file://"@) { served_art_url() } else { art_url };
            &&& !starts_with(once, "file://"@)
            &&& (if starts_with(once, "file://"@) { served_art_url() } else { once }) == once
        }),
{
    reveal_strlit("file://");
    reveal_strlit("/api/playing/art");
    assert(served_art_url().subrange(0, 7)[0] != "file://"@[0]);
}

/// What a playback snapshot takes from the player's metadata.
pub struct TrackInfo {
    pub title: String,
    pub artist: String,
    pub album: String,
    pub art_url: String,
    pub duration: i64,
}

/// The media-player service; all of its rules are associated functions.
pub struct MprisService;

/// The text that the metadata holds under `key`; empty when the key is absent.
pub open spec fn metadata_text(meta: Map<Seq<char>, MetaValue>, key: Seq<char>) -> Seq<char> {
    if meta.dom().contains(key) {
        text_of(meta[key])
    } else {
        Seq::empty()
    }
}

/// The track length that the metadata reports, or 0 when it reports none as a
/// signed 64-bit integer.
pub open spec fn track_length_spec(meta: Map<Seq<char>, MetaValue>) -> i64 {
    if meta.dom().contains("mpris:length"@) {
        match meta["mpris:length"@] {
            MetaValue::I64(n) => n,
            _ => 0,
        }
    } else {
        0
    }
}

impl MprisService {
    /// Turns the milliseconds since the epoch (if the clock reads after it) into
    /// the snapshot timestamp.
    pub fn millis_to_timestamp(since_epoch: Option<u128>) -> (r: i64)
        ensures
            r == snapshot_millis(since_epoch),
    {
        match since_epoch {
            Some(ms) => #[verifier::truncate] (ms as i64),
            None => 0,
        }
    }

    /// The current time in milliseconds since the Unix epoch (0 when the clock
    /// reads before the epoch). It depends on the clock, so nothing is claimed
    /// of the number; `millis_to_timestamp` states how it is formed.
    pub fn now_ms() -> i64 {
        let now = system_time_now();
        let since = match since_unix_epoch(&now) {
            Some(d) => Some(duration_as_millis(&d)),
            None => None,
        };
        Self::millis_to_timestamp(since)
    }

    /// The first text element of `items`.
    fn first_text_of(items: &Vec<MetaValue>) -> (r: String)
        ensures
            r@ == first_text(items@),
    {
        let mut i: usize = 0;
        assert(items@.skip(0) =~= items@);
        while i < items.len()
            invariant
                i <= items@.len(),
                first_text(items@) == first_text(items@.skip(i as int)),
            decreases items.len() - i,
        {
            assert(items@.skip(i as int).drop_first() =~= items@.skip(i + 1));
            match &items[i] {
                MetaValue::Str(s) => {
                    return s.clone();
                },
                _ => {},
            }
            i = i + 1;
        }
        assert(items@.skip(i as int).len() == 0);
        String::new()
    }

    /// The text that the metadata holds under `key`: a text value itself, the
    /// first text element of an array value, else empty text.
    pub fn extract_string(meta: &Metadata, key: &str) -> (r: String)
        requires
            meta.wf(),
        ensures
            r@ == metadata_text(meta.view(), key@),
    {
        match meta.get(key) {
            None => String::new(),
            Some(v) => match v {
                MetaValue::Str(s) => s.clone(),
                MetaValue::Array(items) => Self::first_text_of(items),
                _ => String::new(),
            },
        }
    }

    /// The snapshot fields from the metadata: title (`xesam:title`), artist
    /// (`xesam:artist`), album (`xesam:album`), artwork address
    /// (`mpris:artUrl`) and length (`mpris:length`).
    pub fn track_info(meta: &Metadata) -> (r: TrackInfo)
        requires
            meta.wf(),
        ensures
            r.title@ == metadata_text(meta.view(), "xesam:title"@),
            r.artist@ == metadata_text(meta.view(), "xesam:artist"@),
            r.album@ == metadata_text(meta.view(), "xesam:album"@),
            r.art_url@ == metadata_text(meta.view(), "mpris:artUrl"@),
            r.duration == track_length_spec(meta.view()),
    {
        TrackInfo {
            title: Self::extract_string(meta, "xesam:title"),
            artist: Self::extract_string(meta, "xesam:artist"),
            album: Self::extract_string(meta, "xesam:album"),
            art_url: Self::extract_string(meta, "mpris:artUrl"),
            duration: Self::track_length(meta),
        }
    }

    /// The track length (`mpris:length`) when it is a signed 64-bit integer, else 0.
    pub fn track_length(meta: &Metadata) -> (r: i64)
        requires
            meta.wf(),
        ensures
            r == track_length_spec(meta.view()),
    {
        match meta.get("mpris:length") {
            Some(MetaValue::I64(n)) => *n,
            _ => 0,
        }
    }

    /// Whether a bus name belongs to an MPRIS media player.
    pub fn is_player_bus_name(name: &str) -> (r: bool)
        ensures
            r == starts_with(name@, player_prefix()),
    {
        has_prefix(name, "org.mpris.MediaPlayer2.")
    }

    /// Whether a playback status counts as active ("Playing" or "Paused").
    pub fn is_active_status(status: &str) -> (r: bool)
        ensures
            r == is_active_status_spec(status@),
    {
        same_text(status, "Playing") || same_text(status, "Paused")
    }

    /// The player's short name: the bus name without its leading MPRIS prefix.
    pub fn player_id(bus_name: &str) -> (r: String)
        ensures
            r@ == trim_start_matches(bus_name@, player_prefix()),
    {
        trim_leading(bus_name, "org.mpris.MediaPlayer2.")
    }

    /// Decides what a scan over the bus names does after probing a player.
    pub fn scan_step(policy: &ScanPolicy, probe: &PlayerProbe) -> (r: ScanStep)
        ensures
            r == scan_step_spec(*policy, *probe),
    {
        match probe {
            PlayerProbe::ProxyUnavailable => match policy {
                ScanPolicy::StopOnUnreachable => ScanStep::GiveUp,
                ScanPolicy::SkipUnreachable => ScanStep::Skip,
            },
            PlayerProbe::StatusUnavailable => ScanStep::Skip,
            PlayerProbe::Status(s) => {
                if Self::is_active_status(s.as_str()) {
                    ScanStep::Select
                } else {
                    ScanStep::Skip
                }
            },
        }
    }

    /// Maps a remote-control command word to the player method it calls.
    pub fn media_method(command: &str) -> (r: Result<MediaMethod, String>)
        ensures
            match (r, media_method_spec(command@)) {
                (Ok(m), Ok(n)) => m == n,
                (Err(e), Err(f)) => e@ == f,
                _ => false,
            },
    {
        if same_text(command, "next") {
            Ok(MediaMethod::Next)
        } else if same_text(command, "prev") {
            Ok(MediaMethod::Previous)
        } else if same_text(command, "pause") {
            Ok(MediaMethod::Pause)
        } else if same_text(command, "play") {
            Ok(MediaMethod::Play)
        } else {
            Err(join_text("unknown command: ", command))
        }
    }

    /// The artwork address sent to clients: a local `file://` artwork is
    /// replaced by the server's own artwork route, anything else is kept.
    pub fn broadcast_art_url(art_url: &str) -> (r: String)
        ensures
            r@ == (if starts_with(art_url@, "file://"@) {
                served_art_url()
            } else {
                art_url@
            }),
    {
        if has_prefix(art_url, "file://") {
            "/api/playing/art".to_owned()
        } else {
            art_url.to_owned()
        }
    }
}

} // verus!
