//! The usage registry: one record of play time, run state and install size per
//! installed version, keyed by the version's identifier.

use vstd::prelude::*;
use vstd::string::*;

use crate::size::{format_size, size_label};
use crate::text::{decimal_digits, decimal_text};

verus! {

/// What the registry remembers about one version.
#[derive(Clone, Copy, Debug, PartialEq, Eq)]
pub struct VersionStats {
    /// Seconds played over all finished sessions.
    pub total_play_time: u64,
    /// Epoch seconds at which the latest session began.
    pub last_played: u64,
    /// Whether a session is under way.
    pub is_running: bool,
    /// Epoch seconds at which the session under way began.
    pub start_time: Option<u64>,
    /// Bytes that the installed version takes on disk.
    pub size_bytes: u64,
}

impl VersionStats {
    /// A record is consistent when it has a start time exactly while it runs.
    pub open spec fn wf(self) -> bool {
        self.is_running <==> self.start_time is Some
    }

    /// The record of a version that never ran and has no size on record.
    pub open spec fn unplayed() -> VersionStats {
        VersionStats {
            total_play_time: 0,
            last_played: 0,
            is_running: false,
            start_time: None,
            size_bytes: 0,
        }
    }

    /// The record after a session begins at `now`.
    pub open spec fn started(self, now: u64) -> VersionStats {
        VersionStats { is_running: true, start_time: Some(now), last_played: now, ..self }
    }

    /// Seconds between the recorded start and `now`; zero where there is no
    /// start or the clock reads earlier than the start.
    pub open spec fn elapsed(self, now: u64) -> nat {
        match self.start_time {
            Some(begun) => if now >= begun { (now - begun) as nat } else { 0 },
            None => 0,
        }
    }

    /// The play time once the session under way is added, held at the largest
    /// value a record can carry.
    pub open spec fn play_time_through(self, now: u64) -> u64 {
        if self.total_play_time + self.elapsed(now) <= u64::MAX {
            (self.total_play_time + self.elapsed(now)) as u64
        } else {
            u64::MAX
        }
    }

    /// The record after its session ends at `now`; a record that is not
    /// running stays as it is.
    pub open spec fn stopped(self, now: u64) -> VersionStats {
        if self.is_running {
            VersionStats {
                total_play_time: self.play_time_through(now),
                is_running: false,
                start_time: None,
                ..self
            }
        } else {
            self
        }
    }

    /// The record with its install size replaced.
    pub open spec fn resized(self, bytes: u64) -> VersionStats {
        VersionStats { size_bytes: bytes, ..self }
    }

    /// The record of a version that never ran and has no size on record.
    pub fn zero() -> (stats: VersionStats)
        ensures
            stats == VersionStats::unplayed(),
    {
        VersionStats {
            total_play_time: 0,
            last_played: 0,
            is_running: false,
            start_time: None,
            size_bytes: 0,
        }
    }

    /// Marks the record as running since `now`.
    pub fn start(self, now: u64) -> (stats: VersionStats)
        ensures
            stats == self.started(now),
    {
        VersionStats {
            total_play_time: self.total_play_time,
            last_played: now,
            is_running: true,
            start_time: Some(now),
            size_bytes: self.size_bytes,
        }
    }

    /// Ends the session under way at `now` and adds its length to the play
    /// time; does nothing to a record that is not running.
    pub fn stop(self, now: u64) -> (stats: VersionStats)
        ensures
            stats == self.stopped(now),
    {
        if !self.is_running {
            return self;
        }
        let played = match self.start_time {
            Some(begun) => if now >= begun {
                now - begun
            } else {
                0
            },
            None => 0,
        };
        let total = if played <= u64::MAX - self.total_play_time {
            self.total_play_time + played
        } else {
            u64::MAX
        };
        VersionStats {
            total_play_time: total,
            last_played: self.last_played,
            is_running: false,
            start_time: None,
            size_bytes: self.size_bytes,
        }
    }
}

/// One line of the registry: a version's identifier and its record.
#[derive(Debug)]
pub struct VersionEntry {
    pub version: String,
    pub stats: VersionStats,
}

/// The registry as a mathematical map from identifier to record.
pub type RegistryMap = Map<Seq<char>, VersionStats>;

/// The record kept for `version`, or `fallback` where there is none.
pub open spec fn record_or(m: RegistryMap, version: Seq<char>, fallback: VersionStats) -> VersionStats {
    if m.dom().contains(version) {
        m[version]
    } else {
        fallback
    }
}

/// What a lookup of `version` gives: its record, or that of a version that
/// never ran where the registry holds none.
pub open spec fn record_of(m: RegistryMap, version: Seq<char>) -> VersionStats {
    record_or(m, version, VersionStats::unplayed())
}

/// The registry after a session of `version` begins at `now`.
pub open spec fn after_start(m: RegistryMap, version: Seq<char>, now: u64) -> RegistryMap {
    m.insert(version, record_of(m, version).started(now))
}

/// The registry after the session of `version` is found to have ended at
/// `now`: what a lookup of `version` gave is stopped and kept as its record.
/// For a version without a record that is the record of a version that never
/// ran.
pub open spec fn after_stop(m: RegistryMap, version: Seq<char>, now: u64) -> RegistryMap {
    m.insert(version, record_of(m, version).stopped(now))
}

/// The registry after the install size of `version` is set to `bytes`.
pub open spec fn after_resize(m: RegistryMap, version: Seq<char>, bytes: u64) -> RegistryMap {
    m.insert(version, record_of(m, version).resized(bytes))
}

/// Whether some entry of `entries` is keyed by `version`.
pub open spec fn has_key(entries: Seq<VersionEntry>, version: Seq<char>) -> bool {
    exists|i: int| 0 <= i < entries.len() && (#[trigger] entries[i]).version@ == version
}

/// The place of an entry keyed by `version`.
pub open spec fn index_of(entries: Seq<VersionEntry>, version: Seq<char>) -> int {
    choose|i: int| 0 <= i < entries.len() && (#[trigger] entries[i]).version@ == version
}

/// No two entries share an identifier.
pub open spec fn keys_distinct(entries: Seq<VersionEntry>) -> bool {
    forall|i: int, j: int|
        0 <= i < j < entries.len() ==> (#[trigger] entries[i]).version@ != (
        #[trigger] entries[j]).version@
}

/// The map that a list of entries with distinct identifiers stands for.
pub open spec fn entries_map(entries: Seq<VersionEntry>) -> RegistryMap {
    Map::new(
        |version: Seq<char>| has_key(entries, version),
        |version: Seq<char>| entries[index_of(entries, version)].stats,
    )
}

/// The registry: every version's record, each identifier held once.
pub struct VersionsData {
    entries: Vec<VersionEntry>,
}

impl View for VersionsData {
    type V = RegistryMap;

    closed spec fn view(&self) -> RegistryMap {
        entries_map(self.entries@)
    }
}

impl VersionsData {
    #[verifier::type_invariant]
    spec fn distinct(self) -> bool {
        keys_distinct(self.entries@)
    }

    /// An empty registry.
    pub fn new() -> (data: VersionsData)
        ensures
            data@ == Map::<Seq<char>, VersionStats>::empty(),
    {
        let data = VersionsData { entries: Vec::new() };
        assert(data@ =~= Map::<Seq<char>, VersionStats>::empty());
        data
    }

    /// Where `version` stands in the list, if it does.
    fn position(&self, version: &str) -> (found: Option<usize>)
        ensures
            match found {
                Some(i) => i < self.entries@.len() && self.entries@[i as int].version@ == version@,
                None => !has_key(self.entries@, version@),
            },
    {
        let wanted = String::from_str(version);
        let mut i: usize = 0;
        while i < self.entries.len()
            invariant
                i <= self.entries@.len(),
                wanted@ == version@,
                forall|j: int| 0 <= j < i ==> (#[trigger] self.entries@[j]).version@ != version@,
            decreases self.entries@.len() - i,
        {
            if self.entries[i].version == wanted {
                return Some(i);
            }
            i += 1;
        }
        None
    }

    /// Whether the registry holds a record for `version`.
    pub fn contains(&self, version: &str) -> (present: bool)
        ensures
            present == self@.dom().contains(version@),
    {
        self.position(version).is_some()
    }

    /// The record of `version`; the record of a version that never ran where
    /// the registry holds none.
    pub fn get(&self, version: &str) -> (stats: VersionStats)
        ensures
            stats == record_of(self@, version@),
    {
        proof {
            use_type_invariant(self);
        }
        match self.position(version) {
            Some(i) => {
                assert(self.entries@[index_of(self.entries@, version@)].version@ == version@);
                self.entries[i].stats
            },
            None => VersionStats::zero(),
        }
    }

    /// Stores `stats` as the record of `version`, in place of any earlier one.
    pub fn insert(&mut self, version: &str, stats: VersionStats)
        ensures
            final(self)@ == old(self)@.insert(version@, stats),
    {
        proof {
            use_type_invariant(&*self);
        }
        let ghost before = self.entries@;
        let place = self.position(version);
        let entry = VersionEntry { version: String::from_str(version), stats };
        let mut entries: Vec<VersionEntry> = Vec::new();
        std::mem::swap(&mut self.entries, &mut entries);
        match place {
            Some(i) => {
                entries.set(i, entry);
                proof {
                    let after = entries@;
                    assert forall|k: Seq<char>| has_key(after, k) == has_key(before, k) by {
                        if has_key(before, k) {
                            let j = index_of(before, k);
                            assert(after[j].version@ == k);
                        }
                        if has_key(after, k) {
                            let j = index_of(after, k);
                            assert(before[j].version@ == k);
                        }
                    }
                    assert forall|k: Seq<char>| has_key(after, k) implies #[trigger] entries_map(
                        after,
                    )[k] == entries_map(before).insert(version@, stats)[k] by {
                        let j = index_of(after, k);
                        assert(before[j].version@ == k);
                        let h = index_of(before, k);
                        assert(before[h].version@ == k);
                        assert(j == h);
                    }
                    assert(after[i as int].version@ == version@);
                    assert(entries_map(after) =~= entries_map(before).insert(version@, stats));
                }
            },
            None => {
                entries.push(entry);
                proof {
                    let after = entries@;
                    let last = before.len() as int;
                    assert(after[last].version@ == version@);
                    assert forall|k: Seq<char>| has_key(after, k) == (has_key(before, k) || k
                        == version@) by {
                        if has_key(before, k) {
                            let j = index_of(before, k);
                            assert(after[j].version@ == k);
                        }
                        if has_key(after, k) {
                            let j = index_of(after, k);
                            if j < last {
                                assert(before[j].version@ == k);
                            }
                        }
                    }
                    assert forall|k: Seq<char>| has_key(after, k) implies #[trigger] entries_map(
                        after,
                    )[k] == entries_map(before).insert(version@, stats)[k] by {
                        let j = index_of(after, k);
                        if j < last {
                            assert(before[j].version@ == k);
                            let h = index_of(before, k);
                            assert(before[h].version@ == k);
                            assert(after[h].version@ == k);
                            assert(j == h);
                        }
                    }
                    assert(entries_map(after) =~= entries_map(before).insert(version@, stats));
                }
            },
        }
        self.entries = entries;
    }

    /// Records that a session of `version` began at `now`: the record, made
    /// if there was none, is running since `now` and was last played at `now`.
    pub fn upsert_on_start(&mut self, version: &str, now: u64)
        ensures
            final(self)@ == after_start(old(self)@, version@, now),
    {
        let current = self.get(version);
        self.insert(version, current.start(now));
    }

    /// Records that the session of `version` ended at `now`: a running record
    /// gains the seconds since its start and stops running; a record that is
    /// not running is kept as it is. A version without a record gets the
    /// record of a version that never ran: a stop stamps no time of play.
    pub fn upsert_on_stop(&mut self, version: &str, now: u64)
        ensures
            final(self)@ == after_stop(old(self)@, version@, now),
    {
        let current = self.get(version);
        self.insert(version, current.stop(now));
    }

    /// Sets the install size of `version` to `bytes`, making the record if
    /// there was none.
    pub fn set_size(&mut self, version: &str, bytes: u64)
        ensures
            final(self)@ == after_resize(old(self)@, version@, bytes),
    {
        let current = self.get(version);
        self.insert(version, VersionStats { size_bytes: bytes, ..current });
    }

    /// The entries of the registry: each identifier once, with the record
    /// that the registry holds for it.
    pub fn entries(&self) -> (list: &Vec<VersionEntry>)
        ensures
            keys_distinct(list@),
            self@ == entries_map(list@),
    {
        proof {
            use_type_invariant(self);
        }
        &self.entries
    }
}

impl Default for VersionsData {
    /// An empty registry.
    fn default() -> (data: VersionsData)
        ensures
            data@ == Map::<Seq<char>, VersionStats>::empty(),
    {
        VersionsData::new()
    }
}

/// The registry after one report of a session's state: a start where
/// `started` holds, a detected end otherwise.
pub open spec fn updated(m: RegistryMap, version: Seq<char>, started: bool, now: u64) -> RegistryMap {
    if started {
        after_start(m, version, now)
    } else {
        after_stop(m, version, now)
    }
}

/// Reads the system clock with `std::time::SystemTime::now` and gives the
/// whole seconds that it stands after the Unix epoch, nothing where it stands
/// before it. Nothing is claimed of the value: it is the time of the call.
#[verifier::external_body]
fn seconds_since_epoch() -> (seconds: Option<u64>) {
    match std::time::SystemTime::now().duration_since(std::time::UNIX_EPOCH) {
        Ok(since) => Some(since.as_secs()),
        Err(_) => None,
    }
}

/// The time of the call in whole seconds since the Unix epoch; zero where the
/// system clock stands before the epoch.
pub fn get_current_timestamp() -> (now: u64) {
    timestamp_from_reading(seconds_since_epoch())
}

/// The timestamp that a reading of the clock stands for: its seconds, zero
/// where the clock stood before the epoch.
pub open spec fn timestamp_of(reading: Option<u64>) -> u64 {
    match reading {
        Some(seconds) => seconds,
        None => 0,
    }
}

/// Turns a reading of the clock into a timestamp.
pub fn timestamp_from_reading(reading: Option<u64>) -> (now: u64)
    ensures
        now == timestamp_of(reading),
{
    match reading {
        Some(seconds) => seconds,
        None => 0,
    }
}

/// Records a start or a detected end of a session of `version` as of the
/// current time of the system clock. Whatever the clock reads, after the end
/// of a session that was not under way every lookup gives what it gave
/// before.
pub fn update_version_stats(data: &mut VersionsData, version: &str, started: bool)
    ensures
        exists|now: u64| final(data)@ == updated(old(data)@, version@, started, now),
        !started && !record_of(old(data)@, version@).is_running ==> forall|v: Seq<char>|
            record_of(final(data)@, v) == #[trigger] record_of(old(data)@, v),
{
    let now = get_current_timestamp();
    if started {
        data.upsert_on_start(version, now);
    } else {
        data.upsert_on_stop(version, now);
        proof {
            lemma_stop_is_idempotent(old(data)@, version@, now, now);
        }
    }
    assert(data@ == updated(old(data)@, version@, started, now));
}

/// What reading the stored registry document came to.
pub enum StoredDocument {
    /// There is no document.
    Missing,
    /// The document is there and could not be read.
    Unreadable,
    /// The document was read and is not a registry.
    Malformed,
    /// The document was read and holds this registry.
    Parsed(VersionsData),
}

/// The registry to work with after an attempt to read the stored document:
/// the stored one where it was read and understood, an empty one otherwise.
pub fn load_versions_data(document: StoredDocument) -> (data: VersionsData)
    ensures
        data@ == match document {
            StoredDocument::Parsed(stored) => stored@,
            _ => Map::<Seq<char>, VersionStats>::empty(),
        },
{
    match document {
        StoredDocument::Parsed(stored) => stored,
        _ => VersionsData::new(),
    }
}

/// `true` or `false` as JSON writes them.
pub open spec fn json_bool(b: bool) -> Seq<char> {
    if b {
        "true"@
    } else {
        "false"@
    }
}

/// A number as JSON writes it, `null` where there is none.
pub open spec fn json_optional_number(value: Option<u64>) -> Seq<char> {
    match value {
        Some(n) => decimal_digits(n as nat),
        None => "null"@,
    }
}

/// The compact JSON object that stands for one record.
pub open spec fn stats_json(stats: VersionStats) -> Seq<char> {
    "{\"total_play_time\":"@ + decimal_digits(stats.total_play_time as nat)
        + ",\"last_played\":"@ + decimal_digits(stats.last_played as nat) + ",\"is_running\":"@
        + json_bool(stats.is_running) + ",\"start_time\":"@ + json_optional_number(
        stats.start_time,
    ) + ",\"size_bytes\":"@ + decimal_digits(stats.size_bytes as nat) + "}"@
}

/// Writes one record as a compact JSON object.
pub fn stats_to_json(stats: &VersionStats) -> (text: String)
    ensures
        text@ == stats_json(*stats),
{
    let mut text = String::from_str("{\"total_play_time\":");
    text.append(decimal_text(stats.total_play_time).as_str());
    text.append(",\"last_played\":");
    text.append(decimal_text(stats.last_played).as_str());
    text.append(",\"is_running\":");
    if stats.is_running {
        text.append("true");
    } else {
        text.append("false");
    }
    text.append(",\"start_time\":");
    match stats.start_time {
        Some(begun) => text.append(decimal_text(begun).as_str()),
        None => text.append("null"),
    }
    text.append(",\"size_bytes\":");
    text.append(decimal_text(stats.size_bytes).as_str());
    text.append("}");
    assert(text@ =~= stats_json(*stats));
    text
}

/// The record of `version` as a compact JSON object; that of a version that
/// never ran where the registry holds none.
pub fn get_version_stats(data: &VersionsData, version: &str) -> (text: String)
    ensures
        text@ == stats_json(record_of(data@, version@)),
{
    let stats = data.get(version);
    stats_to_json(&stats)
}

/// The name of the registry document inside the directory of the installed
/// versions.
pub open spec fn registry_file_name() -> Seq<char> {
    "version_stats.json"@
}

/// The path of the registry document inside `dir`: the file name where `dir`
/// is empty, else `dir` and the file name with one `/` between them, none
/// added where `dir` ends in one.
pub open spec fn registry_path(dir: Seq<char>) -> Seq<char> {
    if dir.len() == 0 {
        registry_file_name()
    } else if dir.last() == '/' {
        dir + registry_file_name()
    } else {
        dir + seq!['/'] + registry_file_name()
    }
}

/// Writes the path of the registry document inside the directory of the
/// installed versions.
pub fn get_versions_file_path(versions_dir: &str) -> (path: String)
    ensures
        path@ == registry_path(versions_dir@),
{
    let length = versions_dir.unicode_len();
    if length == 0 {
        return String::from_str("version_stats.json");
    }
    let mut path = String::from_str(versions_dir);
    if versions_dir.get_char(length - 1) != '/' {
        proof {
            reveal_strlit("/");
        }
        path.append("/");
        assert(path@ =~= versions_dir@ + seq!['/']);
    }
    path.append("version_stats.json");
    path
}

/// What measuring a version's directory on disk came to.
#[derive(Debug)]
pub enum DirMeasure {
    /// The directory of the installed versions could not be had.
    NoVersionsDir(String),
    /// The version has no directory.
    Absent,
    /// The directory holds this many bytes.
    Measured(u64),
    /// The directory could not be measured.
    Failed(String),
}

/// What is shown for a version whose size was measured on disk: zero bytes
/// for a version without a directory, the measured size otherwise, and the
/// failure in words where there was one.
pub open spec fn measured_label(measure: DirMeasure) -> Result<Seq<char>, Seq<char>> {
    match measure {
        DirMeasure::NoVersionsDir(reason) => Err("Failed to get versions directory: "@ + reason@),
        DirMeasure::Absent => Ok("0 B"@),
        DirMeasure::Measured(bytes) => Ok(size_label(bytes)),
        DirMeasure::Failed(reason) => Err("Failed to calculate size: "@ + reason@),
    }
}

/// Shows the size of a version that was measured on disk.
pub fn measured_version_size(measure: &DirMeasure) -> (shown: Result<String, String>)
    ensures
        match shown {
            Ok(text) => measured_label(*measure) == Ok::<Seq<char>, Seq<char>>(text@),
            Err(text) => measured_label(*measure) == Err::<Seq<char>, Seq<char>>(text@),
        },
{
    match measure {
        DirMeasure::NoVersionsDir(reason) => {
            let mut text = String::from_str("Failed to get versions directory: ");
            text.append(reason.as_str());
            Err(text)
        },
        DirMeasure::Absent => Ok(String::from_str("0 B")),
        DirMeasure::Measured(bytes) => Ok(format_size(*bytes)),
        DirMeasure::Failed(reason) => {
            let mut text = String::from_str("Failed to calculate size: ");
            text.append(reason.as_str());
            Err(text)
        },
    }
}

/// The size shown for `version`: the size on record where the registry
/// holds a record of the version, else what measuring its directory came to.
pub open spec fn shown_size(m: RegistryMap, version: Seq<char>, measure: DirMeasure) -> Result<
    Seq<char>,
    Seq<char>,
> {
    if m.dom().contains(version) {
        Ok(size_label(m[version].size_bytes))
    } else {
        measured_label(measure)
    }
}

/// Shows the size of `version`: the size on record, whatever the measuring
/// came to, and the measured size only where the registry holds no record.
pub fn get_version_size(data: &VersionsData, version: &str, measure: &DirMeasure) -> (shown: Result<
    String,
    String,
>)
    ensures
        match shown {
            Ok(text) => shown_size(data@, version@, *measure) == Ok::<Seq<char>, Seq<char>>(text@),
            Err(text) => shown_size(data@, version@, *measure) == Err::<Seq<char>, Seq<char>>(
                text@,
            ),
        },
{
    if data.contains(version) {
        Ok(format_size(data.get(version).size_bytes))
    } else {
        measured_version_size(measure)
    }
}

/// A start at `t1` followed by a stop at `t2`, no earlier, adds exactly
/// `t2 - t1` seconds to the play time of the version and leaves it not
/// running and without a start time, as long as the sum fits a record.
pub proof fn lemma_start_then_stop_adds_elapsed(
    m: RegistryMap,
    version: Seq<char>,
    t1: u64,
    t2: u64,
)
    requires
        t1 <= t2,
        record_of(m, version).total_play_time + (t2 - t1) <= u64::MAX,
    ensures
        ({
            let before = record_of(m, version);
            let after = record_of(after_stop(after_start(m, version, t1), version, t2), version);
            &&& after.total_play_time == before.total_play_time + (t2 - t1)
            &&& !after.is_running
            &&& after.start_time is None
            &&& after.last_played == t1
            &&& after.size_bytes == before.size_bytes
        }),
{
}

/// A stop reported for a version that is not running changes nothing that
/// a lookup shows: the play time and the whole record of the version are as
/// they were, for a version without a record the record of a version that
/// never ran, and a registry that held a record is as it was. A second stop
/// changes nothing that the first left.
pub proof fn lemma_stop_is_idempotent(m: RegistryMap, version: Seq<char>, t1: u64, t2: u64)
    ensures
        !record_of(m, version).is_running ==> record_of(
            after_stop(m, version, t1),
            version,
        ).total_play_time == record_of(m, version).total_play_time,
        !record_of(m, version).is_running ==> forall|v: Seq<char>|
            record_of(after_stop(m, version, t1), v) == #[trigger] record_of(m, v),
        !record_of(m, version).is_running && m.dom().contains(version) ==> after_stop(
            m,
            version,
            t1,
        ) == m,
        !m.dom().contains(version) ==> record_of(after_stop(m, version, t1), version)
            == VersionStats::unplayed(),
        after_stop(after_stop(m, version, t1), version, t2) == after_stop(m, version, t1),
{
    if !record_of(m, version).is_running && m.dom().contains(version) {
        assert(after_stop(m, version, t1) =~= m);
    }
    assert(after_stop(after_stop(m, version, t1), version, t2) =~= after_stop(m, version, t1));
}

/// Once the end of a session is recorded the version is not running,
/// whatever its record held before, and a record that was consistent has no
/// start time left.
pub proof fn lemma_stop_clears_running(m: RegistryMap, version: Seq<char>, now: u64)
    ensures
        !record_of(after_stop(m, version, now), version).is_running,
        record_of(m, version).wf() ==> record_of(after_stop(m, version, now), version).start_time
            is None,
{
}

/// A stop touches the play time, the run state and the start time of a
/// record and nothing else: the time of the latest start and the install
/// size stay as a lookup gave them before.
pub proof fn lemma_stop_keeps_last_played_and_size(m: RegistryMap, version: Seq<char>, now: u64)
    ensures
        record_of(after_stop(m, version, now), version).last_played == record_of(
            m,
            version,
        ).last_played,
        record_of(after_stop(m, version, now), version).size_bytes == record_of(
            m,
            version,
        ).size_bytes,
{
}

/// A version's play time never goes down, and it changes only when the end
/// of a running session is recorded: a start and a change of size leave it as
/// it was. No report touches the record of another version.
pub proof fn lemma_play_time_never_decreases(
    m: RegistryMap,
    version: Seq<char>,
    other: Seq<char>,
    now: u64,
    bytes: u64,
)
    ensures
        ({
            let before = record_of(m, version);
            &&& record_of(after_start(m, version, now), version).total_play_time
                == before.total_play_time
            &&& record_of(after_resize(m, version, bytes), version).total_play_time
                == before.total_play_time
            &&& record_of(after_stop(m, version, now), version).total_play_time
                >= before.total_play_time
            &&& !before.is_running ==> record_of(
                after_stop(m, version, now),
                version,
            ).total_play_time == before.total_play_time
        }),
        other != version ==> {
            &&& record_of(after_start(m, version, now), other) == record_of(m, other)
            &&& record_of(after_stop(m, version, now), other) == record_of(m, other)
            &&& record_of(after_resize(m, version, bytes), other) == record_of(m, other)
        },
{
}

/// Where every record has a start time exactly while it runs, the same holds
/// after a start, a stop or a change of size.
pub proof fn lemma_reports_keep_records_consistent(
    m: RegistryMap,
    version: Seq<char>,
    now: u64,
    bytes: u64,
)
    requires
        forall|v: Seq<char>| m.dom().contains(v) ==> (#[trigger] m[v]).wf(),
    ensures
        forall|v: Seq<char>| #[trigger]
            after_start(m, version, now).dom().contains(v) ==> after_start(
                m,
                version,
                now,
            )[v].wf(),
        forall|v: Seq<char>| #[trigger]
            after_stop(m, version, now).dom().contains(v) ==> after_stop(m, version, now)[v].wf(),
        forall|v: Seq<char>| #[trigger]
            after_resize(m, version, bytes).dom().contains(v) ==> after_resize(
                m,
                version,
                bytes,
            )[v].wf(),
{
}

} // verus!
