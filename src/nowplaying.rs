use vstd::prelude::*;
use crate::config::Config;
use crate::mpris_mediaplayer2::{PlayerMetadata, Track, empty_track};

verus! {

/// Which fields of a snapshot are shown in the status line and on the console.
#[derive(Clone, Copy, PartialEq, Eq, Structural)]
pub struct DisplayPreferences {
    pub show_artist: bool,
    pub show_album: bool,
    pub show_title: bool,
}

/// Padding appended to a non-empty status line, so that scrolling status
/// bars leave a gap before the text repeats.
pub open spec fn padding() -> Seq<char> {
    "     "@
}

/// The status line for a snapshot: `[artist][ - "title"][ [album]][padding]`,
/// each part present only when its field is non-empty and shown.
pub open spec fn status_line_spec(t: Track, p: DisplayPreferences) -> Seq<char> {
    let a = if t.artist.len() > 0 && p.show_artist { t.artist } else { Seq::empty() };
    let b = if t.title.len() > 0 && p.show_title { a + " - \""@ + t.title + "\""@ } else { a };
    let c = if t.album.len() > 0 && p.show_album { b + " ["@ + t.album + "]"@ } else { b };
    if c.len() > 0 { c + padding() } else { c }
}

/// Builds the text written to the status file for `metadata`.
pub fn format_status_line(metadata: &PlayerMetadata, prefs: DisplayPreferences) -> (r: String)
    ensures
        r@ == status_line_spec(metadata@, prefs),
{
    let mut s = String::new();
    if !metadata.artist.as_str().is_empty() && prefs.show_artist {
        s.append(metadata.artist.as_str());
    }
    if !metadata.title.as_str().is_empty() && prefs.show_title {
        s.append(" - \"");
        s.append(metadata.title.as_str());
        s.append("\"");
    }
    if !metadata.album.as_str().is_empty() && prefs.show_album {
        s.append(" [");
        s.append(metadata.album.as_str());
        s.append("]");
    }
    if !s.as_str().is_empty() {
        s.append("     ");
    }
    s
}

/// The snapshot handed from the polling loop to the HTTP responder.
pub struct NowplayingData {
    pub current_title: String,
    pub current_artist: String,
    pub current_album: String,
}

impl View for NowplayingData {
    type V = Track;

    open spec fn view(&self) -> Track {
        Track { artist: self.current_artist@, title: self.current_title@, album: self.current_album@ }
    }
}

impl NowplayingData {
    /// The empty snapshot, cached by the responder until a first one arrives.
    pub fn new() -> (r: NowplayingData)
        ensures
            r@ == crate::mpris_mediaplayer2::empty_track(),
    {
        NowplayingData { current_title: String::new(), current_artist: String::new(), current_album: String::new() }
    }

    /// Copies the fields of a player's snapshot.
    pub fn from_metadata(m: &PlayerMetadata) -> (r: NowplayingData)
        ensures
            r@ == m@,
    {
        NowplayingData {
            current_title: m.title.clone(),
            current_artist: m.artist.clone(),
            current_album: m.album.clone(),
        }
    }
}

/// The slot after a send: whatever was pending is replaced.
pub open spec fn mailbox_after_send(slot: Option<Track>, t: Track) -> Option<Track> {
    Some(t)
}

/// What a drain returns: the pending snapshot if there is one, else the cached one.
pub open spec fn drained(slot: Option<Track>, current: Track) -> Track {
    match slot {
        Some(t) => t,
        None => current,
    }
}

/// A coalescing single-slot mailbox: only the most recently sent snapshot is kept.
pub struct Mailbox {
    slot: Option<NowplayingData>,
}

impl View for Mailbox {
    type V = Option<Track>;

    closed spec fn view(&self) -> Option<Track> {
        match self.slot {
            Some(d) => Some(d@),
            None => None,
        }
    }
}

impl Mailbox {
    /// An empty mailbox.
    pub fn new() -> (r: Mailbox)
        ensures
            r@ == None::<Track>,
    {
        Mailbox { slot: None }
    }

    /// Puts `data` in the slot, replacing a snapshot not yet drained.
    pub fn send(&mut self, data: NowplayingData)
        ensures
            final(self)@ == mailbox_after_send(old(self)@, data@),
    {
        self.slot = Some(data);
    }

    /// Takes the pending snapshot, or hands back `current` when none is pending.
    pub fn drain_latest(&mut self, current: NowplayingData) -> (r: NowplayingData)
        ensures
            r@ == drained(old(self)@, current@),
            final(self)@ == None::<Track>,
    {
        let pending = self.slot.take();
        match pending {
            Some(d) => d,
            None => current,
        }
    }
}

/// Sending several snapshots before a drain coalesces them: the drain yields
/// the last one sent, and a second drain with nothing new sent yields it again.
pub proof fn lemma_mailbox_coalesces(start: Option<Track>, s1: Track, s2: Track, s3: Track, cached: Track)
    ensures
        drained(mailbox_after_send(mailbox_after_send(mailbox_after_send(start, s1), s2), s3), cached) == s3,
        drained(None, drained(mailbox_after_send(mailbox_after_send(mailbox_after_send(start, s1), s2), s3), cached)) == s3,
{
}

/// One console line for a field: its name, masked with `(hidden)` when not
/// shown, and its value, which is printed either way.
pub open spec fn field_line(name: Seq<char>, shown: bool, value: Seq<char>) -> Seq<char> {
    name + (if shown { ": "@ } else { " (hidden): "@ }) + value + "\n"@
}

/// The console report of a change: the player, then artist, title and album.
pub open spec fn console_spec(player: Seq<char>, t: Track, p: DisplayPreferences) -> Seq<char> {
    player + "\n"@ + field_line("artist"@, p.show_artist, t.artist) + field_line(
        "title"@,
        p.show_title,
        t.title,
    ) + field_line("album"@, p.show_album, t.album) + "\n"@
}

fn append_field_line(s: &mut String, name: &str, shown: bool, value: &String)
    ensures
        final(s)@ == old(s)@ + field_line(name@, shown, value@),
{
    s.append(name);
    if shown {
        s.append(": ");
    } else {
        s.append(" (hidden): ");
    }
    s.append(value.as_str());
    s.append("\n");
}

/// Builds the console report of a change of track on `player`.
pub fn console_report(player: &str, metadata: &PlayerMetadata, prefs: DisplayPreferences) -> (r: String)
    ensures
        r@ == console_spec(player@, metadata@, prefs),
{
    let mut s = String::from_str(player);
    s.append("\n");
    append_field_line(&mut s, "artist", prefs.show_artist, &metadata.artist);
    append_field_line(&mut s, "title", prefs.show_title, &metadata.title);
    append_field_line(&mut s, "album", prefs.show_album, &metadata.album);
    s.append("\n");
    s
}

/// What a detected change hands to the sinks.
pub struct Emission {
    /// The new content of the status file.
    pub status_line: String,
    /// The snapshot for the HTTP responder.
    pub data: NowplayingData,
    /// The text printed on the console.
    pub console: String,
}

/// Whether observing `t` after `last` was emitted counts as a change.
pub open spec fn is_change(last: Track, t: Track) -> bool {
    last != t
}

/// The last emitted snapshot after observing `t`.
pub open spec fn last_after(last: Track, t: Track) -> Track {
    if is_change(last, t) { t } else { last }
}

/// The abstract state of the polling loop.
pub struct ServiceState {
    pub prefs: DisplayPreferences,
    pub sleep_duration_ms: u64,
    pub last_emitted: Track,
}

/// The decisions of the polling loop: change detection against the last
/// emitted snapshot, and what to emit on a change.
pub struct Service {
    prefs: DisplayPreferences,
    sleep_duration_ms: u64,
    last_emitted: PlayerMetadata,
}

impl View for Service {
    type V = ServiceState;

    closed spec fn view(&self) -> ServiceState {
        ServiceState {
            prefs: self.prefs,
            sleep_duration_ms: self.sleep_duration_ms,
            last_emitted: self.last_emitted@,
        }
    }
}

impl Service {
    /// A service with the settings' preferences and interval, and the empty
    /// snapshot as the last emitted one.
    pub fn new(config: &Config) -> (r: Service)
        ensures
            r@.prefs.show_artist == config.display_artist,
            r@.prefs.show_album == config.display_album,
            r@.prefs.show_title == config.display_title,
            r@.sleep_duration_ms == config.sleep_duration_ms,
            r@.last_emitted == empty_track(),
    {
        Service {
            prefs: config.preferences(),
            sleep_duration_ms: config.sleep_duration_ms,
            last_emitted: PlayerMetadata::new(),
        }
    }

    /// How long the loop sleeps between two ticks, in milliseconds.
    pub fn sleep_duration_ms(&self) -> (r: u64)
        ensures
            r == self@.sleep_duration_ms,
    {
        self.sleep_duration_ms
    }

    /// Handles the snapshot fetched from the first playing `player`. An equal
    /// snapshot changes nothing; a different one becomes the last emitted one
    /// and is returned with its status line and console report.
    pub fn observe(&mut self, player: &str, metadata: PlayerMetadata) -> (r: Option<Emission>)
        ensures
            final(self)@ == (ServiceState {
                last_emitted: last_after(old(self)@.last_emitted, metadata@),
                ..old(self)@
            }),
            r.is_some() == is_change(old(self)@.last_emitted, metadata@),
            r matches Some(e) ==> {
                &&& e.status_line@ == status_line_spec(metadata@, old(self)@.prefs)
                &&& e.data@ == metadata@
                &&& e.console@ == console_spec(player@, metadata@, old(self)@.prefs)
            },
    {
        if self.last_emitted == metadata {
            return None;
        }
        let status_line = format_status_line(&metadata, self.prefs);
        let data = NowplayingData::from_metadata(&metadata);
        let console = console_report(player, &metadata, self.prefs);
        self.last_emitted = metadata;
        Some(Emission { status_line, data, console })
    }
}

/// Observing the same snapshot twice in a row emits at most once: the second
/// observation is never a change, and the first is one exactly when the
/// snapshot differs from what was emitted before.
pub proof fn lemma_repeat_emits_once(last: Track, t: Track)
    ensures
        !is_change(last_after(last, t), t),
        last_after(last_after(last, t), t) == last_after(last, t),
        (if is_change(last, t) { 1int } else { 0int }) + (if is_change(last_after(last, t), t) { 1int } else { 0int })
            == (if last != t { 1int } else { 0int }),
{
}

/// The next thing a tick of the polling loop asks of the media bus.
#[derive(PartialEq, Eq, Structural)]
pub enum TickStep {
    /// Ask whether the player at this index of the listing is playing.
    AskStatus(usize),
    /// Fetch the metadata of the player at this index, which is playing.
    FetchMetadata(usize),
    /// Nothing more this tick: sleep until the next one.
    Sleep,
}

/// The step after the player at `index` of `count` reported `playing`.
pub open spec fn step_after_spec(index: int, count: int, playing: bool) -> TickStep {
    if playing {
        TickStep::FetchMetadata(index as usize)
    } else if index + 1 < count {
        TickStep::AskStatus((index + 1) as usize)
    } else {
        TickStep::Sleep
    }
}

/// The player whose metadata a tick fetches when the players from `i` on
/// report `statuses`: the first one playing, if any.
pub open spec fn first_playing_from(statuses: Seq<bool>, i: int) -> Option<int>
    decreases statuses.len() - i,
{
    if i < 0 || i >= statuses.len() {
        None
    } else if statuses[i] {
        Some(i)
    } else {
        first_playing_from(statuses, i + 1)
    }
}

/// The first step of a tick over a listing of `player_count` players.
pub fn first_step(player_count: usize) -> (r: TickStep)
    ensures
        r == (if player_count > 0 { TickStep::AskStatus(0) } else { TickStep::Sleep }),
{
    if player_count > 0 {
        TickStep::AskStatus(0)
    } else {
        TickStep::Sleep
    }
}

/// The step after the player at `index` answered whether it is `playing`:
/// fetch it when playing, else ask the next one, else sleep.
pub fn step_after_status(index: usize, player_count: usize, playing: bool) -> (r: TickStep)
    requires
        index < player_count,
    ensures
        r == step_after_spec(index as int, player_count as int, playing),
{
    if playing {
        TickStep::FetchMetadata(index)
    } else if index + 1 < player_count {
        TickStep::AskStatus(index + 1)
    } else {
        TickStep::Sleep
    }
}

/// Following the steps from `i` over the statuses of a listing reaches the
/// fetch of `first_playing_from(statuses, i)`, or sleeps when there is none.
pub open spec fn run_from(statuses: Seq<bool>, i: int) -> Option<int>
    decreases statuses.len() - i,
{
    if i < 0 || i >= statuses.len() {
        None
    } else {
        match step_after_spec(i, statuses.len() as int, statuses[i]) {
            TickStep::FetchMetadata(j) => Some(j as int),
            TickStep::AskStatus(_) => run_from(statuses, i + 1),
            TickStep::Sleep => None,
        }
    }
}

/// First-match selection: the steps of a tick fetch the metadata of the
/// first player in listing order that reports playing, and of no player when
/// none does. Which player that is depends on the order the bus lists them in.
pub proof fn lemma_first_match(statuses: Seq<bool>)
    requires
        statuses.len() <= usize::MAX,
    ensures
        run_from(statuses, 0) == first_playing_from(statuses, 0),
        run_from(statuses, 0) matches Some(i) ==> 0 <= i < statuses.len() && statuses[i]
            && forall|j: int| 0 <= j < i ==> !statuses[j],
        run_from(statuses, 0) is None ==> forall|j: int| 0 <= j < statuses.len() ==> !statuses[j],
{
    lemma_run_from(statuses, 0);
}

proof fn lemma_run_from(statuses: Seq<bool>, i: int)
    requires
        0 <= i,
        statuses.len() <= usize::MAX,
    ensures
        run_from(statuses, i) == first_playing_from(statuses, i),
        run_from(statuses, i) matches Some(k) ==> i <= k < statuses.len() && statuses[k]
            && forall|j: int| i <= j < k ==> !statuses[j],
        run_from(statuses, i) is None ==> forall|j: int| i <= j < statuses.len() ==> !statuses[j],
    decreases statuses.len() - i,
{
    if i < statuses.len() && !statuses[i] {
        lemma_run_from(statuses, i + 1);
    }
}

} // verus!
